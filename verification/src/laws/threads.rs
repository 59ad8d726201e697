//! Each conversation goes on in its own Codex thread and in its own folder.
use crate::codex_execution::ExecutionOptions;
use crate::codex_transport::LaunchConfig;
use crate::direct_config::DirectConfig;
use crate::direct_conversation::Standing;
use crate::direct_run::{DirectRunService, StartNext, StartStep, UnknownOnDrop};
use crate::direct_store::{check_binding, DirectDispatch};
use crate::direct_workspace::{
    check_workspace, ensure_conversation_workspace, ensure_conversation_workspace_at,
};
use crate::domain::RequestState;
use crate::json::Json;
use crate::paths::components;
use crate::text::{opt_str, opt_view, views};
use vstd::prelude::*;

verus! {

/// Once the send boundary is stored, a conversation that has a Codex thread resumes it and never
/// starts another; one that has none starts one and never resumes.
pub proof fn conversations_resume_their_thread(
    step: StartStep,
    failure: Option<&str>,
    state: RequestState,
    has_thread: bool,
    r: StartNext,
)
    requires
        call_ensures(DirectRunService::start, (step, failure, state, has_thread), r),
    ensures
        step == StartStep::Boundary && failure is None && has_thread ==> r == StartNext::Go(
            StartStep::ResumeThread,
        ),
        step == StartStep::Boundary && failure is None && !has_thread ==> r == StartNext::Go(
            StartStep::StartThread,
        ),
        r == StartNext::Go(StartStep::ResumeThread) ==> has_thread && step == StartStep::Boundary
            && failure is None,
        r == StartNext::Go(StartStep::StartThread) ==> !has_thread && step == StartStep::Boundary
            && failure is None,
{
}

/// What is stored is stored before what it announces: the intent, then the send boundary, then the
/// thread, then the turn. A turn is started only after its thread was recorded, and runs only once
/// it was acknowledged.
pub proof fn runs_start_in_order(
    step: StartStep,
    failure: Option<&str>,
    state: RequestState,
    has_thread: bool,
    r: StartNext,
)
    requires
        call_ensures(DirectRunService::start, (step, failure, state, has_thread), r),
    ensures
        r == StartNext::Go(StartStep::Workspace) <==> step == StartStep::Acquire && failure is None,
        r == StartNext::Go(StartStep::Prepare) <==> step == StartStep::Workspace && failure is None,
        r == StartNext::Go(StartStep::Boundary) <==> step == StartStep::Prepare && failure is None,
        r == StartNext::Go(StartStep::RecordThread) <==> (step == StartStep::StartThread || step
            == StartStep::ResumeThread) && failure is None,
        r == StartNext::Go(StartStep::StartTurn) <==> step == StartStep::RecordThread
            && failure is None,
        r == StartNext::Go(StartStep::Acknowledge) <==> step == StartStep::StartTurn
            && failure is None,
        r is Running <==> step == StartStep::Acknowledge && failure is None,
        r != StartNext::Go(StartStep::Acquire),
{
}

/// A failure before the send boundary gives the run up with nothing sent; one after it leaves the
/// outcome unknown, for a reason that says where it failed. Nothing goes on after a failure.
pub proof fn failures_are_told_apart(
    step: StartStep,
    failure: Option<&str>,
    state: RequestState,
    has_thread: bool,
    r: StartNext,
)
    requires
        call_ensures(DirectRunService::start, (step, failure, state, has_thread), r),
    ensures
        failure is Some ==> r is GiveUp || r is Uncertain,
        failure is None ==> !(r is GiveUp) && !(r is Uncertain),
        r is GiveUp <==> failure is Some && (step == StartStep::Acquire || step
            == StartStep::Workspace || step == StartStep::Prepare || step == StartStep::Boundary
            && state != RequestState::Sending),
        failure is Some && step == StartStep::Boundary && state == RequestState::Sending ==> r
            is Uncertain && r->Uncertain_0@ == "send_boundary_failed"@,
        failure is Some && (step == StartStep::StartThread || step == StartStep::ResumeThread) ==> r
            is Uncertain && r->Uncertain_0@ == "thread_start_or_resume: "@ + failure->0@,
        failure is Some && step == StartStep::RecordThread ==> r is Uncertain && r->Uncertain_0@
            == "thread_record_failed"@,
        failure is Some && step == StartStep::StartTurn ==> r is Uncertain && r->Uncertain_0@
            == "turn_start: "@ + failure->0@,
        failure is Some && step == StartStep::Acknowledge ==> r is Uncertain && r->Uncertain_0@
            == "turn_acknowledgement_not_durable"@,
{
}

/// A run begins with taking a runtime, and never without input.
pub proof fn runs_begin_with_input(input: &Vec<Json>, r: Result<StartStep, &'static str>)
    requires
        call_ensures(DirectRunService::begin, (input,), r),
    ensures
        r is Ok <==> input@.len() > 0,
        r is Ok ==> r->Ok_0 == StartStep::Acquire,
{
}

/// A run that is dropped on its way is unknown, unless it was settled before.
pub proof fn dropped_runs_are_unknown(id: &str, g: UnknownOnDrop, r: Option<&'static str>)
    requires
        call_ensures(UnknownOnDrop::new, (id,), g),
        call_ensures(UnknownOnDrop::given_up, (&g,), r),
    ensures
        g.request_id@ == id@,
        r is Some && r->0@ == "dispatch_task_cancelled"@,
{
}

/// A run that was settled is not given up when it is dropped.
pub proof fn settled_runs_are_left(g: &mut UnknownOnDrop, after: UnknownOnDrop, r: Option<&'static str>)
    requires
        call_ensures(UnknownOnDrop::disarm, (g,), ()),
        call_ensures(UnknownOnDrop::given_up, (&after,), r),
    ensures
        after == *final(g) ==> r is None,
{
}

/// A conversation that was sent a message waits for its outcome: nothing else is sent until it is
/// known, and the conversation keeps its thread.
pub proof fn sending_occupies_the_conversation(s: &mut Standing, after: &Standing, ready: bool)
    requires
        call_ensures(Standing::begin, (s,), ()),
        call_ensures(Standing::ready, (after,), ready),
    ensures
        *after == *final(s) ==> !ready,
        final(s).continuation@ == "VERIFYING"@,
        opt_view(final(s).codex_thread) == opt_view(old(s).codex_thread),
        final(s).paused == old(s).paused,
{
    reveal_strlit("VERIFYING");
    reveal_strlit("NEW");
    reveal_strlit("READY");
    assert("VERIFYING"@.len() == 9 && "NEW"@.len() == 3 && "READY"@.len() == 5);
}

/// The thread that was recorded is the one that the conversation goes on in.
pub proof fn recorded_threads_go_on(s: &mut Standing, thread: &str)
    requires
        call_ensures(Standing::bind, (s, thread), ()),
    ensures
        final(s).codex_thread is Some && final(s).codex_thread->0@ == thread@,
        final(s).continuation@ == old(s).continuation@,
        final(s).paused == old(s).paused,
{
}

/// A known outcome makes a waiting conversation ready again, in the same thread, with the model that
/// was used; only a completed run counts as a success.
pub proof fn outcomes_make_conversations_ready(
    s: &mut Standing,
    model: Option<&str>,
    sequence: i64,
    completed: bool,
)
    requires
        call_ensures(Standing::settle, (s, model, sequence, completed), ()),
    ensures
        old(s).continuation@ == "VERIFYING"@ ==> final(s).continuation@ == "READY"@ && opt_view(
            final(s).effective_model,
        ) == opt_str(model) && final(s).effective_sequence == Some(sequence),
        old(s).continuation@ == "VERIFYING"@ && completed ==> final(s).last_success_sequence
            == Some(sequence),
        old(s).continuation@ == "VERIFYING"@ && !completed ==> final(s).last_success_sequence
            == old(s).last_success_sequence,
        old(s).continuation@ != "VERIFYING"@ ==> final(s)@ == old(s)@,
        opt_view(final(s).codex_thread) == opt_view(old(s).codex_thread),
        final(s).paused == old(s).paused,
{
}

/// A conversation takes messages while it is new or ready.
pub proof fn conversations_are_ready_when_new_or_settled(s: &Standing, r: bool)
    requires
        call_ensures(Standing::ready, (s,), r),
    ensures
        r <==> s.continuation@ == "NEW"@ || s.continuation@ == "READY"@,
{
}

/// A conversation that is recovered begins afresh without a thread, is not paused, and offers that
/// were made before do not fit it any more.
pub proof fn recovery_begins_afresh(s: &mut Standing)
    requires
        call_ensures(Standing::recover, (s,), ()),
        old(s).pause_revision < i64::MAX,
    ensures
        final(s).codex_thread is None,
        final(s).continuation@ == "NEW"@,
        !final(s).paused,
        final(s).pause_revision == old(s).pause_revision + 1,
{
}

/// A conversation that is given up begins afresh without a thread, and stays paused if it was.
pub proof fn giving_up_begins_afresh(s: &mut Standing)
    requires
        call_ensures(Standing::give_up, (s,), ()),
    ensures
        final(s).codex_thread is None,
        final(s).continuation@ == "NEW"@,
        final(s).paused == old(s).paused,
        final(s).pause_revision == old(s).pause_revision,
{
}

/// Two conversations never work in the same folder, one conversation always works in the same, and
/// it is the one under the root that bears the number of the conversation.
pub proof fn conversations_work_in_their_own_folder(
    root: &str,
    a: &str,
    b: &str,
    ra: Result<String, &'static str>,
    rb: Result<String, &'static str>,
)
    requires
        call_ensures(ensure_conversation_workspace_at, (root, a), ra),
        call_ensures(ensure_conversation_workspace_at, (root, b), rb),
        ra is Ok,
        rb is Ok,
    ensures
        ra->Ok_0@ == rb->Ok_0@ <==> a@ == b@,
        ra->Ok_0@.len() >= root@.len() + a@.len(),
        ra->Ok_0@.take(root@.len() as int) == root@,
        ra->Ok_0@.skip(ra->Ok_0@.len() - a@.len()) == a@,
        root@.len() > 0 && root@.last() != '/' ==> ra->Ok_0@.len() == root@.len() + 1 + a@.len()
            && ra->Ok_0@[root@.len() as int] == '/',
        forall|i: int| 0 <= i < a@.len() ==> '0' <= #[trigger] a@[i] <= '9',
        a@.len() > 0,
{
    reveal_strlit("/");
    let x = ra->Ok_0@;
    assert(x.take(root@.len() as int) =~= root@);
    assert(x.skip(x.len() - a@.len()) =~= a@);
    if a@ != b@ {
        crate::direct_workspace::conversations_do_not_share_folders(root@, a@, b@);
    }
}

/// The folders lie in `workspaces` below the state folder where no root is set.
pub proof fn folders_lie_below_the_state(
    state: &str,
    id: &str,
    r: Result<String, &'static str>,
)
    requires
        call_ensures(ensure_conversation_workspace, (state, id), r),
        r is Ok,
        state@.len() > 0,
        state@.last() != '/',
    ensures
        r->Ok_0@ == state@ + "/workspaces/"@ + id@,
{
    reveal_strlit("/");
    reveal_strlit("workspaces");
    reveal_strlit("/workspaces/");
    assert("workspaces"@.len() == 10);
    let base = state@ + "/"@ + "workspaces"@;
    assert(base.last() == 's');
    assert(r->Ok_0@ =~= state@ + "/workspaces/"@ + id@);
}

/// A folder is used only while it and its root are where they were, and it is a folder of the
/// gateway itself.
pub proof fn folders_stay_where_they_were(
    root: &str,
    canonical_root: &str,
    folder: &str,
    canonical_folder: &str,
    is_dir: bool,
    owned: bool,
    r: Result<(), &'static str>,
    bound: Result<(), &'static str>,
)
    requires
        call_ensures(
            check_workspace,
            (root, canonical_root, folder, canonical_folder, is_dir, owned),
            r,
        ),
        call_ensures(check_binding, (folder, canonical_folder, is_dir, owned), bound),
    ensures
        r is Ok <==> components(canonical_root@) == components(root@) && components(
            canonical_folder@,
        ) == components(folder@) && is_dir && owned,
        bound is Ok <==> components(canonical_folder@) == components(folder@) && is_dir && owned
            && folder@.len() > 0 && folder@[0] == '/',
{
}

/// What is sent is run in the very folder that was stored: same path, same device, same number.
pub proof fn runs_stay_in_the_stored_folder(
    d: &DirectDispatch,
    canonical: &str,
    dev: u64,
    ino: u64,
    r: Result<(), &'static str>,
)
    requires
        call_ensures(DirectDispatch::check_workspace, (d, canonical, dev, ino), r),
    ensures
        r is Ok ==> dev == d.workspace_dev && ino == d.workspace_ino && components(canonical@)
            == components(d.workspace_path@),
        canonical@ == d.workspace_path@ && dev == d.workspace_dev && ino == d.workspace_ino ==> r
            is Ok,
{
}

/// Codex is started by the command, in the home, with the provider and under the policies that the
/// configuration sets; the folders lie below the root that it sets.
pub proof fn codex_runs_as_configured(
    c: &DirectConfig,
    options: ExecutionOptions,
    launch: LaunchConfig,
    root: String,
)
    requires
        call_ensures(DirectConfig::execution, (c,), options),
        call_ensures(DirectConfig::launch, (c,), launch),
        call_ensures(DirectConfig::workspace_root, (c,), root),
    ensures
        options.model@ == c.default_model@,
        options.model_provider@ == c.codex.model_provider@,
        options.sandbox@ == c.codex.sandbox@,
        options.approval_policy@ == c.codex.approval_policy@,
        options.network_access == c.codex.network_access,
        launch.command@ == c.codex.command@,
        launch.codex_home@ == c.codex.home@,
        views(launch.args@) == seq!["app-server"@, "--listen"@, "stdio://"@],
        c.codex.workspace_root is Some ==> root@ == c.codex.workspace_root->0@,
        c.codex.workspace_root is None && c.storage.state_dir@.len() > 0
            && c.storage.state_dir@.last() != '/' ==> root@ == c.storage.state_dir@
            + "/workspaces"@,
{
    reveal_strlit("/");
    reveal_strlit("workspaces");
    reveal_strlit("/workspaces");
    if c.codex.workspace_root is None && c.storage.state_dir@.len() > 0
        && c.storage.state_dir@.last() != '/' {
        assert(root@ =~= c.storage.state_dir@ + "/workspaces"@);
    }
}

} // verus!
