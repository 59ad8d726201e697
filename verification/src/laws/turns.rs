//! What is read of a turn of Codex, and what is sent to start, steer and stop one.
use crate::codex_execution::{
    last_answer, turn_position, CodexExecution, ExecutionOptions, TurnIdentity, TurnSnapshot,
};
use crate::codex_transport::{TransportError, TransportErrorView};
use crate::direct_run::{DirectRunService, TerminalPlan};
use crate::json::{lookup, trees, Json, JsonView};
use vstd::prelude::*;

verus! {

/// The position of a turn is that of the first turn with its identity.
proof fn turns_are_found(turns: Seq<JsonView>, id: Seq<char>, from: nat)
    requires
        from <= turns.len(),
    ensures
        ({
            let at = turn_position(turns, id, from);
            &&& from <= at <= turns.len()
            &&& at < turns.len() ==> turns[at as int].at("id"@) == JsonView::Text(id)
            &&& forall|u: int|
                from <= u < at ==> #[trigger] turns[u].at("id"@) != JsonView::Text(id)
        }),
    decreases turns.len() - from,
{
    if from < turns.len() && !turns[from as int].at("id"@).says(id) {
        turns_are_found(turns, id, from + 1);
    }
}

/// The last answer among the first `n` items, by position.
proof fn answers_are_found(items: Seq<JsonView>, n: nat)
    requires
        n <= items.len(),
    ensures
        match last_answer(items, n) {
            None => forall|k: int|
                0 <= k < n ==> (#[trigger] items[k]).at("type"@) != JsonView::Text("agentMessage"@)
                    || items[k].at("phase"@) == JsonView::Text("commentary"@) || !(items[k].at(
                    "text"@,
                ) is Text),
            Some(s) => exists|k: int|
                0 <= k < n && #[trigger] items[k].at("text"@) == JsonView::Text(s) && items[k].at(
                    "type"@,
                ) == JsonView::Text("agentMessage"@) && items[k].at("phase"@) != JsonView::Text(
                    "commentary"@,
                ) && (forall|j: int|
                    k < j < n ==> (#[trigger] items[j]).at("type"@) != JsonView::Text(
                        "agentMessage"@,
                    ) || items[j].at("phase"@) == JsonView::Text("commentary"@) || !(items[j].at(
                        "text"@,
                    ) is Text)),
        },
    decreases n,
{
    if n > 0 {
        answers_are_found(items, (n - 1) as nat);
        let last = items[n - 1];
        if last.at("type"@) == JsonView::Text("agentMessage"@) && last.at("phase"@)
            != JsonView::Text("commentary"@) && last.at("text"@) is Text {
            assert(items[n - 1].at("text"@) == JsonView::Text(last.at("text"@)->Text_0));
        }
    }
}

/// The answer of a turn is the text of its last agent message that is not commentary: no later
/// message hides it, and no commentary takes its place. There is none only where the turn holds no
/// such message.
pub proof fn the_answer_is_the_last_message(
    result: &Json,
    identity: &TurnIdentity,
    r: Result<TurnSnapshot, TransportError>,
    k: int,
)
    requires
        call_ensures(CodexExecution::read_turn, (result, identity), r),
        r is Ok,
    ensures
        ({
            let items = trees(r->Ok_0.items@);
            let answer = r->Ok_0.final_text;
            &&& 0 <= k < items.len() && items[k].at("type"@) == JsonView::Text("agentMessage"@)
                && items[k].at("phase"@) != JsonView::Text("commentary"@) && items[k].at(
                "text"@,
            ) is Text && (forall|j: int|
                k < j < items.len() ==> (#[trigger] items[j]).at("type"@) != JsonView::Text(
                    "agentMessage"@,
                ) || items[j].at("phase"@) == JsonView::Text("commentary"@) || !(items[j].at(
                    "text"@,
                ) is Text)) ==> answer is Some && items[k].at("text"@) == JsonView::Text(answer->0@)
            &&& answer is Some ==> exists|i: int|
                0 <= i < items.len() && #[trigger] items[i].at("text"@) == JsonView::Text(
                    answer->0@,
                ) && items[i].at("type"@) == JsonView::Text("agentMessage"@) && items[i].at(
                    "phase"@,
                ) != JsonView::Text("commentary"@)
            &&& answer is None ==> forall|i: int|
                0 <= i < items.len() ==> (#[trigger] items[i]).at("type"@) != JsonView::Text(
                    "agentMessage"@,
                ) || items[i].at("phase"@) == JsonView::Text("commentary"@) || !(items[i].at(
                    "text"@,
                ) is Text)
        }),
{
    let items = trees(r->Ok_0.items@);
    answers_are_found(items, items.len());
    if r->Ok_0.final_text is Some {
        let s = r->Ok_0.final_text->0@;
        let w = choose|w: int|
            0 <= w < items.len() && #[trigger] items[w].at("text"@) == JsonView::Text(s)
                && items[w].at("type"@) == JsonView::Text("agentMessage"@) && items[w].at("phase"@)
                != JsonView::Text("commentary"@) && (forall|j: int|
                w < j < items.len() ==> (#[trigger] items[j]).at("type"@) != JsonView::Text(
                    "agentMessage"@,
                ) || items[j].at("phase"@) == JsonView::Text("commentary"@) || !(items[j].at(
                    "text"@,
                ) is Text));
        assert(items[w].at("text"@) == JsonView::Text(s));
        if k < w {
            assert(items[w].at("type"@) == JsonView::Text("agentMessage"@));
        }
    }
}

/// What is read is of the turn that was asked for: its thread is the one that Codex reports, and
/// status, items and whether all of them are there come from the first turn with its identity.
pub proof fn the_turn_that_is_read_is_the_one_asked_for(
    result: &Json,
    identity: &TurnIdentity,
    r: Result<TurnSnapshot, TransportError>,
)
    requires
        call_ensures(CodexExecution::read_turn, (result, identity), r),
    ensures
        r is Ok ==> {
            let turns = result@.at("thread"@).at("turns"@);
            &&& result@.at("thread"@).at("id"@) == JsonView::Text(identity.thread_id@)
            &&& r->Ok_0.identity.thread_id@ == identity.thread_id@
            &&& r->Ok_0.identity.turn_id@ == identity.turn_id@
            &&& turns is Array
            &&& exists|t: int|
                0 <= t < turns->Array_0.len() && (#[trigger] turns->Array_0[t]).at("id"@)
                    == JsonView::Text(identity.turn_id@) && turns->Array_0[t].at("status"@)
                    == JsonView::Text(r->Ok_0.status@) && turns->Array_0[t].at("items"@)
                    == JsonView::Array(trees(r->Ok_0.items@)) && (r->Ok_0.items_view_full
                    <==> turns->Array_0[t].at("itemsView"@) == JsonView::Text("full"@)) && (forall|
                    u: int,
                |
                    0 <= u < t ==> #[trigger] turns->Array_0[u].at("id"@) != JsonView::Text(
                        identity.turn_id@,
                    ))
        },
        result@.at("thread"@).at("id"@) != JsonView::Text(identity.thread_id@) ==> r is Err
            && r->Err_0@ == TransportErrorView::Protocol("thread/read identity mismatch"@),
        result@.at("thread"@).at("id"@) == JsonView::Text(identity.thread_id@) && result@.at(
            "thread"@,
        ).at("turns"@) is Array && (forall|u: int|
            0 <= u < result@.at("thread"@).at("turns"@)->Array_0.len() ==> #[trigger] result@.at(
                "thread"@,
            ).at("turns"@)->Array_0[u].at("id"@) != JsonView::Text(identity.turn_id@)) ==> r is Err
            && r->Err_0@ == TransportErrorView::ResultUnknown("turn absent from thread/read"@),
{
    let turns = result@.at("thread"@).at("turns"@);
    if turns is Array {
        turns_are_found(turns->Array_0, identity.turn_id@, 0);
        if r is Ok {
            let t = turn_position(turns->Array_0, identity.turn_id@, 0) as int;
            assert(turns->Array_0[t].at("id"@) == JsonView::Text(identity.turn_id@));
        }
    }
}

/// A turn that is there with its status and items is read.
pub proof fn turns_that_are_there_are_read(
    result: &Json,
    identity: &TurnIdentity,
    r: Result<TurnSnapshot, TransportError>,
    t: int,
)
    requires
        call_ensures(CodexExecution::read_turn, (result, identity), r),
        result@.at("thread"@).at("id"@) == JsonView::Text(identity.thread_id@),
        result@.at("thread"@).at("turns"@) is Array,
        0 <= t < result@.at("thread"@).at("turns"@)->Array_0.len(),
        forall|u: int|
            0 <= u < t ==> #[trigger] result@.at("thread"@).at("turns"@)->Array_0[u].at("id"@)
                != JsonView::Text(identity.turn_id@),
        ({
            let turn = result@.at("thread"@).at("turns"@)->Array_0[t];
            &&& turn.at("id"@) == JsonView::Text(identity.turn_id@)
            &&& turn.at("status"@) is Text
            &&& turn.at("items"@) is Array
        }),
    ensures
        r is Ok,
{
    let turns = result@.at("thread"@).at("turns"@)->Array_0;
    turns_are_found(turns, identity.turn_id@, 0);
    assert(turns[t].at("id"@) == JsonView::Text(identity.turn_id@));
}

/// A run ends only on a turn that is completed, failed or interrupted and was read whole. Its answer
/// is the text of the turn; a completed turn without one has the empty answer, and no other turn is
/// given one.
pub proof fn only_ended_turns_end_a_run(
    snapshot: &TurnSnapshot,
    r: Result<TerminalPlan, &'static str>,
)
    requires
        call_ensures(DirectRunService::confirm_terminal, (snapshot,), r),
    ensures
        r is Ok <==> snapshot.items_view_full && (snapshot.status@ == "completed"@
            || snapshot.status@ == "failed"@ || snapshot.status@ == "interrupted"@),
        r is Ok && snapshot.final_text is Some ==> r->Ok_0.answer is Some && r->Ok_0.answer->0@
            == snapshot.final_text->0@,
        r is Ok && snapshot.final_text is None && snapshot.status@ == "completed"@
            ==> r->Ok_0.answer is Some && r->Ok_0.answer->0@.len() == 0,
        r is Ok && snapshot.final_text is None && (snapshot.status@ == "failed"@ || snapshot.status@
            == "interrupted"@) ==> r->Ok_0.answer is None,
{
    reveal_strlit("completed");
    reveal_strlit("failed");
    reveal_strlit("interrupted");
    assert("completed"@.len() == 9 && "failed"@.len() == 6 && "interrupted"@.len() == 11);
}

/// A thread is started in the folder, with the model and under the policies that were set.
pub proof fn threads_start_as_set(options: &ExecutionOptions, r: Json)
    requires
        call_ensures(CodexExecution::start_thread, (options,), r),
    ensures
        r@.at("cwd"@) == JsonView::Text(options.cwd@),
        r@.at("model"@) == JsonView::Text(options.model@),
        r@.at("modelProvider"@) == JsonView::Text(options.model_provider@),
        r@.at("sandbox"@) == JsonView::Text(options.sandbox@),
        r@.at("approvalPolicy"@) == JsonView::Text(options.approval_policy@),
        r@.at("threadId"@) == JsonView::Null,
{
    reveal_strlit("approvalPolicy");
    reveal_strlit("cwd");
    reveal_strlit("model");
    reveal_strlit("modelProvider");
    reveal_strlit("sandbox");
    reveal_strlit("threadId");
    assert("approvalPolicy"@.len() == 14 && "cwd"@.len() == 3 && "model"@.len() == 5 && "modelProvider"@.len() == 13 && "sandbox"@.len() == 7 && "threadId"@.len() == 8);
    let m = r@->Object_0;
    assert(m[0].0 == "approvalPolicy"@ && m[1].0 == "cwd"@ && m[2].0 == "model"@ && m[3].0
        == "modelProvider"@ && m[4].0 == "sandbox"@ && m.len() == 5);
    reveal_with_fuel(lookup, 6);
}

/// Resuming names the thread of the conversation, and gives no thread another folder or model than
/// was set.
pub proof fn threads_resume_as_set(thread: &str, options: &ExecutionOptions, r: Json)
    requires
        call_ensures(CodexExecution::resume_thread, (thread, options), r),
    ensures
        r@.at("threadId"@) == JsonView::Text(thread@),
        r@.at("cwd"@) == JsonView::Text(options.cwd@),
        r@.at("model"@) == JsonView::Text(options.model@),
        r@.at("modelProvider"@) == JsonView::Text(options.model_provider@),
{
    reveal_strlit("cwd");
    reveal_strlit("model");
    reveal_strlit("modelProvider");
    reveal_strlit("threadId");
    assert("cwd"@.len() == 3 && "model"@.len() == 5 && "modelProvider"@.len() == 13 && "threadId"@.len() == 8);
    let m = r@->Object_0;
    assert(m[0].0 == "cwd"@ && m[1].0 == "model"@ && m[2].0 == "modelProvider"@ && m[3].0
        == "threadId"@ && m.len() == 4);
    reveal_with_fuel(lookup, 5);
}

/// A thread counts as started only under the identity that Codex reports, and as resumed only where
/// Codex reports the very thread that was asked for.
pub proof fn threads_are_those_reported(
    result: &Json,
    thread: &str,
    started: Result<String, TransportError>,
    resumed: Result<(), TransportError>,
)
    requires
        call_ensures(CodexExecution::thread_started, (result,), started),
        call_ensures(CodexExecution::thread_resumed, (result, thread), resumed),
    ensures
        started is Ok ==> result@.at("thread"@).at("id"@) == JsonView::Text(started->Ok_0@),
        started is Err ==> !(result@.at("thread"@).at("id"@) is Text) && started->Err_0@
            is ResultUnknown,
        resumed is Ok <==> result@.at("thread"@).at("id"@) == JsonView::Text(thread@),
        resumed is Err ==> resumed->Err_0@ is ResultUnknown,
{
}

/// A turn is started in the thread that is named, with the input as it is given, in the folder that
/// was set. What may be written is that folder and nothing else, and the network is open only where
/// that was set.
pub proof fn turns_start_as_set(
    thread: &str,
    options: &ExecutionOptions,
    input: Vec<Json>,
    r: Result<Json, TransportError>,
)
    requires
        call_ensures(CodexExecution::start_turn, (thread, options, input), r),
    ensures
        r is Ok <==> input@.len() > 0 && (options.sandbox@ == "workspace-write"@ || options.sandbox@
            == "read-only"@),
        r is Err ==> r->Err_0@ is NotSent,
        r is Ok ==> {
            let sent = r->Ok_0@;
            &&& sent.at("threadId"@) == JsonView::Text(thread@)
            &&& sent.at("input"@) == JsonView::Array(trees(input@))
            &&& sent.at("cwd"@) == JsonView::Text(options.cwd@)
            &&& sent.at("model"@) == JsonView::Text(options.model@)
            &&& sent.at("approvalPolicy"@) == JsonView::Text(options.approval_policy@)
            &&& sent.at("sandboxPolicy"@).at("networkAccess"@) == JsonView::Bool(
                options.network_access,
            )
            &&& options.sandbox@ == "workspace-write"@ ==> sent.at("sandboxPolicy"@).at("type"@)
                == JsonView::Text("workspaceWrite"@) && sent.at("sandboxPolicy"@).at(
                "writableRoots"@,
            ) == JsonView::Array(seq![JsonView::Text(options.cwd@)])
            &&& options.sandbox@ == "read-only"@ ==> sent.at("sandboxPolicy"@).at("type"@)
                == JsonView::Text("readOnly"@) && sent.at("sandboxPolicy"@).at("writableRoots"@)
                == JsonView::Null
        },
{
    reveal_strlit("approvalPolicy");
    reveal_strlit("cwd");
    reveal_strlit("input");
    reveal_strlit("model");
    reveal_strlit("sandboxPolicy");
    reveal_strlit("threadId");
    assert("approvalPolicy"@.len() == 14 && "cwd"@.len() == 3 && "input"@.len() == 5 && "model"@.len() == 5 && "sandboxPolicy"@.len() == 13 && "threadId"@.len() == 8);
    assert("input"@[0] != "model"@[0]);
    reveal_strlit("networkAccess");
    reveal_strlit("type");
    reveal_strlit("writableRoots");
    assert("networkAccess"@.len() == 13 && "type"@.len() == 4 && "writableRoots"@.len() == 13);
    assert("networkAccess"@[0] != "writableRoots"@[0]);
    reveal_strlit("workspace-write");
    reveal_strlit("read-only");
    assert("workspace-write"@.len() == 15 && "read-only"@.len() == 9);
    if r is Ok {
        let m = r->Ok_0@->Object_0;
        assert(m[0].0 == "approvalPolicy"@ && m[1].0 == "cwd"@ && m[2].0 == "input"@ && m[3].0
            == "model"@ && m[4].0 == "sandboxPolicy"@ && m[5].0 == "threadId"@ && m.len() == 6);
        reveal_with_fuel(lookup, 7);
        let p = m[4].1->Object_0;
        assert(p[0].0 == "networkAccess"@ && p[1].0 == "type"@);
    }
}

/// The turn that runs is the one that Codex reports, in the thread that it was started in.
pub proof fn turns_are_those_reported(
    result: &Json,
    thread: &str,
    r: Result<TurnIdentity, TransportError>,
)
    requires
        call_ensures(CodexExecution::turn_started, (result, thread), r),
    ensures
        r is Ok <==> result@.at("turn"@).at("id"@) is Text,
        r is Ok ==> r->Ok_0.thread_id@ == thread@ && result@.at("turn"@).at("id"@)
            == JsonView::Text(r->Ok_0.turn_id@),
        r is Err ==> r->Err_0@ is ResultUnknown,
{
}

/// What interrupts, steers or reads names the very turn that is meant, and steering carries the
/// input as it is given.
pub proof fn turns_are_reached_by_their_identity(
    identity: &TurnIdentity,
    input: Vec<Json>,
    read: Json,
    stop: Json,
    steer: Result<Json, TransportError>,
)
    requires
        call_ensures(CodexExecution::read_thread, (identity,), read),
        call_ensures(CodexExecution::interrupt, (identity,), stop),
        call_ensures(CodexExecution::steer, (identity, input), steer),
    ensures
        read@.at("threadId"@) == JsonView::Text(identity.thread_id@),
        read@.at("includeTurns"@) == JsonView::Bool(true),
        stop@.at("threadId"@) == JsonView::Text(identity.thread_id@),
        stop@.at("turnId"@) == JsonView::Text(identity.turn_id@),
        steer is Ok <==> input@.len() > 0,
        steer is Err ==> steer->Err_0@ is NotSent,
        steer is Ok ==> steer->Ok_0@.at("threadId"@) == JsonView::Text(identity.thread_id@)
            && steer->Ok_0@.at("expectedTurnId"@) == JsonView::Text(identity.turn_id@)
            && steer->Ok_0@.at("input"@) == JsonView::Array(trees(input@)),
{
    reveal_strlit("includeTurns");
    reveal_strlit("threadId");
    reveal_strlit("turnId");
    reveal_strlit("expectedTurnId");
    reveal_strlit("input");
    assert("includeTurns"@.len() == 12 && "threadId"@.len() == 8 && "turnId"@.len() == 6 && "expectedTurnId"@.len() == 14 && "input"@.len() == 5);
    assert(read@->Object_0[0].0 == "includeTurns"@ && read@->Object_0[1].0 == "threadId"@);
    assert(stop@->Object_0[0].0 == "threadId"@ && stop@->Object_0[1].0 == "turnId"@);
    if steer is Ok {
        let m = steer->Ok_0@->Object_0;
        assert(m[0].0 == "expectedTurnId"@ && m[1].0 == "input"@ && m[2].0 == "threadId"@);
    }
    reveal_with_fuel(lookup, 4);
}

/// A turn counts as steered only where Codex confirms that very turn.
pub proof fn steering_is_confirmed(
    result: &Json,
    identity: &TurnIdentity,
    r: Result<(), TransportError>,
)
    requires
        call_ensures(CodexExecution::steered, (result, identity), r),
    ensures
        r is Ok <==> result@.at("turnId"@) == JsonView::Text(identity.turn_id@),
        r is Err ==> r->Err_0@ is ResultUnknown,
{
}

} // verus!
