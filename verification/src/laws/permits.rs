//! What is permitted for a run, and for how long.
use crate::codex_execution::TurnIdentity;
use crate::codex_transport::Event;
use crate::direct_approval::{
    grantable, DirectInteraction, InteractionKind, ManualDecision, RunGrantAudit,
};
use crate::direct_buttons::{feedback, ApprovalCard, RunRequest};
use crate::direct_daemon::{leftover_cards, ClosedCard};
use crate::direct_interaction_store::{
    close_direct_approvals, count_open, fence_direct_approvals_after_restart, InteractionRecord,
    ReplyState,
};
use crate::direct_run::DirectRunService;
use crate::direct_run_actor::{Registered, RunWatch};
use crate::direct_store::SendState;
use crate::json::{Json, JsonView};
use crate::run_grants::{given, GrantView, RunGrants};
use crate::tables::Table;
use vstd::prelude::*;

verus! {

proof fn permissions_are_found(grants: Seq<GrantView>, server: Seq<char>, tool: Seq<char>, from: nat)
    requires
        from <= grants.len(),
    ensures
        match given(grants, server, tool, from) {
            Some(id) => exists|k: int|
                from <= k < grants.len() && (#[trigger] grants[k]).server == server && grants[k].tool
                    == tool && grants[k].interaction == id,
            None => forall|k: int|
                from <= k < grants.len() ==> (#[trigger] grants[k]).server != server
                    || grants[k].tool != tool,
        },
    decreases grants.len() - from,
{
    if from < grants.len() {
        permissions_are_found(grants, server, tool, from + 1);
        if grants[from as int].server == server && grants[from as int].tool == tool {
            assert(grants[from as int].interaction == given(grants, server, tool, from)->0);
        }
    }
}

/// A call passes without being asked about only where the user permitted this very tool of this very
/// server; another tool, or the same of another server, does not.
pub proof fn only_permitted_tools_pass(
    g: &RunGrants,
    op: &DirectInteraction,
    r: Option<RunGrantAudit>,
)
    requires
        call_ensures(RunGrants::allowed, (g, op), r),
        r is Some,
    ensures
        op.kind == InteractionKind::McpElicitation,
        op@.evidence is Some,
        exists|k: int|
            0 <= k < g.grants@.len() && op@.evidence->0.at("server"@) == JsonView::Text(
                (#[trigger] g.grants@[k]).server@,
            ) && op@.evidence->0.at("tool"@) == JsonView::Text(g.grants@[k].tool@),
{
    let v = op@;
    let key = grantable(v)->0;
    permissions_are_found(g@.grants, key.0, key.1, 0);
    let k = choose|k: int|
        0 <= k < g@.grants.len() && (#[trigger] g@.grants[k]).server == key.0 && g@.grants[k].tool
            == key.1;
    assert(g@.grants.len() == g.grants@.len());
    assert(g@.grants[k] == g.grants@[k]@);
    assert(g.grants@[k].server@ == key.0);
}

/// A tool that was permitted for the run passes from then on, and nothing passes that was accepted
/// only once, declined or cancelled.
pub proof fn permissions_come_from_decisions(
    g: &mut RunGrants,
    op: &DirectInteraction,
    id: &str,
    request: RunRequest,
    r: Option<RunGrantAudit>,
    after: &RunGrants,
    next: Option<RunGrantAudit>,
)
    requires
        call_ensures(RunGrants::decided, (g, op, id, request), r),
        call_ensures(RunGrants::allowed, (after, op), next),
    ensures
        !(request is Tool && request->Tool_decision == ManualDecision::AcceptOnce
            && request->run_grant) ==> final(g)@ == old(g)@ && r is None,
        final(g).generation == old(g).generation,
        final(g)@.grants.len() <= old(g)@.grants.len() + 1,
        final(g)@.grants.take(old(g)@.grants.len() as int) == old(g)@.grants,
        *after == *final(g) && grantable(op@) is Some && request is Tool && request->Tool_decision
            == ManualDecision::AcceptOnce && request->run_grant ==> next is Some && r is Some,
        grantable(op@) is None ==> final(g)@ == old(g)@ && r is None,
{
    assert(final(g)@.grants.take(old(g)@.grants.len() as int) =~= old(g)@.grants);
    if grantable(op@) is Some {
        let key = grantable(op@)->0;
        crate::run_grants::lemma_given_push(
            old(g)@.grants,
            GrantView { server: key.0, tool: key.1, interaction: id@ },
            key.0,
            key.1,
            0,
        );
    }
}

/// Nothing is permitted before the user permits it, and nothing any more after further input or a
/// stop. Further input also makes every earlier card old.
pub proof fn permissions_end_with_further_input(
    fresh: RunGrants,
    g: &mut RunGrants,
    generation: u64,
    h: &mut RunGrants,
)
    requires
        call_ensures(RunGrants::new, (), fresh),
        call_ensures(RunGrants::steer, (g,), generation),
        call_ensures(RunGrants::stop, (h,), ()),
    ensures
        fresh@.grants.len() == 0,
        fresh.generation == 0,
        final(g)@.grants.len() == 0,
        old(g).generation < u64::MAX ==> final(g).generation == old(g).generation + 1 && generation
            == old(g).generation + 1,
        final(h)@.grants.len() == 0,
        final(h).generation == old(h).generation,
{
}

/// A request is shown to the user the first time it comes, unless its tool was permitted for the run;
/// and the second time it does nothing.
pub proof fn requests_are_shown_once(
    w: &mut RunWatch,
    op: &DirectInteraction,
    id: &str,
    r: Registered,
    allowed: Option<RunGrantAudit>,
)
    requires
        call_ensures(RunWatch::registered, (w, op, id), r),
        call_ensures(RunGrants::allowed, (&w.granted, op), allowed),
    ensures
        r is Again <==> old(w)@.seen.contains(id@),
        r is Allow ==> allowed is Some,
        !old(w)@.seen.contains(id@) && allowed is Some ==> r is Allow,
        r is Show <==> !old(w)@.seen.contains(id@) && allowed is None,
        r is Show ==> r->input_generation == old(w)@.granted.generation,
        final(w)@.seen.contains(id@),
        final(w)@.granted == old(w)@.granted,
        final(w).terminal_seen == old(w).terminal_seen,
{
    let k = r@;
    assert(w@.granted == w.granted@);
}

/// A decision on a card from before further input does not count.
pub proof fn decisions_are_of_the_current_input(
    w: &RunWatch,
    request: RunRequest,
    r: Result<(), &'static str>,
)
    requires
        call_ensures(RunWatch::check_decision, (w, request), r),
    ensures
        ({
            let g = match request {
                RunRequest::Reject { input_generation } => input_generation,
                RunRequest::Tool { input_generation, .. } => input_generation,
                RunRequest::Manual { input_generation, .. } => input_generation,
            };
            r is Ok <==> g >= w.granted.generation
        }),
{
    assert(w@.granted == w.granted@);
}

/// A page counts as viewed from then on, and no page that was viewed is forgotten; the card stays that
/// of its operation.
pub proof fn viewed_pages_stay_viewed(c: &mut ApprovalCard, page: usize)
    requires
        call_ensures(ApprovalCard::viewed, (c, page), ()),
    ensures
        final(c).highest_viewed_page is Some,
        final(c).highest_viewed_page->0 >= page,
        old(c).highest_viewed_page is Some ==> final(c).highest_viewed_page->0
            >= old(c).highest_viewed_page->0,
        final(c).highest_viewed_page->0 == page || final(c).highest_viewed_page == old(
            c).highest_viewed_page,
        final(c).operation == old(c).operation,
        final(c).fingerprint == old(c).fingerprint,
        final(c).request_id == old(c).request_id,
        final(c).thread_id == old(c).thread_id,
        final(c).input_generation == old(c).input_generation,
{
}

/// The user is told what was decided.
pub proof fn decisions_are_told(action: &str, r: &'static str)
    requires
        call_ensures(feedback, (action,), r),
    ensures
        action@ == "accept"@ ==> r@
            == "この操作だけを許可しました。続きの回答はこの会話に届きます。"@,
        action@ == "run"@ ==> r@
            == "この依頼中、同じMCPツールの後続呼出しを許可しました。引数が変わる操作も対象です。追加指示・停止・依頼終了で失効します。"@,
        action@ == "decline"@ ==> r@
            == "この操作を拒否しました。続きの回答はこの会話に届きます。"@,
        action@ == "cancel"@ ==> r@
            == "この確認を取り消しました。続きの回答はこの会話に届きます。"@,
{
    reveal_strlit("accept");
    reveal_strlit("run");
    reveal_strlit("decline");
    reveal_strlit("cancel");
    reveal_strlit("reject");
    assert("accept"@.len() == 6 && "run"@.len() == 3 && "decline"@.len() == 7 && "cancel"@.len() == 6 && "reject"@.len() == 6);
    assert("accept"@[0] != "cancel"@[0]);
    assert("accept"@[0] != "reject"@[0]);
    assert("cancel"@[0] != "reject"@[0]);
}

/// A decision begins to be sent only while it is pending, for the operation that was shown, in a turn
/// that runs, and by the reply that its method takes.
pub proof fn decisions_begin_once(
    rec: &mut InteractionRecord,
    shown: &str,
    dispatch: SendState,
    d: ManualDecision,
    mcp: bool,
    r: Result<&'static str, String>,
)
    requires
        call_ensures(InteractionRecord::begin_reply, (rec, shown, dispatch, d, mcp), r),
    ensures
        r is Ok ==> old(rec).state == ReplyState::Pending && old(rec).fingerprint@ == shown@
            && dispatch == SendState::Acked && final(rec).state == ReplyState::Sending,
        r is Ok && mcp ==> old(rec).method@ == "item/tool/requestUserInput"@ || old(rec).method@
            == "mcpServer/elicitation/request"@,
        r is Ok && !mcp ==> old(rec).method@ == "item/commandExecution/requestApproval"@ || old(
            rec).method@ == "item/fileChange/requestApproval"@,
        r is Ok && d == ManualDecision::AcceptOnce ==> r->Ok_0@ == "accept"@,
        r is Ok && d != ManualDecision::AcceptOnce ==> r->Ok_0@ != "accept"@,
        r is Ok && d == ManualDecision::Decline ==> r->Ok_0@ == "decline"@,
        r is Err ==> final(rec)@ == old(rec)@,
        old(rec).state != ReplyState::Pending ==> r is Err,
{
    reveal_strlit("accept");
    reveal_strlit("decline");
    reveal_strlit("cancel");
    assert("accept"@.len() == 6 && "decline"@.len() == 7 && "cancel"@.len() == 6);
    assert("accept"@[0] != "cancel"@[0]);
    assert(rec@.state == rec.state);
}

/// What Codex asks in a run is tied to the evidence that fits it, and else refused.
pub proof fn requests_are_tied_to_their_evidence(
    run: &TurnIdentity,
    event: &Event,
    evidence: Option<Json>,
    plain: Result<Option<DirectInteraction>, &'static str>,
    r: Result<Option<DirectInteraction>, &'static str>,
)
    requires
        call_ensures(DirectInteraction::from_event, (event, run), plain),
        call_ensures(
            DirectRunService::register_interaction_with_evidence,
            (run, event, evidence),
            r,
        ),
    ensures
        plain is Err ==> r is Err,
        plain is Ok && plain->Ok_0 is None ==> r is Ok && r->Ok_0 is None,
        plain is Ok && plain->Ok_0 is Some && evidence is None ==> r is Ok && r->Ok_0 is Some
            && r->Ok_0->0@ == plain->Ok_0->0@,
        r is Ok && r->Ok_0 is Some && evidence is Some ==> r->Ok_0->0@.evidence == Some(
            evidence->0@,
        ) && r->Ok_0->0@.params == plain->Ok_0->0@.params && r->Ok_0->0@.kind
            == plain->Ok_0->0@.kind && evidence->0@.at("type"@) == JsonView::Text("mcpToolCall"@),
{
}

/// After a restart, and once a run is over, no request of it waits any more: one that was never
/// answered can no longer be, one whose answer was on its way is unknown, and a settled one stays.
pub proof fn open_requests_are_closed(
    a: &mut Vec<InteractionRecord>,
    ra: usize,
    b: &mut Vec<InteractionRecord>,
    rb: usize,
    i: int,
)
    requires
        call_ensures(fence_direct_approvals_after_restart, (a,), ra),
        call_ensures(close_direct_approvals, (b,), rb),
    ensures
        final(a)@.len() == old(a)@.len(),
        final(b)@.len() == old(b)@.len(),
        0 <= i < old(a)@.len() && old(a)@[i].state == ReplyState::Pending ==> final(a)@[i].state
            == ReplyState::Unavailable,
        0 <= i < old(a)@.len() && (old(a)@[i].state == ReplyState::Sending || old(a)@[i].state
            == ReplyState::Sent) ==> final(a)@[i].state == ReplyState::Unknown,
        0 <= i < old(a)@.len() && (old(a)@[i].state == ReplyState::Resolved || old(a)@[i].state
            == ReplyState::Unknown || old(a)@[i].state == ReplyState::Unavailable)
            ==> final(a)@[i].state == old(a)@[i].state,
        0 <= i < old(b)@.len() && old(b)@[i].state == ReplyState::Pending ==> final(b)@[i].state
            == ReplyState::Unavailable,
        0 <= i < old(b)@.len() && (old(b)@[i].state == ReplyState::Sending || old(b)@[i].state
            == ReplyState::Sent) ==> final(b)@[i].state == ReplyState::Unknown,
        0 <= i < old(b)@.len() && (old(b)@[i].state == ReplyState::Resolved || old(b)@[i].state
            == ReplyState::Unknown || old(b)@[i].state == ReplyState::Unavailable)
            ==> final(b)@[i].state == old(b)@[i].state,
        ra <= old(a)@.len(),
{
    opened_are_counted(old(a)@, old(a)@.len());
    if 0 <= i < old(a)@.len() {
        assert(final(a)@[i]@.state == final(a)@[i].state);
        assert(old(a)@[i]@.state == old(a)@[i].state);
    }
    if 0 <= i < old(b)@.len() {
        assert(final(b)@[i]@.state == final(b)@[i].state);
        assert(old(b)@[i]@.state == old(b)@[i].state);
    }
}

proof fn opened_are_counted(all: Seq<InteractionRecord>, n: nat)
    requires
        n <= all.len(),
    ensures
        count_open(all, n) <= n,
    decreases n,
{
    if n > 0 {
        opened_are_counted(all, (n - 1) as nat);
    }
}

/// Once a run is over its cards are closed, and no card of another run is.
pub proof fn cards_close_with_their_run(
    request: &str,
    cards: &mut Table<ApprovalCard>,
    r: Vec<ClosedCard>,
    id: Seq<char>,
)
    requires
        call_ensures(leftover_cards, (request, cards), r),
    ensures
        final(cards).map().contains_key(id) <==> old(cards).map().contains_key(id) && old(
            cards).map()[id].request_id@ != request@,
        final(cards).map().contains_key(id) ==> final(cards).map()[id] == old(cards).map()[id],
{
}

} // verus!
