//! What the user decides is what Codex is told.
use crate::button_laws::{card_buttons_are_read_back, page_buttons_are_read_back};
use crate::codex_execution::TurnIdentity;
use crate::codex_transport::Event;
use crate::components::row_view;
use crate::direct_approval::{
    grantable, DirectInteraction, InteractionKind, InteractionView, ManualDecision,
};
use crate::direct_buttons::{approval_button, page_buttons, ApprovalCard, ButtonStep, RunRequest};
use crate::direct_interaction_store::{
    record_direct_interaction, state_after_resolution, InteractionRecord, ReplyState,
};
use crate::direct_menus::{approval_detail, detail_text, DirectCoordinator};
use crate::direct_run::DirectRunService;
use crate::direct_store::SendState;
use crate::domain::RequestState;
use crate::json::{alike, lookup, Json, JsonView};
use crate::numbers::{decimal, lemma_unsigned_round_trip};
use crate::run_grants::check_generation;
use crate::text::{folded, holds, unseparated, utf8_len, views};
use vstd::prelude::*;

verus! {

/// The words that a reply to a question gives as the answers to it.
pub open spec fn answers_to(reply: JsonView, question: Seq<char>) -> JsonView {
    reply.at("answers"@).at(question).at("answers"@)
}

/// A question about a tool call is answered with the one word `Allow` where the user accepts, and
/// A question can be answered exactly where it is the one confirmation of its own tool call, is not
/// secret or open, and offers both to allow and to cancel; it can be accepted only with the evidence
/// of the call.
pub proof fn confirmations_can_be_answered(
    i: &DirectInteraction,
    d: ManualDecision,
    r: Result<Json, &'static str>,
)
    requires
        call_ensures(DirectInteraction::mcp_tool_decision, (i, d), r),
        i.kind != InteractionKind::McpElicitation,
    ensures
        r is Ok <==> {
            let questions = i@.params.at("questions"@);
            let question = questions->Array_0[0];
            let options = question.at("options"@);
            &&& i.kind == InteractionKind::UserInput
            &&& i@.method == "item/tool/requestUserInput"@
            &&& d == ManualDecision::AcceptOnce ==> i@.evidence is Some
            &&& questions is Array
            &&& questions->Array_0.len() == 1
            &&& i@.item_id is Some
            &&& question.at("id"@) == JsonView::Text("mcp_tool_call_approval_"@ + i@.item_id->0)
            &&& question.at("isOther"@) == JsonView::Bool(false)
            &&& question.at("isSecret"@) == JsonView::Bool(false)
            &&& options is Array
            &&& exists|k: int|
                0 <= k < options->Array_0.len() && (#[trigger] options->Array_0[k]).at("label"@)
                    == JsonView::Text("Allow"@)
            &&& exists|k: int|
                0 <= k < options->Array_0.len() && (#[trigger] options->Array_0[k]).at("label"@)
                    == JsonView::Text("Cancel"@)
        },
{
}

/// A form can always be declined, and be accepted exactly where it asks for nothing, confirms a tool
/// call and is bound to this very turn.
pub proof fn forms_can_be_answered(
    i: &DirectInteraction,
    d: ManualDecision,
    r: Result<Json, &'static str>,
)
    requires
        call_ensures(DirectInteraction::mcp_tool_decision, (i, d), r),
        i.kind == InteractionKind::McpElicitation,
        i@.method == "mcpServer/elicitation/request"@,
    ensures
        d != ManualDecision::AcceptOnce ==> r is Ok,
        r is Ok && d == ManualDecision::AcceptOnce ==> {
            let p = i@.params;
            let schema = p.at("requestedSchema"@);
            &&& p.at("mode"@) == JsonView::Text("form"@)
            &&& p.at("_meta"@).at("codex_approval_kind"@) == JsonView::Text("mcp_tool_call"@)
            &&& p.at("threadId"@) == JsonView::Text(i@.thread_id)
            &&& p.at("turnId"@) == JsonView::Text(i@.turn_id)
            &&& p.at("_meta"@).at("tool_params"@) is Object
            &&& schema is Object
            &&& schema.at("type"@) == JsonView::Text("object"@)
            &&& schema.at("properties"@) == JsonView::Object(Seq::empty())
            &&& forall|k: int|
                0 <= k < schema->Object_0.len() ==> (#[trigger] schema->Object_0[k]).0 == "type"@
                    || schema->Object_0[k].0 == "properties"@ || schema->Object_0[k].0
                    == "required"@ || schema->Object_0[k].0 == "additionalProperties"@
        },
        ({
            let p = i@.params;
            let schema = p.at("requestedSchema"@);
            &&& p.at("mode"@) == JsonView::Text("form"@)
            &&& p.at("_meta"@).at("codex_approval_kind"@) == JsonView::Text("mcp_tool_call"@)
            &&& p.at("threadId"@) == JsonView::Text(i@.thread_id)
            &&& p.at("turnId"@) == JsonView::Text(i@.turn_id)
            &&& p.at("_meta"@).at("tool_params"@) is Object
            &&& p.at("serverName"@) is Text && 0 < p.at("serverName"@)->Text_0.len() && utf8_len(
                p.at("serverName"@)->Text_0,
            ) <= 128
            &&& p.at("message"@) is Text && 0 < p.at("message"@)->Text_0.len() && utf8_len(
                p.at("message"@)->Text_0,
            ) <= 8192
            &&& schema is Object
            &&& schema.at("type"@) == JsonView::Text("object"@)
            &&& schema.at("properties"@) == JsonView::Object(Seq::empty())
            &&& schema.get("required"@) is None
            &&& schema.get("additionalProperties"@) is None || schema.at("additionalProperties"@)
                == JsonView::Bool(false)
            &&& forall|k: int|
                0 <= k < schema->Object_0.len() ==> (#[trigger] schema->Object_0[k]).0 == "type"@
                    || schema->Object_0[k].0 == "properties"@ || schema->Object_0[k].0
                    == "additionalProperties"@
        }) ==> r is Ok,
{
    let m = i@.params.at("requestedSchema"@)->Object_0;
    assert forall|k: int| 0 <= k < m.len() && crate::direct_approval::empty_form(
        i@.params.at("requestedSchema"@),
    ) implies (#[trigger] m[k]).0 == "type"@ || m[k].0 == "properties"@ || m[k].0 == "required"@
        || m[k].0 == "additionalProperties"@ by {
        assert(crate::direct_approval::form_key(m[k].0));
    }
}

/// with the one word `Cancel` where the user declines or cancels.
pub proof fn questions_are_answered_as_decided(
    i: &DirectInteraction,
    d: ManualDecision,
    r: Result<Json, &'static str>,
)
    requires
        call_ensures(DirectInteraction::mcp_tool_decision, (i, d), r),
        i.kind == InteractionKind::UserInput,
        r is Ok,
    ensures
        ({
            let question = i@.params.at("questions"@).item(0).at("id"@).text()->0;
            let words = answers_to(r->Ok_0@, question);
            &&& d == ManualDecision::AcceptOnce ==> words == JsonView::Array(
                seq![JsonView::Text("Allow"@)],
            )
            &&& d != ManualDecision::AcceptOnce ==> words == JsonView::Array(
                seq![JsonView::Text("Cancel"@)],
            )
            &&& d != ManualDecision::AcceptOnce ==> !words.lists("Allow"@)
            &&& d == ManualDecision::AcceptOnce ==> !words.lists("Cancel"@)
            &&& question == "mcp_tool_call_approval_"@ + i@.item_id->0
        }),
{
    reveal_strlit("Allow");
    reveal_strlit("Cancel");
    assert("Allow"@.len() == 5 && "Cancel"@.len() == 6);
    reveal_with_fuel(lookup, 2);
}

/// A question is only accepted with the evidence of the call it asks about; declining takes none.
pub proof fn questions_are_accepted_with_evidence(
    i: &DirectInteraction,
    r: Result<Json, &'static str>,
    other: &DirectInteraction,
    d: ManualDecision,
    s: Result<Json, &'static str>,
)
    requires
        call_ensures(DirectInteraction::mcp_tool_decision, (i, ManualDecision::AcceptOnce), r),
        i.kind == InteractionKind::UserInput,
        r is Ok,
        call_ensures(DirectInteraction::mcp_tool_decision, (other, d), s),
        d != ManualDecision::AcceptOnce,
        other@ == (InteractionView { evidence: None, ..i@ }),
    ensures
        i.mcp_evidence is Some,
        s is Ok,
{
}

/// A form about a tool call is accepted with an empty content and declined without one. It can always
/// be declined.
pub proof fn forms_are_answered_as_decided(
    i: &DirectInteraction,
    d: ManualDecision,
    r: Result<Json, &'static str>,
)
    requires
        call_ensures(DirectInteraction::mcp_tool_decision, (i, d), r),
        i.kind == InteractionKind::McpElicitation,
        i.method@ == "mcpServer/elicitation/request"@,
    ensures
        r is Ok && d == ManualDecision::AcceptOnce ==> r->Ok_0@.at("action"@).says("accept"@)
            && r->Ok_0@.at("content"@) == JsonView::Object(Seq::empty()),
        d != ManualDecision::AcceptOnce ==> r is Ok && r->Ok_0@.at("action"@).says("decline"@)
            && r->Ok_0@.at("content"@) == JsonView::Null,
{
    reveal_strlit("action");
    reveal_strlit("content");
    assert("action"@.len() == 6 && "content"@.len() == 7);
    if r is Ok {
        let m = r->Ok_0@->Object_0;
        assert(m[0].0 == "action"@ && m[1].0 == "content"@);
        assert(m.drop_first()[0] == m[1]);
        reveal_with_fuel(lookup, 3);
    }
}

/// A command or file change is decided with the word of the decision: `accept`, `decline` or
/// `cancel`. Where the app server names what it offers, it is exactly what can be replied.
pub proof fn operations_are_decided_as_pressed(
    i: &DirectInteraction,
    d: ManualDecision,
    r: Result<Json, &'static str>,
    word: Seq<char>,
)
    requires
        call_ensures(DirectInteraction::manual_decision, (i, d), r),
        i.kind == InteractionKind::CommandApproval || i.kind == InteractionKind::FileChangeApproval,
        d == ManualDecision::AcceptOnce ==> word == "accept"@,
        d == ManualDecision::Decline ==> word == "decline"@,
        d == ManualDecision::Cancel ==> word == "cancel"@,
    ensures
        r is Ok ==> r->Ok_0@.at("decision"@).says(word),
        i@.params.get("availableDecisions"@) is None ==> r is Ok,
        i@.params.get("availableDecisions"@) is Some && i@.params.at("availableDecisions"@) is Array
            ==> (r is Ok <==> i@.params.at("availableDecisions"@).lists(word)),
{
    reveal_with_fuel(lookup, 2);
}

/// Nothing but a command or a file change is decided by such a word.
pub proof fn other_requests_take_no_word(
    i: &DirectInteraction,
    d: ManualDecision,
    r: Result<Json, &'static str>,
)
    requires
        call_ensures(DirectInteraction::manual_decision, (i, d), r),
        i.kind != InteractionKind::CommandApproval,
        i.kind != InteractionKind::FileChangeApproval,
    ensures
        r is Err,
{
}

/// What is written to the app server is the word of the decision.
pub proof fn replies_carry_the_word(d: ManualDecision, r: Json)
    requires
        call_ensures(DirectRunService::reply_manual, (d,), r),
    ensures
        d == ManualDecision::AcceptOnce ==> r@.at("decision"@).says("accept"@),
        d == ManualDecision::Decline ==> r@.at("decision"@).says("decline"@),
        d == ManualDecision::Cancel ==> r@.at("decision"@).says("cancel"@),
{
    reveal_with_fuel(lookup, 2);
}

/// A reply to a tool confirmation goes to the run that asked, and is the one of the decision.
pub proof fn tool_replies_stay_in_their_run(
    i: &DirectInteraction,
    run: &TurnIdentity,
    d: ManualDecision,
    r: Result<Json, &'static str>,
    s: Result<Json, &'static str>,
)
    requires
        call_ensures(DirectRunService::reply_mcp_tool, (i, run, d), r),
        call_ensures(DirectInteraction::mcp_tool_decision, (i, d), s),
    ensures
        r is Ok ==> s is Ok && r->Ok_0@ == s->Ok_0@ && i.thread_id@ == run.thread_id@ && i.turn_id@
            == run.turn_id@,
        s is Ok && i.thread_id@ == run.thread_id@ && i.turn_id@ == run.turn_id@ ==> r is Ok,
{
}

/// The word that is stored of a decision on a command or file change is the one that is sent.
pub proof fn stored_words_are_sent_words(
    rec: &mut InteractionRecord,
    shown: &str,
    dispatch: SendState,
    d: ManualDecision,
    r: Result<&'static str, String>,
)
    requires
        call_ensures(InteractionRecord::begin_direct_approval_reply, (rec, shown, dispatch, d), r),
        r is Ok,
    ensures
        d == ManualDecision::AcceptOnce ==> r->Ok_0@ == "accept"@,
        d == ManualDecision::Decline ==> r->Ok_0@ == "decline"@,
        d == ManualDecision::Cancel ==> r->Ok_0@ == "cancel"@,
        old(rec).state == ReplyState::Pending,
        old(rec).fingerprint@ == shown@,
        dispatch == SendState::Acked,
        final(rec).state == ReplyState::Sending,
        final(rec).fingerprint@ == old(rec).fingerprint@,
        final(rec).method@ == old(rec).method@,
{
}

/// A confirmation of a tool is stored as accepted or declined: accepted exactly where the user
/// accepted.
pub proof fn stored_confirmations_are_decided(
    rec: &mut InteractionRecord,
    shown: &str,
    dispatch: SendState,
    d: ManualDecision,
    r: Result<&'static str, String>,
)
    requires
        call_ensures(InteractionRecord::begin_direct_mcp_reply, (rec, shown, dispatch, d), r),
    ensures
        r is Ok ==> (r->Ok_0@ == "accept"@ <==> d == ManualDecision::AcceptOnce),
        r is Ok ==> (r->Ok_0@ == "decline"@ <==> d != ManualDecision::AcceptOnce),
        r is Ok ==> final(rec).state == ReplyState::Sending,
        r is Err ==> final(rec)@ == old(rec)@,
        old(rec).state == ReplyState::Pending && old(rec).fingerprint@ == shown@ && dispatch
            == SendState::Acked && (old(rec).method@ == "item/tool/requestUserInput"@ || old(rec).method@ == "mcpServer/elicitation/request"@) ==> r is Ok,
        old(rec).state != ReplyState::Pending ==> r is Err,
        old(rec).fingerprint@ != shown@ ==> r is Err,
{
    reveal_strlit("accept");
    reveal_strlit("decline");
    assert("accept"@.len() == 6 && "decline"@.len() == 7);
}

/// A decision is sent after it began, uncertain after it was on its way, and settled only once it
/// left; nothing else moves it.
pub proof fn decisions_move_forward(
    sent: &mut InteractionRecord,
    a: Result<(), &'static str>,
    lost: &mut InteractionRecord,
    b: Result<(), &'static str>,
    done: &mut InteractionRecord,
    c: Result<(), &'static str>,
)
    requires
        call_ensures(InteractionRecord::mark_direct_approval_sent, (sent,), a),
        call_ensures(InteractionRecord::mark_direct_approval_unknown, (lost,), b),
        call_ensures(InteractionRecord::resolve_direct_approval, (done,), c),
    ensures
        a is Ok <==> old(sent).state == ReplyState::Sending,
        a is Ok ==> final(sent).state == ReplyState::Sent,
        b is Ok <==> old(lost).state == ReplyState::Sending || old(lost).state == ReplyState::Sent,
        b is Ok ==> final(lost).state == ReplyState::Unknown,
        c is Ok <==> old(done).state == ReplyState::Sending || old(done).state == ReplyState::Sent
            || old(done).state == ReplyState::Unknown,
        c is Ok ==> final(done).state == ReplyState::Resolved,
        a is Err ==> final(sent).state == old(sent).state,
        b is Err ==> final(lost).state == old(lost).state,
        c is Err ==> final(done).state == old(done).state,
{
    assert(sent@.state == sent.state);
}

/// Closing off makes what waits unavailable and what is on its way unknown, and leaves the rest.
pub proof fn closing_decides_nothing(rec: &mut InteractionRecord, r: bool)
    requires
        call_ensures(InteractionRecord::fence, (rec,), r),
    ensures
        old(rec).state == ReplyState::Pending <==> final(rec).state == ReplyState::Unavailable
            && r,
        old(rec).state == ReplyState::Sending || old(rec).state == ReplyState::Sent ==> final(rec).state == ReplyState::Unknown && r,
        old(rec).state == ReplyState::Resolved ==> final(rec).state == ReplyState::Resolved && !r,
        old(rec).state == ReplyState::Unknown ==> final(rec).state == ReplyState::Unknown && !r,
{
    assert(rec@.state == rec.state);
}

/// A request is recorded for the turn that runs, as waiting; the same one twice is recorded once.
pub proof fn requests_are_recorded_once(
    i: &DirectInteraction,
    thread: Option<&str>,
    turn: Option<&str>,
    send: SendState,
    existing: Option<&str>,
    state: RequestState,
    r: Result<Option<InteractionRecord>, &'static str>,
)
    requires
        call_ensures(record_direct_interaction, (i, thread, turn, send, existing, state), r),
    ensures
        r is Ok ==> thread is Some && thread->0@ == i.thread_id@ && turn is Some && turn->0@
            == i.turn_id@ && send == SendState::Acked,
        r is Ok && existing is Some ==> r->Ok_0 is None && existing->0@ == i.fingerprint@,
        r is Ok && existing is None ==> r->Ok_0 is Some && r->Ok_0->0.state == ReplyState::Pending
            && r->Ok_0->0.fingerprint@ == i.fingerprint@ && r->Ok_0->0.method@ == i.method@ && (
        state == RequestState::Running || state == RequestState::ApprovalRequired),
{
}

/// A run goes on from waiting for decisions exactly where none of its requests is left open.
pub proof fn runs_go_on_once_all_is_settled(
    state: RequestState,
    states: &Vec<ReplyState>,
    r: RequestState,
)
    requires
        call_ensures(state_after_resolution, (state, states), r),
        state == RequestState::ApprovalRequired,
    ensures
        r == RequestState::Running || r == RequestState::ApprovalRequired,
        r == RequestState::Running <==> forall|k: int|
            0 <= k < states@.len() ==> (#[trigger] states@[k] == ReplyState::Resolved || states@[k]
                == ReplyState::Unavailable),
{
    if r == RequestState::Running {
        assert forall|k: int| 0 <= k < states@.len() implies (#[trigger] states@[k]
            == ReplyState::Resolved || states@[k] == ReplyState::Unavailable) by {
            assert(!(states@[k] == ReplyState::Pending));
        }
    }
}

proof fn lemma_pressed(action: Seq<char>, id: Seq<char>, custom: Seq<char>)
    requires
        unseparated(action, ':'),
        unseparated(id, ':'),
        custom == "direct:"@ + action + ":"@ + id,
    ensures
        crate::direct_buttons::button_of(custom) == Some((action, id, None::<Seq<char>>)),
{
    card_buttons_are_read_back(action, id);
}

/// What a button stands for.
pub enum Meaning {
    Accept,
    AcceptForRun,
    Decline,
    Cancel,
    Unsupported,
}

/// The identity of the button of a card with a meaning.
pub open spec fn button_id(m: Meaning, id: Seq<char>) -> Seq<char> {
    match m {
        Meaning::Accept => "direct:accept:"@ + id,
        Meaning::AcceptForRun => "direct:run:"@ + id,
        Meaning::Decline => "direct:decline:"@ + id,
        Meaning::Cancel => "direct:cancel:"@ + id,
        Meaning::Unsupported => "direct:reject:"@ + id,
    }
}

proof fn lemma_meaning(m: Meaning, id: Seq<char>)
    requires
        unseparated(id, ':'),
    ensures
        crate::direct_buttons::button_of(button_id(m, id)) == Some(
            (
                match m {
                    Meaning::Accept => "accept"@,
                    Meaning::AcceptForRun => "run"@,
                    Meaning::Decline => "decline"@,
                    Meaning::Cancel => "cancel"@,
                    Meaning::Unsupported => "reject"@,
                },
                id,
                None::<Seq<char>>,
            ),
        ),
{
    reveal_strlit("accept");
    reveal_strlit("run");
    reveal_strlit("decline");
    reveal_strlit("cancel");
    reveal_strlit("reject");
    assert("accept"@.len() == 6 && "run"@.len() == 3 && "decline"@.len() == 7 && "cancel"@.len() == 6 && "reject"@.len() == 6);
    assert("accept"@[0] != "cancel"@[0]);
    assert("accept"@[0] != "reject"@[0]);
    assert("cancel"@[0] != "reject"@[0]);
    reveal_strlit("direct:");
    reveal_strlit(":");
    reveal_strlit("direct:accept:");
    reveal_strlit("direct:run:");
    reveal_strlit("direct:decline:");
    reveal_strlit("direct:cancel:");
    reveal_strlit("direct:reject:");
    assert("direct:accept:"@ =~= "direct:"@ + "accept"@ + ":"@);
    assert("direct:run:"@ =~= "direct:"@ + "run"@ + ":"@);
    assert("direct:decline:"@ =~= "direct:"@ + "decline"@ + ":"@);
    assert("direct:cancel:"@ =~= "direct:"@ + "cancel"@ + ":"@);
    assert("direct:reject:"@ =~= "direct:"@ + "reject"@ + ":"@);
    let action = match m {
        Meaning::Accept => "accept"@,
        Meaning::AcceptForRun => "run"@,
        Meaning::Decline => "decline"@,
        Meaning::Cancel => "cancel"@,
        Meaning::Unsupported => "reject"@,
    };
    assert(unseparated(action, ':'));
    lemma_pressed(action, id, button_id(m, id));
}

/// A button sends the decision that it stands for, with the generation of its card, and nothing is
/// sent for another run. Accepting for the run is the only decision that lasts.
pub proof fn buttons_send_what_they_stand_for(
    m: Meaning,
    id: Seq<char>,
    custom: &str,
    card: Option<&ApprovalCard>,
    thread: &str,
    active: Option<&str>,
    r: ButtonStep,
)
    requires
        unseparated(id, ':'),
        custom@ == button_id(m, id),
        call_ensures(approval_button, (custom, card, thread, active), r),
        r is Send,
    ensures
        card is Some,
        card->0.thread_id@ == thread@,
        active is Some && active->0@ == card->0.request_id@,
        ({
            let sent = r->Send_0;
            let generation = card->0.input_generation;
            let tool = card->0.operation.kind == InteractionKind::UserInput
                || card->0.operation.kind == InteractionKind::McpElicitation;
            let decision = match m {
                Meaning::Accept => ManualDecision::AcceptOnce,
                Meaning::AcceptForRun => ManualDecision::AcceptOnce,
                Meaning::Decline => ManualDecision::Decline,
                Meaning::Cancel => ManualDecision::Cancel,
                Meaning::Unsupported => ManualDecision::Decline,
            };
            if m is Unsupported {
                sent == (RunRequest::Reject { input_generation: generation })
            } else if tool {
                sent == (RunRequest::Tool {
                    decision,
                    run_grant: m is AcceptForRun,
                    input_generation: generation,
                })
            } else {
                sent == (RunRequest::Manual { decision, input_generation: generation })
            }
        }),
{
    lemma_meaning(m, id);
    reveal_strlit("accept");
    reveal_strlit("run");
    reveal_strlit("decline");
    reveal_strlit("cancel");
    reveal_strlit("reject");
    reveal_strlit("detail");
    reveal_strlit("page");
    assert("accept"@.len() == 6 && "run"@.len() == 3 && "decline"@.len() == 7 && "cancel"@.len() == 6 && "reject"@.len() == 6 && "detail"@.len() == 6 && "page"@.len() == 4);
    assert("accept"@[0] != "cancel"@[0]);
    assert("accept"@[0] != "reject"@[0]);
    assert("accept"@[0] != "detail"@[0]);
    assert("cancel"@[0] != "reject"@[0]);
    assert("cancel"@[0] != "detail"@[0]);
    assert("reject"@[0] != "detail"@[0]);
}

/// Declining is possible without opening anything, wherever the request can be declined; accepting
/// once the last page was opened, wherever it can be accepted.
pub proof fn decisions_can_be_pressed(
    m: Meaning,
    id: Seq<char>,
    custom: &str,
    card: &ApprovalCard,
    thread: &str,
    active: Option<&str>,
    declineable: bool,
    answerable: bool,
    pages: Result<Vec<String>, &'static str>,
    r: ButtonStep,
)
    requires
        unseparated(id, ':'),
        custom@ == button_id(m, id),
        call_ensures(DirectCoordinator::declineable, (&card.operation,), declineable),
        call_ensures(DirectCoordinator::answerable, (&card.operation,), answerable),
        call_ensures(approval_detail, (&card.operation,), pages),
        call_ensures(approval_button, (custom, Some(card), thread, active), r),
        card.thread_id@ == thread@,
        active is Some && active->0@ == card.request_id@,
    ensures
        m is Decline && declineable ==> r is Send,
        m is Decline && !declineable ==> r is Answer,
        m is Accept && !answerable ==> r is Answer,
        m is Accept && answerable && card.highest_viewed_page is Some
            && card.highest_viewed_page->0 + 1 == pages->Ok_0@.len() ==> r is Send,
        m is Accept && card.highest_viewed_page is None ==> r is Answer,
        m is Accept && card.highest_viewed_page is Some && card.highest_viewed_page->0 + 1
            < pages->Ok_0@.len() ==> r is Answer,
{
    lemma_meaning(m, id);
    reveal_strlit("accept");
    reveal_strlit("run");
    reveal_strlit("decline");
    reveal_strlit("cancel");
    reveal_strlit("reject");
    reveal_strlit("detail");
    reveal_strlit("page");
    assert("accept"@.len() == 6 && "run"@.len() == 3 && "decline"@.len() == 7 && "cancel"@.len() == 6 && "reject"@.len() == 6 && "detail"@.len() == 6 && "page"@.len() == 4);
    assert("accept"@[0] != "cancel"@[0]);
    assert("accept"@[0] != "reject"@[0]);
    assert("accept"@[0] != "detail"@[0]);
    assert("cancel"@[0] != "reject"@[0]);
    assert("cancel"@[0] != "detail"@[0]);
    assert("reject"@[0] != "detail"@[0]);
    assert(views(pages->Ok_0@).len() == pages->Ok_0@.len());
}

/// Opening the details shows the first page, privately; a page button shows that very page in its
/// place.
pub proof fn pages_are_shown_as_asked(
    id: Seq<char>,
    page: nat,
    first: bool,
    custom: &str,
    card: &ApprovalCard,
    thread: &str,
    active: Option<&str>,
    pages: Result<Vec<String>, &'static str>,
    r: ButtonStep,
)
    requires
        unseparated(id, ':'),
        first ==> page == 0 && custom@ == "direct:detail:"@ + id,
        !first ==> custom@ == "direct:page:"@ + id + ":"@ + decimal(page),
        page <= usize::MAX,
        call_ensures(approval_detail, (&card.operation,), pages),
        call_ensures(approval_button, (custom, Some(card), thread, active), r),
        card.thread_id@ == thread@,
    ensures
        first ==> r is Show,
        !first ==> (r is Show <==> page < pages->Ok_0@.len() && card.highest_viewed_page is Some
            && page <= card.highest_viewed_page->0 + 1),
        r is Show ==> r->page == page && r->callback@.at("data"@).at("content"@).says(
            pages->Ok_0@[page as int]@,
        ),
        r is Show && first ==> r->callback@.at("type"@) == JsonView::Unsigned(4)
            && r->callback@.at("data"@).at("flags"@) == JsonView::Unsigned(64),
        r is Show && !first ==> r->callback@.at("type"@) == JsonView::Unsigned(7),
{
    reveal_strlit("detail");
    reveal_strlit("page");
    assert("detail"@.len() == 6 && "page"@.len() == 4);
    reveal_strlit("direct:");
    reveal_strlit(":");
    reveal_strlit("direct:detail:");
    reveal_strlit("direct:page:");
    assert("direct:detail:"@ =~= "direct:"@ + "detail"@ + ":"@);
    assert("direct:page:"@ =~= "direct:"@ + "page"@ + ":"@);
    if first {
        card_buttons_are_read_back("detail"@, id);
    } else {
        page_buttons_are_read_back("page"@, id, page);
        lemma_unsigned_round_trip(page, usize::MAX as nat);
    }
    assert(views(pages->Ok_0@).len() == pages->Ok_0@.len());
    if r is Show {
        assert(views(pages->Ok_0@)[page as int] == pages->Ok_0@[page as int]@);
        reveal_strlit("data");
        reveal_strlit("type");
        reveal_strlit("allowed_mentions");
        reveal_strlit("components");
        reveal_strlit("content");
        reveal_strlit("flags");
        assert("data"@.len() == 4 && "type"@.len() == 4 && "allowed_mentions"@.len() == 16 && "components"@.len() == 10 && "content"@.len() == 7 && "flags"@.len() == 5);
        assert("data"@[0] != "type"@[0]);
        let m = r->callback@->Object_0;
        assert(m[0].0 == "data"@ && m[1].0 == "type"@);
        assert(m.drop_first()[0] == m[1]);
        reveal_with_fuel(lookup, 5);
        let d = m[0].1->Object_0;
        assert(d[0].0 == "allowed_mentions"@ && d[1].0 == "components"@ && d[2].0 == "content"@);
        assert(d.drop_first()[0] == d[1] && d.drop_first().drop_first()[0] == d[2]);
        if first {
            assert(d.drop_first().drop_first().drop_first()[0] == d[3]);
        }
    }
}

/// Whether a row of buttons holds one with a label and an identity.
pub open spec fn offers(buttons: Seq<JsonView>, label: Seq<char>, id: Seq<char>) -> bool {
    exists|i: int|
        0 <= i < buttons.len() && (#[trigger] buttons[i]).at("label"@).says(label) && buttons[i].at(
            "custom_id"@,
        ).says(id)
}

proof fn lemma_button(id: Seq<char>, label: Seq<char>, style: u64)
    ensures
        crate::components::button_view(id, label, style).at("label"@).says(label),
        crate::components::button_view(id, label, style).at("custom_id"@).says(id),
{
    reveal_strlit("custom_id");
    reveal_strlit("label");
    assert("custom_id"@.len() == 9 && "label"@.len() == 5);
    let m = crate::components::button_view(id, label, style)->Object_0;
    assert(m[0].0 == "custom_id"@ && m[1].0 == "label"@);
    assert(m.drop_first()[0] == m[1]);
    reveal_with_fuel(lookup, 3);
}

/// Below a page that is not the last, what is offered leads on and allows nothing; below the last
/// page the operation can be accepted, where it can be accepted at all, and its tool for the run,
/// where it can be permitted.
pub proof fn acceptance_is_offered_last(v: InteractionView, card: Seq<char>, page: nat, total: nat)
    requires
        page < total,
    ensures
        page + 1 < total ==> offers(
            page_buttons(v, card, page, total),
            "次へ"@,
            "direct:page:"@ + card + ":"@ + decimal(page + 1),
        ),
        page > 0 ==> offers(
            page_buttons(v, card, page, total),
            "前へ"@,
            "direct:page:"@ + card + ":"@ + decimal((page - 1) as nat),
        ),
        page + 1 == total && crate::direct_menus::can_accept(v) ==> offers(
            page_buttons(v, card, page, total),
            "今回だけ許可"@,
            button_id(Meaning::Accept, card),
        ),
        page + 1 == total && crate::direct_menus::can_accept(v) && grantable(v) is Some ==> offers(
            page_buttons(v, card, page, total),
            "この依頼中、このツールを許可"@,
            button_id(Meaning::AcceptForRun, card),
        ),
        crate::direct_menus::can_decline(v) ==> offers(
            page_buttons(v, card, page, total),
            "拒否"@,
            button_id(Meaning::Decline, card),
        ),
        !crate::direct_menus::can_decline(v) && crate::direct_menus::can_cancel(v) ==> offers(
            page_buttons(v, card, page, total),
            "取り消し"@,
            button_id(Meaning::Cancel, card),
        ),
{
    let all = page_buttons(v, card, page, total);
    let next = "direct:page:"@ + card + ":"@ + decimal(page + 1);
    lemma_button(next, "次へ"@, 1);
    if page > 0 {
        let back = "direct:page:"@ + card + ":"@ + decimal((page - 1) as nat);
        lemma_button(back, "前へ"@, 2);
        assert(all[0] == crate::components::button_view(back, "前へ"@, 2));
        assert(offers(all, "前へ"@, back));
    }
    let at: int = if page > 0 {
        1
    } else {
        0
    };
    if page + 1 < total {
        assert(all[at] == crate::components::button_view(next, "次へ"@, 1));
        assert(offers(all, "次へ"@, next));
    }
    lemma_button(button_id(Meaning::Accept, card), "今回だけ許可"@, 3);
    lemma_button(button_id(Meaning::AcceptForRun, card), "この依頼中、このツールを許可"@, 3);
    lemma_button(button_id(Meaning::Decline, card), "拒否"@, 4);
    lemma_button(button_id(Meaning::Cancel, card), "取り消し"@, 4);
    if page + 1 == total && crate::direct_menus::can_accept(v) {
        assert(all[at].at("label"@).says("今回だけ許可"@));
        if grantable(v) is Some {
            assert(all[at + 1].at("label"@).says("この依頼中、このツールを許可"@));
        }
    }
    let last = all.len() - 1;
    if crate::direct_menus::can_decline(v) {
        assert(all[last].at("label"@).says("拒否"@));
    } else if crate::direct_menus::can_cancel(v) {
        assert(all[last].at("label"@).says("取り消し"@));
    }
}

/// The public card offers to open the details and to end the request, and nothing that accepts it.
pub proof fn cards_offer_no_acceptance(
    i: &DirectInteraction,
    id: &str,
    rejection: Json,
    r: (String, Json),
)
    requires
        call_ensures(DirectCoordinator::rejection_button, (i, id), rejection),
        call_ensures(DirectCoordinator::show_approval, (i, id), r),
    ensures
        exists|detail: JsonView|
            r.1@ == row_view(seq![detail, rejection@]) && #[trigger] detail.at("custom_id"@).says(
                "direct:detail:"@ + id@,
            ),
        crate::direct_menus::can_decline(i@) ==> rejection@.at("custom_id"@).says(
            button_id(Meaning::Decline, id@),
        ),
        !crate::direct_menus::can_decline(i@) && crate::direct_menus::can_cancel(i@)
            ==> rejection@.at("custom_id"@).says(button_id(Meaning::Cancel, id@)),
        !crate::direct_menus::can_decline(i@) && !crate::direct_menus::can_cancel(i@)
            ==> rejection@.at("custom_id"@).says(button_id(Meaning::Unsupported, id@)),
{
    lemma_button("direct:detail:"@ + id@, "自分だけに表示して確認"@, 1);
    lemma_button(button_id(Meaning::Decline, id@), "拒否"@, 4);
    lemma_button(button_id(Meaning::Cancel, id@), "取り消し"@, 4);
    lemma_button(button_id(Meaning::Unsupported, id@), "未対応の確認を終了"@, 4);
    let detail = crate::components::button_view("direct:detail:"@ + id@, "自分だけに表示して確認"@, 1);
    assert(detail.at("custom_id"@).says("direct:detail:"@ + id@));
}

/// What can be done with a command or file change is what the app server offers, and everything where
/// it does not say.
pub proof fn offered_decisions_are_possible(i: &DirectInteraction, a: bool, d: bool, c: bool)
    requires
        call_ensures(DirectCoordinator::answerable, (i,), a),
        call_ensures(DirectCoordinator::declineable, (i,), d),
        call_ensures(DirectCoordinator::cancelable, (i,), c),
        i.kind == InteractionKind::CommandApproval || i.kind == InteractionKind::FileChangeApproval,
    ensures
        i@.params.get("availableDecisions"@) is None ==> a && d && c,
        i@.params.get("availableDecisions"@) is Some && i@.params.at("availableDecisions"@) is Array
            ==> a == i@.params.at("availableDecisions"@).lists("accept"@) && d == i@.params.at(
            "availableDecisions"@,
        ).lists("decline"@) && c == i@.params.at("availableDecisions"@).lists("cancel"@),
{
}

/// The details name the arguments of the call as Codex gave them, before anything is escaped.
pub proof fn details_hold_the_arguments(v: InteractionView, e: JsonView)
    requires
        v.evidence == Some(e) || (v.evidence is None && e == JsonView::Null),
    ensures
        v.kind == InteractionKind::McpElicitation && crate::direct_menus::can_accept(v) ==> holds(
            detail_text(v),
            crate::codec::indented(
                crate::codec::document(v.params.at("_meta"@).at("tool_params"@)),
            ),
        ),
        v.kind == InteractionKind::CommandApproval || v.kind == InteractionKind::FileChangeApproval
            ==> holds(
            detail_text(v),
            crate::codec::indented(
                crate::codec::document(
                    JsonView::Object(
                        seq![
                            ("matched_mcp_call"@, e),
                            ("upstream_request"@, v.params),
                        ],
                    ),
                ),
            ),
        ),
{
    let t = detail_text(v);
    let p = v.params;
    if v.kind == InteractionKind::McpElicitation && crate::direct_menus::can_accept(v) {
        let a = crate::codec::indented(crate::codec::document(p.at("_meta"@).at("tool_params"@)));
        let head = "MCPツール実行の確認（本人限定）\nサーバー: "@ + crate::direct_menus::text_or(
            p.at("serverName"@),
            "不明"@,
        ) + "\nツール: "@ + crate::direct_menus::text_or(
            crate::direct_menus::evidence_or_null(v).at("tool"@),
            crate::direct_menus::text_or(p.at("message"@), "ツール名を確認できません"@),
        ) + "\n実引数（Codexからの原文）:\n"@;
        assert(t.subrange(head.len() as int, head.len() as int + a.len()) =~= a);
    }
    if v.kind == InteractionKind::CommandApproval || v.kind == InteractionKind::FileChangeApproval {
        let a = crate::codec::indented(
            crate::codec::document(
                JsonView::Object(
                    seq![
                        ("matched_mcp_call"@, e),
                        ("upstream_request"@, v.params),
                    ],
                ),
            ),
        );
        let head = "Codexが求めた操作の実引数（本人限定）:\n"@;
        assert(crate::direct_menus::evidence_or_null(v) == e);
        assert(t.subrange(head.len() as int, head.len() as int + a.len()) =~= a);
        assert(holds(t, a));
    }
}

/// A request of the app server is taken for what its method says, for this thread and turn only, and
/// with everything that it carries.
pub proof fn requests_are_what_their_method_says(
    event: &Event,
    run: &TurnIdentity,
    r: Result<Option<DirectInteraction>, &'static str>,
)
    requires
        call_ensures(DirectInteraction::from_event, (event, run), r),
        event@ is ServerRequest,
        r is Ok,
    ensures
        ({
            let method = event@->ServerRequest_1;
            let params = event@->ServerRequest_2;
            let kind = r->Ok_0->0.kind;
            &&& r->Ok_0 is Some <==> method == "item/commandExecution/requestApproval"@ || method
                == "item/fileChange/requestApproval"@ || method == "item/tool/requestUserInput"@
                || method == "tool/requestUserInput"@ || method
                == "item/permissions/requestApproval"@ || method == "mcpServer/elicitation/request"@
                || method == "item/tool/call"@
            &&& r->Ok_0 is Some ==> {
                &&& kind == InteractionKind::CommandApproval <==> method
                    == "item/commandExecution/requestApproval"@
                &&& kind == InteractionKind::FileChangeApproval <==> method
                    == "item/fileChange/requestApproval"@
                &&& kind == InteractionKind::UserInput <==> method == "item/tool/requestUserInput"@
                    || method == "tool/requestUserInput"@
                &&& kind == InteractionKind::PermissionsApproval <==> method
                    == "item/permissions/requestApproval"@
                &&& kind == InteractionKind::McpElicitation <==> method
                    == "mcpServer/elicitation/request"@
                &&& kind == InteractionKind::DynamicTool <==> method == "item/tool/call"@
                &&& r->Ok_0->0.rpc_id@ == event@->ServerRequest_0
                &&& r->Ok_0->0.method@ == method
                &&& r->Ok_0->0.params@ == params
                &&& r->Ok_0->0.thread_id@ == run.thread_id@
                &&& r->Ok_0->0.turn_id@ == run.turn_id@
                &&& params.at("threadId"@).says(run.thread_id@)
                &&& kind != InteractionKind::McpElicitation ==> params.at("turnId"@).says(
                    run.turn_id@,
                )
                &&& r->Ok_0->0.mcp_evidence is None
            }
        }),
{
    reveal_strlit("item/commandExecution/requestApproval");
    reveal_strlit("item/fileChange/requestApproval");
    reveal_strlit("item/tool/requestUserInput");
    reveal_strlit("tool/requestUserInput");
    reveal_strlit("item/permissions/requestApproval");
    reveal_strlit("mcpServer/elicitation/request");
    reveal_strlit("item/tool/call");
    assert("item/commandExecution/requestApproval"@.len() == 37 && "item/fileChange/requestApproval"@.len() == 31 && "item/tool/requestUserInput"@.len() == 26 && "tool/requestUserInput"@.len() == 21 && "item/permissions/requestApproval"@.len() == 32 && "mcpServer/elicitation/request"@.len() == 29 && "item/tool/call"@.len() == 14);
}

/// Evidence is the call that the request asks about: for a question the call it names, for a form the
/// call of the server and tool that its message names, with the same arguments.
pub proof fn evidence_is_of_the_call(
    i: &mut DirectInteraction,
    item: Json,
    r: Result<(), &'static str>,
)
    requires
        call_ensures(DirectInteraction::bind_mcp_evidence, (i, item), r),
        r is Ok,
    ensures
        final(i)@.evidence == Some(item@),
        final(i)@.params == old(i)@.params,
        final(i)@.kind == old(i)@.kind,
        old(i)@.kind == InteractionKind::UserInput || old(i)@.kind == InteractionKind::McpElicitation,
        item@.at("type"@).says("mcpToolCall"@),
        old(i)@.kind == InteractionKind::UserInput ==> item@.at("id"@).text() == old(i)@.item_id,
        old(i)@.kind == InteractionKind::McpElicitation ==> {
            &&& alike(old(i)@.params.at("serverName"@), item@.at("server"@))
            &&& alike(old(i)@.params.at("_meta"@).at("tool_params"@), item@.at("arguments"@))
            &&& old(i)@.params.at("message"@).says(
                "Allow the "@ + item@.at("server"@).text()->0 + " MCP server to run tool \""@
                    + item@.at("tool"@).text()->0 + "\"?"@,
            )
        },
{
}

/// A tool is permitted for a run only as a form about a verified call: for the server and tool of
/// that call, and never where its name speaks of code, deletion, money or secrets.
pub proof fn run_permissions_are_for_harmless_tools(
    i: &DirectInteraction,
    r: Option<(String, String)>,
    word: Seq<char>,
)
    requires
        call_ensures(DirectInteraction::run_grant_tool, (i,), r),
        r is Some,
        word == "unsafe"@ || word == "evaluate"@ || word == "run_code"@ || word == "execute"@
            || word == "eval"@ || word == "delete"@ || word == "remove"@ || word == "purchase"@
            || word == "payment"@ || word == "secret"@ || word == "password"@,
    ensures
        i.kind == InteractionKind::McpElicitation,
        i@.evidence is Some,
        i@.evidence->0.at("server"@).says((r->0).0@),
        i@.evidence->0.at("tool"@).says((r->0).1@),
        i@.params.at("_meta"@).at("persist"@).lists("session"@),
        !holds(folded((r->0).1@), word),
{
}

/// A decision on a card from before the newest instructions is refused, and no other.
pub proof fn old_cards_decide_nothing(card: u64, current: u64, r: Result<(), &'static str>)
    requires
        call_ensures(check_generation, (card, current), r),
    ensures
        card < current ==> r is Err && holds(r->Err_0@, "earlier input generation"@),
        card >= current ==> r is Ok,
{
    reveal_strlit("approval belongs to an earlier input generation");
    reveal_strlit("earlier input generation");
    let s = "approval belongs to an earlier input generation"@;
    let p = "earlier input generation"@;
    assert(s.len() == 47 && p.len() == 24);
    assert(s.subrange(23, 23int + p.len()) =~= p);
}

} // verus!
