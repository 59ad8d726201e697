//! What the buttons on cards lead to: their identities are read back as they were written.
use crate::direct_approval::{
    kind_of, manual_reply, tool_reply, InteractionView,
};
use crate::direct_buttons::{button_of, request_for, RunRequest};
use crate::direct_commands::{
    direct_command, recovery_identity, recovery_objection, user_route, DirectCommandView,
    DirectRoute,
};
use crate::direct_interaction_store::{all_texts, reply_objection, InteractionRecordView, ReplyState};
use crate::direct_store::{DirectRecoveryOffer, SendState};
use crate::discord::direct_commands;
use crate::json::{lookup, JsonView};
use crate::mcp_details::{turn_route, TurnRouteView};
use crate::mcp_grants::McpRecord;
use crate::mcp_inline::{details_id, inline_route};
use crate::numbers::{decimal, lemma_signed_round_trip, lemma_unsigned_round_trip, signed_decimal};
use crate::text::{lemma_pieces_join, lemma_pieces_plain, pieces, unseparated};
use vstd::prelude::*;
use vstd::string::*;

verus! {

proof fn lemma_two(a: Seq<char>, b: Seq<char>)
    requires
        unseparated(a, ':'),
        unseparated(b, ':'),
    ensures
        pieces(a + ":"@ + b, ':') == seq![a, b],
{
    reveal_strlit(":");
    assert(":"@ =~= seq![':']);
    lemma_pieces_plain(a, ':');
    lemma_pieces_join(a, b, ':');
    assert(seq![a].push(b) =~= seq![a, b]);
}

proof fn lemma_three(a: Seq<char>, b: Seq<char>, c: Seq<char>)
    requires
        unseparated(a, ':'),
        unseparated(b, ':'),
        unseparated(c, ':'),
    ensures
        pieces(a + ":"@ + b + ":"@ + c, ':') == seq![a, b, c],
{
    reveal_strlit(":");
    assert(":"@ =~= seq![':']);
    lemma_two(a, b);
    lemma_pieces_join(a + ":"@ + b, c, ':');
    assert(seq![a, b].push(c) =~= seq![a, b, c]);
}

proof fn lemma_four(a: Seq<char>, b: Seq<char>, c: Seq<char>, d: Seq<char>)
    requires
        unseparated(a, ':'),
        unseparated(b, ':'),
        unseparated(c, ':'),
        unseparated(d, ':'),
    ensures
        pieces(a + ":"@ + b + ":"@ + c + ":"@ + d, ':') == seq![a, b, c, d],
{
    reveal_strlit(":");
    assert(":"@ =~= seq![':']);
    lemma_three(a, b, c);
    lemma_pieces_join(a + ":"@ + b + ":"@ + c, d, ':');
    assert(seq![a, b, c].push(d) =~= seq![a, b, c, d]);
}

/// The button of an action on a card is read as that action on that card.
pub proof fn card_buttons_are_read_back(action: Seq<char>, card: Seq<char>)
    requires
        unseparated(action, ':'),
        unseparated(card, ':'),
    ensures
        button_of("direct:"@ + action + ":"@ + card) == Some((action, card, None::<Seq<char>>)),
{
    reveal_strlit("direct");
    reveal_strlit("direct:");
    reveal_strlit(":");
    assert("direct:"@ =~= "direct"@ + ":"@);
    lemma_three("direct"@, action, card);
    let p = seq!["direct"@, action, card];
    assert(p[0] == "direct"@ && p[1] == action && p[2] == card);
}

/// The button of a page of a card is read as that page of that card.
pub proof fn page_buttons_are_read_back(action: Seq<char>, card: Seq<char>, page: nat)
    requires
        unseparated(action, ':'),
        unseparated(card, ':'),
    ensures
        button_of("direct:"@ + action + ":"@ + card + ":"@ + decimal(page)) == Some(
            (action, card, Some(decimal(page))),
        ),
{
    reveal_strlit("direct");
    reveal_strlit("direct:");
    reveal_strlit(":");
    assert("direct:"@ =~= "direct"@ + ":"@);
    lemma_unsigned_round_trip(page, page);
    lemma_four("direct"@, action, card, decimal(page));
    let p = seq!["direct"@, action, card, decimal(page)];
    assert(p[0] == "direct"@ && p[1] == action && p[2] == card && p[3] == decimal(page));
}

/// What is stored of an interaction when it is first shown.
pub open spec fn first_stored(v: InteractionView) -> InteractionRecordView {
    InteractionRecordView {
        fingerprint: v.fingerprint,
        method: v.method,
        state: ReplyState::Pending,
        offered: v.params.get("availableDecisions"@),
    }
}

/// A decision that a button stands for is taken by the store while the turn runs: a question or a
/// form about a tool takes every decision for which there is a reply, and so does a command or file
/// change whose offered decisions, where it names any, are texts.
pub proof fn decisions_with_a_reply_are_taken(v: InteractionView, action: Seq<char>, generation: u64)
    requires
        kind_of(v.method) == Some(v.kind),
        match request_for(action, v.kind, generation) {
            RunRequest::Tool { decision, .. } => tool_reply(v, decision) is Ok,
            RunRequest::Manual { decision, .. } => manual_reply(v, decision) is Ok && (v.params.get(
                "availableDecisions"@,
            ) is None || all_texts(v.params.get("availableDecisions"@)->0)),
            RunRequest::Reject { .. } => false,
        },
    ensures
        match request_for(action, v.kind, generation) {
            RunRequest::Tool { decision, .. } => reply_objection(
                first_stored(v),
                v.fingerprint,
                SendState::Acked,
                decision,
                true,
            ) is None,
            RunRequest::Manual { decision, .. } => reply_objection(
                first_stored(v),
                v.fingerprint,
                SendState::Acked,
                decision,
                false,
            ) is None,
            RunRequest::Reject { .. } => true,
        },
{
}

/// Every command that is registered is served: none of them ends in the answer that a command is not
/// available.
pub proof fn registered_commands_are_served(v: JsonView, i: int, limit: nat)
    requires
        0 <= i < direct_commands().len(),
        v.at("data"@).at("custom_id"@).text() is None,
        v.at("data"@).at("name"@) == direct_commands()[i].at("name"@),
    ensures
        user_route(v) == DirectRoute::RecoveryMenu || direct_command(v, limit) != Ok::<
            DirectCommandView,
            Seq<char>,
        >(DirectCommandView::Unavailable),
{
    reveal_strlit("description");
    reveal_strlit("name");
    reveal_strlit("options");
    assert("description"@.len() == 11 && "name"@.len() == 4 && "options"@.len() == 7);
    reveal_with_fuel(lookup, 3);
    let c = direct_commands()[i];
    let m = c->Object_0;
    assert(m[0].0 == "description"@ && m[1].0 == "name"@);
    assert(m.drop_first()[0] == m[1]);
    assert(c.at("name"@) == m[1].1);
}

/// The button of a recovery confirms exactly the recovery that it was shown for: it is accepted while
/// that is still offered, and refused once anything in the offer changed.
pub proof fn recoveries_are_confirmed_as_offered(o: DirectRecoveryOffer, now: DirectRecoveryOffer)
    requires
        o.request_id@.len() > 0,
        unseparated(o.request_id@, ':'),
        o.generation >= 0,
    ensures
        recovery_objection(recovery_identity(o), false, Some(now)) is None <==> now.request_id@
            == o.request_id@ && now.generation == o.generation && now.pause_revision
            == o.pause_revision && now.next_sequence == o.next_sequence,
{
    let prefix = "direct:recover:"@;
    let g = signed_decimal(o.generation as int);
    let p = signed_decimal(o.pause_revision as int);
    let n = signed_decimal(o.next_sequence as int);
    lemma_signed_round_trip(o.generation as int);
    lemma_signed_round_trip(o.pause_revision as int);
    lemma_signed_round_trip(o.next_sequence as int);
    lemma_four(o.request_id@, g, p, n);
    let rest = o.request_id@ + ":"@ + g + ":"@ + p + ":"@ + n;
    let custom = recovery_identity(o);
    assert(custom =~= prefix + rest);
    assert(custom.skip(prefix.len() as int) =~= rest);
    assert(custom.take(prefix.len() as int) =~= prefix);
    let all = seq![o.request_id@, g, p, n];
    assert(all[0] == o.request_id@ && all[1] == g && all[2] == p && all[3] == n);
}

/// The buttons on the pages of an operation lead to the pages and permissions that they name.
pub proof fn details_buttons_are_read_back(view: Seq<char>, page: nat, chosen: Option<Seq<char>>)
    requires
        unseparated(view, ':'),
        page <= usize::MAX,
    ensures
        turn_route("mt:page:"@ + view + ":"@ + decimal(page), chosen, false) == Ok::<
            TurnRouteView,
            Seq<char>,
        >(TurnRouteView::Page(view, page)),
        turn_route("mt:once:"@ + view, chosen, false) == Ok::<TurnRouteView, Seq<char>>(
            TurnRouteView::Permit(view, false),
        ),
        turn_route("mt:turn:"@ + view, chosen, false) == Ok::<TurnRouteView, Seq<char>>(
            TurnRouteView::Permit(view, true),
        ),
{
    reveal_strlit(":");
    reveal_strlit("mt");
    reveal_strlit("page");
    reveal_strlit("once");
    reveal_strlit("turn");
    reveal_strlit("details");
    reveal_strlit("grants");
    reveal_strlit("revoke");
    reveal_strlit("revoke-menu");
    reveal_strlit("mt:page:");
    reveal_strlit("mt:once:");
    reveal_strlit("mt:turn:");
    assert("mt:page:"@ =~= "mt"@ + ":"@ + "page"@ + ":"@);
    assert("mt:once:"@ =~= "mt"@ + ":"@ + "once"@ + ":"@);
    assert("mt:turn:"@ =~= "mt"@ + ":"@ + "turn"@ + ":"@);
    assert("page"@[0] == 'p' && "once"@[0] == 'o' && "turn"@[0] == 't');
    lemma_unsigned_round_trip(page, usize::MAX as nat);
    lemma_four("mt"@, "page"@, view, decimal(page));
    lemma_three("mt"@, "once"@, view);
    lemma_three("mt"@, "turn"@, view);
    let a = seq!["mt"@, "page"@, view, decimal(page)];
    assert(a[0] == "mt"@ && a[1] == "page"@ && a[2] == view && a[3] == decimal(page));
    let b = seq!["mt"@, "once"@, view];
    assert(b[0] == "mt"@ && b[1] == "once"@ && b[2] == view);
    let c = seq!["mt"@, "turn"@, view];
    assert(c[0] == "mt"@ && c[1] == "turn"@ && c[2] == view);
}

/// The button that opens the details of a request names that request at that revision.
pub proof fn details_are_opened_as_named(rec: McpRecord, chosen: Option<Seq<char>>)
    requires
        unseparated(rec.id@, ':'),
    ensures
        turn_route(details_id(rec), chosen, false) == Ok::<TurnRouteView, Seq<char>>(
            TurnRouteView::Details(rec.id@, rec.revision),
        ),
{
    reveal_strlit(":");
    reveal_strlit("mt");
    reveal_strlit("details");
    reveal_strlit("mt:details:");
    assert("mt:details:"@ =~= "mt"@ + ":"@ + "details"@ + ":"@);
    let n = signed_decimal(rec.revision as int);
    lemma_signed_round_trip(rec.revision as int);
    lemma_four("mt"@, "details"@, rec.id@, n);
    let a = seq!["mt"@, "details"@, rec.id@, n];
    assert(a[0] == "mt"@ && a[1] == "details"@ && a[2] == rec.id@ && a[3] == n);
}

/// The buttons on a card in the conversation name its view.
pub proof fn inline_buttons_are_read_back(view: Seq<char>)
    requires
        unseparated(view, ':'),
    ensures
        inline_route(Some("mi:"@ + view + ":once"@), false) == Ok::<(Seq<char>, bool), Seq<char>>(
            (view, false),
        ),
        inline_route(Some("mi:"@ + view + ":turn"@), false) == Ok::<(Seq<char>, bool), Seq<char>>(
            (view, true),
        ),
{
    reveal_strlit(":");
    reveal_strlit("mi");
    reveal_strlit("mi:");
    reveal_strlit("once");
    reveal_strlit("turn");
    reveal_strlit(":once");
    reveal_strlit(":turn");
    assert("mi:"@ =~= "mi"@ + ":"@);
    assert(":once"@ =~= ":"@ + "once"@);
    assert(":turn"@ =~= ":"@ + "turn"@);
    assert("once"@[0] == 'o' && "turn"@[0] == 't');
    lemma_three("mi"@, view, "once"@);
    lemma_three("mi"@, view, "turn"@);
    assert("mi:"@ + view + ":once"@ =~= "mi"@ + ":"@ + view + ":"@ + "once"@);
    assert("mi:"@ + view + ":turn"@ =~= "mi"@ + ":"@ + view + ":"@ + "turn"@);
    let a = seq!["mi"@, view, "once"@];
    assert(a[0] == "mi"@ && a[1] == view && a[2] == "once"@);
    let b = seq!["mi"@, view, "turn"@];
    assert(b[0] == "mi"@ && b[1] == view && b[2] == "turn"@);
}

} // verus!
