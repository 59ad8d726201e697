//! What the user permits of the tools of servers behind a proxy, once, for a run, or in a form.
use crate::json::{alike, lookup, Json, JsonView};
use crate::mcp_details::{
    check_mcp_view, check_permit, check_press, handle_mcp_turn, show_mcp_details,
    turn_reply, DetailView, DetailsPage, TurnRoute,
};
use crate::mcp_form::{parse_value, validate_answers, validate_scalar};
use crate::mcp_grant_menu::{
    check_listing, check_selection, check_stored, grant_list, judge_revoke, refresh_mcp_revoke,
    revoke_mcp_grant, revoke_reply, GrantMenu, RevokeOutcome, RevokePlan,
};
use crate::mcp_grants::{
    mcp_operation, scope_matches, turn_eligible, Capabilities, McpRecord, ScopeFacts,
};
use crate::mcp_inline::{
    accepted_card, check_confirmed, check_token, confirm_press, handle_inline_mcp, show_inline, Card,
    InlineStep, Receipt,
};
use crate::text::{pieces, trimmed, utf8_len};
use vstd::prelude::*;

verus! {

/// A tool is permitted for a whole run only where the proxy says that it may be, its call is verified
/// and shown whole; tools that run arbitrary code never are.
pub proof fn run_permissions_are_for_verified_tools(v: &Json, caps: Capabilities, r: bool)
    requires
        call_ensures(turn_eligible, (v, caps), r),
        r,
    ensures
        caps.details,
        caps.turn,
        v@.at("turn_grant_eligible"@) == JsonView::Bool(true),
        v@.at("binding_status"@) == JsonView::Text("verified"@),
        v@.at("unavailable_reason"@) == JsonView::Null,
        v@.at("ineligible_reason"@) == JsonView::Null,
        v@.at("redacted_paths"@) == JsonView::Array(Seq::empty()),
        v@.at("tool"@) is Text,
        v@.at("tool"@) != JsonView::Text("browser_evaluate"@),
        v@.at("tool"@) != JsonView::Text("browser_run_code_unsafe"@),
{
}

/// An operation is permitted only where its call is shown, and for a whole run only where nothing of it
/// is masked and the tool may be.
pub proof fn only_shown_operations_are_permitted(
    v: &Json,
    turn: bool,
    masked: bool,
    caps: Capabilities,
    r: Result<(), &'static str>,
    eligible: bool,
)
    requires
        call_ensures(check_permit, (v, turn, masked, caps), r),
        call_ensures(turn_eligible, (v, caps), eligible),
    ensures
        r is Ok <==> {
            &&& v@.at("binding_status"@) == JsonView::Text("verified"@)
            &&& v@.at("unavailable_reason"@) == JsonView::Null
            &&& v@.at("arguments"@) is Object
            &&& turn ==> !masked && eligible
        },
{
}

/// Only the allowed user presses the buttons, in the guild.
pub proof fn only_the_user_presses(
    event: &Json,
    guild: &str,
    user: &str,
    r: Result<(), &'static str>,
)
    requires
        call_ensures(check_press, (event, guild, user), r),
    ensures
        r is Ok <==> event@.at("type"@) == JsonView::Unsigned(3) && event@.at("guild_id"@)
            == JsonView::Text(guild@) && event@.at("member"@).at("user"@).at("id"@)
            == JsonView::Text(user@),
{
}

/// Details permit only what they show: this operation, for this user, unchanged and not expired.
pub proof fn old_details_permit_nothing(
    d: &DetailView,
    local: &str,
    user: &str,
    revision: i64,
    fingerprint: &str,
    scope: &str,
    now: i64,
    r: Result<(), &'static str>,
)
    requires
        call_ensures(check_mcp_view, (d, local, user, revision, fingerprint, scope, now), r),
    ensures
        r is Ok <==> d.interaction@ == local@ && d.viewer@ == user@ && d.revision == revision
            && d.fingerprint@ == fingerprint@ && d.scope_digest@ == scope@ && d.expires > now,
{
}

/// A button of the details does what it says: it permits once or for the run, of the view that it
/// names.
pub proof fn details_buttons_do_what_they_say(
    custom: &str,
    chosen: Option<&str>,
    recovering: bool,
    r: Result<TurnRoute, &'static str>,
)
    requires
        call_ensures(handle_mcp_turn, (custom, chosen, recovering), r),
    ensures
        ({
            let p = pieces(custom@, ':');
            &&& recovering ==> r is Err
            &&& r is Ok ==> p.len() >= 3 && p[0] == "mt"@
            &&& r is Ok && r->Ok_0 is Permit ==> p[2] == r->Ok_0->Permit_view@ && (r->Ok_0->turn
                <==> p[1] == "turn"@) && (!r->Ok_0->turn <==> p[1] == "once"@)
            &&& !recovering && p.len() >= 3 && p[0] == "mt"@ && (p[1] == "turn"@ || p[1] == "once"@)
                ==> r is Ok && r->Ok_0 is Permit
            &&& r is Ok && r->Ok_0 is Details ==> p[1] == "details"@ && p[2] == r->Ok_0->local@
            &&& r is Ok && r->Ok_0 is Grants ==> p[1] == "grants"@ && p[2] == r->Ok_0->request@
            &&& r is Ok && r->Ok_0 is Revoke && p[1] == "revoke"@ ==> p[2] == r->Ok_0->grant@
            &&& r is Ok && r->Ok_0 is Revoke && p[1] != "revoke"@ ==> p[1] == "revoke-menu"@
                && chosen is Some && chosen->0@ == r->Ok_0->grant@
            &&& !recovering && p.len() >= 3 && p[0] == "mt"@ && p[1] == "revoke"@ ==> r is Ok
                && r->Ok_0 is Revoke
        }),
{
    reveal_strlit("details");
    reveal_strlit("grants");
    reveal_strlit("revoke-menu");
    reveal_strlit("revoke");
    reveal_strlit("page");
    reveal_strlit("once");
    reveal_strlit("turn");
    assert("details"@.len() == 7 && "grants"@.len() == 6 && "revoke-menu"@.len() == 11 && "revoke"@.len() == 6 && "page"@.len() == 4 && "once"@.len() == 4 && "turn"@.len() == 4);
    assert("grants"@[0] != "revoke"@[0]);
    assert("page"@[0] != "once"@[0]);
    assert("page"@[0] != "turn"@[0]);
    assert("once"@[0] != "turn"@[0]);
    let k = r->Ok_0@;
}

/// The user is told that the permission was sent only where it was.
pub proof fn permissions_are_told_as_sent(handled: bool, r: &'static str)
    requires
        call_ensures(turn_reply, (handled,), r),
    ensures
        handled <==> r@
            == "許可の回答を送りました。作業結果は元の会話で確認してください。"@,
{
    reveal_strlit("許可の回答を送りました。作業結果は元の会話で確認してください。");
    reveal_strlit("操作を確認できませんでした。古い画面・期限・権限・Proxyの状態を確認するため、元のカードまたは /mcp から開き直してください。許可は自動再送しません。");
    assert("許可の回答を送りました。作業結果は元の会話で確認してください。"@.len() == 31 && "操作を確認できませんでした。古い画面・期限・権限・Proxyの状態を確認するため、元のカードまたは /mcp から開き直してください。許可は自動再送しません。"@.len() == 79);
}

/// An operation counts only where it is the one that was asked about, of this response and this turn,
/// at this revision.
pub proof fn operations_are_those_asked_about(
    v: &Json,
    rec: &McpRecord,
    revision: i64,
    f: &ScopeFacts,
    caps: Capabilities,
    r: Result<(), &'static str>,
)
    requires
        call_ensures(mcp_operation, (v, rec, revision, f, caps), r),
        r is Ok,
    ensures
        caps.details,
        revision >= 1,
        v@.at("interaction_id"@) == JsonView::Text(rec.remote@),
        v@.at("response_id"@) == JsonView::Text(rec.response@),
        v@.at("disclosure"@) == JsonView::Text("requester_only"@),
        f.turn_id is Some ==> v@.at("turn_id"@) == JsonView::Text(f.turn_id->0@),
        v@.at("binding_status"@) == JsonView::Text("verified"@) || v@.at("binding_status"@)
            == JsonView::Text("unavailable"@),
        v@.at("binding_status"@) == JsonView::Text("unavailable"@) ==> v@.at(
            "turn_grant_eligible"@,
        ) == JsonView::Bool(false),
        v@.at("arguments"@) == JsonView::Null || v@.at("arguments"@) is Object,
{
}

/// A permission counts only for the run that it was given for: same instance, response, turn,
/// conversation and folder.
pub proof fn scopes_are_of_their_run(scope: &Json, f: &ScopeFacts, r: Result<(), &'static str>)
    requires
        call_ensures(scope_matches, (scope, f), r),
        r is Ok,
    ensures
        scope@.at("instance_id"@) == JsonView::Text(f.instance_id@),
        scope@.at("recovery_generation"@) == JsonView::Text(f.generation@),
        scope@.at("conversation_id"@) == JsonView::Text(f.conversation_id@),
        scope@.at("workspace_id"@) == JsonView::Text(f.workspace_id@),
        f.response_id is Some ==> scope@.at("response_id"@) == JsonView::Text(f.response_id->0@),
        f.turn_id is Some ==> scope@.at("turn_id"@) == JsonView::Text(f.turn_id->0@),
        alike(scope@.at("context"@), f.context@),
{
}

/// A button of a card permits once or for the run, of the view that it names.
pub proof fn card_buttons_do_what_they_say(
    custom: Option<&str>,
    recovering: bool,
    r: Result<(String, bool), &'static str>,
)
    requires
        call_ensures(handle_inline_mcp, (custom, recovering), r),
    ensures
        r is Ok <==> !recovering && custom is Some && {
            let p = pieces(custom->0@, ':');
            p.len() == 3 && p[0] == "mi"@ && (p[2] == "once"@ || p[2] == "turn"@)
        },
        r is Ok ==> (r->Ok_0).0@ == pieces(custom->0@, ':')[1] && ((r->Ok_0).1 <==> pieces(
            custom->0@,
            ':',
        )[2] == "turn"@),
{
}

/// A press on a card permits just what the card shows: a description that is unchanged, of this
/// operation, verified, not expired; and for the run only where that is offered.
pub proof fn presses_permit_what_is_shown(
    p: &Json,
    op: &Json,
    context: &Json,
    rec: &McpRecord,
    caps: Capabilities,
    now: i64,
    view: &str,
    revision: i64,
    shown: &str,
    turn: bool,
    message: Option<&str>,
    r: Result<Receipt, String>,
)
    requires
        call_ensures(
            confirm_press,
            (p, op, context, rec, caps, now, view, revision, shown, turn, message),
            r,
        ),
        r is Ok,
    ensures
        caps.inline,
        rec.revision == revision,
        p@.at("state"@) == JsonView::Text("inline"@),
        p@.at("interaction_id"@) == JsonView::Text(rec.remote@),
        p@.at("response_id"@) == JsonView::Text(rec.response@),
        turn ==> p@.at("actions"@).at("allow_turn_tool"@) == JsonView::Bool(true),
        op@.at("binding_status"@) == JsonView::Text("verified"@),
        op@.at("arguments"@) is Object,
        op@.at("redacted_paths"@) == JsonView::Array(Seq::empty()),
        message is Some && r->Ok_0.message_id@ == message->0@,
        p@.at("presentation_fingerprint"@) == JsonView::Text(r->Ok_0.token@),
        p@.at("renderer"@) == JsonView::Text("browser-find-v1"@) ==> op@.at("tool"@)
            == JsonView::Text("browser_find"@),
        p@.at("renderer"@) == JsonView::Text("browser-navigate-v1"@) ==> op@.at("tool"@)
            == JsonView::Text("browser_navigate"@),
        p@.at("renderer"@) == JsonView::Text("browser-tabs-list-v1"@) ==> op@.at("tool"@)
            == JsonView::Text("browser_tabs"@),
{
    reveal_strlit("browser-find-v1");
    reveal_strlit("browser-navigate-v1");
    reveal_strlit("browser-tabs-list-v1");
    assert("browser-find-v1"@.len() == 15 && "browser-navigate-v1"@.len() == 19 && "browser-tabs-list-v1"@.len() == 20);
}

/// A view is opened only for a description that permits in the conversation; any other shows a card
/// that permits nothing.
pub proof fn views_open_for_whole_descriptions(
    p: Option<&Json>,
    op: &Json,
    context: &Json,
    rec: &McpRecord,
    caps: Capabilities,
    now: i64,
    r: InlineStep,
)
    requires
        call_ensures(show_inline, (p, op, context, rec, caps, now), r),
    ensures
        r is Open ==> p is Some && caps.inline && p->0@.at("state"@) == JsonView::Text("inline"@)
            && op@.at("binding_status"@) == JsonView::Text("verified"@) && p->0@.at(
            "presentation_id"@,
        ) == JsonView::Text(r->presentation_id@) && p->0@.at("presentation_fingerprint"@)
            == JsonView::Text(r->token@),
        r is Closed ==> !r->Closed_0.inline,
        p is None ==> r is Closed,
{
}

/// A card permits for the run only where that is offered, and permits at all only where it shows the
/// whole operation in the conversation.
pub proof fn cards_permit_what_is_offered(
    v: &Json,
    rec: &McpRecord,
    view: &str,
    r: Result<Card, String>,
    i: int,
)
    requires
        call_ensures(accepted_card, (v, rec, view), r),
        r is Ok,
        r->Ok_0.components@ != JsonView::Array(Seq::empty()),
    ensures
        ({
            let buttons = r->Ok_0.components@.item(0).at("components"@);
            let custom = buttons.item(i).at("custom_id"@);
            let label = buttons.item(i).at("label"@);
            &&& buttons is Array
            &&& 0 <= i < buttons->Array_0.len() ==> {
                ||| custom == JsonView::Text("mi:"@ + view@ + ":turn"@) && label == JsonView::Text(
                    "この依頼中、このツールを許可"@,
                ) && v@.at("state"@) == JsonView::Text("inline"@) && v@.at("actions"@).at(
                    "allow_turn_tool"@,
                ) == JsonView::Bool(true) && r->Ok_0.inline
                ||| custom == JsonView::Text("mi:"@ + view@ + ":once"@) && label == JsonView::Text(
                    "今回だけ許可"@,
                ) && v@.at("state"@) == JsonView::Text("inline"@) && r->Ok_0.inline
                ||| label == JsonView::Text("本人限定で確認"@) && v@.at("state"@)
                    != JsonView::Text("unavailable"@)
                ||| label == JsonView::Text("拒否"@) && v@.at("actions"@).at("decline"@)
                    == JsonView::Bool(true)
            }
        }),
{
    reveal_strlit("custom_id");
    reveal_strlit("label");
    reveal_strlit("style");
    reveal_strlit("type");
    assert("custom_id"@.len() == 9 && "label"@.len() == 5 && "style"@.len() == 5 && "type"@.len() == 4);
    assert("label"@[0] != "style"@[0]);
    reveal_strlit("inline");
    reveal_strlit("unavailable");
    reveal_strlit("private_required");
    assert("inline"@.len() == 6 && "unavailable"@.len() == 11 && "private_required"@.len() == 16);
    reveal_with_fuel(lookup, 5);
    let bar = r->Ok_0.components@->Array_0[0]->Object_0;
    assert(bar[0].0 == "components"@);
    let buttons = bar[0].1->Array_0;
    if 0 <= i < buttons.len() {
        let m = buttons[i]->Object_0;
        assert(m[0].0 == "custom_id"@ && m[1].0 == "label"@);
    }
}

/// A description keeps the content that its token was first seen with, and a card permits only once
/// its sending is confirmed.
pub proof fn tokens_keep_their_content(
    stored: Option<&str>,
    snapshot: &str,
    r: Result<(), &'static str>,
    confirmed: bool,
    c: Result<(), &'static str>,
    scope: Option<&str>,
    now: &str,
    kept: Result<(), &'static str>,
)
    requires
        call_ensures(check_token, (stored, snapshot), r),
        call_ensures(check_confirmed, (confirmed,), c),
        call_ensures(check_stored, (scope, now), kept),
    ensures
        r is Ok <==> stored is None || stored->0@ == snapshot@,
        c is Ok <==> confirmed,
        kept is Ok <==> scope is None || scope->0@ == now@,
{
}

/// The details permit once always, for the run only where the tool may be and nothing is masked; and
/// decline the operation that they show.
pub proof fn details_offer_what_is_possible(
    v: &Json,
    body: &str,
    redacted: &str,
    caps: Capabilities,
    view: &str,
    local: &str,
    revision: i64,
    page: usize,
    r: Result<DetailsPage, &'static str>,
    eligible: bool,
    i: int,
)
    requires
        call_ensures(
            show_mcp_details,
            (v, body, redacted, caps, view, local, revision, page),
            r,
        ),
        call_ensures(turn_eligible, (v, caps), eligible),
        r is Ok,
    ensures
        ({
            let buttons = r->Ok_0.components@.item(0).at("components"@);
            let custom = buttons.item(i).at("custom_id"@);
            let label = buttons.item(i).at("label"@);
            &&& buttons is Array
            &&& 0 <= i < buttons->Array_0.len() && label == JsonView::Text(
                "この依頼中、このツールを許可"@,
            ) ==> eligible && redacted@ == body@ && custom == JsonView::Text("mt:turn:"@ + view@)
            &&& 0 <= i < buttons->Array_0.len() && label == JsonView::Text("今回だけ許可"@)
                ==> custom == JsonView::Text("mt:once:"@ + view@)
            &&& 0 <= i < buttons->Array_0.len() && custom == JsonView::Text("mt:once:"@ + view@)
                ==> label != JsonView::Text("拒否"@)
        }),
{
    reveal_strlit("custom_id");
    reveal_strlit("label");
    reveal_strlit("style");
    reveal_strlit("type");
    assert("custom_id"@.len() == 9 && "label"@.len() == 5 && "style"@.len() == 5 && "type"@.len() == 4);
    assert("label"@[0] != "style"@[0]);
    reveal_strlit("この依頼中、このツールを許可");
    reveal_strlit("今回だけ許可");
    reveal_strlit("前へ");
    reveal_strlit("次へ");
    reveal_strlit("拒否");
    assert("この依頼中、このツールを許可"@.len() == 14 && "今回だけ許可"@.len() == 6 && "前へ"@.len() == 2 && "次へ"@.len() == 2 && "拒否"@.len() == 2);
    assert("前へ"@[0] != "次へ"@[0]);
    assert("前へ"@[0] != "拒否"@[0]);
    assert("次へ"@[0] != "拒否"@[0]);
    reveal_with_fuel(lookup, 5);
    let bar = r->Ok_0.components@->Array_0[0]->Object_0;
    assert(bar[0].0 == "components"@);
    let buttons = bar[0].1->Array_0;
    if 0 <= i < buttons.len() {
        let m = buttons[i]->Object_0;
        assert(m[0].0 == "custom_id"@ && m[1].0 == "label"@);
        let c = buttons[i].at("custom_id"@);
        if buttons[i].at("label"@) == JsonView::Text("拒否"@) && c == JsonView::Text(
            "mt:once:"@ + view@,
        ) {
            reveal_strlit("mcp:");
            reveal_strlit("mt:once:");
            assert(c->Text_0[1] == 'c');
            assert(("mt:once:"@ + view@)[1] == 't');
        }
    }
}

/// A list of permissions is of the response that it was asked for.
pub proof fn permissions_are_of_their_response(
    list: &'static Json,
    response: &str,
    r: Result<&'static Vec<Json>, &'static str>,
)
    requires
        call_ensures(grant_list, (list, response), r),
        r is Ok,
    ensures
        list@.at("response_id"@) == JsonView::Text(response@),
        list@.at("data"@) is Array,
        crate::json::trees(r->Ok_0@) == list@.at("data"@)->Array_0,
        r->Ok_0@.len() <= 16,
{
    assert(crate::json::trees(r->Ok_0@).len() == r->Ok_0@.len());
}

/// Permissions are listed and taken back only in their own conversation and for their own run.
pub proof fn permissions_are_taken_back_in_their_conversation(
    request_thread: &str,
    thread: &str,
    saved: &Result<Json, String>,
    f: &ScopeFacts,
    modern: bool,
    caps: Capabilities,
    r: Result<(), String>,
    response: Option<&str>,
    listed: Result<(), &'static str>,
)
    requires
        call_ensures(judge_revoke, (request_thread, thread, saved, f, modern, caps), r),
        call_ensures(check_listing, (request_thread, thread, modern, caps, response), listed),
    ensures
        r is Ok ==> request_thread@ == thread@ && *saved is Ok && (modern || caps.turn),
        listed is Ok <==> request_thread@ == thread@ && (modern || caps.turn) && response is Some,
{
}

/// A permission counts as taken back only where the proxy confirms it of that permission; a second
/// attempt looks the first one up.
pub proof fn permissions_are_taken_back_as_confirmed(
    v: Option<&Json>,
    remote: &str,
    r: Option<i64>,
    told: (&'static str, String),
    stored: Option<&str>,
    id: &str,
    plan: RevokePlan,
)
    requires
        call_ensures(refresh_mcp_revoke, (v, remote), r),
        call_ensures(revoke_reply, (r,), told),
        call_ensures(revoke_mcp_grant, (stored, id), plan),
    ensures
        r is Some ==> v is Some && v->0@.at("kind"@) == JsonView::Text("mcp_grant.revoke"@)
            && v->0@.at("resource"@).at("id"@) == JsonView::Text(remote@) && v->0@.at("state"@)
            == JsonView::Text("succeeded"@),
        told.0@ == "succeeded"@ <==> r is Some,
        plan is Send <==> stored is None,
        stored is Some ==> plan is Look && plan->Look_0@ == stored->0@,
        stored is None ==> plan->Send_0@ == "revoke-"@ + id@,
{
    reveal_strlit("succeeded");
    reveal_strlit("unknown");
    assert("succeeded"@.len() == 9 && "unknown"@.len() == 7);
}

/// A permission can be picked for taking back while it is pending, active or suspended.
pub proof fn live_permissions_can_be_taken_back(
    m: &mut GrantMenu,
    grant: &Json,
    local: &str,
    outcome: Option<&RevokeOutcome>,
    r: Result<(), &'static str>,
)
    requires
        call_ensures(GrantMenu::push, (m, grant, local, outcome), r),
        r is Ok,
    ensures
        ({
            let state = grant@.at("state"@);
            let before = crate::json::trees(old(m).controls@);
            let after = crate::json::trees(final(m).controls@);
            &&& state == JsonView::Text("pending"@) || state == JsonView::Text("active"@) || state
                == JsonView::Text("suspended"@) ==> after.len() == before.len() + 1
                && after.last().at("value"@) == JsonView::Text(local@)
            &&& state != JsonView::Text("pending"@) && state != JsonView::Text("active"@) && state
                != JsonView::Text("suspended"@) && outcome is None ==> after == before
        }),
{
    reveal_strlit("label");
    reveal_strlit("value");
    assert("label"@.len() == 5 && "value"@.len() == 5);
    assert("label"@[0] != "value"@[0]);
    reveal_with_fuel(lookup, 3);
    let before = crate::json::trees(old(m).controls@);
    let after = crate::json::trees(final(m).controls@);
    assert(before + Seq::<JsonView>::empty() =~= before);
    if after.len() == before.len() + 1 {
        let o = after.last()->Object_0;
        assert(o[0].0 == "label"@ && o[1].0 == "value"@);
    }
}

/// A policy that was chosen stays the chosen one.
pub proof fn chosen_policies_stay(same: Option<bool>, r: Result<(), &'static str>)
    requires
        call_ensures(check_selection, (same,), r),
    ensures
        r is Ok <==> same == Some(true),
{
}

/// An answer in a form has the type that was asked for.
pub proof fn answers_have_the_type_asked_for(s: &Json, v: &Json, r: Result<(), &'static str>)
    requires
        call_ensures(validate_scalar, (s, v), r),
        r is Ok,
    ensures
        s@.at("type"@) == JsonView::Text("string"@) ==> v@ is Text && utf8_len(v@->Text_0) <= 8192,
        s@.at("type"@) == JsonView::Text("integer"@) ==> v@ is Unsigned || v@ is Negative,
        s@.at("type"@) == JsonView::Text("boolean"@) ==> v@ is Bool,
        s@.at("type"@) == JsonView::Text("number"@) ==> v@ is Unsigned || v@ is Negative || v@
            is Fraction,
        s@.at("enum"@) is Array ==> exists|i: int|
            0 <= i < s@.at("enum"@)->Array_0.len() && alike(
                #[trigger] s@.at("enum"@)->Array_0[i],
                v@,
            ),
        v@ is Text && s@.at("minLength"@) is Unsigned ==> v@->Text_0.len() >= s@.at(
            "minLength"@,
        )->Unsigned_0,
        v@ is Text && s@.at("maxLength"@) is Unsigned ==> v@->Text_0.len() <= s@.at(
            "maxLength"@,
        )->Unsigned_0,
{
    reveal_strlit("string");
    reveal_strlit("integer");
    reveal_strlit("boolean");
    reveal_strlit("number");
    assert("string"@.len() == 6 && "integer"@.len() == 7 && "boolean"@.len() == 7 && "number"@.len() == 6);
    assert("string"@[0] != "number"@[0]);
    assert("integer"@[0] != "boolean"@[0]);
}

/// What the user types is what is answered: a text as it is, yes and no as such, and a choice by its
/// number.
pub proof fn typed_answers_are_meant(s: &Json, text: &str, r: Result<Json, &'static str>)
    requires
        call_ensures(parse_value, (s, text), r),
        r is Ok,
        !(s@.at("enum"@) is Array),
    ensures
        s@.at("type"@) == JsonView::Text("string"@) ==> r->Ok_0@ == JsonView::Text(text@),
        s@.at("type"@) == JsonView::Text("boolean"@) && (trimmed(text@) == "true"@ || trimmed(text@)
            == "はい"@) ==> r->Ok_0@ == JsonView::Bool(true),
        s@.at("type"@) == JsonView::Text("boolean"@) && (trimmed(text@) == "false"@ || trimmed(
            text@,
        ) == "いいえ"@) ==> r->Ok_0@ == JsonView::Bool(false),
{
    reveal_strlit("string");
    reveal_strlit("boolean");
    assert("string"@.len() == 6 && "boolean"@.len() == 7);
    reveal_strlit("true");
    reveal_strlit("はい");
    reveal_strlit("false");
    reveal_strlit("いいえ");
    assert("true"@.len() == 4 && "はい"@.len() == 2 && "false"@.len() == 5 && "いいえ"@.len() == 3);
}

/// A form is answered only where every required field is.
pub proof fn required_fields_are_answered(
    s: &Json,
    a: &Json,
    r: Result<(), &'static str>,
    i: int,
)
    requires
        call_ensures(validate_answers, (s, a), r),
        a@ is Object,
        r is Ok,
        s@.at("required"@) is Array,
        0 <= i < s@.at("required"@)->Array_0.len(),
        s@.at("required"@)->Array_0[i] is Text,
    ensures
        a@.get(s@.at("required"@)->Array_0[i]->Text_0) is Some,
{
    assert(s@.at("required"@).array()->0[i].text() is Some);
}

} // verus!
