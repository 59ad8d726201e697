//! What is asked of the service, and what its answers mean.
use crate::discord::{
    answer_fits, api, identify_bot, register_direct, remove_own_message, removed, upload_error,
    ApiStep, Body, Health, Removal, Route,
};
use crate::json::{lookup, Json, JsonView};
use vstd::prelude::*;

verus! {

/// A request that is refused for its rate is repeated twice at most; any other refusal is a failure
/// with its own status, and only a success is read.
pub proof fn refusals_are_failures(status: u16, attempt: u32, r: ApiStep)
    requires
        call_ensures(api, (status, attempt), r),
    ensures
        r is Read <==> 200 <= status < 300,
        r is Wait <==> status == 429 && attempt < 2,
        r is Fail ==> r->Fail_0.0 == status,
{
}

/// A message is removed only where it is the message that was meant, in that conversation and of the
/// bot itself; one that is gone is gone.
pub proof fn only_own_messages_are_removed(
    status: u16,
    found: &Json,
    bot: Option<&str>,
    thread: &str,
    message: &str,
    r: Result<Removal, &'static str>,
    after: u16,
    gone: bool,
)
    requires
        call_ensures(remove_own_message, (status, found, bot, thread, message), r),
        call_ensures(removed, (after,), gone),
    ensures
        r == Ok::<Removal, &'static str>(Removal::Delete) <==> {
            &&& 200 <= status < 300
            &&& found@.at("id"@) == JsonView::Text(message@)
            &&& found@.at("channel_id"@) == JsonView::Text(thread@)
            &&& bot is Some
            &&& found@.at("author"@).at("id"@) == JsonView::Text(bot->0@)
        },
        r == Ok::<Removal, &'static str>(Removal::Gone) <==> status == 404,
        gone <==> 200 <= after < 300 || after == 404,
{
}

/// The bot is the one that the service reports as such.
pub proof fn the_bot_is_identified(me: &Json, r: Result<String, &'static str>)
    requires
        call_ensures(identify_bot, (me,), r),
    ensures
        r is Ok <==> me@.at("bot"@) == JsonView::Bool(true) && me@.at("id"@) is Text,
        r is Ok ==> me@.at("id"@) == JsonView::Text(r->Ok_0@),
{
}

/// An upload that failed is told by its reason, and any other outcome is unconfirmed.
pub proof fn failed_uploads_are_told_apart(status: u16, r: &'static str)
    requires
        call_ensures(upload_error, (status,), r),
    ensures
        r@ == "discord_attachment_too_large"@ <==> status == 413,
        r@ == "discord_permission_denied"@ <==> status == 403,
        r@ == "discord_attachment_rejected"@ <==> status == 400,
        r@ == "discord_delivery_unconfirmed"@ <==> status != 413 && status != 403 && status != 400,
{
    reveal_strlit("discord_attachment_too_large");
    reveal_strlit("discord_permission_denied");
    reveal_strlit("discord_attachment_rejected");
    reveal_strlit("discord_delivery_unconfirmed");
    assert("discord_attachment_too_large"@.len() == 28 && "discord_permission_denied"@.len() == 25 && "discord_attachment_rejected"@.len() == 27 && "discord_delivery_unconfirmed"@.len() == 28);
    assert("discord_attachment_too_large"@[8] != "discord_delivery_unconfirmed"@[8]);
}

/// The connection is lost as soon as one part of it is, and does not come back by itself.
pub proof fn lost_connections_stay_lost(h: &mut Health, up: bool)
    requires
        call_ensures(Health::shard_stage_update, (h, up), ()),
    ensures
        final(h).connected <==> old(h).connected && up,
{
}

/// An answer is read up to four mebibytes.
pub proof fn answers_are_bounded(have: usize, more: usize, r: Result<(), &'static str>)
    requires
        call_ensures(answer_fits, (have, more), r),
    ensures
        r is Ok <==> have + more <= 4194304,
{
}

/// A message is reached by its channel and its own number, and by nothing else.
pub proof fn messages_are_reached_by_number(
    channel: &str,
    id: &str,
    one: Result<String, &'static str>,
    all: Result<String, &'static str>,
    typing: Result<String, &'static str>,
    place: Result<String, &'static str>,
)
    requires
        call_ensures(Route::message, (channel, id), one),
        call_ensures(Route::messages, (channel,), all),
        call_ensures(Route::typing, (channel,), typing),
        call_ensures(Route::channel, (channel,), place),
    ensures
        one is Ok ==> one->Ok_0@ == "/channels/"@ + channel@ + "/messages/"@ + id@,
        all is Ok ==> all->Ok_0@ == "/channels/"@ + channel@ + "/messages"@,
        typing is Ok ==> typing->Ok_0@ == "/channels/"@ + channel@ + "/typing"@,
        place is Ok ==> place->Ok_0@ == "/channels/"@ + channel@,
        one is Ok ==> forall|i: int| 0 <= i < id@.len() ==> '0' <= #[trigger] id@[i] <= '9',
        all is Ok ==> forall|i: int|
            0 <= i < channel@.len() ==> '0' <= #[trigger] channel@[i] <= '9',
        all is Ok ==> 0 < channel@.len(),
{
}

/// An interaction is answered by its own number and token.
pub proof fn interactions_are_answered_by_token(
    id: &str,
    app: &str,
    token: &str,
    callback: Result<String, &'static str>,
    followup: Result<String, &'static str>,
    original: Result<String, &'static str>,
    i: int,
)
    requires
        call_ensures(Route::callback, (id, token), callback),
        call_ensures(Route::followup, (app, token), followup),
        call_ensures(Route::original, (app, token), original),
    ensures
        callback is Ok ==> callback->Ok_0@ == "/interactions/"@ + id@ + "/"@ + token@
            + "/callback"@,
        followup is Ok ==> followup->Ok_0@ == "/webhooks/"@ + app@ + "/"@ + token@,
        original is Ok ==> original->Ok_0@ == "/webhooks/"@ + app@ + "/"@ + token@
            + "/messages/@original"@,
        callback is Ok && 0 <= i < token@.len() ==> token@[i] != '/' && token@[i] != '?',
{
    if callback is Ok && 0 <= i < token@.len() {
        assert(crate::discord::token_form(token@));
    }
}

/// The permissions of a member are asked of the guild and of that member.
pub proof fn members_are_asked_for_by_number(
    guild: &str,
    user: &str,
    member: Result<String, &'static str>,
    roles: Result<String, &'static str>,
    app: &str,
    commands: Result<String, &'static str>,
)
    requires
        call_ensures(Route::member, (guild, user), member),
        call_ensures(Route::roles, (guild,), roles),
        call_ensures(Route::commands, (app, guild), commands),
    ensures
        member is Ok ==> member->Ok_0@ == "/guilds/"@ + guild@ + "/members/"@ + user@,
        roles is Ok ==> roles->Ok_0@ == "/guilds/"@ + guild@ + "/roles"@,
        commands is Ok ==> commands->Ok_0@ == "/applications/"@ + app@ + "/guilds/"@ + guild@
            + "/commands"@,
{
}

/// Replies carry the text as it is and mention nobody; what only the user is to see is marked so.
pub proof fn replies_mention_nobody(
    content: &str,
    components: Json,
    private: Json,
    failure: Json,
    public: Json,
    plain: Json,
    update: bool,
    first: Json,
)
    requires
        call_ensures(Body::followup_components, (content, components), private),
        call_ensures(Body::followup_error, (content,), failure),
        call_ensures(Body::reply_components, (content, components), public),
        call_ensures(Body::reply, (content,), plain),
        call_ensures(Body::acknowledge, (update,), first),
    ensures
        private@.at("content"@) == JsonView::Text(content@),
        private@.at("components"@) == components@,
        private@.at("flags"@) == JsonView::Unsigned(64),
        failure@.at("content"@) == JsonView::Text(content@),
        failure@.at("flags"@) == JsonView::Unsigned(64),
        public@.at("content"@) == JsonView::Text(content@),
        public@.at("components"@) == components@,
        plain@.at("content"@) == JsonView::Text(content@),
        plain@.at("components"@) == JsonView::Array(Seq::empty()),
        private@.at("allowed_mentions"@).at("parse"@) == JsonView::Array(Seq::empty()),
        failure@.at("allowed_mentions"@).at("parse"@) == JsonView::Array(Seq::empty()),
        public@.at("allowed_mentions"@).at("parse"@) == JsonView::Array(Seq::empty()),
        plain@.at("allowed_mentions"@).at("parse"@) == JsonView::Array(Seq::empty()),
        update ==> first@.at("type"@) == JsonView::Unsigned(6),
        !update ==> first@.at("type"@) == JsonView::Unsigned(5) && first@.at("data"@).at("flags"@)
            == JsonView::Unsigned(64),
{
    reveal_strlit("allowed_mentions");
    reveal_strlit("components");
    reveal_strlit("content");
    reveal_strlit("flags");
    assert("allowed_mentions"@.len() == 16 && "components"@.len() == 10 && "content"@.len() == 7 && "flags"@.len() == 5);
    reveal_strlit("data");
    reveal_strlit("type");
    assert("data"@.len() == 4 && "type"@.len() == 4);
    assert("data"@[0] != "type"@[0]);
    reveal_with_fuel(lookup, 5);
    let a = private@->Object_0;
    assert(a[0].0 == "allowed_mentions"@ && a[1].0 == "components"@ && a[2].0 == "content"@ && a[3].0
        == "flags"@);
    let b = failure@->Object_0;
    assert(b[0].0 == "allowed_mentions"@ && b[1].0 == "content"@ && b[2].0 == "flags"@);
    let c = public@->Object_0;
    assert(c[0].0 == "allowed_mentions"@ && c[1].0 == "components"@ && c[2].0 == "content"@);
    let d = plain@->Object_0;
    assert(d[0].0 == "allowed_mentions"@ && d[1].0 == "components"@ && d[2].0 == "content"@);
    let e = first@->Object_0;
    assert(e[0].0 == "data"@ || e[0].0 == "type"@);
    if !update {
        assert(e[1].0 == "type"@);
        assert(e[0].1->Object_0[0].0 == "flags"@);
    }
    let n = a[0].1->Object_0;
    assert(n[0].0 == "parse"@);
}

/// The commands that are offered are the nine of the gateway, in this order.
pub proof fn the_commands_are_offered(r: Json)
    requires
        call_ensures(register_direct, (), r),
    ensures
        r@ is Array,
        r@->Array_0.len() == 9,
        r@.item(0).at("name"@) == JsonView::Text("status"@),
        r@.item(1).at("name"@) == JsonView::Text("stop"@),
        r@.item(2).at("name"@) == JsonView::Text("cancel"@),
        r@.item(3).at("name"@) == JsonView::Text("resume"@),
        r@.item(4).at("name"@) == JsonView::Text("recover"@),
        r@.item(5).at("name"@) == JsonView::Text("models"@),
        r@.item(6).at("name"@) == JsonView::Text("model"@),
        r@.item(7).at("name"@) == JsonView::Text("get"@),
        r@.item(8).at("name"@) == JsonView::Text("steer"@),
        r@.item(8).at("options"@).item(0).at("name"@) == JsonView::Text("text"@),
        r@.item(8).at("options"@).item(0).at("required"@) == JsonView::Bool(true),
{
    reveal_strlit("description");
    reveal_strlit("name");
    reveal_strlit("options");
    assert("description"@.len() == 11 && "name"@.len() == 4 && "options"@.len() == 7);
    reveal_strlit("description");
    reveal_strlit("name");
    reveal_strlit("required");
    assert("description"@.len() == 11 && "name"@.len() == 4 && "required"@.len() == 8);
    reveal_with_fuel(lookup, 5);
    let all = r@->Array_0;
    assert(all[0]->Object_0[0].0 == "description"@ && all[0]->Object_0[1].0 == "name"@);
    assert(all[1]->Object_0[0].0 == "description"@ && all[1]->Object_0[1].0 == "name"@);
    assert(all[2]->Object_0[0].0 == "description"@ && all[2]->Object_0[1].0 == "name"@);
    assert(all[3]->Object_0[0].0 == "description"@ && all[3]->Object_0[1].0 == "name"@);
    assert(all[4]->Object_0[0].0 == "description"@ && all[4]->Object_0[1].0 == "name"@);
    assert(all[5]->Object_0[0].0 == "description"@ && all[5]->Object_0[1].0 == "name"@);
    assert(all[6]->Object_0[0].0 == "description"@ && all[6]->Object_0[1].0 == "name"@);
    assert(all[7]->Object_0[0].0 == "description"@ && all[7]->Object_0[1].0 == "name"@);
    assert(all[8]->Object_0[0].0 == "description"@ && all[8]->Object_0[1].0 == "name"@
        && all[8]->Object_0[2].0 == "options"@);
    let o = all[8]->Object_0[2].1->Array_0[0]->Object_0;
    assert(o[0].0 == "description"@ && o[1].0 == "name"@ && o[2].0 == "required"@);
}

} // verus!
