//! What the gateway asks of Discord and how it reads Discord's answers.
use crate::codec::sha256_hex;
use crate::config::ResponseMode;
use crate::domain::digest;
use crate::files::{check_number, number_objection, Attachment, InputMessage};
use crate::json::{
    array, array1, empty_array, member, object1, object2, object3, object4, text, trees, Json,
    JsonView,
};
use crate::numbers::{decimal, decimal_text, first_fifteen, hex_value};
use crate::text::{
    ascii_alphanumeric, chars_of, is_ascii_alphanumeric, opt_str, opt_view, some_same,
};
use vstd::prelude::*;
use vstd::string::*;
use vstd::utf8::*;

verus! {

/// An HTTP status that Discord answered with.
#[derive(Clone, Copy, Debug, PartialEq, Eq, Structural)]
pub struct HttpStatus(pub u16);

impl HttpStatus {
    pub fn describe(&self) -> (r: String)
        ensures
            r@ == "Discord HTTP "@ + decimal(self.0 as nat),
    {
        let n = decimal_text(self.0 as u64);
        String::from_str("Discord HTTP ").concat(n.as_str())
    }
}

/// Whether the connection to Discord is up.
#[derive(Clone, Copy, Debug, PartialEq, Eq, Structural)]
pub struct Health {
    pub connected: bool,
}

impl Health {
    /// A stage other than the connected one means that the connection is down. Reaching it does not
    /// yet mean that it is up: the bot must be identified first.
    pub fn shard_stage_update(&mut self, connected_stage: bool)
        ensures
            final(self).connected == (old(self).connected && connected_stage),
    {
        if !connected_stage {
            self.connected = false;
        }
    }
}

/// Whether a message was written by the bot.
pub open spec fn owned_by(message: JsonView, bot: Option<Seq<char>>) -> bool {
    bot is Some && message.at("author"@).at("id"@).text() == bot
}

pub fn owns_message(bot: Option<&str>, message: &Json) -> (r: bool)
    ensures
        r == owned_by(message@, opt_str(bot)),
{
    match bot {
        Some(id) => some_same(message.at("author").at("id").as_str(), id),
        None => false,
    }
}

/// Whether a message mentions a user, by the list of mentions and not by its text.
pub open spec fn mentions(message: JsonView, user: Seq<char>) -> bool {
    match message.at("mentions"@).array() {
        Some(list) => exists|i: int| 0 <= i < list.len() && (#[trigger] list[i]).at("id"@).says(user),
        None => false,
    }
}

/// Whether a message is to be answered.
pub open spec fn to_be_answered(message: JsonView, mode: ResponseMode, bot: Option<Seq<char>>) -> bool {
    mode == ResponseMode::All || (bot is Some && mentions(message, bot->0))
}

pub fn should_respond(bot: Option<&str>, message: &Json, mode: ResponseMode) -> (r: bool)
    ensures
        r == to_be_answered(message@, mode, opt_str(bot)),
{
    if mode == ResponseMode::All {
        return true;
    }
    match (bot, message.at("mentions").as_array()) {
        (Some(id), Some(list)) => {
            let ghost all = message@.at("mentions"@).array()->0;
            let mut i: usize = 0;
            while i < list.len()
                invariant
                    i <= list@.len(),
                    list@.len() == all.len(),
                    forall|j: int| 0 <= j < all.len() ==> #[trigger] list@[j]@ == all[j],
                    forall|j: int| 0 <= j < i ==> !(#[trigger] all[j]).at("id"@).says(id@),
                    opt_str(bot) == Some(id@),
                    message@.at("mentions"@).array() == Some(all),
                decreases list@.len() - i,
            {
                assert(list@[i as int]@ == all[i as int]);
                if list[i].at("id").is_text(id) {
                    return true;
                }
                i += 1;
            }
            false
        },
        _ => false,
    }
}

/// The number of a Discord object, where a text is one.
pub fn snowflake(s: &str) -> (r: Result<&str, &'static str>)
    ensures
        match number_objection(s@) {
            None => r is Ok && r->Ok_0@ == s@,
            Some(e) => r is Err && r->Err_0@ == e,
        },
{
    match check_number(s) {
        Ok(()) => Ok(s),
        Err(e) => Err(e),
    }
}

/// Whether a text has the form of an interaction token.
pub open spec fn token_form(s: Seq<char>) -> bool {
    forall|i: int|
        0 <= i < s.len() ==> ascii_alphanumeric(#[trigger] s[i]) || s[i] == '.' || s[i] == '_' || s[i]
            == '-'
}

fn is_token(s: &str) -> (r: bool)
    ensures
        r == token_form(s@),
{
    let v = chars_of(s);
    let mut i: usize = 0;
    while i < v.len()
        invariant
            i <= v@.len(),
            v@ == s@,
            forall|j: int|
                0 <= j < i ==> ascii_alphanumeric(#[trigger] s@[j]) || s@[j] == '.' || s@[j] == '_'
                    || s@[j] == '-',
        decreases v@.len() - i,
    {
        let c = v[i];
        assert(s@[i as int] == c);
        if !(is_ascii_alphanumeric(c) || c == '.' || c == '_' || c == '-') {
            return false;
        }
        i += 1;
    }
    true
}

/// Why a path for two objects cannot be made.
pub open spec fn either_objection(a: Seq<char>, b: Seq<char>) -> Option<Seq<char>> {
    if number_objection(a) is Some {
        number_objection(a)
    } else {
        number_objection(b)
    }
}

/// Why a path for a token and an object cannot be made.
pub open spec fn token_objection(token: Seq<char>, id: Seq<char>) -> Option<Seq<char>> {
    if !token_form(token) {
        Some("invalid interaction token"@)
    } else {
        number_objection(id)
    }
}

/// Paths of Discord's interface.
pub struct Route;

impl Route {
    pub fn channel(id: &str) -> (r: Result<String, &'static str>)
        ensures
            match number_objection(id@) {
                None => r is Ok && r->Ok_0@ == "/channels/"@ + id@,
                Some(e) => r is Err && r->Err_0@ == e,
            },
    {
        match snowflake(id) {
            Ok(id) => Ok(String::from_str("/channels/").concat(id)),
            Err(e) => Err(e),
        }
    }

    pub fn typing(id: &str) -> (r: Result<String, &'static str>)
        ensures
            match number_objection(id@) {
                None => r is Ok && r->Ok_0@ == "/channels/"@ + id@ + "/typing"@,
                Some(e) => r is Err && r->Err_0@ == e,
            },
    {
        match snowflake(id) {
            Ok(id) => Ok(String::from_str("/channels/").concat(id).concat("/typing")),
            Err(e) => Err(e),
        }
    }

    pub fn messages(channel: &str) -> (r: Result<String, &'static str>)
        ensures
            match number_objection(channel@) {
                None => r is Ok && r->Ok_0@ == "/channels/"@ + channel@ + "/messages"@,
                Some(e) => r is Err && r->Err_0@ == e,
            },
    {
        match snowflake(channel) {
            Ok(id) => Ok(String::from_str("/channels/").concat(id).concat("/messages")),
            Err(e) => Err(e),
        }
    }

    /// The last hundred messages of a channel.
    pub fn recent(channel: &str) -> (r: Result<String, &'static str>)
        ensures
            match number_objection(channel@) {
                None => r is Ok && r->Ok_0@ == "/channels/"@ + channel@ + "/messages?limit=100"@,
                Some(e) => r is Err && r->Err_0@ == e,
            },
    {
        match snowflake(channel) {
            Ok(id) => Ok(String::from_str("/channels/").concat(id).concat("/messages?limit=100")),
            Err(e) => Err(e),
        }
    }

    pub fn message(channel: &str, id: &str) -> (r: Result<String, &'static str>)
        ensures
            match either_objection(channel@, id@) {
                None => r is Ok && r->Ok_0@ == "/channels/"@ + channel@ + "/messages/"@ + id@,
                Some(e) => r is Err && r->Err_0@ == e,
            },
    {
        match snowflake(channel) {
            Err(e) => Err(e),
            Ok(channel) => match snowflake(id) {
                Ok(id) => Ok(
                    String::from_str("/channels/").concat(channel).concat("/messages/").concat(id),
                ),
                Err(e) => Err(e),
            },
        }
    }

    pub fn member(guild: &str, user: &str) -> (r: Result<String, &'static str>)
        ensures
            match either_objection(guild@, user@) {
                None => r is Ok && r->Ok_0@ == "/guilds/"@ + guild@ + "/members/"@ + user@,
                Some(e) => r is Err && r->Err_0@ == e,
            },
    {
        match snowflake(guild) {
            Err(e) => Err(e),
            Ok(guild) => match snowflake(user) {
                Ok(user) => Ok(
                    String::from_str("/guilds/").concat(guild).concat("/members/").concat(user),
                ),
                Err(e) => Err(e),
            },
        }
    }

    pub fn roles(guild: &str) -> (r: Result<String, &'static str>)
        ensures
            match number_objection(guild@) {
                None => r is Ok && r->Ok_0@ == "/guilds/"@ + guild@ + "/roles"@,
                Some(e) => r is Err && r->Err_0@ == e,
            },
    {
        match snowflake(guild) {
            Ok(id) => Ok(String::from_str("/guilds/").concat(id).concat("/roles")),
            Err(e) => Err(e),
        }
    }

    pub fn commands(app: &str, guild: &str) -> (r: Result<String, &'static str>)
        ensures
            match either_objection(app@, guild@) {
                None => r is Ok && r->Ok_0@ == "/applications/"@ + app@ + "/guilds/"@ + guild@
                    + "/commands"@,
                Some(e) => r is Err && r->Err_0@ == e,
            },
    {
        match snowflake(app) {
            Err(e) => Err(e),
            Ok(app) => match snowflake(guild) {
                Ok(guild) => Ok(
                    String::from_str("/applications/").concat(app).concat("/guilds/").concat(
                        guild,
                    ).concat("/commands"),
                ),
                Err(e) => Err(e),
            },
        }
    }

    /// Where an interaction is answered.
    pub fn callback(id: &str, token: &str) -> (r: Result<String, &'static str>)
        ensures
            match token_objection(token@, id@) {
                None => r is Ok && r->Ok_0@ == "/interactions/"@ + id@ + "/"@ + token@ + "/callback"@,
                Some(e) => r is Err && r->Err_0@ == e,
            },
    {
        if !is_token(token) {
            return Err("invalid interaction token");
        }
        match snowflake(id) {
            Ok(id) => Ok(
                String::from_str("/interactions/").concat(id).concat("/").concat(token).concat(
                    "/callback",
                ),
            ),
            Err(e) => Err(e),
        }
    }

    /// Where a message follows an interaction.
    pub fn followup(app: &str, token: &str) -> (r: Result<String, &'static str>)
        ensures
            match token_objection(token@, app@) {
                None => r is Ok && r->Ok_0@ == "/webhooks/"@ + app@ + "/"@ + token@,
                Some(e) => r is Err && r->Err_0@ == e,
            },
    {
        if !is_token(token) {
            return Err("invalid interaction token");
        }
        match snowflake(app) {
            Ok(app) => Ok(String::from_str("/webhooks/").concat(app).concat("/").concat(token)),
            Err(e) => Err(e),
        }
    }

    /// Where the answer to an interaction is changed.
    pub fn original(app: &str, token: &str) -> (r: Result<String, &'static str>)
        ensures
            match token_objection(token@, app@) {
                None => r is Ok && r->Ok_0@ == "/webhooks/"@ + app@ + "/"@ + token@
                    + "/messages/@original"@,
                Some(e) => r is Err && r->Err_0@ == e,
            },
    {
        if !is_token(token) {
            return Err("invalid interaction token");
        }
        match snowflake(app) {
            Ok(app) => Ok(
                String::from_str("/webhooks/").concat(app).concat("/").concat(token).concat(
                    "/messages/@original",
                ),
            ),
            Err(e) => Err(e),
        }
    }
}

/// Nobody is notified by a message.
pub open spec fn no_mentions() -> JsonView {
    JsonView::Object(seq![("parse"@, JsonView::Array(Seq::empty()))])
}

fn silent() -> (r: Json)
    ensures
        r@ == no_mentions(),
{
    object1("parse", empty_array())
}

/// Bodies of requests to Discord.
pub struct Body;

impl Body {
    /// Acknowledges an interaction: for a new private answer, or for a change of the message that
    /// holds the button.
    pub fn acknowledge(update: bool) -> (r: Json)
        ensures
            r@ == if update {
                JsonView::Object(seq![("type"@, JsonView::Unsigned(6))])
            } else {
                JsonView::Object(
                    seq![
                        ("data"@, JsonView::Object(seq![("flags"@, JsonView::Unsigned(64))])),
                        ("type"@, JsonView::Unsigned(5)),
                    ],
                )
            },
    {
        if update {
            object1("type", Json::Unsigned(6))
        } else {
            object2("data", object1("flags", Json::Unsigned(64)), "type", Json::Unsigned(5))
        }
    }

    /// A private message after an interaction.
    pub fn followup_components(content: &str, components: Json) -> (r: Json)
        ensures
            r@ == JsonView::Object(
                seq![
                    ("allowed_mentions"@, no_mentions()),
                    ("components"@, components@),
                    ("content"@, JsonView::Text(content@)),
                    ("flags"@, JsonView::Unsigned(64)),
                ],
            ),
    {
        object4(
            "allowed_mentions",
            silent(),
            "components",
            components,
            "content",
            text(content),
            "flags",
            Json::Unsigned(64),
        )
    }

    /// A private error message after an interaction.
    pub fn followup_error(content: &str) -> (r: Json)
        ensures
            r@ == JsonView::Object(
                seq![
                    ("allowed_mentions"@, no_mentions()),
                    ("content"@, JsonView::Text(content@)),
                    ("flags"@, JsonView::Unsigned(64)),
                ],
            ),
    {
        object3("allowed_mentions", silent(), "content", text(content), "flags", Json::Unsigned(64))
    }

    /// The answer to an interaction.
    pub fn reply_components(content: &str, components: Json) -> (r: Json)
        ensures
            r@ == JsonView::Object(
                seq![
                    ("allowed_mentions"@, no_mentions()),
                    ("components"@, components@),
                    ("content"@, JsonView::Text(content@)),
                ],
            ),
    {
        object3("allowed_mentions", silent(), "components", components, "content", text(content))
    }

    /// The answer to an interaction, without buttons.
    pub fn reply(content: &str) -> (r: Json)
        ensures
            r@ == JsonView::Object(
                seq![
                    ("allowed_mentions"@, no_mentions()),
                    ("components"@, JsonView::Array(Seq::empty())),
                    ("content"@, JsonView::Text(content@)),
                ],
            ),
    {
        Self::reply_components(content, empty_array())
    }
}

/// How a request goes on after an answer.
#[derive(Clone, Copy, Debug, PartialEq, Eq, Structural)]
pub enum ApiStep {
    /// The request was refused for its rate: wait as told and repeat it.
    Wait,
    Fail(HttpStatus),
    /// Read the answer; an empty one is null.
    Read,
}

/// What an answer to a request means. Only a complete refusal for the rate permits a repetition, and
/// only twice.
pub fn api(status: u16, attempt: u32) -> (r: ApiStep)
    ensures
        r == if status == 429 && attempt < 2 {
            ApiStep::Wait
        } else if !(200 <= status < 300) {
            ApiStep::Fail(HttpStatus(status))
        } else {
            ApiStep::Read
        },
{
    if status == 429 && attempt < 2 {
        ApiStep::Wait
    } else if status < 200 || status >= 300 {
        ApiStep::Fail(HttpStatus(status))
    } else {
        ApiStep::Read
    }
}

/// Whether the next piece of an answer still fits.
pub fn answer_fits(have: usize, more: usize) -> (r: Result<(), &'static str>)
    ensures
        r is Ok <==> have + more <= 4 * 1024 * 1024,
        r is Err ==> r->Err_0@ == "Discord response too large"@,
{
    if have <= 4 * 1024 * 1024 && more <= 4 * 1024 * 1024 - have {
        Ok(())
    } else {
        Err("Discord response too large")
    }
}

/// What to do with a message that is to be removed, once it was looked up.
#[derive(Clone, Copy, Debug, PartialEq, Eq, Structural)]
pub enum Removal {
    /// It is gone already.
    Gone,
    Delete,
}

/// Only the bot's own message in its channel is ever removed.
pub fn remove_own_message(
    status: u16,
    found: &Json,
    bot: Option<&str>,
    thread: &str,
    message: &str,
) -> (r: Result<Removal, &'static str>)
    ensures
        status == 404 ==> r == Ok::<Removal, &'static str>(Removal::Gone),
        status != 404 && !(200 <= status < 300) ==> r is Err && r->Err_0@
            == "surplus message lookup failed"@,
        200 <= status < 300 ==> ({
            let own = found@.at("id"@).says(message@) && found@.at("channel_id"@).says(thread@)
                && owned_by(found@, opt_str(bot));
            if own {
                r == Ok::<Removal, &'static str>(Removal::Delete)
            } else {
                r is Err && r->Err_0@ == "surplus message ownership mismatch"@
            }
        }),
{
    if status == 404 {
        return Ok(Removal::Gone);
    }
    if status < 200 || status >= 300 {
        return Err("surplus message lookup failed");
    }
    if found.at("id").is_text(message) && found.at("channel_id").is_text(thread) && owns_message(
        bot,
        found,
    ) {
        Ok(Removal::Delete)
    } else {
        Err("surplus message ownership mismatch")
    }
}

/// Whether a removal succeeded.
pub fn removed(status: u16) -> (r: bool)
    ensures
        r == (200 <= status < 300 || status == 404),
{
    (200 <= status && status < 300) || status == 404
}

/// The bot's own identity, from Discord's answer to the question who it is.
pub fn identify_bot(me: &Json) -> (r: Result<String, &'static str>)
    ensures
        !me@.at("bot"@).is_true() ==> r is Err && r->Err_0@ == "Discord identity is not a bot"@,
        me@.at("bot"@).is_true() && me@.at("id"@).text() is None ==> r is Err && r->Err_0@
            == "bot identity missing"@,
        me@.at("bot"@).is_true() && me@.at("id"@).text() is Some ==> r is Ok && r->Ok_0@ == me@.at(
            "id"@,
        ).text()->0,
{
    if !me.at("bot").is_bool(true) {
        return Err("Discord identity is not a bot");
    }
    match me.at("id").as_str() {
        Some(id) => Ok(id.to_owned()),
        None => Err("bot identity missing"),
    }
}

/// What is wrong with the first faulty attachment from position `i` on.
pub open spec fn attachment_objection(list: Seq<JsonView>, i: int) -> Option<Seq<char>>
    decreases list.len() - i,
{
    if i < 0 || i >= list.len() {
        None
    } else if list[i].at("id"@).text() is None {
        Some("attachment ID missing"@)
    } else if list[i].at("filename"@).text() is None {
        Some("attachment name missing"@)
    } else if list[i].at("url"@).text() is None {
        Some("attachment URL missing"@)
    } else if list[i].at("size"@).unsigned() is None {
        Some("attachment size missing"@)
    } else {
        attachment_objection(list, i + 1)
    }
}

/// Whether an attachment is what a document describes.
pub open spec fn describes(j: JsonView, a: Attachment) -> bool {
    &&& j.at("id"@).says(a.id@)
    &&& j.at("filename"@).says(a.filename@)
    &&& j.at("url"@).says(a.url@)
    &&& j.at("size"@) == JsonView::Unsigned(a.size)
    &&& opt_view(a.content_type) == j.at("content_type"@).text()
}

/// The attachments that a message lists.
pub open spec fn listed_attachments(v: JsonView) -> Seq<JsonView> {
    match v.at("attachments"@).array() {
        Some(list) => list,
        None => Seq::empty(),
    }
}

/// What is wrong with a message.
pub open spec fn input_objection(v: JsonView) -> Option<Seq<char>> {
    if attachment_objection(listed_attachments(v), 0) is Some {
        attachment_objection(listed_attachments(v), 0)
    } else if v.at("id"@).text() is None {
        Some("message ID missing"@)
    } else if v.at("channel_id"@).text() is None {
        Some("channel ID missing"@)
    } else if v.at("author"@).at("id"@).text() is None {
        Some("author ID missing"@)
    } else {
        None
    }
}

/// A number that stands for the time of the last change of a message. It is taken from the digest of
/// the timestamp, which is not read otherwise.
pub open spec fn edit_mark(v: JsonView) -> Option<int> {
    match v.at("edited_timestamp"@).text() {
        Some(s) => Some(hex_value(sha256_hex(encode_utf8(s)).take(15)) as int),
        None => None,
    }
}

/// Whether a message is what a document of a guild describes: who wrote it where, its text, its mark
/// of change and its attachments.
pub open spec fn tells(v: JsonView, guild: Seq<char>, m: InputMessage) -> bool {
    let list = listed_attachments(v);
    &&& v.at("id"@).says(m.id@)
    &&& v.at("channel_id"@).says(m.thread_id@)
    &&& v.at("author"@).at("id"@).says(m.user_id@)
    &&& m.guild_id@ == guild
    &&& m.content@ == match v.at("content"@).text() {
        Some(s) => s,
        None => Seq::empty(),
    }
    &&& match edit_mark(v) {
        Some(n) => m.edited_at is Some && m.edited_at->0 == n,
        None => m.edited_at is None,
    }
    &&& m.attachments@.len() == list.len()
    &&& forall|i: int| 0 <= i < list.len() ==> describes(list[i], #[trigger] m.attachments@[i])
}

/// The message that a document describes.
pub fn input_message(v: &Json, guild: &str) -> (r: Result<InputMessage, &'static str>)
    ensures
        match input_objection(v@) {
            Some(e) => r is Err && r->Err_0@ == e,
            None => r is Ok && tells(v@, guild@, r->Ok_0),
        },
{
    let mut attachments: Vec<Attachment> = Vec::new();
    let ghost all = listed_attachments(v@);
    match v.at("attachments").as_array() {
        None => {},
        Some(list) => {
            let mut i: usize = 0;
            while i < list.len()
                invariant
                    i <= list@.len(),
                    list@.len() == all.len(),
                    all == listed_attachments(v@),
                    forall|j: int| 0 <= j < all.len() ==> #[trigger] list@[j]@ == all[j],
                    attachment_objection(all, 0) == attachment_objection(all, i as int),
                    attachments@.len() == i,
                    forall|j: int| 0 <= j < i ==> describes(all[j], #[trigger] attachments@[j]),
                decreases list@.len() - i,
            {
                let a = &list[i];
                assert(a@ == all[i as int]);
                let id = match a.at("id").as_str() {
                    Some(s) => s.to_owned(),
                    None => return Err("attachment ID missing"),
                };
                let filename = match a.at("filename").as_str() {
                    Some(s) => s.to_owned(),
                    None => return Err("attachment name missing"),
                };
                let url = match a.at("url").as_str() {
                    Some(s) => s.to_owned(),
                    None => return Err("attachment URL missing"),
                };
                let size: u64 = match a.at("size").as_u64() {
                    Some(n) => n,
                    None => return Err("attachment size missing"),
                };
                let content_type: Option<String> = match a.at("content_type").as_str() {
                    Some(s) => Some(s.to_owned()),
                    None => None,
                };
                attachments.push(Attachment { id, filename, url, size, content_type });
                i += 1;
            }
        },
    }
    let edited_at: Option<i64> = match v.at("edited_timestamp").as_str() {
        Some(s) => {
            let h = digest(s.as_bytes());
            Some(first_fifteen(h.as_str()))
        },
        None => None,
    };
    let id = match v.at("id").as_str() {
        Some(s) => s.to_owned(),
        None => return Err("message ID missing"),
    };
    let thread_id = match v.at("channel_id").as_str() {
        Some(s) => s.to_owned(),
        None => return Err("channel ID missing"),
    };
    let user_id = match v.at("author").at("id").as_str() {
        Some(s) => s.to_owned(),
        None => return Err("author ID missing"),
    };
    let content = match v.at("content").as_str() {
        Some(s) => s.to_owned(),
        None => String::new(),
    };
    Ok(
        InputMessage {
            id,
            thread_id,
            user_id,
            guild_id: guild.to_owned(),
            content,
            edited_at,
            attachments,
        },
    )
}

/// Whether a message that was fetched is the one that was asked for, written by a person.
pub open spec fn genuine(v: JsonView, thread: Seq<char>, id: Seq<char>) -> bool {
    v.at("id"@).says(id) && v.at("channel_id"@).says(thread) && !v.at("author"@).at("bot"@).is_true()
        && v.at("webhook_id"@) == JsonView::Null
}

/// The message that was asked for.
pub fn fetched_message(v: &Json, thread: &str, id: &str, guild: &str) -> (r: Result<
    InputMessage,
    &'static str,
>)
    ensures
        !genuine(v@, thread@, id@) ==> r is Err && r->Err_0@ == "message identity invalid"@,
        genuine(v@, thread@, id@) ==> match input_objection(v@) {
            Some(e) => r is Err && r->Err_0@ == e,
            None => r is Ok && tells(v@, guild@, r->Ok_0) && r->Ok_0.id@ == id@
                && r->Ok_0.thread_id@ == thread@,
        },
{
    if !(v.at("id").is_text(id) && v.at("channel_id").is_text(thread) && !v.at("author").at(
        "bot",
    ).is_bool(true) && v.at("webhook_id").is_null()) {
        return Err("message identity invalid");
    }
    input_message(v, guild)
}

/// The error that a failed upload stands for.
pub fn upload_error(status: u16) -> (r: &'static str)
    ensures
        r@ == if status == 413 {
            "discord_attachment_too_large"@
        } else if status == 403 {
            "discord_permission_denied"@
        } else if status == 400 {
            "discord_attachment_rejected"@
        } else {
            "discord_delivery_unconfirmed"@
        },
{
    if status == 413 {
        "discord_attachment_too_large"
    } else if status == 403 {
        "discord_permission_denied"
    } else if status == 400 {
        "discord_attachment_rejected"
    } else {
        "discord_delivery_unconfirmed"
    }
}

/// The attachment of an upload.
pub open spec fn upload_slot(filename: Seq<char>) -> JsonView {
    JsonView::Array(
        seq![
            JsonView::Object(
                seq![("filename"@, JsonView::Text(filename)), ("id"@, JsonView::Unsigned(0))],
            ),
        ],
    )
}

/// The payload of an upload: an artifact, or an image that answers a message.
pub open spec fn upload_payload(
    filename: Seq<char>,
    nonce: Seq<char>,
    image: Option<(Seq<char>, Seq<char>)>,
) -> JsonView {
    match image {
        None => JsonView::Object(
            seq![
                ("allowed_mentions"@, no_mentions()),
                ("attachments"@, upload_slot(filename)),
                ("content"@, JsonView::Text("指定された成果物です。"@)),
                ("enforce_nonce"@, JsonView::Bool(true)),
                ("nonce"@, JsonView::Text(nonce)),
            ],
        ),
        Some((message, caption)) => JsonView::Object(
            seq![
                (
                    "allowed_mentions"@,
                    JsonView::Object(
                        seq![
                            ("parse"@, JsonView::Array(Seq::empty())),
                            ("replied_user"@, JsonView::Bool(false)),
                        ],
                    ),
                ),
                ("attachments"@, upload_slot(filename)),
                ("content"@, JsonView::Text(caption)),
                ("enforce_nonce"@, JsonView::Bool(true)),
                (
                    "message_reference"@,
                    JsonView::Object(
                        seq![
                            ("fail_if_not_exists"@, JsonView::Bool(false)),
                            ("message_id"@, JsonView::Text(message)),
                        ],
                    ),
                ),
                ("nonce"@, JsonView::Text(nonce)),
            ],
        ),
    }
}

/// The payload and media type of an upload. `image` is the message that an image answers and its
/// caption.
pub fn upload_attachment(filename: &str, nonce: &str, image: Option<(&str, &str)>) -> (r: Result<
    (Json, &'static str),
    &'static str,
>)
    ensures
        match image {
            None => {
                &&& r is Ok
                &&& (r->Ok_0).0@ == upload_payload(filename@, nonce@, None)
                &&& (r->Ok_0).1@ == "application/octet-stream"@
            },
            Some((message, caption)) => match number_objection(message@) {
                Some(e) => r is Err && r->Err_0@ == e,
                None => {
                    &&& r is Ok
                    &&& (r->Ok_0).0@ == upload_payload(
                        filename@,
                        nonce@,
                        Some((message@, caption@)),
                    )
                    &&& (r->Ok_0).1@ == "image/png"@
                },
            },
        },
{
    let slot = array1(object2("filename", text(filename), "id", Json::Unsigned(0)));
    match image {
        None => Ok(
            (
                crate::json::object5(
                    "allowed_mentions",
                    silent(),
                    "attachments",
                    slot,
                    "content",
                    text("指定された成果物です。"),
                    "enforce_nonce",
                    Json::Bool(true),
                    "nonce",
                    text(nonce),
                ),
                "application/octet-stream",
            ),
        ),
        Some((message, caption)) => match snowflake(message) {
            Err(e) => Err(e),
            Ok(_) => Ok(
                (
                    crate::json::object6(
                        "allowed_mentions",
                        object2("parse", empty_array(), "replied_user", Json::Bool(false)),
                        "attachments",
                        slot,
                        "content",
                        text(caption),
                        "enforce_nonce",
                        Json::Bool(true),
                        "message_reference",
                        object2(
                            "fail_if_not_exists",
                            Json::Bool(false),
                            "message_id",
                            text(message),
                        ),
                        "nonce",
                        text(nonce),
                    ),
                    "image/png",
                ),
            ),
        },
    }
}

/// An option of a command.
pub open spec fn command_option(name: Seq<char>, description: Seq<char>, required: bool) -> JsonView {
    JsonView::Object(
        seq![
            ("description"@, JsonView::Text(description)),
            ("name"@, JsonView::Text(name)),
            ("required"@, JsonView::Bool(required)),
            ("type"@, JsonView::Unsigned(3)),
        ],
    )
}

fn option(name: &str, description: &str, required: bool) -> (r: Json)
    ensures
        r@ == command_option(name@, description@, required),
{
    object4(
        "description",
        text(description),
        "name",
        text(name),
        "required",
        Json::Bool(required),
        "type",
        Json::Unsigned(3),
    )
}

/// A command without options.
pub open spec fn plain_command(name: Seq<char>, description: Seq<char>) -> JsonView {
    JsonView::Object(
        seq![("description"@, JsonView::Text(description)), ("name"@, JsonView::Text(name))],
    )
}

/// A command with options.
pub open spec fn command_with(
    name: Seq<char>,
    description: Seq<char>,
    options: Seq<JsonView>,
) -> JsonView {
    JsonView::Object(
        seq![
            ("description"@, JsonView::Text(description)),
            ("name"@, JsonView::Text(name)),
            ("options"@, JsonView::Array(options)),
        ],
    )
}

fn simple(name: &str, description: &str) -> (r: Json)
    ensures
        r@ == plain_command(name@, description@),
{
    object2("description", text(description), "name", text(name))
}

fn with_option(name: &str, description: &str, o: Json) -> (r: Json)
    ensures
        r@ == command_with(name@, description@, seq![o@]),
{
    object3("description", text(description), "name", text(name), "options", array1(o))
}

/// The commands of the direct runtime.
pub open spec fn direct_commands() -> Seq<JsonView> {
    seq![
        plain_command("status"@, "この会話の実行・待機状態を確認"@),
        plain_command("stop"@, "実行中の依頼を中断し、待機列を一時停止"@),
        plain_command("cancel"@, "直近の待機依頼を取り消し。なければ実行中を中断"@),
        plain_command("resume"@, "一時停止した待機列を再開"@),
        plain_command("recover"@, "結果不明で止まった会話の復旧内容を確認"@),
        plain_command("models"@, "Codexで利用できるモデル一覧"@),
        command_with(
            "model"@,
            "選択中モデルの確認・変更"@,
            seq![command_option("id"@, "モデルID"@, false)],
        ),
        command_with(
            "get"@,
            "この会話の成果物一覧、またはファイルの保存版を返送"@,
            seq![command_option("path"@, "会話ワーク内の相対パス（省略で一覧）"@, false)],
        ),
        command_with(
            "steer"@,
            "実行中の依頼に追加指示"@,
            seq![command_option("text"@, "追加指示"@, true)],
        ),
    ]
}

/// The complete set of commands of the direct runtime.
pub fn register_direct() -> (r: Json)
    ensures
        r@ == JsonView::Array(direct_commands()),
{
    let mut v: Vec<Json> = Vec::new();
    v.push(simple("status", "この会話の実行・待機状態を確認"));
    v.push(simple("stop", "実行中の依頼を中断し、待機列を一時停止"));
    v.push(simple("cancel", "直近の待機依頼を取り消し。なければ実行中を中断"));
    v.push(simple("resume", "一時停止した待機列を再開"));
    v.push(simple("recover", "結果不明で止まった会話の復旧内容を確認"));
    v.push(simple("models", "Codexで利用できるモデル一覧"));
    v.push(with_option("model", "選択中モデルの確認・変更", option("id", "モデルID", false)));
    v.push(
        with_option(
            "get",
            "この会話の成果物一覧、またはファイルの保存版を返送",
            option("path", "会話ワーク内の相対パス（省略で一覧）", false),
        ),
    );
    v.push(with_option("steer", "実行中の依頼に追加指示", option("text", "追加指示", true)));
    assert(trees(v@) =~= direct_commands());
    array(v)
}

/// The range of artifacts that a listing covers.
pub open spec fn scope_option() -> JsonView {
    JsonView::Object(
        seq![
            (
                "choices"@,
                JsonView::Array(
                    seq![
                        JsonView::Object(
                            seq![
                                ("name"@, JsonView::Text("この会話"@)),
                                ("value"@, JsonView::Text("conversation"@)),
                            ],
                        ),
                        JsonView::Object(
                            seq![
                                ("name"@, JsonView::Text("共有ワーク全体"@)),
                                ("value"@, JsonView::Text("shared"@)),
                            ],
                        ),
                    ],
                ),
            ),
            ("description"@, JsonView::Text("成果物一覧の範囲"@)),
            ("name"@, JsonView::Text("scope"@)),
            ("required"@, JsonView::Bool(false)),
            ("type"@, JsonView::Unsigned(3)),
        ],
    )
}

/// The commands of the runtime behind a proxy.
pub open spec fn proxy_commands() -> Seq<JsonView> {
    seq![
        command_with(
            "new"@,
            "新しい会話を作成"@,
            seq![command_option("title"@, "会話の名前"@, true)],
        ),
        plain_command("mcp"@, "この作業のMCP許可を確認・取消"@),
        plain_command("status"@, "実行・配信・会話の状態を表示"@),
        plain_command("stop"@, "待ち行列を停止し、実行中の依頼へ中断を要求"@),
        plain_command("cancel"@, "直近の待機依頼1件を取消。待機がなければ実行中の依頼を中断"@),
        plain_command("resume"@, "一時停止した待ち行列の自動開始を再開"@),
        plain_command("models"@, "利用可能なモデルを一覧表示"@),
        command_with(
            "model"@,
            "選択中モデルの確認／次の依頼のモデル変更"@,
            seq![command_option("id"@, "ProxyのモデルID"@, false)],
        ),
        command_with(
            "steer"@,
            "現在のTurnへ追加指示"@,
            seq![command_option("text"@, "追加指示"@, true)],
        ),
        plain_command("workspace"@, "会話を始める前に共有ワークを選択（通常は不要）"@),
        plain_command("retry"@, "保存版を選び、確認してもう一度送信"@),
        command_with(
            "get"@,
            "指定した成果物を返送"@,
            seq![
                command_option("path"@, "ワーク内の相対パス（省略で一覧）"@, false),
                scope_option(),
            ],
        ),
    ]
}

/// The complete set of commands of the runtime behind a proxy.
pub fn register() -> (r: Json)
    ensures
        r@ == JsonView::Array(proxy_commands()),
{
    let scope = crate::json::object5(
        "choices",
        crate::json::array2(
            object2("name", text("この会話"), "value", text("conversation")),
            object2("name", text("共有ワーク全体"), "value", text("shared")),
        ),
        "description",
        text("成果物一覧の範囲"),
        "name",
        text("scope"),
        "required",
        Json::Bool(false),
        "type",
        Json::Unsigned(3),
    );
    let mut v: Vec<Json> = Vec::new();
    v.push(with_option("new", "新しい会話を作成", option("title", "会話の名前", true)));
    v.push(simple("mcp", "この作業のMCP許可を確認・取消"));
    v.push(simple("status", "実行・配信・会話の状態を表示"));
    v.push(simple("stop", "待ち行列を停止し、実行中の依頼へ中断を要求"));
    v.push(simple("cancel", "直近の待機依頼1件を取消。待機がなければ実行中の依頼を中断"));
    v.push(simple("resume", "一時停止した待ち行列の自動開始を再開"));
    v.push(simple("models", "利用可能なモデルを一覧表示"));
    v.push(
        with_option(
            "model",
            "選択中モデルの確認／次の依頼のモデル変更",
            option("id", "ProxyのモデルID", false),
        ),
    );
    v.push(with_option("steer", "現在のTurnへ追加指示", option("text", "追加指示", true)));
    v.push(simple("workspace", "会話を始める前に共有ワークを選択（通常は不要）"));
    v.push(simple("retry", "保存版を選び、確認してもう一度送信"));
    v.push(
        object3(
            "description",
            text("指定した成果物を返送"),
            "name",
            text("get"),
            "options",
            crate::json::array2(option("path", "ワーク内の相対パス（省略で一覧）", false), scope),
        ),
    );
    assert(trees(v@) =~= proxy_commands());
    array(v)
}

/// Whether a channel is a thread below another.
pub open spec fn is_thread(channel: JsonView) -> bool {
    channel.at("type"@).unsigned() is Some && 10 <= channel.at("type"@).unsigned()->0 <= 12
}

/// The channel whose permissions count for attachments: the channel itself (none to fetch), or the
/// parent of a thread.
pub fn permission_parent(channel: &Json, thread: &str, guild: &str) -> (r: Result<
    Option<String>,
    &'static str,
>)
    ensures
        ({
            let right = channel@.at("id"@).says(thread@) && channel@.at("guild_id"@).says(guild@);
            let parent = channel@.at("parent_id"@).text();
            if !right {
                r is Err && r->Err_0@ == "attachment channel mismatch"@
            } else if !is_thread(channel@) {
                r is Ok && r->Ok_0 is None
            } else if parent is None {
                r is Err && r->Err_0@ == "thread parent missing"@
            } else {
                r is Ok && opt_view(r->Ok_0) == parent
            }
        }),
{
    if !(channel.at("id").is_text(thread) && channel.at("guild_id").is_text(guild)) {
        return Err("attachment channel mismatch");
    }
    let in_thread = match channel.at("type").as_u64() {
        Some(n) => 10 <= n && n <= 12,
        None => false,
    };
    if !in_thread {
        return Ok(None);
    }
    match channel.at("parent_id").as_str() {
        Some(s) => Ok(Some(s.to_owned())),
        None => Err("thread parent missing"),
    }
}

/// Whether the parent of a thread is the one that was asked for.
pub fn check_parent(parent: &Json, id: &str, guild: &str) -> (r: Result<(), &'static str>)
    ensures
        r is Ok <==> parent@.at("id"@).says(id@) && parent@.at("guild_id"@).says(guild@),
        r is Err ==> r->Err_0@ == "attachment parent mismatch"@,
{
    if parent.at("id").is_text(id) && parent.at("guild_id").is_text(guild) {
        Ok(())
    } else {
        Err("attachment parent mismatch")
    }
}

} // verus!
