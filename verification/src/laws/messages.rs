//! Which messages are taken as requests, and what becomes of them on their way to Codex.
use crate::codec::{sha256_hex, url_parts};
use crate::commands::is_text_control;
use crate::config::{Discord, Limits, ResponseMode};
use crate::direct_application::{
    Admissions, CancelStep, DirectAdmission, DirectApplication, DirectControlOutcome,
    DirectDeliveryResult, Location, QueuedCheck,
};
use crate::direct_delivery::DirectImageDelivery;
use crate::direct_input::{app_server_input, converted, converted_all};
use crate::discord::{fetched_message, input_message, owns_message, should_respond};
use crate::domain::RequestState;
use crate::files::{
    attachment_relative_path, Attachment, InputMessage, Preparation,
};
use crate::json::{lookup, trees, Json, JsonView};
use crate::text::{begins, utf8_len, words};
use vstd::prelude::*;

verus! {

/// The words with which a message is a command of the gateway and no request.
pub open spec fn command_words() -> Seq<Seq<char>> {
    seq![
        "/project"@,
        "/model"@,
        "/models"@,
        "/new"@,
        "/status"@,
        "/stop"@,
        "/cancel"@,
        "/resume"@,
        "/steer"@,
        "/get"@,
        "/workspace"@,
        "/retry"@,
        "/mcp"@,
    ]
}

/// A text is a command exactly where its first word is one of the command words.
pub proof fn commands_are_first_words(text: &str, r: bool)
    requires
        call_ensures(is_text_control, (text,), r),
    ensures
        r <==> words(text@).len() > 0 && command_words().contains(words(text@)[0]),
{
    let all = command_words();
    let w = words(text@)[0];
    assert(all[0] == "/project"@ && all[1] == "/model"@ && all[2] == "/models"@ && all[3] == "/new"@
        && all[4] == "/status"@ && all[5] == "/stop"@ && all[6] == "/cancel"@ && all[7]
        == "/resume"@ && all[8] == "/steer"@ && all[9] == "/get"@ && all[10] == "/workspace"@
        && all[11] == "/retry"@ && all[12] == "/mcp"@);
    if words(text@).len() > 0 && all.contains(w) {
        let i = choose|i: int| 0 <= i < all.len() && all[i] == w;
    }
}

/// A message is answered where all messages are, and else only where it mentions the bot.
pub proof fn mentions_are_answered(bot: Option<&str>, m: &Json, mode: ResponseMode, r: bool)
    requires
        call_ensures(should_respond, (bot, m, mode), r),
    ensures
        mode == ResponseMode::All ==> r,
        mode != ResponseMode::All && bot is None ==> !r,
        mode != ResponseMode::All && bot is Some && !(m@.at("mentions"@) is Array) ==> !r,
        mode != ResponseMode::All && bot is Some && m@.at("mentions"@) is Array ==> (r <==> exists|
            i: int,
        |
            0 <= i < m@.at("mentions"@)->Array_0.len() && (#[trigger] m@.at(
                "mentions"@,
            )->Array_0[i]).at("id"@) == JsonView::Text(bot->0@)),
{
}

/// A message belongs to the bot only where the bot is known and its author.
pub proof fn own_messages_are_by_the_bot(bot: Option<&str>, m: &Json, r: bool)
    requires
        call_ensures(owns_message, (bot, m), r),
    ensures
        r <==> bot is Some && m@.at("author"@).at("id"@) == JsonView::Text(bot->0@),
{
}

/// A message is a request only where it was written in the guild by the allowed user, not by a bot
/// or a webhook, is no command, and is one to be answered.
pub proof fn requests_are_of_the_allowed_user(
    raw: &Json,
    discord: &Discord,
    bot: Option<&str>,
    r: bool,
    control: bool,
    answered: bool,
    content: &str,
)
    requires
        call_ensures(DirectApplication::is_request, (raw, discord, bot), r),
        call_ensures(is_text_control, (content,), control),
        call_ensures(should_respond, (bot, raw, discord.response_mode), answered),
        raw@.at("content"@) == JsonView::Text(content@),
    ensures
        r <==> {
            &&& raw@.at("guild_id"@) == JsonView::Text(discord.guild_id@)
            &&& raw@.at("author"@).at("id"@) == JsonView::Text(discord.allowed_user_id@)
            &&& raw@.at("author"@).at("bot"@) != JsonView::Bool(true)
            &&& raw@.at("webhook_id"@) == JsonView::Null
            &&& !control
            &&& answered
        },
{
}

/// A message is accepted only as a request, under the identity that was made for it, while it was not
/// accepted before and there is room; from then on it is known.
pub proof fn messages_are_accepted_with_room(
    a: &mut Admissions,
    raw: &Json,
    discord: &Discord,
    bot: Option<&str>,
    id: &str,
    here: usize,
    waiting: usize,
    limits: &Limits,
    r: Result<DirectAdmission, &'static str>,
    request: bool,
)
    requires
        call_ensures(
            DirectApplication::admit_message,
            (a, raw, discord, bot, id, here, waiting, limits),
            r,
        ),
        call_ensures(DirectApplication::is_request, (raw, discord, bot), request),
    ensures
        ({
            let message = raw@.at("id"@);
            let known = old(a).reserved.map();
            let after = final(a).reserved.map();
            let accepted = r is Ok && r->Ok_0 is Accepted;
            &&& !request ==> r is Ok && r->Ok_0 is Ignored
            &&& r is Ok && r->Ok_0 is Ignored ==> !request
            &&& accepted ==> message is Text && !known.contains_key(message->Text_0)
                && after.contains_key(message->Text_0) && after[message->Text_0]@ == id@
                && r->Ok_0->Accepted_0@ == id@ && here < limits.queue_conversation && waiting
                < limits.queue_global
            &&& r is Ok && r->Ok_0 is Duplicate ==> message is Text && known.contains_key(
                message->Text_0,
            )
            &&& !accepted ==> after.dom() == known.dom()
            &&& accepted ==> after.dom() == known.dom().insert(message->Text_0)
            &&& request && message is Text && known.contains_key(message->Text_0) ==> !accepted
        }),
{
}

/// A message that was accepted is not accepted a second time.
pub proof fn messages_are_accepted_once(
    a: &mut Admissions,
    b: &mut Admissions,
    raw: &Json,
    again: &Json,
    discord: &Discord,
    bot: Option<&str>,
    id: &str,
    other: &str,
    here: usize,
    waiting: usize,
    limits: &Limits,
    first: Result<DirectAdmission, &'static str>,
    second: Result<DirectAdmission, &'static str>,
)
    requires
        call_ensures(
            DirectApplication::admit_message,
            (a, raw, discord, bot, id, here, waiting, limits),
            first,
        ),
        call_ensures(
            DirectApplication::admit_message,
            (b, again, discord, bot, other, here, waiting, limits),
            second,
        ),
        raw@.at("id"@) == again@.at("id"@),
        first is Ok,
        first->Ok_0 is Accepted,
    ensures
        *old(b) == *final(a) ==> !(second is Ok && second->Ok_0 is Accepted),
        *old(b) == *final(a) && raw@ == again@ ==> second is Ok && second->Ok_0 is Duplicate,
{
}

/// A conversation is held in a text channel of the guild, or in a thread below one that is neither
/// archived nor locked.
pub proof fn conversations_are_in_open_channels(
    v: &Json,
    channel: &str,
    guild: &str,
    r: Result<Location, &'static str>,
)
    requires
        call_ensures(DirectApplication::verify_location, (v, channel, guild), r),
    ensures
        r is Ok ==> v@.at("id"@) == JsonView::Text(channel@) && v@.at("guild_id"@)
            == JsonView::Text(guild@),
        r is Ok && r->Ok_0 is Fine ==> v@.at("type"@) == JsonView::Unsigned(0),
        r is Ok && r->Ok_0 is Below ==> (v@.at("type"@) == JsonView::Unsigned(11) || v@.at("type"@)
            == JsonView::Unsigned(12)) && v@.at("thread_metadata"@).at("archived"@)
            != JsonView::Bool(true) && v@.at("thread_metadata"@).at("locked"@) != JsonView::Bool(
            true,
        ) && v@.at("parent_id"@) == JsonView::Text(r->Ok_0->Below_0@),
        v@.at("id"@) == JsonView::Text(channel@) && v@.at("guild_id"@) == JsonView::Text(guild@)
            && v@.at("type"@) == JsonView::Unsigned(0) ==> r is Ok && r->Ok_0 is Fine,
        v@.at("id"@) == JsonView::Text(channel@) && v@.at("guild_id"@) == JsonView::Text(guild@) && (
        v@.at("type"@) == JsonView::Unsigned(11) || v@.at("type"@) == JsonView::Unsigned(12))
            && v@.at("thread_metadata"@).at("archived"@) != JsonView::Bool(true) && v@.at(
            "thread_metadata"@,
        ).at("locked"@) != JsonView::Bool(true) && v@.at("parent_id"@) is Text ==> r is Ok
            && r->Ok_0 is Below,
{
}

/// The channel above a thread is the one that was named, in the guild, and a text or forum channel.
pub proof fn parents_are_channels_of_the_guild(
    v: &Json,
    id: &str,
    guild: &str,
    r: Result<(), &'static str>,
)
    requires
        call_ensures(DirectApplication::verify_parent, (v, id, guild), r),
    ensures
        r is Ok <==> v@.at("id"@) == JsonView::Text(id@) && v@.at("guild_id"@) == JsonView::Text(
            guild@,
        ) && (v@.at("type"@) == JsonView::Unsigned(0) || v@.at("type"@) == JsonView::Unsigned(15)),
{
}

/// A queued message is sent only as it was admitted: by the allowed user, with the same input. A
/// message that changed fails with nothing sent, for the reason that holds.
pub proof fn changed_messages_are_not_sent(
    state: RequestState,
    author: &str,
    allowed: &str,
    now: &str,
    admitted: &str,
    r: Result<QueuedCheck, &'static str>,
    failure: Option<(&'static str, &'static str)>,
)
    requires
        call_ensures(DirectApplication::start_queued, (state, author, allowed, now, admitted), r),
        r is Ok ==> call_ensures(DirectApplication::unsent_failure, (r->Ok_0,), failure),
    ensures
        r is Ok <==> state == RequestState::Queued,
        r is Ok ==> (r->Ok_0 == QueuedCheck::Send <==> author@ == allowed@ && now@ == admitted@),
        r is Ok && author@ != allowed@ ==> r->Ok_0 == QueuedCheck::AuthorChanged && failure is Some
            && (failure->0).0@ == "input_author_changed"@,
        r is Ok && author@ == allowed@ && now@ != admitted@ ==> r->Ok_0 == QueuedCheck::InputChanged
            && failure is Some && (failure->0).0@ == "input_changed_before_send"@,
        r is Ok && author@ == allowed@ && now@ == admitted@ ==> failure is None,
{
}

/// Cancelling interrupts a run only where the run that is going on is the one that is meant.
pub proof fn only_the_run_that_is_meant_is_interrupted(
    kind: &str,
    target: Option<&str>,
    active: Option<&str>,
    cancelled: Result<CancelStep, &'static str>,
    stopped: CancelStep,
)
    requires
        call_ensures(DirectApplication::cancel, (kind, target, active), cancelled),
        call_ensures(DirectApplication::stop, (target, active), stopped),
    ensures
        cancelled is Ok <==> kind@ == "waiting"@ || kind@ == "empty"@ || kind@ == "active"@,
        cancelled is Ok && cancelled->Ok_0 is Interrupt <==> kind@ == "active"@ && active is Some
            && target is Some && active->0@ == target->0@,
        kind@ == "waiting"@ ==> cancelled->Ok_0 == CancelStep::Outcome(
            DirectControlOutcome::WaitingCancelled,
        ),
        kind@ == "empty"@ ==> cancelled->Ok_0 == CancelStep::Outcome(
            DirectControlOutcome::NothingActive,
        ),
        kind@ == "active"@ && !(cancelled->Ok_0 is Interrupt) ==> cancelled->Ok_0
            == CancelStep::Outcome(DirectControlOutcome::ActiveRunUnavailable),
        stopped is Interrupt <==> target is Some && active is Some && active->0@ == target->0@,
        target is None ==> stopped == CancelStep::Outcome(DirectControlOutcome::Paused),
        target is Some && !(stopped is Interrupt) ==> stopped == CancelStep::Outcome(
            DirectControlOutcome::ActiveRunUnavailable,
        ),
{
    reveal_strlit("waiting");
    reveal_strlit("empty");
    reveal_strlit("active");
    assert("waiting"@.len() == 7 && "empty"@.len() == 5 && "active"@.len() == 6);
}

/// A run takes further input only of its own conversation, once it has a thread.
pub proof fn runs_are_steered_from_their_conversation(
    codex_thread: &str,
    request_thread: &str,
    thread: &str,
    input: &Json,
    r: Result<String, &'static str>,
)
    requires
        call_ensures(DirectApplication::steer, (codex_thread, request_thread, thread, input), r),
    ensures
        r is Ok <==> codex_thread@.len() > 0 && request_thread@ == thread@,
{
}

/// A completed request, and no other, has an answer.
pub proof fn completed_requests_have_an_answer(state: RequestState, r: bool)
    requires
        call_ensures(DirectApplication::has_answer, (state,), r),
    ensures
        r <==> state == RequestState::Completed,
{
}

/// What was delivered is reported as it was: an answer counts as delivered only where its delivery
/// says so, and a failure of either part is not hidden.
pub proof fn deliveries_are_reported_as_they_went(
    answer: Option<Result<bool, String>>,
    images: Result<DirectImageDelivery, String>,
    r: Result<DirectDeliveryResult, String>,
)
    requires
        call_ensures(DirectApplication::finish_and_deliver, (answer, images), r),
    ensures
        r is Ok && r->Ok_0.answer_delivered <==> images is Ok && answer is Some && answer->0 is Ok
            && answer->0->Ok_0,
        r is Ok <==> images is Ok && (answer is None || answer->0 is Ok),
        r is Ok ==> r->Ok_0.images == images->Ok_0,
{
}

/// What is taken from a message is what it says: its identity, its channel, its author, its text and
/// its attachments, each with its own name, address and size, in their order.
pub proof fn messages_are_taken_as_they_are(
    v: &Json,
    guild: &str,
    r: Result<InputMessage, &'static str>,
    k: int,
)
    requires
        call_ensures(input_message, (v, guild), r),
        r is Ok,
    ensures
        v@.at("id"@) == JsonView::Text(r->Ok_0.id@),
        v@.at("channel_id"@) == JsonView::Text(r->Ok_0.thread_id@),
        v@.at("author"@).at("id"@) == JsonView::Text(r->Ok_0.user_id@),
        r->Ok_0.guild_id@ == guild@,
        v@.at("content"@) is Text ==> v@.at("content"@) == JsonView::Text(r->Ok_0.content@),
        !(v@.at("content"@) is Text) ==> r->Ok_0.content@.len() == 0,
        v@.at("attachments"@) is Array ==> r->Ok_0.attachments@.len() == v@.at(
            "attachments"@,
        )->Array_0.len(),
        !(v@.at("attachments"@) is Array) ==> r->Ok_0.attachments@.len() == 0,
        0 <= k < r->Ok_0.attachments@.len() ==> {
            let a = r->Ok_0.attachments@[k];
            let j = v@.at("attachments"@)->Array_0[k];
            &&& j.at("id"@) == JsonView::Text(a.id@)
            &&& j.at("filename"@) == JsonView::Text(a.filename@)
            &&& j.at("url"@) == JsonView::Text(a.url@)
            &&& j.at("size"@) == JsonView::Unsigned(a.size)
        },
{
}

/// A message that is read again counts only where it is the message that was asked for, in the
/// channel that was asked for, and of a person.
pub proof fn fetched_messages_are_those_asked_for(
    v: &Json,
    thread: &str,
    id: &str,
    guild: &str,
    r: Result<InputMessage, &'static str>,
)
    requires
        call_ensures(fetched_message, (v, thread, id, guild), r),
    ensures
        r is Ok ==> v@.at("id"@) == JsonView::Text(id@) && v@.at("channel_id"@) == JsonView::Text(
            thread@,
        ) && v@.at("author"@).at("bot"@) != JsonView::Bool(true) && v@.at("webhook_id"@)
            == JsonView::Null && r->Ok_0.id@ == id@ && r->Ok_0.thread_id@ == thread@
            && r->Ok_0.guild_id@ == guild@ && v@.at("author"@).at("id"@) == JsonView::Text(
            r->Ok_0.user_id@,
        ),
        r is Ok && v@.at("content"@) is Text ==> v@.at("content"@) == JsonView::Text(
            r->Ok_0.content@,
        ),
{
}

/// A message is prepared from its own text; one that is empty, too long or has too many attachments
/// is refused.
pub proof fn messages_are_prepared_from_their_text(
    m: &InputMessage,
    limits: &Limits,
    r: Result<Preparation, &'static str>,
)
    requires
        call_ensures(Preparation::start, (m, limits), r),
    ensures
        r is Ok ==> m.attachments@.len() <= limits.attachments && utf8_len(m.content@)
            <= limits.text_bytes && (m.content@.len() > 0 || m.attachments@.len() > 0),
        r is Ok ==> trees(r->Ok_0.content@).len() == 1 && trees(r->Ok_0.content@)[0].at("text"@)
            == JsonView::Text(m.content@) && trees(r->Ok_0.content@)[0].at("type"@)
            == JsonView::Text("input_text"@),
        m.attachments@.len() > limits.attachments || utf8_len(m.content@) > limits.text_bytes ==> r
            is Err,
        0 < m.attachments@.len() <= limits.attachments && utf8_len(m.content@) <= limits.text_bytes
            ==> r is Ok,
{
    reveal_strlit("text");
    reveal_strlit("type");
    assert("text"@.len() == 4 && "type"@.len() == 4);
    assert("text"@[1] != "type"@[1]);
    reveal_with_fuel(lookup, 3);
}

/// An attachment is fetched only from where the service keeps them, over a secure address without
/// credentials, and only up to its limit.
pub proof fn attachments_come_from_the_service(
    a: &Attachment,
    limits: &Limits,
    r: Result<(), String>,
)
    requires
        call_ensures(Preparation::may_fetch, (a, limits), r),
    ensures
        r is Ok <==> a.size <= limits.attachment_bytes && url_parts(a.url@) is Ok && {
            let u = url_parts(a.url@)->Ok_0;
            &&& u.scheme == "https"@
            &&& u.host == Some("cdn.discordapp.com"@) || u.host == Some("media.discordapp.net"@)
            &&& u.username.len() == 0
            &&& u.password is None
        },
{
}

/// The bytes of an attachment stay within their limit.
pub proof fn attachments_stay_within_their_limit(
    have: usize,
    more: usize,
    limits: &Limits,
    r: Result<(), &'static str>,
)
    requires
        call_ensures(Preparation::fits, (have, more, limits), r),
    ensures
        r is Ok <==> have + more <= limits.attachment_bytes,
{
}

/// An attachment that is received adds one item to the input and one record with its own identity,
/// size and digest; what came before stays. A file is kept with its bytes, a picture or a text goes
/// into the input itself. All attachments together stay within the limits.
pub proof fn attachments_are_received_whole(
    p: &mut Preparation,
    m: &InputMessage,
    a: &Attachment,
    bytes: Vec<u8>,
    limits: &Limits,
    r: Result<(), String>,
)
    requires
        call_ensures(Preparation::receive, (p, m, a, bytes, limits), r),
        bytes@.len() <= usize::MAX / 4,
    ensures
        r is Ok ==> {
            let before = trees(old(p).content@);
            let after = trees(final(p).content@);
            let kind = final(p).records@.last().kind@;
            &&& final(p).total == old(p).total + bytes@.len()
            &&& final(p).total <= limits.input_bytes
            &&& final(p).total <= limits.temp_bytes
            &&& after.len() == before.len() + 1
            &&& after.take(before.len() as int) == before
            &&& final(p).records@.len() == old(p).records@.len() + 1
            &&& final(p).records@.last().id@ == a.id@
            &&& final(p).records@.last().sha256@ == sha256_hex(bytes@)
            &&& kind == "image"@ || kind == "text"@ || kind == "file"@
            &&& kind == "file"@ ==> final(p).files@.len() == old(p).files@.len() + 1
                && final(p).files@.last().1@ == bytes@
            &&& kind != "file"@ ==> final(p).files@ == old(p).files@
        },
        old(p).total + bytes@.len() > limits.input_bytes || old(p).total + bytes@.len()
            > limits.temp_bytes ==> r is Err,
        r is Err ==> final(p).total == old(p).total && final(p).files == old(p).files
            && final(p).records == old(p).records,
{
    reveal_strlit("image");
    reveal_strlit("text");
    reveal_strlit("file");
    assert("image"@.len() == 5 && "text"@.len() == 4 && "file"@.len() == 4);
    assert("text"@[0] != "file"@[0]);
    if r is Ok {
        let j = seq![
            JsonView::Text(a.id@),
            JsonView::Unsigned(bytes@.len() as u64),
            JsonView::Text(sha256_hex(bytes@)),
        ];
        let last = crate::files::received_view(final(p).records@.last());
        assert(last->Array_0[0] == JsonView::Text(final(p).records@.last().id@));
        assert(last->Array_0[2] == JsonView::Text(final(p).records@.last().sha256@));
        assert(last->Array_0[3] == JsonView::Text(final(p).records@.last().kind@));
        assert(trees(final(p).content@).take(trees(old(p).content@).len() as int) =~= trees(
            old(p).content@,
        ));
    }
}

/// An attachment is saved under the message and the attachment that it belongs to, so two never
/// share a file; and only under numbers.
pub proof fn attachments_are_saved_apart(
    message: &str,
    a: &Attachment,
    b: &Attachment,
    ra: Result<String, &'static str>,
    rb: Result<String, &'static str>,
)
    requires
        call_ensures(attachment_relative_path, (message, a), ra),
        call_ensures(attachment_relative_path, (message, b), rb),
        ra is Ok,
        rb is Ok,
        a.id@.len() == b.id@.len(),
        a.id@ != b.id@,
    ensures
        ra->Ok_0@ != rb->Ok_0@,
        begins(ra->Ok_0@, ".hoshikage-inputs/"@ + message@ + "/"@ + a.id@ + "-"@),
        forall|i: int| 0 <= i < a.id@.len() ==> '0' <= #[trigger] a.id@[i] <= '9',
{
    reveal_strlit("/");
    reveal_strlit("-");
    reveal_strlit(".hoshikage-inputs");
    reveal_strlit(".hoshikage-inputs/");
    let head = ".hoshikage-inputs/"@ + message@ + "/"@;
    let x = ra->Ok_0@;
    let y = rb->Ok_0@;
    assert(x.subrange(head.len() as int, head.len() as int + a.id@.len()) =~= a.id@);
    assert(y.subrange(head.len() as int, head.len() as int + b.id@.len()) =~= b.id@);
    let start = head + a.id@ + "-"@;
    assert(start =~= ".hoshikage-inputs/"@ + message@ + "/"@ + a.id@ + "-"@);
    assert(x.take(start.len() as int) =~= start);
}

proof fn items_are_converted(items: Seq<JsonView>, n: nat, k: int)
    requires
        n <= items.len(),
        converted_all(items, n) is Ok,
    ensures
        converted_all(items, n)->Ok_0.len() == n,
        0 <= k < n ==> converted(items[k]) == Ok::<JsonView, Seq<char>>(
            converted_all(items, n)->Ok_0[k],
        ),
    decreases n,
{
    if n > 0 {
        items_are_converted(items, (n - 1) as nat, k);
    }
}

/// The input of a turn is the content that was prepared, item by item: texts as texts, pictures as
/// pictures, and pictures only where they are carried in the input itself.
pub proof fn input_is_handed_on_item_by_item(
    prepared: &Json,
    r: Result<Vec<Json>, &'static str>,
    k: int,
)
    requires
        call_ensures(app_server_input, (prepared,), r),
        r is Ok,
        0 <= k < r->Ok_0@.len(),
    ensures
        prepared@ is Array,
        prepared@->Array_0.len() == 1,
        ({
            let message = prepared@->Array_0[0];
            let from = message.at("content"@)->Array_0[k];
            let to = trees(r->Ok_0@)[k];
            &&& message.at("role"@) == JsonView::Text("user"@)
            &&& message.at("content"@) is Array
            &&& r->Ok_0@.len() == message.at("content"@)->Array_0.len()
            &&& from.at("type"@) == JsonView::Text("input_text"@) || from.at("type"@)
                == JsonView::Text("input_image"@)
            &&& from.at("type"@) == JsonView::Text("input_text"@) ==> to.at("type"@)
                == JsonView::Text("text"@) && to.at("text"@) == from.at("text"@) && to.at("text"@)
                is Text
            &&& from.at("type"@) == JsonView::Text("input_image"@) ==> to.at("type"@)
                == JsonView::Text("image"@) && to.at("url"@) == from.at("image_url"@) && to.at(
                "url"@,
            ) is Text && (begins(to.at("url"@)->Text_0, "data:image/png;base64,"@) || begins(
                to.at("url"@)->Text_0,
                "data:image/jpeg;base64,"@,
            ) || begins(to.at("url"@)->Text_0, "data:image/webp;base64,"@)) && (from.at("detail"@)
                is Text ==> to.at("detail"@) == from.at("detail"@)) && (!(from.at("detail"@)
                is Text) ==> to.at("detail"@) == JsonView::Text("high"@))
        }),
{
    reveal_strlit("detail");
    reveal_strlit("type");
    reveal_strlit("url");
    reveal_strlit("text");
    assert("detail"@.len() == 6 && "type"@.len() == 4 && "url"@.len() == 3 && "text"@.len() == 4);
    assert("type"@[1] != "text"@[1]);
    reveal_strlit("input_text");
    reveal_strlit("input_image");
    assert("input_text"@.len() == 10 && "input_image"@.len() == 11);
    let items = prepared@.item(0).at("content"@)->Array_0;
    assert(trees(r->Ok_0@).len() == r->Ok_0@.len());
    items_are_converted(items, items.len(), k);
    let m = trees(r->Ok_0@)[k]->Object_0;
    assert(m[0].0 == "text"@ || m[0].0 == "detail"@);
    assert(m[1].0 == "type"@);
    reveal_with_fuel(lookup, 4);
}

/// Input is handed on only where there is some.
pub proof fn empty_input_is_refused(prepared: &Json, r: Result<Vec<Json>, &'static str>)
    requires
        call_ensures(app_server_input, (prepared,), r),
        r is Ok,
    ensures
        r->Ok_0@.len() > 0,
{
    let items = prepared@.item(0).at("content"@)->Array_0;
    items_are_converted(items, items.len(), 0);
    assert(trees(r->Ok_0@).len() == r->Ok_0@.len());
}

} // verus!
