//! Admission and control of requests of the direct runtime.
use crate::codec::{compact, document, encode, sha256_hex};
use crate::commands::{is_text_control, text_control};
use crate::config::{Discord, Limits, ResponseMode};
use crate::direct_delivery::DirectImageDelivery;
use crate::discord::{input_message, input_objection, should_respond, to_be_answered};
use crate::domain::{digest, RequestState};
use crate::json::{Json, JsonView};
use crate::tables::Table;
use crate::text::{opt_str, same, some_same};
use vstd::prelude::*;

verus! {

#[derive(Debug)]
pub struct DirectDeliveryResult {
    pub answer_delivered: bool,
    pub images: DirectImageDelivery,
}

#[derive(Debug, PartialEq, Eq)]
pub enum DirectAdmission {
    Ignored,
    Duplicate,
    Accepted(String),
}

#[derive(Clone, Copy, Debug, PartialEq, Eq, Structural)]
pub enum DirectControlOutcome {
    WaitingCancelled,
    InterruptAccepted,
    Paused,
    NothingActive,
    ActiveRunUnavailable,
}

/// The text of a message, or nothing.
pub open spec fn content_of(message: JsonView) -> Seq<char> {
    match message.at("content"@).text() {
        Some(s) => s,
        None => Seq::empty(),
    }
}

/// Whether a message is a request: from the authorized user in the guild, written by a person, no
/// command, and addressed to the bot where only mentions count.
pub open spec fn admissible(
    raw: JsonView,
    guild: Seq<char>,
    user: Seq<char>,
    mode: ResponseMode,
    bot: Option<Seq<char>>,
) -> bool {
    raw.at("guild_id"@).says(guild) && raw.at("author"@).at("id"@).says(user) && !raw.at(
        "author"@,
    ).at("bot"@).is_true() && raw.at("webhook_id"@) == JsonView::Null && !text_control(
        content_of(raw),
    ) && to_be_answered(raw, mode, bot)
}

/// The messages that were reserved, each with the request that it became. A message is reserved
/// before its attachments are checked, and stays reserved whatever becomes of its request.
#[derive(Debug)]
pub struct Admissions {
    pub reserved: Table<String>,
}

/// What an event comes to, in mathematical form.
#[verifier::ext_equal]
pub enum AdmissionView {
    Ignored,
    Duplicate,
    Accepted(Seq<char>),
}

impl View for DirectAdmission {
    type V = AdmissionView;

    open spec fn view(&self) -> AdmissionView {
        match self {
            DirectAdmission::Ignored => AdmissionView::Ignored,
            DirectAdmission::Duplicate => AdmissionView::Duplicate,
            DirectAdmission::Accepted(id) => AdmissionView::Accepted(id@),
        }
    }
}

/// An event that carries a message, with the identity that a request of it would get and whether the
/// queues have room for one.
pub struct Arrival {
    pub raw: JsonView,
    pub id: Seq<char>,
    pub room: bool,
}

/// Whom the gateway listens to.
pub struct Audience {
    pub guild: Seq<char>,
    pub user: Seq<char>,
    pub mode: ResponseMode,
    pub bot: Option<Seq<char>>,
}

/// The identity of a message.
pub open spec fn message_id(raw: JsonView) -> Seq<char> {
    raw.at("id"@).text()->0
}

/// What an event comes to, once its place was found to be able to host a conversation.
pub open spec fn admission_of(known: Set<Seq<char>>, a: Arrival, w: Audience) -> Result<
    AdmissionView,
    Seq<char>,
> {
    if !admissible(a.raw, w.guild, w.user, w.mode, w.bot) {
        Ok(AdmissionView::Ignored)
    } else if input_objection(a.raw) is Some {
        Err(input_objection(a.raw)->0)
    } else if known.contains(message_id(a.raw)) {
        Ok(AdmissionView::Duplicate)
    } else if !a.room {
        Err("request queue is full"@)
    } else {
        Ok(AdmissionView::Accepted(a.id))
    }
}

/// The messages that are reserved after an event.
pub open spec fn reserved_after(known: Set<Seq<char>>, a: Arrival, w: Audience) -> Set<Seq<char>> {
    match admission_of(known, a, w) {
        Ok(AdmissionView::Accepted(_)) => known.insert(message_id(a.raw)),
        _ => known,
    }
}

/// The messages that are reserved after the first `n` of some events.
pub open spec fn reserved_by(known: Set<Seq<char>>, all: Seq<Arrival>, w: Audience, n: nat) -> Set<
    Seq<char>,
>
    decreases n,
{
    if n == 0 || n > all.len() {
        known
    } else {
        reserved_after(reserved_by(known, all, w, (n - 1) as nat), all[n - 1], w)
    }
}

/// Once a message was accepted, no later event with its identity is: it makes one request at most.
/// An event that carries the same message again is reported as a duplicate.
pub proof fn a_message_is_accepted_once(
    known: Set<Seq<char>>,
    all: Seq<Arrival>,
    w: Audience,
    i: int,
    j: int,
)
    requires
        0 <= i < j < all.len(),
        admission_of(reserved_by(known, all, w, i as nat), all[i], w) is Ok,
        admission_of(reserved_by(known, all, w, i as nat), all[i], w)->Ok_0 is Accepted,
        all[j].raw.at("id"@).text() == all[i].raw.at("id"@).text(),
    ensures
        ({
            let later = admission_of(reserved_by(known, all, w, j as nat), all[j], w);
            &&& !(later is Ok && later->Ok_0 is Accepted)
            &&& all[j].raw == all[i].raw ==> later == Ok::<AdmissionView, Seq<char>>(
                AdmissionView::Duplicate,
            )
        }),
{
    lemma_stays_reserved(known, all, w, (i + 1) as nat, j as nat, message_id(all[i].raw));
}

proof fn lemma_stays_reserved(
    known: Set<Seq<char>>,
    all: Seq<Arrival>,
    w: Audience,
    i: nat,
    j: nat,
    m: Seq<char>,
)
    requires
        i <= j <= all.len(),
        reserved_by(known, all, w, i).contains(m),
    ensures
        reserved_by(known, all, w, j).contains(m),
    decreases j,
{
    if i < j {
        lemma_stays_reserved(known, all, w, i, (j - 1) as nat, m);
    }
}

impl Admissions {
    pub open spec fn wf(&self) -> bool {
        self.reserved.wf()
    }

    /// The messages that are reserved.
    pub open spec fn known(&self) -> Set<Seq<char>> {
        self.reserved.map().dom()
    }

    pub fn new() -> (r: Admissions)
        ensures
            r.wf(),
            r.reserved.map() == Map::<Seq<char>, String>::empty(),
    {
        Admissions { reserved: Table::new() }
    }

    /// Reserves a message for a request. Of a message that is reserved already nothing changes, nor
    /// where the queue of the conversation, which has `here` requests waiting, or that of all
    /// conversations, which has `waiting`, is full.
    pub fn reserve(&mut self, message: &str, id: &str, here: usize, waiting: usize, limits: &Limits) -> (r:
        Result<Option<String>, &'static str>)
        requires
            old(self).wf(),
        ensures
            final(self).wf(),
            ({
                let before = old(self).reserved.map();
                let room = here < limits.queue_conversation && waiting < limits.queue_global;
                if before.contains_key(message@) {
                    r is Ok && r->Ok_0 is None && final(self).reserved.map() == before
                } else if !room {
                    &&& r is Err && r->Err_0@ == "request queue is full"@
                    &&& final(self).reserved.map() == before
                } else {
                    &&& r is Ok && r->Ok_0 is Some && r->Ok_0->0@ == id@
                    &&& final(self).known() == before.dom().insert(message@)
                    &&& final(self).reserved.map()[message@]@ == id@
                    &&& forall|k: Seq<char>|
                        before.contains_key(k) ==> #[trigger] final(self).reserved.map()[k] == before[k]
                }
            }),
    {
        if self.reserved.holds(message) {
            return Ok(None);
        }
        if !(here < limits.queue_conversation && waiting < limits.queue_global) {
            return Err("request queue is full");
        }
        let ghost before = self.reserved.map();
        self.reserved.insert(message, id.to_owned());
        assert(self.reserved.map().dom() =~= before.dom().insert(message@));
        Ok(Some(id.to_owned()))
    }
}

/// What follows once a message was reserved and its attachments were checked.
#[derive(Clone, Copy, Debug, PartialEq, Eq, Structural)]
pub enum QueuedCheck {
    Send,
    /// The author of the message changed: nothing is sent.
    AuthorChanged,
    /// The input changed since it was admitted: nothing is sent.
    InputChanged,
}

/// What a cancellation found, and what it comes to.
#[derive(Clone, Copy, Debug, PartialEq, Eq, Structural)]
pub enum CancelStep {
    Outcome(DirectControlOutcome),
    /// Interrupt the run, then report it.
    Interrupt,
}

/// How a channel can host a conversation.
pub enum Location {
    Fine,
    /// A thread: its parent, with this identity, must be checked too.
    Below(String),
}

/// What is wrong with a channel as the place of a conversation, apart from its parent.
pub open spec fn location_objection(v: JsonView, channel: Seq<char>, guild: Seq<char>) -> Option<
    Seq<char>,
> {
    let kind = v.at("type"@).unsigned();
    let meta = v.at("thread_metadata"@);
    if !v.at("id"@).says(channel) || !v.at("guild_id"@).says(guild) {
        Some("Discord conversation identity mismatch"@)
    } else if kind == Some(0u64) {
        None
    } else if kind == Some(11u64) || kind == Some(12u64) {
        if meta.at("archived"@).is_true() || meta.at("locked"@).is_true() {
            Some("Discord conversation closed"@)
        } else if v.at("parent_id"@).text() is None {
            Some("Discord parent missing"@)
        } else {
            None
        }
    } else {
        Some("Discord location cannot host a Codex conversation"@)
    }
}

/// Decides on messages and controls of the direct runtime.
pub struct DirectApplication;

impl DirectApplication {
    /// Takes the message of an event in, once its place was found to be able to host a conversation.
    /// A request of it gets the identity `id`; `here` and `waiting` are the requests that wait in
    /// its conversation and in all.
    pub fn admit_message(
        admissions: &mut Admissions,
        raw: &Json,
        discord: &Discord,
        bot: Option<&str>,
        id: &str,
        here: usize,
        waiting: usize,
        limits: &Limits,
    ) -> (r: Result<DirectAdmission, &'static str>)
        requires
            old(admissions).wf(),
        ensures
            final(admissions).wf(),
            ({
                let a = Arrival {
                    raw: raw@,
                    id: id@,
                    room: here < limits.queue_conversation && waiting < limits.queue_global,
                };
                let w = Audience {
                    guild: discord.guild_id@,
                    user: discord.allowed_user_id@,
                    mode: discord.response_mode,
                    bot: opt_str(bot),
                };
                let before = old(admissions).known();
                &&& match admission_of(before, a, w) {
                    Ok(v) => r is Ok && r->Ok_0@ == v,
                    Err(e) => r is Err && r->Err_0@ == e,
                }
                &&& final(admissions).known() == reserved_after(before, a, w)
                &&& r is Ok && r->Ok_0 is Accepted ==> final(admissions).reserved.map()[message_id(
                    raw@,
                )]@ == id@
                &&& forall|k: Seq<char>|
                    before.contains(k) ==> #[trigger] final(admissions).reserved.map()[k] == old(
                        admissions,
                    ).reserved.map()[k]
            }),
    {
        if !DirectApplication::is_request(raw, discord, bot) {
            return Ok(DirectAdmission::Ignored);
        }
        let message = match input_message(raw, discord.guild_id.as_str()) {
            Ok(m) => m,
            Err(e) => return Err(e),
        };
        match admissions.reserve(message.id.as_str(), id, here, waiting, limits) {
            Ok(Some(id)) => Ok(DirectAdmission::Accepted(id)),
            Ok(None) => Ok(DirectAdmission::Duplicate),
            Err(e) => Err(e),
        }
    }

    /// Whether a message is a request. Anything else is ignored.
    pub fn is_request(raw: &Json, discord: &Discord, bot: Option<&str>) -> (r: bool)
        ensures
            r == admissible(
                raw@,
                discord.guild_id@,
                discord.allowed_user_id@,
                discord.response_mode,
                opt_str(bot),
            ),
    {
        let none = "";
        proof {
            reveal_strlit("");
            assert(""@ =~= Seq::<char>::empty());
        }
        let content = match raw.at("content").as_str() {
            Some(s) => s,
            None => none,
        };
        raw.at("guild_id").is_text(discord.guild_id.as_str()) && raw.at("author").at("id").is_text(
            discord.allowed_user_id.as_str(),
        ) && !raw.at("author").at("bot").is_bool(true) && raw.at("webhook_id").is_null()
            && !is_text_control(content) && should_respond(bot, raw, discord.response_mode)
    }

    /// What a cancellation comes to, from what the store found and which request runs here.
    pub fn cancel(kind: &str, target: Option<&str>, active: Option<&str>) -> (r: Result<
        CancelStep,
        &'static str,
    >)
        ensures
            kind@ == "waiting"@ ==> r == Ok::<CancelStep, &'static str>(
                CancelStep::Outcome(DirectControlOutcome::WaitingCancelled),
            ),
            kind@ != "waiting"@ && kind@ == "empty"@ ==> r == Ok::<CancelStep, &'static str>(
                CancelStep::Outcome(DirectControlOutcome::NothingActive),
            ),
            kind@ != "waiting"@ && kind@ != "empty"@ && kind@ == "active"@ ==> r == Ok::<
                CancelStep,
                &'static str,
            >(
                if active is Some && opt_str(active) == opt_str(target) {
                    CancelStep::Interrupt
                } else {
                    CancelStep::Outcome(DirectControlOutcome::ActiveRunUnavailable)
                },
            ),
            kind@ != "waiting"@ && kind@ != "empty"@ && kind@ != "active"@ ==> r is Err && r->Err_0@
                == "unknown cancel result"@,
    {
        if same(kind, "waiting") {
            return Ok(CancelStep::Outcome(DirectControlOutcome::WaitingCancelled));
        }
        if same(kind, "empty") {
            return Ok(CancelStep::Outcome(DirectControlOutcome::NothingActive));
        }
        if !same(kind, "active") {
            return Err("unknown cancel result");
        }
        match active {
            Some(id) => {
                if some_same(target, id) {
                    Ok(CancelStep::Interrupt)
                } else {
                    Ok(CancelStep::Outcome(DirectControlOutcome::ActiveRunUnavailable))
                }
            },
            None => Ok(CancelStep::Outcome(DirectControlOutcome::ActiveRunUnavailable)),
        }
    }

    /// What a stop comes to, from the request that the store marked and the one that runs here.
    pub fn stop(target: Option<&str>, active: Option<&str>) -> (r: CancelStep)
        ensures
            r == if target is None {
                CancelStep::Outcome(DirectControlOutcome::Paused)
            } else if opt_str(active) == opt_str(target) {
                CancelStep::Interrupt
            } else {
                CancelStep::Outcome(DirectControlOutcome::ActiveRunUnavailable)
            },
    {
        match target {
            None => CancelStep::Outcome(DirectControlOutcome::Paused),
            Some(id) => {
                if some_same(active, id) {
                    CancelStep::Interrupt
                } else {
                    CancelStep::Outcome(DirectControlOutcome::ActiveRunUnavailable)
                }
            },
        }
    }

    /// Whether additional instructions belong to the run of this conversation, and their digest.
    pub fn steer(codex_thread: &str, request_thread: &str, thread: &str, input: &Json) -> (r: Result<
        String,
        &'static str,
    >)
        ensures
            r is Ok <==> codex_thread@.len() > 0 && request_thread@ == thread@,
            r is Err ==> r->Err_0@ == "steer destination mismatch"@,
            r is Ok ==> r->Ok_0@ == sha256_hex(compact(document(input@))),
    {
        if !codex_thread.is_empty() && same(request_thread, thread) {
            Ok(digest(encode(input).as_slice()))
        } else {
            Err("steer destination mismatch")
        }
    }

    /// Whether a channel can host a conversation.
    pub fn verify_location(value: &Json, channel: &str, guild: &str) -> (r: Result<
        Location,
        &'static str,
    >)
        ensures
            match location_objection(value@, channel@, guild@) {
                Some(e) => r is Err && r->Err_0@ == e,
                None => {
                    &&& r is Ok
                    &&& value@.at("type"@).unsigned() == Some(0u64) ==> r->Ok_0 is Fine
                    &&& value@.at("type"@).unsigned() != Some(0u64) ==> r->Ok_0 is Below
                        && value@.at("parent_id"@).says(r->Ok_0->Below_0@)
                },
            },
    {
        if !(value.at("id").is_text(channel) && value.at("guild_id").is_text(guild)) {
            return Err("Discord conversation identity mismatch");
        }
        match value.at("type").as_u64() {
            Some(0) => Ok(Location::Fine),
            Some(n) => {
                if n != 11 && n != 12 {
                    return Err("Discord location cannot host a Codex conversation");
                }
                let meta = value.at("thread_metadata");
                if meta.at("archived").is_bool(true) || meta.at("locked").is_bool(true) {
                    return Err("Discord conversation closed");
                }
                match value.at("parent_id").as_str() {
                    Some(s) => Ok(Location::Below(s.to_owned())),
                    None => Err("Discord parent missing"),
                }
            },
            None => Err("Discord location cannot host a Codex conversation"),
        }
    }

    /// Whether the parent of a thread can hold conversations.
    pub fn verify_parent(parent: &Json, id: &str, guild: &str) -> (r: Result<(), &'static str>)
        ensures
            r is Ok <==> parent@.at("id"@).says(id@) && parent@.at("guild_id"@).says(guild@) && (
            parent@.at("type"@) == JsonView::Unsigned(0) || parent@.at("type"@)
                == JsonView::Unsigned(15)),
            r is Err ==> r->Err_0@ == "Discord parent identity mismatch"@,
    {
        if parent.at("id").is_text(id) && parent.at("guild_id").is_text(guild) && (parent.at(
            "type",
        ).is_number(0) || parent.at("type").is_number(15)) {
            Ok(())
        } else {
            Err("Discord parent identity mismatch")
        }
    }

    /// Whether a waiting request may be sent: the message must still have its author and content.
    pub fn start_queued(
        state: RequestState,
        author: &str,
        allowed: &str,
        input_digest: &str,
        admitted_digest: &str,
    ) -> (r: Result<QueuedCheck, &'static str>)
        ensures
            state != RequestState::Queued ==> r is Err && r->Err_0@ == "direct request is not queued"@,
            state == RequestState::Queued ==> r == Ok::<QueuedCheck, &'static str>(
                if author@ != allowed@ {
                    QueuedCheck::AuthorChanged
                } else if input_digest@ != admitted_digest@ {
                    QueuedCheck::InputChanged
                } else {
                    QueuedCheck::Send
                },
            ),
    {
        if state != RequestState::Queued {
            return Err("direct request is not queued");
        }
        if !same(author, allowed) {
            return Ok(QueuedCheck::AuthorChanged);
        }
        if !same(input_digest, admitted_digest) {
            return Ok(QueuedCheck::InputChanged);
        }
        Ok(QueuedCheck::Send)
    }

    /// The code under which an unsent request fails, and the error.
    pub fn unsent_failure(check: QueuedCheck) -> (r: Option<(&'static str, &'static str)>)
        ensures
            check == QueuedCheck::Send ==> r is None,
            check == QueuedCheck::AuthorChanged ==> r is Some && (r->0).0@ == "input_author_changed"@
                && (r->0).1@ == "Discord author changed"@,
            check == QueuedCheck::InputChanged ==> r is Some && (r->0).0@
                == "input_changed_before_send"@ && (r->0).1@
                == "Discord input changed after admission"@,
    {
        match check {
            QueuedCheck::Send => None,
            QueuedCheck::AuthorChanged => Some(("input_author_changed", "Discord author changed")),
            QueuedCheck::InputChanged => Some(
                ("input_changed_before_send", "Discord input changed after admission"),
            ),
        }
    }

    /// What came of delivering an ended request. Its images are delivered although its answer could
    /// not be; an error of the images is reported before one of the answer. `answer` is there where
    /// the request has an answer.
    pub fn finish_and_deliver(
        answer: Option<Result<bool, String>>,
        images: Result<DirectImageDelivery, String>,
    ) -> (r: Result<DirectDeliveryResult, String>)
        ensures
            match images {
                Err(e) => r == Err::<DirectDeliveryResult, String>(e),
                Ok(images) => match answer {
                    Some(Err(e)) => r == Err::<DirectDeliveryResult, String>(e),
                    Some(Ok(shown)) => r == Ok::<DirectDeliveryResult, String>(
                        DirectDeliveryResult { answer_delivered: shown, images },
                    ),
                    None => r == Ok::<DirectDeliveryResult, String>(
                        DirectDeliveryResult { answer_delivered: false, images },
                    ),
                },
            },
    {
        let images = match images {
            Ok(i) => i,
            Err(e) => return Err(e),
        };
        match answer {
            None => Ok(DirectDeliveryResult { answer_delivered: false, images }),
            Some(Ok(answer_delivered)) => Ok(DirectDeliveryResult { answer_delivered, images }),
            Some(Err(e)) => Err(e),
        }
    }

    /// Whether an ended request has an answer to deliver.
    pub fn has_answer(state: RequestState) -> (r: bool)
        ensures
            r == (state == RequestState::Completed),
    {
        state == RequestState::Completed
    }
}

/// A message of another user, of a bot or of a webhook is never a request.
pub proof fn strangers_are_ignored(
    raw: JsonView,
    guild: Seq<char>,
    user: Seq<char>,
    mode: ResponseMode,
    bot: Option<Seq<char>>,
)
    requires
        !raw.at("author"@).at("id"@).says(user) || raw.at("author"@).at("bot"@).is_true() || raw.at(
            "webhook_id"@,
        ) != JsonView::Null || !raw.at("guild_id"@).says(guild),
    ensures
        !admissible(raw, guild, user, mode, bot),
{
}

} // verus!
