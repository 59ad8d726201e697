//! Where a conversation of the direct runtime stands: what its next request continues, and whether
//! one may be sent.
use crate::direct_store::{send_objection, RunView, SendFacts};
use crate::text::{opt_str, opt_view, same};
use vstd::prelude::*;
use vstd::string::*;

verus! {

/// Where a conversation stands.
#[derive(Debug)]
pub struct Standing {
    /// The thread of Codex that the next request continues.
    pub codex_thread: Option<String>,
    /// New, ready, or waiting for the outcome of a request.
    pub continuation: String,
    pub paused: bool,
    pub pause_revision: i64,
    /// The model that the last ended request was sent with.
    pub effective_model: Option<String>,
    pub effective_sequence: Option<i64>,
    pub last_success_sequence: Option<i64>,
}

/// The mathematical form of a `Standing`.
#[verifier::ext_equal]
pub struct StandingView {
    pub codex_thread: Option<Seq<char>>,
    pub continuation: Seq<char>,
    pub paused: bool,
    pub pause_revision: int,
    pub effective_model: Option<Seq<char>>,
    pub effective_sequence: Option<i64>,
    pub last_success_sequence: Option<i64>,
}

impl View for Standing {
    type V = StandingView;

    open spec fn view(&self) -> StandingView {
        StandingView {
            codex_thread: opt_view(self.codex_thread),
            continuation: self.continuation@,
            paused: self.paused,
            pause_revision: self.pause_revision as int,
            effective_model: opt_view(self.effective_model),
            effective_sequence: self.effective_sequence,
            last_success_sequence: self.last_success_sequence,
        }
    }
}

/// Whether a conversation is new or ready.
pub open spec fn is_ready(s: StandingView) -> bool {
    s.continuation == "NEW"@ || s.continuation == "READY"@
}

/// Once a request crossed the send boundary.
pub open spec fn begun(s: StandingView) -> StandingView {
    StandingView { continuation: "VERIFYING"@, ..s }
}

/// Once a thread of Codex was bound.
pub open spec fn bound(s: StandingView, thread: Seq<char>) -> StandingView {
    StandingView { codex_thread: Some(thread), ..s }
}

/// Once the end of a request is confirmed: only a conversation that waits for it changes.
pub open spec fn settled(
    s: StandingView,
    model: Option<Seq<char>>,
    sequence: i64,
    completed: bool,
) -> StandingView {
    if s.continuation == "VERIFYING"@ {
        StandingView {
            continuation: "READY"@,
            effective_model: model,
            effective_sequence: Some(sequence),
            last_success_sequence: if completed {
                Some(sequence)
            } else {
                s.last_success_sequence
            },
            ..s
        }
    } else {
        s
    }
}

/// Once the user recovered the conversation: it begins a new context and takes messages.
pub open spec fn recovered(s: StandingView) -> StandingView {
    StandingView {
        codex_thread: None,
        continuation: "NEW"@,
        paused: false,
        pause_revision: s.pause_revision + 1,
        ..s
    }
}

/// Once the operator gave its request up: it begins a new context, nothing else.
pub open spec fn given_up(s: StandingView) -> StandingView {
    StandingView { codex_thread: None, continuation: "NEW"@, ..s }
}

impl Standing {
    pub fn ready(&self) -> (r: bool)
        ensures
            r == is_ready(self@),
    {
        same(self.continuation.as_str(), "NEW") || same(self.continuation.as_str(), "READY")
    }

    /// A request crosses the send boundary: nothing else is sent until its outcome is known.
    pub fn begin(&mut self)
        ensures
            final(self)@ == begun(old(self)@),
    {
        self.continuation = String::from_str("VERIFYING");
    }

    /// A thread of Codex is bound.
    pub fn bind(&mut self, thread: &str)
        ensures
            final(self)@ == bound(old(self)@, thread@),
    {
        self.codex_thread = Some(thread.to_owned());
    }

    /// The end of a request is confirmed.
    pub fn settle(&mut self, model: Option<&str>, sequence: i64, completed: bool)
        ensures
            final(self)@ == settled(old(self)@, opt_str(model), sequence, completed),
    {
        if !same(self.continuation.as_str(), "VERIFYING") {
            return;
        }
        self.continuation = String::from_str("READY");
        self.effective_model = match model {
            Some(m) => Some(m.to_owned()),
            None => None,
        };
        self.effective_sequence = Some(sequence);
        if completed {
            self.last_success_sequence = Some(sequence);
        }
    }

    /// The user recovers the conversation.
    pub fn recover(&mut self)
        requires
            old(self).pause_revision < i64::MAX,
        ensures
            final(self)@ == recovered(old(self)@),
    {
        self.codex_thread = None;
        self.continuation = String::from_str("NEW");
        self.paused = false;
        self.pause_revision = self.pause_revision + 1;
    }

    /// The operator gives the uncertain request up.
    pub fn give_up(&mut self)
        ensures
            final(self)@ == given_up(old(self)@),
    {
        self.codex_thread = None;
        self.continuation = String::from_str("NEW");
    }
}

/// What is known of a conversation to a request that is to be sent, from where it stands.
pub open spec fn stands_as(f: SendFacts, s: StandingView) -> bool {
    f.paused == s.paused && f.dispatchable == is_ready(s)
}

/// A recovered conversation continues no thread of Codex and takes messages: it never stands in the
/// way of a request.
pub proof fn recovered_conversations_take_messages(s: StandingView, v: RunView, f: SendFacts)
    requires
        stands_as(f, recovered(s)),
    ensures
        recovered(s).codex_thread is None,
        send_objection(v, f) != Some("direct conversation is not dispatchable"@),
{
    lemma_words();
}

/// A conversation whose request the operator gave up begins a new context. Whether it is paused does
/// not change: it takes messages where it was not.
pub proof fn given_up_conversations_begin_afresh(s: StandingView, v: RunView, f: SendFacts)
    requires
        stands_as(f, given_up(s)),
    ensures
        given_up(s).codex_thread is None,
        given_up(s).paused == s.paused,
        given_up(s).pause_revision == s.pause_revision,
        !s.paused ==> send_objection(v, f) != Some("direct conversation is not dispatchable"@),
{
    lemma_words();
}

/// While the outcome of a request is open, nothing else is sent in its conversation.
pub proof fn conversations_wait_for_an_outcome(s: StandingView, v: RunView, f: SendFacts)
    requires
        stands_as(f, begun(s)),
    ensures
        send_objection(v, f) is Some,
{
    lemma_words();
}

/// Once the outcome is known the conversation is ready again, and continues its thread.
pub proof fn known_outcomes_make_ready(
    s: StandingView,
    thread: Seq<char>,
    model: Option<Seq<char>>,
    sequence: i64,
    completed: bool,
)
    ensures
        is_ready(settled(bound(begun(s), thread), model, sequence, completed)),
        settled(bound(begun(s), thread), model, sequence, completed).codex_thread == Some(thread),
{
}

/// The texts of the objections and states differ.
proof fn lemma_words()
    ensures
        "NEW"@ != "VERIFYING"@,
        "READY"@ != "VERIFYING"@,
        "direct conversation is not dispatchable"@ != "database restore is not released"@,
        "direct conversation is not dispatchable"@ != "Query returned no rows"@,
        "direct conversation is not dispatchable"@ != "direct conversation has no selected model"@,
        "direct conversation is not dispatchable"@ != "project retired"@,
        "direct conversation is not dispatchable"@ != "model validation pending"@,
        "direct conversation is not dispatchable"@ != "direct execution capacity is full"@,
        "direct conversation is not dispatchable"@
            != "direct conversation already has an active request"@,
        "direct conversation is not dispatchable"@ != "earlier request has priority"@,
        "direct conversation is not dispatchable"@ != "request is not queued for direct send"@,
{
    reveal_strlit("NEW");
    reveal_strlit("READY");
    reveal_strlit("VERIFYING");
    reveal_strlit("direct conversation is not dispatchable");
    reveal_strlit("database restore is not released");
    reveal_strlit("Query returned no rows");
    reveal_strlit("direct conversation has no selected model");
    reveal_strlit("project retired");
    reveal_strlit("model validation pending");
    reveal_strlit("direct execution capacity is full");
    reveal_strlit("direct conversation already has an active request");
    reveal_strlit("earlier request has priority");
    reveal_strlit("request is not queued for direct send");
    assert("NEW"@.len() == 3 && "READY"@.len() == 5 && "VERIFYING"@.len() == 9);
    assert("direct conversation is not dispatchable"@.len() == 39);
    assert("database restore is not released"@.len() == 32);
    assert("Query returned no rows"@.len() == 22);
    assert("direct conversation has no selected model"@.len() == 41);
    assert("project retired"@.len() == 15);
    assert("model validation pending"@.len() == 24);
    assert("direct execution capacity is full"@.len() == 33);
    assert("direct conversation already has an active request"@.len() == 49);
    assert("earlier request has priority"@.len() == 28);
    assert("request is not queued for direct send"@.len() == 37);
}

} // verus!
