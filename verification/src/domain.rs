//! Requests, conversations, identities and the redaction of secrets.
use crate::codec::{clock_millis, hex_digit, quote, quoted, random_uuid, sha256, sha256_hex, uuid_form};
use crate::text::{begins, chars_of, same};
use vstd::prelude::*;
use vstd::string::*;

verus! {

/// The present time in milliseconds since 1970.
pub fn now_ms() -> (r: i64)
    ensures
        0 <= r,
{
    let t: u128 = clock_millis();
    if t <= 0x7fff_ffff_ffff_ffff {
        t as i64
    } else {
        0x7fff_ffff_ffff_ffff
    }
}

/// The SHA-256 digest of bytes in lower-case hexadecimal.
pub fn digest(bytes: &[u8]) -> (s: String)
    ensures
        s@ == sha256_hex(bytes@),
        s@.len() == 64,
        forall|i: int| 0 <= i < 64 ==> hex_digit(#[trigger] s@[i]),
{
    sha256(bytes)
}

/// A fresh random identity.
pub fn id() -> (s: String)
    ensures
        uuid_form(s@),
{
    random_uuid()
}

/// Life of a request.
#[derive(Clone, Copy, Debug, PartialEq, Eq, Structural)]
pub enum RequestState {
    Received,
    Queued,
    Sending,
    Running,
    ApprovalRequired,
    CancelRequested,
    Completed,
    Failed,
    Cancelled,
    Unknown,
}

impl RequestState {
    /// The stored name of a state.
    pub open spec fn name(self) -> Seq<char> {
        match self {
            RequestState::Received => "RECEIVED"@,
            RequestState::Queued => "QUEUED"@,
            RequestState::Sending => "SENDING"@,
            RequestState::Running => "RUNNING"@,
            RequestState::ApprovalRequired => "APPROVAL_REQUIRED"@,
            RequestState::CancelRequested => "CANCEL_REQUESTED"@,
            RequestState::Completed => "COMPLETED"@,
            RequestState::Failed => "FAILED"@,
            RequestState::Cancelled => "CANCELLED"@,
            RequestState::Unknown => "UNKNOWN"@,
        }
    }

    pub open spec fn ended(self) -> bool {
        self == RequestState::Completed || self == RequestState::Failed || self
            == RequestState::Cancelled
    }

    /// Whether a request has not crossed the send boundary.
    pub open spec fn unsent(self) -> bool {
        self == RequestState::Received || self == RequestState::Queued
    }

    /// The transitions that a request may make.
    pub open spec fn may_become(self, next: RequestState) -> bool {
        ||| self == next
        ||| self == RequestState::Received && (next == RequestState::Queued || next
            == RequestState::Failed || next == RequestState::Cancelled)
        ||| self == RequestState::Queued && (next == RequestState::Sending || next
            == RequestState::Failed || next == RequestState::Cancelled)
        ||| !self.unsent() && !self.ended() && !next.unsent() && next != RequestState::Sending
    }

    pub fn terminal(self) -> (r: bool)
        ensures
            r == self.ended(),
    {
        matches!(self, RequestState::Completed | RequestState::Failed | RequestState::Cancelled)
    }

    pub fn as_str(self) -> (s: &'static str)
        ensures
            s@ == self.name(),
    {
        match self {
            RequestState::Received => "RECEIVED",
            RequestState::Queued => "QUEUED",
            RequestState::Sending => "SENDING",
            RequestState::Running => "RUNNING",
            RequestState::ApprovalRequired => "APPROVAL_REQUIRED",
            RequestState::CancelRequested => "CANCEL_REQUESTED",
            RequestState::Completed => "COMPLETED",
            RequestState::Failed => "FAILED",
            RequestState::Cancelled => "CANCELLED",
            RequestState::Unknown => "UNKNOWN",
        }
    }

    pub fn parse(s: &str) -> (r: Result<RequestState, &'static str>)
        ensures
            r is Ok <==> exists|state: RequestState| #[trigger] state.name() == s@,
            r is Ok ==> r->Ok_0.name() == s@,
            r is Err ==> r->Err_0@ == "invalid request state"@,
    {
        let states = [
            RequestState::Received,
            RequestState::Queued,
            RequestState::Sending,
            RequestState::Running,
            RequestState::ApprovalRequired,
            RequestState::CancelRequested,
            RequestState::Completed,
            RequestState::Failed,
            RequestState::Cancelled,
            RequestState::Unknown,
        ];
        let mut i: usize = 0;
        while i < 10
            invariant
                i <= 10,
                forall|j: int| 0 <= j < i ==> (#[trigger] states@[j]).name() != s@,
            decreases 10 - i,
        {
            if same(states[i].as_str(), s) {
                return Ok(states[i]);
            }
            i += 1;
        }
        assert forall|state: RequestState| #[trigger] state.name() != s@ by {
            assert(states@[0] == RequestState::Received);
            assert(states@[1] == RequestState::Queued);
            assert(states@[2] == RequestState::Sending);
            assert(states@[3] == RequestState::Running);
            assert(states@[4] == RequestState::ApprovalRequired);
            assert(states@[5] == RequestState::CancelRequested);
            assert(states@[6] == RequestState::Completed);
            assert(states@[7] == RequestState::Failed);
            assert(states@[8] == RequestState::Cancelled);
            assert(states@[9] == RequestState::Unknown);
        }
        Err("invalid request state")
    }

    pub fn allows(self, next: RequestState) -> (r: bool)
        ensures
            r == self.may_become(next),
    {
        if self == next {
            return true;
        }
        if self.terminal() {
            return false;
        }
        match self {
            RequestState::Received => matches!(
                next,
                RequestState::Queued | RequestState::Failed | RequestState::Cancelled
            ),
            RequestState::Queued => matches!(
                next,
                RequestState::Sending | RequestState::Failed | RequestState::Cancelled
            ),
            _ => !matches!(
                next,
                RequestState::Received | RequestState::Queued | RequestState::Sending
            ),
        }
    }
}

/// No two states share a name: reading back a stored name gives the state that was written.
pub proof fn names_are_distinct(a: RequestState, b: RequestState)
    ensures
        a.name() == b.name() ==> a == b,
{
    reveal_strlit("RECEIVED");
    reveal_strlit("QUEUED");
    reveal_strlit("SENDING");
    reveal_strlit("RUNNING");
    reveal_strlit("APPROVAL_REQUIRED");
    reveal_strlit("CANCEL_REQUESTED");
    reveal_strlit("COMPLETED");
    reveal_strlit("FAILED");
    reveal_strlit("CANCELLED");
    reveal_strlit("UNKNOWN");
    let (x, y) = (a.name(), b.name());
    if x == y {
        assert(x.len() == y.len() && x[0] == y[0] && x[1] == y[1]);
    }
}

/// A path of allowed transitions.
pub open spec fn lawful(path: Seq<RequestState>) -> bool {
    forall|i: int| 0 <= i < path.len() - 1 ==> (#[trigger] path[i]).may_become(path[i + 1])
}

/// An ended request stays as it ended, however many transitions follow.
pub proof fn ended_is_final(path: Seq<RequestState>, i: int)
    requires
        lawful(path),
        0 <= i < path.len(),
        path[0].ended(),
    ensures
        path[i] == path[0],
    decreases i,
{
    if i > 0 {
        ended_is_final(path, i - 1);
        assert(path[i - 1].may_become(path[i]));
    }
}

/// A request that has crossed the send boundary is never queued or sent again, however many
/// transitions follow: an uncertain task is not rerun.
pub proof fn sent_is_never_resent(path: Seq<RequestState>, i: int)
    requires
        lawful(path),
        0 <= i < path.len(),
        !path[0].unsent(),
    ensures
        !path[i].unsent(),
        path[i] == RequestState::Sending ==> path[0] == RequestState::Sending,
    decreases i,
{
    if i > 0 {
        sent_is_never_resent(path, i - 1);
        assert(path[i - 1].may_become(path[i]));
    }
}

/// A request admitted from a Discord message.
#[derive(Debug)]
pub struct Request {
    pub id: String,
    pub message_id: String,
    pub thread_id: String,
    pub project_id: String,
    pub sequence: i64,
    pub state: RequestState,
    pub input_digest: String,
    pub client_request_id: Option<String>,
    pub response_id: Option<String>,
    pub proxy_thread_id: Option<String>,
    pub turn_id: Option<String>,
    pub model: Option<String>,
    pub previous_response_id: Option<String>,
    pub stop_requested: bool,
    pub dispatch_eligible: bool,
}

/// The conversation of a Discord channel or thread.
#[derive(Debug)]
pub struct Conversation {
    pub thread_id: String,
    pub project_id: String,
    pub paused: bool,
    pub pause_revision: i64,
    pub selected_model: String,
    pub effective_model: Option<String>,
    pub selected_reasoning_effort: String,
    pub effective_reasoning_effort: Option<String>,
    pub proxy_thread_id: Option<String>,
    pub last_response_id: Option<String>,
    pub continuation: String,
}

/// What stands in the output in place of a secret.
pub open spec fn mask() -> Seq<char> {
    "[非公開]"@
}

/// Whether more text could complete a secret that begins where `text` begins.
pub open spec fn unfinished(secrets: Set<Seq<char>>, text: Seq<char>) -> bool {
    exists|p: Seq<char>| #[trigger] secrets.contains(p) && p.len() > text.len() && begins(p, text)
}

/// Length of the longest secret among the first `n` characters of `text`, counted from its start.
pub open spec fn hit_within(secrets: Set<Seq<char>>, text: Seq<char>, n: nat) -> nat
    decreases n,
{
    if n == 0 {
        0
    } else if n <= text.len() && secrets.contains(text.take(n as int)) {
        n
    } else {
        hit_within(secrets, text, (n - 1) as nat)
    }
}

/// Length of the longest secret that `text` begins with, or zero.
pub open spec fn hit(secrets: Set<Seq<char>>, text: Seq<char>) -> nat {
    hit_within(secrets, text, text.len())
}

/// The longest secret is one, fits, and no longer one stands there.
pub proof fn lemma_hit_within(secrets: Set<Seq<char>>, text: Seq<char>, n: nat)
    ensures
        hit_within(secrets, text, n) <= n,
        hit_within(secrets, text, n) <= text.len(),
        hit_within(secrets, text, n) > 0 ==> secrets.contains(
            text.take(hit_within(secrets, text, n) as int),
        ),
        forall|k: int|
            hit_within(secrets, text, n) < k <= n && k <= text.len() ==> !secrets.contains(
                #[trigger] text.take(k),
            ),
    decreases n,
{
    if n > 0 && !(n <= text.len() && secrets.contains(text.take(n as int))) {
        lemma_hit_within(secrets, text, (n - 1) as nat);
    }
}

/// What is shown of a text so far: each secret masked, and nothing of a secret that may be
/// unfinished at its end.
pub open spec fn shown(secrets: Set<Seq<char>>, text: Seq<char>) -> Seq<char>
    decreases text.len(),
{
    if text.len() == 0 || unfinished(secrets, text) {
        Seq::empty()
    } else if hit(secrets, text) > 0 {
        proof {
            lemma_hit_within(secrets, text, text.len());
        }
        mask() + shown(secrets, text.skip(hit(secrets, text) as int))
    } else {
        seq![text[0]] + shown(secrets, text.skip(1))
    }
}

/// What is held back of a text so far.
pub open spec fn held(secrets: Set<Seq<char>>, text: Seq<char>) -> Seq<char>
    decreases text.len(),
{
    if text.len() == 0 || unfinished(secrets, text) {
        text
    } else if hit(secrets, text) > 0 {
        proof {
            lemma_hit_within(secrets, text, text.len());
        }
        held(secrets, text.skip(hit(secrets, text) as int))
    } else {
        held(secrets, text.skip(1))
    }
}

/// For each character that is not held back, whether it is shown in the clear.
pub open spec fn clear(secrets: Set<Seq<char>>, text: Seq<char>) -> Seq<bool>
    decreases text.len(),
{
    if text.len() == 0 || unfinished(secrets, text) {
        Seq::empty()
    } else if hit(secrets, text) > 0 {
        proof {
            lemma_hit_within(secrets, text, text.len());
        }
        Seq::new(hit(secrets, text), |i: int| false) + clear(
            secrets,
            text.skip(hit(secrets, text) as int),
        )
    } else {
        seq![true] + clear(secrets, text.skip(1))
    }
}

/// A secret is never shown whole: wherever one stands in the text, its first character is not shown
/// in the clear.
pub proof fn secrets_stay_hidden(secrets: Set<Seq<char>>, text: Seq<char>, p: Seq<char>, i: int)
    requires
        secrets.contains(p),
        p.len() > 0,
        0 <= i,
        i + p.len() <= text.len(),
        text.subrange(i, i + p.len()) == p,
    ensures
        i < clear(secrets, text).len() ==> !clear(secrets, text)[i],
    decreases text.len(),
{
    if text.len() == 0 || unfinished(secrets, text) {
    } else {
        let n = hit(secrets, text);
        lemma_hit_within(secrets, text, text.len());
        if n > 0 {
            if i >= n {
                let rest = text.skip(n as int);
                assert(rest.subrange(i - n, i - n + p.len()) =~= p);
                secrets_stay_hidden(secrets, rest, p, i - n);
            }
        } else if i == 0 {
            assert(text.take(p.len() as int) =~= p);
            assert(!secrets.contains(text.take(p.len() as int)));
        } else {
            let rest = text.skip(1);
            assert(rest.subrange(i - 1, i - 1 + p.len()) =~= p);
            secrets_stay_hidden(secrets, rest, p, i - 1);
        }
    }
}

/// Whether a text has no character of the mask in it.
pub open spec fn unmasked(p: Seq<char>) -> bool {
    forall|i: int, j: int|
        0 <= i < p.len() && 0 <= j < mask().len() ==> #[trigger] p[i] != #[trigger] mask()[j]
}

/// A beginning of what is shown that has no character of the mask in it is a beginning of the text.
proof fn lemma_shown_beginning(secrets: Set<Seq<char>>, text: Seq<char>, n: nat)
    requires
        n <= shown(secrets, text).len(),
        unmasked(shown(secrets, text).take(n as int)),
    ensures
        n <= text.len(),
        shown(secrets, text).take(n as int) == text.take(n as int),
    decreases text.len(),
{
    let out = shown(secrets, text);
    if n > 0 {
        reveal_strlit("[非公開]");
        lemma_hit_within(secrets, text, text.len());
        if hit(secrets, text) > 0 {
            assert(out.take(n as int)[0] == mask()[0]);
        } else {
            let rest = shown(secrets, text.skip(1));
            assert(out.take(n as int).skip(1) =~= rest.take(n - 1));
            assert forall|i: int, j: int|
                0 <= i < n - 1 && 0 <= j < mask().len() implies #[trigger] rest.take(n - 1)[i]
                != #[trigger] mask()[j] by {
                assert(rest.take(n - 1)[i] == out.take(n as int)[i + 1]);
            }
            lemma_shown_beginning(secrets, text.skip(1), (n - 1) as nat);
            assert(out.take(n as int) =~= text.take(n as int)) by {
                assert forall|i: int| 0 <= i < n implies out[i] == text[i] by {
                    if i > 0 {
                        assert(rest.take(n - 1)[i - 1] == text.skip(1).take(n - 1)[i - 1]);
                    }
                }
            }
        }
    }
}

/// No secret occurs in what is shown, wherever it stands in the text: none that shares no character
/// with the mask, which could otherwise be read across the edge of a mask.
pub proof fn no_secret_is_shown(secrets: Set<Seq<char>>, text: Seq<char>, p: Seq<char>, i: int)
    requires
        secrets.contains(p),
        p.len() > 0,
        unmasked(p),
        0 <= i,
        i + p.len() <= shown(secrets, text).len(),
    ensures
        shown(secrets, text).subrange(i, i + p.len()) != p,
    decreases text.len(),
{
    let out = shown(secrets, text);
    let part = out.subrange(i, i + p.len());
    reveal_strlit("[非公開]");
    lemma_hit_within(secrets, text, text.len());
    let n = hit(secrets, text);
    if n > 0 {
        let rest = shown(secrets, text.skip(n as int));
        if i >= mask().len() {
            no_secret_is_shown(secrets, text.skip(n as int), p, i - mask().len());
            assert(part =~= rest.subrange(i - mask().len(), i - mask().len() + p.len()));
        } else {
            assert(part[0] == mask()[i]);
            assert(p[0] != mask()[i]);
        }
    } else if i > 0 {
        let rest = shown(secrets, text.skip(1));
        no_secret_is_shown(secrets, text.skip(1), p, i - 1);
        assert(part =~= rest.subrange(i - 1, i - 1 + p.len()));
    } else if part == p {
        assert(out.take(p.len() as int) =~= part);
        lemma_shown_beginning(secrets, text, p.len());
        assert(text.take(p.len() as int) == p);
    }
}

/// Nor does one occur once the text has ended and what was held back is masked.
pub proof fn no_secret_is_shown_at_the_end(
    secrets: Set<Seq<char>>,
    text: Seq<char>,
    p: Seq<char>,
    i: int,
)
    requires
        secrets.contains(p),
        p.len() > 0,
        unmasked(p),
        0 <= i,
        i + p.len() <= (shown(secrets, text) + mask()).len(),
    ensures
        (shown(secrets, text) + mask()).subrange(i, i + p.len()) != p,
{
    let out = shown(secrets, text);
    let part = (out + mask()).subrange(i, i + p.len());
    if i + p.len() <= out.len() {
        no_secret_is_shown(secrets, text, p, i);
        assert(part =~= out.subrange(i, i + p.len()));
    } else {
        let j = i + p.len() - 1 - out.len();
        assert(part[p.len() - 1] == mask()[j]);
        assert(p[p.len() - 1] != mask()[j]);
    }
}

/// What is held back is the beginning of a known secret, or nothing.
pub proof fn held_back_is_a_beginning(secrets: Set<Seq<char>>, text: Seq<char>)
    ensures
        held(secrets, text).len() == 0 || unfinished(secrets, held(secrets, text)),
    decreases text.len(),
{
    if text.len() > 0 && !unfinished(secrets, text) {
        lemma_hit_within(secrets, text, text.len());
        if hit(secrets, text) > 0 {
            held_back_is_a_beginning(secrets, text.skip(hit(secrets, text) as int));
        } else {
            held_back_is_a_beginning(secrets, text.skip(1));
        }
    }
}

/// Where a text is cut into pieces makes no difference: two pieces give what the whole gives.
pub proof fn pieces_make_no_difference(secrets: Set<Seq<char>>, a: Seq<char>, b: Seq<char>)
    ensures
        shown(secrets, a + b) == shown(secrets, a) + shown(secrets, held(secrets, a) + b),
        held(secrets, a + b) == held(secrets, held(secrets, a) + b),
    decreases a.len(),
{
    if a.len() == 0 || unfinished(secrets, a) {
        assert(Seq::<char>::empty() + shown(secrets, a + b) =~= shown(secrets, a + b));
    } else {
        let whole = a + b;
        if unfinished(secrets, whole) {
            let p = choose|p: Seq<char>| #[trigger]
                secrets.contains(p) && p.len() > whole.len() && begins(p, whole);
            assert(p.subrange(0, a.len() as int) =~= whole.subrange(0, whole.len() as int).take(
                a.len() as int,
            ));
            assert(p.subrange(0, a.len() as int) =~= a);
            assert(begins(p, a));
        }
        let n = hit(secrets, a);
        let m = hit(secrets, whole);
        lemma_hit_within(secrets, a, a.len());
        lemma_hit_within(secrets, whole, whole.len());
        if m > a.len() {
            let p = whole.take(m as int);
            assert(p.subrange(0, a.len() as int) =~= a);
            assert(begins(p, a));
        }
        assert(m <= a.len());
        assert(whole.take(m as int) =~= a.take(m as int));
        assert(whole.take(n as int) =~= a.take(n as int));
        assert(m == n) by {
            if m < n {
                assert(!secrets.contains(whole.take(n as int)));
            }
            if n < m {
                assert(!secrets.contains(a.take(m as int)));
            }
        }
        let k: nat = if n > 0 {
            n
        } else {
            1
        };
        assert(whole.skip(k as int) =~= a.skip(k as int) + b);
        pieces_make_no_difference(secrets, a.skip(k as int), b);
        if n > 0 {
            assert(mask() + (shown(secrets, a.skip(n as int)) + shown(secrets, held(secrets, a) + b))
                =~= mask() + shown(secrets, a.skip(n as int)) + shown(secrets, held(secrets, a) + b));
        } else {
            assert(seq![a[0]] + (shown(secrets, a.skip(1)) + shown(secrets, held(secrets, a) + b))
                =~= seq![a[0]] + shown(secrets, a.skip(1)) + shown(secrets, held(secrets, a) + b));
        }
    }
}

/// Never exposes an unfinished prefix of a known secret, even across the boundaries of the pieces
/// that a text arrives in.
pub struct Redactor {
    patterns: Vec<Vec<char>>,
    pending: Vec<char>,
}

/// The inside of the quoted JSON form of a text.
pub open spec fn escaped(s: Seq<char>) -> Seq<char> {
    quoted(s).subrange(1, quoted(s).len() - 1)
}

/// What a redactor hides: the given texts and their forms inside a JSON string.
pub open spec fn hidden_texts(patterns: Seq<String>) -> Set<Seq<char>> {
    Set::new(
        |p: Seq<char>|
            p.len() > 0 && exists|i: int|
                0 <= i < patterns.len() && ((#[trigger] patterns[i])@ == p || escaped(patterns[i]@)
                    == p),
    )
}

impl Redactor {
    pub closed spec fn secrets(&self) -> Set<Seq<char>> {
        Set::new(
            |p: Seq<char>|
                exists|i: int| 0 <= i < self.patterns@.len() && (#[trigger] self.patterns@[i])@ == p,
        )
    }

    pub closed spec fn waiting(&self) -> Seq<char> {
        self.pending@
    }

    pub fn new(patterns: Vec<String>) -> (r: Redactor)
        ensures
            r.secrets() == hidden_texts(patterns@),
            r.waiting().len() == 0,
    {
        let mut kept: Vec<Vec<char>> = Vec::new();
        let mut i: usize = 0;
        let ghost found = Set::<Seq<char>>::empty();
        while i < patterns.len()
            invariant
                i <= patterns@.len(),
                forall|p: Seq<char>|
                    (exists|k: int| 0 <= k < kept@.len() && (#[trigger] kept@[k])@ == p) <==> (
                    p.len() > 0 && exists|j: int|
                        0 <= j < i && ((#[trigger] patterns@[j])@ == p || escaped(patterns@[j]@)
                            == p)),
            decreases patterns@.len() - i,
        {
            let ghost before = kept@;
            let plain = chars_of(patterns[i].as_str());
            let full = chars_of(quote(patterns[i].as_str()).as_str());
            let mut inner: Vec<char> = Vec::new();
            let mut j: usize = 1;
            while j < full.len() - 1
                invariant
                    full@.len() >= 2,
                    1 <= j <= full@.len() - 1,
                    inner@ == full@.subrange(1, j as int),
                decreases full@.len() - j,
            {
                inner.push(full[j]);
                j += 1;
                assert(inner@ =~= full@.subrange(1, j as int));
            }
            assert(inner@ == escaped(patterns@[i as int]@));
            let ghost x = plain@;
            let ghost y = inner@;
            let ghost after_x = if x.len() > 0 {
                before.push(plain)
            } else {
                before
            };
            if plain.len() > 0 {
                kept.push(plain);
            }
            assert(kept@ == after_x);
            if inner.len() > 0 {
                kept.push(inner);
            }
            proof {
                assert forall|p: Seq<char>|
                    (exists|k: int| 0 <= k < kept@.len() && (#[trigger] kept@[k])@ == p) <==> (
                    p.len() > 0 && exists|j: int|
                        0 <= j < i + 1 && ((#[trigger] patterns@[j])@ == p || escaped(patterns@[j]@)
                            == p)) by {
                    if exists|k: int| 0 <= k < kept@.len() && (#[trigger] kept@[k])@ == p {
                        let k = choose|k: int| 0 <= k < kept@.len() && (#[trigger] kept@[k])@ == p;
                        if k < before.len() {
                            assert(before[k] == kept@[k]);
                            assert(exists|k: int| 0 <= k < before.len() && (#[trigger] before[k])@ == p);
                        } else {
                            assert(p == x || p == y);
                            assert(patterns@[i as int]@ == p || escaped(patterns@[i as int]@) == p);
                        }
                    }
                    if p.len() > 0 && exists|j: int|
                        0 <= j < i + 1 && ((#[trigger] patterns@[j])@ == p || escaped(patterns@[j]@)
                            == p) {
                        let j = choose|j: int|
                            0 <= j < i + 1 && ((#[trigger] patterns@[j])@ == p || escaped(
                                patterns@[j]@,
                            ) == p);
                        if j < i {
                            assert(exists|k: int| 0 <= k < before.len() && (#[trigger] before[k])@ == p);
                            let k = choose|k: int| 0 <= k < before.len() && (#[trigger] before[k])@ == p;
                            assert(kept@[k] == before[k]);
                        } else if x == p {
                            assert(kept@[before.len() as int]@ == p);
                        } else {
                            assert(kept@.last()@ == p);
                        }
                    }
                }
            }
            i += 1;
        }
        let r = Redactor { patterns: kept, pending: Vec::new() };
        assert(r.secrets() =~= hidden_texts(patterns@));
        r
    }

    /// Whether `self.pending[at..]` may be the beginning of an unfinished secret.
    fn is_unfinished(&self, at: usize) -> (r: bool)
        requires
            at <= self.pending@.len(),
        ensures
            r == unfinished(self.secrets(), self.pending@.skip(at as int)),
    {
        let ghost rest = self.pending@.skip(at as int);
        let size: usize = self.pending.len() - at;
        let mut i: usize = 0;
        while i < self.patterns.len()
            invariant
                i <= self.patterns@.len(),
                at + size == self.pending@.len(),
                rest == self.pending@.skip(at as int),
                forall|k: int|
                    0 <= k < i ==> !((#[trigger] self.patterns@[k])@.len() > rest.len() && begins(
                        self.patterns@[k]@,
                        rest,
                    )),
            decreases self.patterns@.len() - i,
        {
            let p = &self.patterns[i];
            if p.len() > size && matches_at(p, &self.pending, at, size) {
                assert(self.secrets().contains(p@));
                return true;
            }
            i += 1;
        }
        assert forall|p: Seq<char>| #[trigger] self.secrets().contains(p) implies !(p.len()
            > rest.len() && begins(p, rest)) by {
            let k = choose|k: int| 0 <= k < self.patterns@.len() && (#[trigger] self.patterns@[k])@ == p;
            assert(self.patterns@[k]@ == p);
        }
        false
    }

    /// Length of the longest secret at `self.pending[at..]`.
    fn longest(&self, at: usize) -> (n: usize)
        requires
            at <= self.pending@.len(),
        ensures
            n == hit(self.secrets(), self.pending@.skip(at as int)),
    {
        let ghost rest = self.pending@.skip(at as int);
        let size: usize = self.pending.len() - at;
        let mut n: usize = 0;
        let mut i: usize = 0;
        while i < self.patterns.len()
            invariant
                i <= self.patterns@.len(),
                at + size == self.pending@.len(),
                rest == self.pending@.skip(at as int),
                n <= rest.len(),
                n > 0 ==> self.secrets().contains(rest.take(n as int)),
                forall|k: int|
                    0 <= k < i && begins(rest, (#[trigger] self.patterns@[k])@)
                        ==> self.patterns@[k]@.len() <= n,
            decreases self.patterns@.len() - i,
        {
            let p = &self.patterns[i];
            if p.len() > n && p.len() <= size && stands(p, &self.pending, at) {
                n = p.len();
                assert(rest.take(n as int) =~= p@);
                assert(self.secrets().contains(p@));
            } else if p.len() > n && p.len() <= size {
                assert(!begins(rest, p@));
            }
            i += 1;
        }
        proof {
            let m = hit(self.secrets(), rest);
            lemma_hit_within(self.secrets(), rest, rest.len());
            if m > n {
                let p = rest.take(m as int);
                let k = choose|k: int| 0 <= k < self.patterns@.len() && (#[trigger] self.patterns@[k])@ == p;
                assert(begins(rest, self.patterns@[k]@)) by {
                    assert(rest.subrange(0, m as int) =~= p);
                }
            }
            if n > m {
                assert(!self.secrets().contains(rest.take(n as int)));
            }
        }
        n
    }

    /// Takes the next piece of text and returns what can be shown.
    pub fn push(&mut self, text: &str) -> (out: String)
        ensures
            final(self).secrets() == old(self).secrets(),
            out@ == shown(old(self).secrets(), old(self).waiting() + text@),
            final(self).waiting() == held(old(self).secrets(), old(self).waiting() + text@),
    {
        let mut more = chars_of(text);
        let ghost whole = self.pending@ + text@;
        self.pending.append(&mut more);
        let ghost secrets = self.secrets();
        assert(secrets =~= old(self).secrets());
        let mut out: String = String::new();
        let mut at: usize = 0;
        assert(whole.skip(0) =~= whole);
        assert(out@ + shown(secrets, whole) =~= shown(secrets, whole));
        while at < self.pending.len()
            invariant_except_break
                held(secrets, whole.skip(at as int)) == held(secrets, whole),
                out@ + shown(secrets, whole.skip(at as int)) == shown(secrets, whole),
            invariant
                at <= self.pending@.len(),
                self.pending@ == whole,
                self.patterns == old(self).patterns,
                secrets == self.secrets(),
            ensures
                out@ == shown(secrets, whole),
                whole.skip(at as int) == held(secrets, whole),
            decreases self.pending@.len() - at,
        {
            let ghost rest = whole.skip(at as int);
            if self.is_unfinished(at) {
                assert(out@ + shown(secrets, rest) =~= out@);
                break;
            }
            let n: usize = self.longest(at);
            proof {
                lemma_hit_within(secrets, rest, rest.len());
                assert(whole.skip(at + n) =~= rest.skip(n as int));
                assert(whole.skip(at + 1) =~= rest.skip(1));
                assert(out@ + (mask() + shown(secrets, rest.skip(n as int))) =~= out@ + mask() + shown(
                    secrets,
                    rest.skip(n as int),
                ));
                assert(out@ + (seq![rest[0]] + shown(secrets, rest.skip(1))) =~= out@.push(rest[0])
                    + shown(secrets, rest.skip(1)));
            }
            if n > 0 {
                out.append("[非公開]");
                at += n;
            } else {
                out.push(self.pending[at]);
                at += 1;
            }
            if at == self.pending.len() {
                assert(out@ + shown(secrets, whole.skip(at as int)) =~= out@);
            }
        }
        let mut rest: Vec<char> = Vec::new();
        let mut i: usize = at;
        while i < self.pending.len()
            invariant
                at <= i <= self.pending@.len(),
                rest@ == self.pending@.subrange(at as int, i as int),
            decreases self.pending@.len() - i,
        {
            rest.push(self.pending[i]);
            i += 1;
            assert(rest@ =~= self.pending@.subrange(at as int, i as int));
        }
        assert(rest@ =~= whole.skip(at as int));
        self.pending = rest;
        assert(self.secrets() =~= secrets);
        out
    }

    /// Ends the text: what is still held back is masked.
    pub fn finish(&mut self) -> (out: String)
        ensures
            final(self).secrets() == old(self).secrets(),
            final(self).waiting().len() == 0,
            out@ == if old(self).waiting().len() == 0 {
                Seq::empty()
            } else {
                mask()
            },
    {
        if self.pending.len() == 0 {
            String::new()
        } else {
            self.pending = Vec::new();
            assert(self.secrets() =~= old(self).secrets());
            String::from_str("[非公開]")
        }
    }
}

/// Whether `p` begins with `v[at..at + size]`.
fn matches_at(p: &Vec<char>, v: &Vec<char>, at: usize, size: usize) -> (r: bool)
    requires
        at + size == v@.len(),
        size < p@.len(),
    ensures
        r == begins(p@, v@.skip(at as int)),
{
    let total: usize = v.len();
    let mut i: usize = 0;
    while i < size
        invariant
            i <= size,
            total == v@.len(),
            at + size == v@.len(),
            size < p@.len(),
            forall|j: int| 0 <= j < i ==> p@[j] == v@[at + j],
        decreases size - i,
    {
        if p[i] != v[at + i] {
            assert(p@.subrange(0, size as int)[i as int] != v@.skip(at as int)[i as int]);
            return false;
        }
        i += 1;
    }
    assert(p@.subrange(0, size as int) =~= v@.skip(at as int));
    true
}

/// Whether `v[at..]` begins with `p`.
fn stands(p: &Vec<char>, v: &Vec<char>, at: usize) -> (r: bool)
    requires
        at + p@.len() <= v@.len(),
    ensures
        r == begins(v@.skip(at as int), p@),
{
    let total: usize = v.len();
    let mut i: usize = 0;
    while i < p.len()
        invariant
            i <= p@.len(),
            total == v@.len(),
            at + p@.len() <= v@.len(),
            forall|j: int| 0 <= j < i ==> p@[j] == v@[at + j],
        decreases p@.len() - i,
    {
        if p[i] != v[at + i] {
            assert(v@.skip(at as int).subrange(0, p@.len() as int)[i as int] != p@[i as int]);
            return false;
        }
        i += 1;
    }
    assert(v@.skip(at as int).subrange(0, p@.len() as int) =~= p@);
    true
}

} // verus!
