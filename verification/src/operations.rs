//! Operations of the runtime behind a proxy: each interaction makes one at most, and it is stored
//! before anything is sent.
use crate::codex_execution::text_or_null;
use crate::domain::RequestState;
use crate::json::{object2, object3, text, Json, JsonView};
use crate::text::{opt_str, opt_view, same};
use vstd::prelude::*;

verus! {

/// The model of a conversation and the order of the operations on it.
#[derive(Debug)]
pub struct ModelLine {
    /// The place of the newest operation.
    pub newest: i64,
    /// The place of the newest choice of a model.
    pub newest_choice: i64,
    pub selected: String,
    /// How often a choice was applied.
    pub revision: i64,
}

/// The mathematical form of a `ModelLine`.
#[verifier::ext_equal]
pub struct LineView {
    pub newest: int,
    pub newest_choice: int,
    pub selected: Seq<char>,
    pub revision: int,
}

impl View for ModelLine {
    type V = LineView;

    open spec fn view(&self) -> LineView {
        LineView {
            newest: self.newest as int,
            newest_choice: self.newest_choice as int,
            selected: self.selected@,
            revision: self.revision as int,
        }
    }
}

/// Once a choice was stored, before it is checked.
pub open spec fn choice_begun(l: LineView) -> LineView {
    LineView { newest: l.newest + 1, newest_choice: l.newest + 1, ..l }
}

/// Whether a choice that was checked applies: no newer one was stored meanwhile, and it was not
/// settled before.
pub open spec fn choice_applies(l: LineView, place: int, validating: bool) -> bool {
    l.newest_choice == place && validating
}

/// Once a choice was checked.
pub open spec fn choice_settled(l: LineView, place: int, validating: bool, model: Seq<char>) -> LineView {
    if choice_applies(l, place, validating) {
        LineView { selected: model, revision: l.revision + 1, ..l }
    } else {
        l
    }
}

impl ModelLine {
    /// Stores a choice before it is checked; returns its place in the order. `duplicate` says
    /// whether the interaction made an operation already.
    pub fn begin_choice(&mut self, duplicate: bool) -> (r: Result<i64, &'static str>)
        requires
            old(self).newest < i64::MAX,
        ensures
            duplicate ==> r is Err && r->Err_0@ == "duplicate operation"@ && final(self)@ == old(
                self,
            )@,
            !duplicate ==> r is Ok && r->Ok_0 == old(self).newest + 1 && final(self)@
                == choice_begun(old(self)@),
    {
        if duplicate {
            return Err("duplicate operation");
        }
        self.newest = self.newest + 1;
        self.newest_choice = self.newest;
        Ok(self.newest)
    }

    /// Applies a choice that was checked, where it is still the newest. Returns whether it applied,
    /// with the state of its operation.
    pub fn settle_choice(&mut self, place: i64, validating: bool, model: &str) -> (r: (
        bool,
        &'static str,
    ))
        requires
            old(self).revision < i64::MAX,
        ensures
            r.0 == choice_applies(old(self)@, place as int, validating),
            r.1@ == if r.0 {
                "APPLIED"@
            } else {
                "SUPERSEDED"@
            },
            final(self)@ == choice_settled(old(self)@, place as int, validating, model@),
    {
        if self.newest_choice == place && validating {
            self.selected = model.to_owned();
            self.revision = self.revision + 1;
            (true, "APPLIED")
        } else {
            (false, "SUPERSEDED")
        }
    }
}

/// Of two choices the later one is the one that applies, in whichever order they are checked.
pub proof fn the_later_choice_wins(l: LineView, first: Seq<char>, second: Seq<char>)
    ensures
        ({
            let one = choice_begun(l);
            let two = choice_begun(one);
            let (a, b) = (one.newest_choice, two.newest_choice);
            &&& choice_settled(choice_settled(two, a, true, first), b, true, second).selected
                == second
            &&& choice_settled(choice_settled(two, b, true, second), a, true, first).selected
                == second
            &&& choice_settled(two, a, true, first) == two
        }),
{
}

/// What is stored of a request that an operation is about.
#[derive(Debug)]
pub struct ControlTarget {
    pub turn_id: Option<String>,
    pub proxy_thread_id: Option<String>,
    pub state: RequestState,
    pub stop_requested: bool,
}

/// What is stored of an approval that is to be decided.
#[derive(Debug)]
pub struct HeldApproval {
    pub request_id: String,
    /// An operation decided it already.
    pub decided: bool,
    pub pending: bool,
    pub expires_at: Option<i64>,
}

/// Which approval an operation decides.
pub enum Deciding<'a> {
    /// It decides none.
    Nothing,
    /// It decides this one, where it is stored.
    Approval(Option<&'a HeldApproval>),
}

/// Whether a request can still be controlled: it runs the turn and thread that were meant, and no
/// stop was asked for.
pub open spec fn controllable(
    t: ControlTarget,
    turn: Option<Seq<char>>,
    thread: Option<Seq<char>>,
) -> bool {
    turn is Some && opt_view(t.turn_id) == turn && thread is Some && opt_view(t.proxy_thread_id)
        == thread && (t.state == RequestState::Running || t.state == RequestState::ApprovalRequired)
        && !t.stop_requested
}

/// Whether an approval can still be decided.
pub open spec fn open_approval(a: HeldApproval, request: Seq<char>, now: i64) -> bool {
    a.request_id@ == request && !a.decided && a.pending && (a.expires_at is None || a.expires_at->0
        > now)
}

/// What forbids an operation on a request that runs.
pub open spec fn control_objection(
    duplicate: bool,
    t: ControlTarget,
    turn: Option<Seq<char>>,
    thread: Option<Seq<char>>,
    deciding: Deciding,
    request: Seq<char>,
    now: i64,
) -> Option<Seq<char>> {
    if duplicate {
        Some("duplicate operation"@)
    } else if !controllable(t, turn, thread) {
        Some("control target no longer active"@)
    } else {
        match deciding {
            Deciding::Nothing => None,
            Deciding::Approval(found) => if found is Some && open_approval(
                *found->0,
                request,
                now,
            ) {
                None
            } else {
                Some("approval no longer available"@)
            },
        }
    }
}

fn known(stored: &Option<String>, meant: Option<&str>) -> (r: bool)
    ensures
        r == (meant is Some && opt_view(*stored) == opt_str(meant)),
{
    match (stored, meant) {
        (Some(a), Some(b)) => same(a.as_str(), b),
        _ => false,
    }
}

/// Whether an operation on a request that runs may be stored and sent.
pub fn reserve_control(
    duplicate: bool,
    t: &ControlTarget,
    turn: Option<&str>,
    thread: Option<&str>,
    deciding: Deciding,
    request: &str,
    now: i64,
) -> (r: Result<(), &'static str>)
    ensures
        match control_objection(
            duplicate,
            *t,
            opt_str(turn),
            opt_str(thread),
            deciding,
            request@,
            now,
        ) {
            Some(e) => r is Err && r->Err_0@ == e,
            None => r is Ok,
        },
{
    if duplicate {
        return Err("duplicate operation");
    }
    if !(known(&t.turn_id, turn) && known(&t.proxy_thread_id, thread) && (t.state
        == RequestState::Running || t.state == RequestState::ApprovalRequired)
        && !t.stop_requested) {
        return Err("control target no longer active");
    }
    if let Deciding::Approval(found) = deciding {
        let open = match found {
            None => false,
            Some(a) => {
                let lasting = match a.expires_at {
                    None => true,
                    Some(end) => end > now,
                };
                same(a.request_id.as_str(), request) && !a.decided && a.pending && lasting
            },
        };
        if !open {
            return Err("approval no longer available");
        }
    }
    Ok(())
}

/// A request whose stop was asked for is not controlled any more, whatever else is stored of it.
pub proof fn stopped_requests_are_left_alone(
    duplicate: bool,
    t: ControlTarget,
    turn: Option<Seq<char>>,
    thread: Option<Seq<char>>,
    deciding: Deciding,
    request: Seq<char>,
    now: i64,
)
    requires
        t.stop_requested || t.state.ended(),
    ensures
        control_objection(duplicate, t, turn, thread, deciding, request, now) is Some,
{
}

/// The turn that additional instructions go to. `state` is there where a request of the conversation
/// runs.
pub fn steer_turn(state: Option<RequestState>, turn: Option<&str>) -> (r: Result<&str, &'static str>)
    ensures
        match state {
            None => r is Err && r->Err_0@ == "no active turn"@,
            Some(s) => if s != RequestState::Running {
                r is Err && r->Err_0@ == "steer unavailable in current state"@
            } else if turn is None {
                r is Err && r->Err_0@ == "Turn unknown"@
            } else {
                r is Ok && r->Ok_0@ == turn->0@
            },
        },
{
    match state {
        None => Err("no active turn"),
        Some(s) => {
            if s != RequestState::Running {
                return Err("steer unavailable in current state");
            }
            match turn {
                None => Err("Turn unknown"),
                Some(t) => Ok(t),
            }
        },
    }
}

/// The body that sends additional instructions to a turn, and to no other.
pub fn steer_body(turn: &str, input: &str) -> (r: Json)
    ensures
        r@ == JsonView::Object(
            seq![
                ("expected_turn_id"@, JsonView::Text(turn@)),
                ("input"@, JsonView::Text(input@)),
            ],
        ),
{
    object2("expected_turn_id", text(turn), "input", text(input))
}

fn nullable(s: Option<&str>) -> (r: Json)
    ensures
        r@ == text_or_null(opt_str(s)),
{
    match s {
        Some(t) => text(t),
        None => Json::Null,
    }
}

/// The body that sends a decision on an approval of a turn.
pub fn approval_body(decision: &str, thread: Option<&str>, turn: Option<&str>) -> (r: Json)
    ensures
        r@ == JsonView::Object(
            seq![
                ("decision"@, JsonView::Text(decision@)),
                ("expected_thread_id"@, text_or_null(opt_str(thread))),
                ("expected_turn_id"@, text_or_null(opt_str(turn))),
            ],
        ),
{
    object3(
        "decision",
        text(decision),
        "expected_thread_id",
        nullable(thread),
        "expected_turn_id",
        nullable(turn),
    )
}

} // verus!
