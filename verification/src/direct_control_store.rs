//! The durable send boundary of interrupts and additional instructions: an uncertain one is never
//! repeated because the interaction is delivered again.
use crate::codex_execution::TurnIdentity;
use crate::direct_store::no_row;
use crate::text::{opt_view, same};
use vstd::prelude::*;

verus! {

/// How far a control has come.
#[derive(Clone, Copy, Debug, PartialEq, Eq, Structural)]
pub enum ControlState {
    NotSent,
    Sending,
    Sent,
    Unknown,
}

/// What is stored of a control.
#[derive(Debug)]
pub struct Operation {
    pub kind: String,
    pub thread: String,
    pub target: Option<String>,
    pub state: ControlState,
}

/// The run that a control is for, as it is stored: the conversation and the turn of Codex.
#[derive(Debug)]
pub struct BoundRun {
    pub discord_thread: String,
    pub codex_thread: String,
    pub codex_turn: String,
}

/// What forbids an interrupt. `bound` is there where the run was acknowledged.
pub open spec fn interrupt_objection(
    op: Operation,
    request: Seq<char>,
    bound: Option<BoundRun>,
    thread: Seq<char>,
    turn: Seq<char>,
    active: bool,
) -> Option<Seq<char>> {
    if !((op.kind@ == "stop"@ || op.kind@ == "cancel"@) && op.state == ControlState::NotSent && (
    op.target is None || op.target->0@ == request)) {
        Some("interrupt operation was already sent or changed"@)
    } else if bound is None {
        Some(no_row())
    } else if bound->0.discord_thread@ != op.thread@ || bound->0.codex_thread@ != thread
        || bound->0.codex_turn@ != turn {
        Some("interrupt target changed"@)
    } else if !active {
        Some("interrupt target is no longer active"@)
    } else {
        None
    }
}

impl Operation {
    /// Begins to send an interrupt: at most once for each operation, and only to the turn that it
    /// was meant for.
    pub fn begin_direct_interrupt(
        &mut self,
        request: &str,
        bound: Option<&BoundRun>,
        identity: &TurnIdentity,
        active: bool,
    ) -> (r: Result<(), &'static str>)
        ensures
            match interrupt_objection(
                *old(self),
                request@,
                match bound {
                    Some(b) => Some(*b),
                    None => None,
                },
                identity.thread_id@,
                identity.turn_id@,
                active,
            ) {
                Some(e) => r is Err && r->Err_0@ == e && *final(self) == *old(self),
                None => {
                    &&& r is Ok
                    &&& final(self).state == ControlState::Sending
                    &&& opt_view(final(self).target) == Some(request@)
                    &&& final(self).kind == old(self).kind
                    &&& final(self).thread == old(self).thread
                },
            },
    {
        let right_target = match &self.target {
            Some(t) => same(t.as_str(), request),
            None => true,
        };
        if !((same(self.kind.as_str(), "stop") || same(self.kind.as_str(), "cancel")) && self.state
            == ControlState::NotSent && right_target) {
            return Err("interrupt operation was already sent or changed");
        }
        let bound = match bound {
            Some(b) => b,
            None => return Err("Query returned no rows"),
        };
        if !same(bound.discord_thread.as_str(), self.thread.as_str()) || !same(
            bound.codex_thread.as_str(),
            identity.thread_id.as_str(),
        ) || !same(bound.codex_turn.as_str(), identity.turn_id.as_str()) {
            return Err("interrupt target changed");
        }
        if !active {
            return Err("interrupt target is no longer active");
        }
        self.target = Some(request.to_owned());
        self.state = ControlState::Sending;
        Ok(())
    }

    /// Begins to send additional instructions. `thread` is the conversation of the run, where this
    /// very turn was acknowledged; `handled` says whether the interaction was handled before.
    pub fn begin_direct_steer(request: &str, thread: Option<&str>, active: bool, handled: bool) -> (r:
        Result<Operation, &'static str>)
        ensures
            thread is None ==> r is Err && r->Err_0@ == no_row(),
            thread is Some && !active ==> r is Err && r->Err_0@
                == "steer target is no longer active"@,
            thread is Some && active && handled ==> r is Err && r->Err_0@
                == "steer interaction was already handled"@,
            thread is Some && active && !handled ==> {
                &&& r is Ok
                &&& r->Ok_0.kind@ == "direct_steer"@
                &&& r->Ok_0.thread@ == thread->0@
                &&& opt_view(r->Ok_0.target) == Some(request@)
                &&& r->Ok_0.state == ControlState::Sending
            },
    {
        let thread = match thread {
            Some(t) => t,
            None => return Err("Query returned no rows"),
        };
        if !active {
            return Err("steer target is no longer active");
        }
        if handled {
            return Err("steer interaction was already handled");
        }
        Ok(
            Operation {
                kind: "direct_steer".to_owned(),
                thread: thread.to_owned(),
                target: Some(request.to_owned()),
                state: ControlState::Sending,
            },
        )
    }

    /// Records what became of a control.
    pub fn finish_direct_control(&mut self, acknowledged: bool) -> (r: Result<(), &'static str>)
        ensures
            ({
                let known = old(self).kind@ == "stop"@ || old(self).kind@ == "cancel"@
                    || old(self).kind@ == "direct_steer"@;
                if known && old(self).state == ControlState::Sending {
                    &&& r is Ok
                    &&& final(self).state == if acknowledged {
                        ControlState::Sent
                    } else {
                        ControlState::Unknown
                    }
                    &&& final(self).kind == old(self).kind
                    &&& final(self).thread == old(self).thread
                    &&& final(self).target == old(self).target
                } else {
                    r is Err && r->Err_0@ == "control send outcome changed"@ && *final(self) == *old(
                        self,
                    )
                }
            }),
    {
        let kind = self.kind.as_str();
        if !(same(kind, "stop") || same(kind, "cancel") || same(kind, "direct_steer")) || self.state
            != ControlState::Sending {
            return Err("control send outcome changed");
        }
        self.state = if acknowledged {
            ControlState::Sent
        } else {
            ControlState::Unknown
        };
        Ok(())
    }
}

/// A control that was sent, or whose outcome is unknown, is never sent again.
pub proof fn controls_are_sent_once(
    op: Operation,
    request: Seq<char>,
    bound: Option<BoundRun>,
    thread: Seq<char>,
    turn: Seq<char>,
    active: bool,
)
    requires
        op.state != ControlState::NotSent,
    ensures
        interrupt_objection(op, request, bound, thread, turn, active) is Some,
{
}

} // verus!
