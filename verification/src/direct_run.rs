//! Sending a request to the app server, step by step, and confirming its end.
use crate::codex_execution::{TurnIdentity, TurnSnapshot};
use crate::codex_transport::Event;
use crate::direct_approval::{
    bound_fingerprint, decision_word, evidence_objection, interaction_of, tool_reply, wire_decision,
    DirectInteraction, InteractionView, ManualDecision,
};
use crate::direct_content::StoredImage;
use crate::direct_image_store::{ImageRecord, ImageRecordState};
use crate::direct_images::{GeneratedImage, GeneratedImageStatus};
use crate::domain::RequestState;
use crate::json::{object1, text, Json, JsonView};
use crate::text::{opt_view, same};
use vstd::prelude::*;
use vstd::string::*;

verus! {

/// Stands for a request beyond the send boundary. Given up while it is armed, the request becomes
/// uncertain.
#[derive(Debug)]
pub struct UnknownOnDrop {
    pub request_id: String,
    pub armed: bool,
}

impl UnknownOnDrop {
    pub fn new(request_id: &str) -> (r: UnknownOnDrop)
        ensures
            r.request_id@ == request_id@,
            r.armed,
    {
        UnknownOnDrop { request_id: request_id.to_owned(), armed: true }
    }

    /// The outcome is stored.
    pub fn disarm(&mut self)
        ensures
            !final(self).armed,
            final(self).request_id@ == old(self).request_id@,
    {
        self.armed = false;
    }

    /// The reason to store for the request when it is given up.
    pub fn given_up(&self) -> (r: Option<&'static str>)
        ensures
            self.armed ==> r is Some && r->0@ == "dispatch_task_cancelled"@,
            !self.armed ==> r is None,
    {
        if self.armed {
            Some("dispatch_task_cancelled")
        } else {
            None
        }
    }
}

/// A step on the way to a running turn.
#[derive(Clone, Copy, Debug, PartialEq, Eq, Structural)]
pub enum StartStep {
    /// Take one of the runtimes.
    Acquire,
    /// Make the working folder of the conversation.
    Workspace,
    /// Store the intent.
    Prepare,
    /// Store that the send boundary is crossed.
    Boundary,
    /// Start a thread of Codex, or resume the one of the conversation.
    StartThread,
    ResumeThread,
    /// Store the thread.
    RecordThread,
    StartTurn,
    /// Store the turn.
    Acknowledge,
}

/// What follows from a step.
pub enum StartNext {
    Go(StartStep),
    /// The turn runs.
    Running,
    /// Give up; nothing was sent.
    GiveUp,
    /// Give up and store that the outcome is unknown, for this reason.
    Uncertain(String),
}

/// The mathematical form of a `StartNext`.
pub enum StartNextView {
    Go(StartStep),
    Running,
    GiveUp,
    Uncertain(Seq<char>),
}

impl View for StartNext {
    type V = StartNextView;

    open spec fn view(&self) -> StartNextView {
        match self {
            StartNext::Go(s) => StartNextView::Go(*s),
            StartNext::Running => StartNextView::Running,
            StartNext::GiveUp => StartNextView::GiveUp,
            StartNext::Uncertain(s) => StartNextView::Uncertain(s@),
        }
    }
}

/// What follows from a step. `failure` is the error of a step that failed, `state` the stored state
/// of the request at that time, `has_thread` whether the conversation has a thread of Codex.
pub open spec fn start_next(
    step: StartStep,
    failure: Option<Seq<char>>,
    state: RequestState,
    has_thread: bool,
) -> StartNextView {
    match failure {
        None => match step {
            StartStep::Acquire => StartNextView::Go(StartStep::Workspace),
            StartStep::Workspace => StartNextView::Go(StartStep::Prepare),
            StartStep::Prepare => StartNextView::Go(StartStep::Boundary),
            StartStep::Boundary => StartNextView::Go(
                if has_thread {
                    StartStep::ResumeThread
                } else {
                    StartStep::StartThread
                },
            ),
            StartStep::StartThread => StartNextView::Go(StartStep::RecordThread),
            StartStep::ResumeThread => StartNextView::Go(StartStep::RecordThread),
            StartStep::RecordThread => StartNextView::Go(StartStep::StartTurn),
            StartStep::StartTurn => StartNextView::Go(StartStep::Acknowledge),
            StartStep::Acknowledge => StartNextView::Running,
        },
        Some(e) => match step {
            StartStep::Acquire => StartNextView::GiveUp,
            StartStep::Workspace => StartNextView::GiveUp,
            StartStep::Prepare => StartNextView::GiveUp,
            StartStep::Boundary => if state == RequestState::Sending {
                StartNextView::Uncertain("send_boundary_failed"@)
            } else {
                StartNextView::GiveUp
            },
            StartStep::StartThread => StartNextView::Uncertain("thread_start_or_resume: "@ + e),
            StartStep::ResumeThread => StartNextView::Uncertain("thread_start_or_resume: "@ + e),
            StartStep::RecordThread => StartNextView::Uncertain("thread_record_failed"@),
            StartStep::StartTurn => StartNextView::Uncertain("turn_start: "@ + e),
            StartStep::Acknowledge => StartNextView::Uncertain("turn_acknowledgement_not_durable"@),
        },
    }
}

/// Whether a step comes after the send boundary.
pub open spec fn beyond_boundary(step: StartStep) -> bool {
    step != StartStep::Acquire && step != StartStep::Workspace && step != StartStep::Prepare && step
        != StartStep::Boundary
}

/// A failure beyond the send boundary always leaves the request uncertain: it is neither taken for
/// unsent nor tried again.
pub proof fn failures_beyond_the_boundary_are_uncertain(
    step: StartStep,
    e: Seq<char>,
    state: RequestState,
    has_thread: bool,
)
    requires
        beyond_boundary(step),
    ensures
        start_next(step, Some(e), state, has_thread) is Uncertain,
{
}

/// No step is ever taken twice: each goes on to a later one.
pub open spec fn step_order(step: StartStep) -> nat {
    match step {
        StartStep::Acquire => 0,
        StartStep::Workspace => 1,
        StartStep::Prepare => 2,
        StartStep::Boundary => 3,
        StartStep::StartThread => 4,
        StartStep::ResumeThread => 4,
        StartStep::RecordThread => 5,
        StartStep::StartTurn => 6,
        StartStep::Acknowledge => 7,
    }
}

/// Each step goes on to the next one in order, so that none is repeated.
pub proof fn steps_are_not_repeated(
    step: StartStep,
    failure: Option<Seq<char>>,
    state: RequestState,
    has_thread: bool,
)
    requires
        start_next(step, failure, state, has_thread) is Go,
    ensures
        step_order(start_next(step, failure, state, has_thread)->Go_0) == step_order(step) + 1,
{
}

/// Sends requests and confirms their end.
pub struct DirectRunService;

/// What is recorded of the end of a turn.
pub struct TerminalPlan {
    /// The answer to be stored, where there is one.
    pub answer: Option<String>,
}

impl DirectRunService {
    /// The first step, for an input that is not empty.
    pub fn begin(input: &Vec<Json>) -> (r: Result<StartStep, &'static str>)
        ensures
            input@.len() == 0 ==> r is Err && r->Err_0@ == "empty Codex input"@,
            input@.len() > 0 ==> r == Ok::<StartStep, &'static str>(StartStep::Acquire),
    {
        if input.len() == 0 {
            Err("empty Codex input")
        } else {
            Ok(StartStep::Acquire)
        }
    }

    /// What follows from a step.
    pub fn start(step: StartStep, failure: Option<&str>, state: RequestState, has_thread: bool) -> (r:
        StartNext)
        ensures
            r@ == start_next(step, crate::text::opt_str(failure), state, has_thread),
    {
        match failure {
            None => match step {
                StartStep::Acquire => StartNext::Go(StartStep::Workspace),
                StartStep::Workspace => StartNext::Go(StartStep::Prepare),
                StartStep::Prepare => StartNext::Go(StartStep::Boundary),
                StartStep::Boundary => {
                    if has_thread {
                        StartNext::Go(StartStep::ResumeThread)
                    } else {
                        StartNext::Go(StartStep::StartThread)
                    }
                },
                StartStep::StartThread | StartStep::ResumeThread => StartNext::Go(
                    StartStep::RecordThread,
                ),
                StartStep::RecordThread => StartNext::Go(StartStep::StartTurn),
                StartStep::StartTurn => StartNext::Go(StartStep::Acknowledge),
                StartStep::Acknowledge => StartNext::Running,
            },
            Some(e) => match step {
                StartStep::Acquire | StartStep::Workspace | StartStep::Prepare => StartNext::GiveUp,
                StartStep::Boundary => {
                    if state == RequestState::Sending {
                        StartNext::Uncertain("send_boundary_failed".to_owned())
                    } else {
                        StartNext::GiveUp
                    }
                },
                StartStep::StartThread | StartStep::ResumeThread => StartNext::Uncertain(
                    String::from_str("thread_start_or_resume: ").concat(e),
                ),
                StartStep::RecordThread => StartNext::Uncertain("thread_record_failed".to_owned()),
                StartStep::StartTurn => StartNext::Uncertain(
                    String::from_str("turn_start: ").concat(e),
                ),
                StartStep::Acknowledge => StartNext::Uncertain(
                    "turn_acknowledgement_not_durable".to_owned(),
                ),
            },
        }
    }

    /// The interaction that an event opens in the run, tied to the evidence for it, where there is
    /// any.
    pub fn register_interaction_with_evidence(
        run: &TurnIdentity,
        event: &Event,
        evidence: Option<Json>,
    ) -> (r: Result<Option<DirectInteraction>, &'static str>)
        ensures
            match interaction_of(event@, run.thread_id@, run.turn_id@) {
                Err(e) => r is Err && r->Err_0@ == e,
                Ok(None) => r is Ok && r->Ok_0 is None,
                Ok(Some(v)) => match evidence {
                    None => r is Ok && r->Ok_0 is Some && r->Ok_0->0@ == v,
                    Some(item) => match evidence_objection(v, item@) {
                        Some(e) => r is Err && r->Err_0@ == e,
                        None => r is Ok && r->Ok_0 is Some && r->Ok_0->0@ == (InteractionView {
                            fingerprint: bound_fingerprint(v.fingerprint, item@),
                            evidence: Some(item@),
                            ..v
                        }),
                    },
                },
            },
    {
        let mut interaction = match DirectInteraction::from_event(event, run) {
            Err(e) => {
                return Err(e);
            },
            Ok(None) => {
                return Ok(None);
            },
            Ok(Some(i)) => i,
        };
        if let Some(item) = evidence {
            match interaction.bind_mcp_evidence(item) {
                Err(e) => {
                    return Err(e);
                },
                Ok(()) => {},
            }
        }
        Ok(Some(interaction))
    }

    /// The reply to a command or a file change.
    pub fn reply_manual(decision: ManualDecision) -> (r: Json)
        ensures
            r@ == JsonView::Object(seq![("decision"@, JsonView::Text(wire_decision(decision)))]),
    {
        object1("decision", text(decision_word(decision)))
    }

    /// The reply to a tool confirmation, which must belong to the run.
    pub fn reply_mcp_tool(interaction: &DirectInteraction, run: &TurnIdentity, decision: ManualDecision) -> (r:
        Result<Json, &'static str>)
        ensures
            match tool_reply(interaction@, decision) {
                Err(e) => r is Err && r->Err_0@ == e,
                Ok(v) => if interaction.thread_id@ == run.thread_id@ && interaction.turn_id@
                    == run.turn_id@ {
                    r is Ok && r->Ok_0@ == v
                } else {
                    r is Err && r->Err_0@ == "MCP confirmation belongs to another run"@
                },
            },
    {
        match interaction.mcp_tool_decision(decision) {
            Err(e) => Err(e),
            Ok(v) => {
                if same(interaction.thread_id.as_str(), run.thread_id.as_str()) && same(
                    interaction.turn_id.as_str(),
                    run.turn_id.as_str(),
                ) {
                    Ok(v)
                } else {
                    Err("MCP confirmation belongs to another run")
                }
            },
        }
    }

    /// What is stored of the end of a turn. A turn that has not ended, or whose items are not all
    /// there, stays open.
    pub fn confirm_terminal(snapshot: &TurnSnapshot) -> (r: Result<TerminalPlan, &'static str>)
        ensures
            ({
                let s = snapshot.status@;
                let ended = s == "completed"@ || s == "failed"@ || s == "interrupted"@;
                if !ended {
                    r is Err && r->Err_0@ == "Codex turn has not ended"@
                } else if !snapshot.items_view_full {
                    r is Err && r->Err_0@ == "Codex output inventory is incomplete"@
                } else {
                    &&& r is Ok
                    &&& opt_view(r->Ok_0.answer) == if snapshot.final_text is Some {
                        Some(snapshot.final_text->0@)
                    } else if s == "completed"@ {
                        Some(Seq::<char>::empty())
                    } else {
                        None
                    }
                }
            }),
    {
        let s = snapshot.status.as_str();
        let completed = same(s, "completed");
        if !(completed || same(s, "failed") || same(s, "interrupted")) {
            return Err("Codex turn has not ended");
        }
        if !snapshot.items_view_full {
            return Err("Codex output inventory is incomplete");
        }
        let answer: Option<String> = match &snapshot.final_text {
            Some(t) => Some(t.clone()),
            None => {
                if completed {
                    Some(String::new())
                } else {
                    None
                }
            },
        };
        Ok(TerminalPlan { answer })
    }

    /// The record of a generated image. `saved` is where a ready image was stored, if that
    /// succeeded: one that could not be stored is unknown, not failed.
    pub fn image_record(image: &GeneratedImage, saved: Option<StoredImage>) -> (r: ImageRecord)
        ensures
            r.item_id@ == image.item_id@,
            r.ordinal == image.ordinal,
            image.status is Ready && saved is Some ==> r.state == ImageRecordState::Ready(saved->0),
            image.status is Ready && saved is None ==> r.state is Unknown,
            image.status is Failed ==> r.state is Failed,
            image.status is Unknown ==> r.state is Unknown,
    {
        let state = match &image.status {
            GeneratedImageStatus::Ready(_) => match saved {
                Some(s) => ImageRecordState::Ready(s),
                None => ImageRecordState::Unknown,
            },
            GeneratedImageStatus::Failed => ImageRecordState::Failed,
            GeneratedImageStatus::Unknown => ImageRecordState::Unknown,
        };
        ImageRecord { item_id: image.item_id.clone(), ordinal: image.ordinal, state }
    }
}

} // verus!
