//! The durable identity of an execution and its send boundary. Nothing here ever returns to a state
//! from which it would be sent again.
use crate::codex_execution::TurnIdentity;
use crate::domain::RequestState;
use crate::text::{
    blank, borrowed, byte_len, is_blank, opt_str, opt_view, same, some_same, utf8_len,
};
use vstd::prelude::*;

verus! {

/// How far the sending of a request has come.
#[derive(Clone, Copy, Debug, PartialEq, Eq, Structural)]
pub enum SendState {
    /// The intent is stored; nothing was written.
    Prepared,
    /// Bytes may have been written.
    Sending,
    /// The app server reported the turn.
    Acked,
    /// What became of it is not known.
    Unknown,
    /// The end of the turn is confirmed.
    Terminal,
}

/// Whether a request occupies its conversation, with a generation that grows with each release.
#[derive(Clone, Copy, Debug, PartialEq, Eq, Structural)]
pub enum Hold {
    Free,
    Held(i64),
    Released(i64),
}

/// What is stored of the execution of a request.
#[derive(Debug)]
pub struct RunRecord {
    pub state: RequestState,
    /// Whether the request ever crossed the send boundary.
    pub started: bool,
    pub eligible: bool,
    pub send: Option<SendState>,
    pub codex_thread: Option<String>,
    pub codex_turn: Option<String>,
    pub hold: Hold,
}

/// The mathematical form of a `RunRecord`.
pub struct RunView {
    pub state: RequestState,
    pub started: bool,
    pub eligible: bool,
    pub send: Option<SendState>,
    pub thread: Option<Seq<char>>,
    pub turn: Option<Seq<char>>,
    pub hold: Hold,
}

impl View for RunRecord {
    type V = RunView;

    open spec fn view(&self) -> RunView {
        RunView {
            state: self.state,
            started: self.started,
            eligible: self.eligible,
            send: self.send,
            thread: opt_view(self.codex_thread),
            turn: opt_view(self.codex_turn),
            hold: self.hold,
        }
    }
}

/// Whether a request is being executed.
pub open spec fn executing(s: RequestState) -> bool {
    s == RequestState::Running || s == RequestState::ApprovalRequired || s
        == RequestState::CancelRequested
}

impl RunView {
    /// What holds of every stored execution: the state of the request, the send boundary and the
    /// hold of the conversation agree.
    pub open spec fn consistent(self) -> bool {
        &&& self.started ==> !self.eligible
        &&& match self.send {
            None => !self.started && self.hold == Hold::Free,
            Some(SendState::Prepared) => {
                &&& !self.started
                &&& self.hold == Hold::Free
                &&& self.state.unsent() || self.state == RequestState::Failed || self.state
                    == RequestState::Cancelled
            },
            Some(SendState::Sending) => self.started && self.state == RequestState::Sending
                && self.hold is Held,
            Some(SendState::Acked) => self.started && executing(self.state) && self.hold is Held,
            Some(SendState::Unknown) => self.started && self.state == RequestState::Unknown
                && !(self.hold is Free),
            Some(SendState::Terminal) => self.started && self.state.ended() && self.hold is Released,
        }
    }
}

/// A dispatch that was begun.
#[derive(Debug)]
pub struct DirectDispatch {
    pub request_id: String,
    pub intent_id: String,
    pub discord_thread_id: String,
    pub workspace_path: String,
    pub workspace_dev: u64,
    pub workspace_ino: u64,
    pub codex_thread_id: Option<String>,
    pub selected_model: String,
}

impl DirectDispatch {
    /// The working folder must still be the one that the conversation is bound to. The send boundary
    /// is crossed already: a request whose folder changed stays uncertain.
    pub fn check_workspace(&self, canonical: &str, dev: u64, ino: u64) -> (r: Result<
        (),
        &'static str,
    >)
        ensures
            r is Ok <==> crate::paths::components(canonical@) == crate::paths::components(
                self.workspace_path@,
            ) && dev == self.workspace_dev && ino == self.workspace_ino,
            r is Err ==> r->Err_0@ == "workspace identity changed after send boundary"@,
    {
        if crate::paths::same_path(canonical, self.workspace_path.as_str()) && dev
            == self.workspace_dev && ino == self.workspace_ino {
            Ok(())
        } else {
            Err("workspace identity changed after send boundary")
        }
    }
}

/// What a recovery would release.
#[derive(Debug, PartialEq, Eq)]
pub struct DirectRecoveryOffer {
    pub request_id: String,
    pub generation: i64,
    pub waiting: i64,
    pub pause_revision: i64,
    pub next_sequence: i64,
}

/// What is known of a request that is to be prepared.
#[derive(Clone, Copy, Debug)]
pub struct PrepareFacts {
    /// An execution behind a proxy was recorded for it.
    pub proxy_identity: bool,
    pub direct_mode: bool,
    /// The conversation was sent to a proxy.
    pub proxy_boundary: bool,
    /// Another request of the conversation was executed behind a proxy.
    pub legacy_execution: bool,
    /// The working folder and provider are those that the conversation is bound to.
    pub binding_kept: bool,
}

/// Whether the outcome of a run is unknown and still holds back its conversation.
pub open spec fn blocks(v: RunView) -> bool {
    v.state == RequestState::Unknown && v.hold is Held
}

/// Whether one of some requests blocks its conversation.
pub open spec fn blocked(runs: Seq<RunRecord>) -> bool {
    exists|i: int| 0 <= i < runs.len() && blocks((#[trigger] runs[i])@)
}

/// Whether one of the runs of a conversation holds it back.
pub fn direct_unknown_blocker(runs: &Vec<RunRecord>) -> (r: bool)
    ensures
        r == exists|i: int| 0 <= i < runs@.len() && blocks((#[trigger] runs@[i])@),
        r == blocked(runs@),
{
    let mut i: usize = 0;
    while i < runs.len()
        invariant
            i <= runs@.len(),
            forall|k: int| 0 <= k < i ==> !blocks((#[trigger] runs@[k])@),
        decreases runs@.len() - i,
    {
        let run = &runs[i];
        let held = match run.hold {
            Hold::Held(_) => true,
            _ => false,
        };
        if run.state == RequestState::Unknown && held {
            assert(blocks(runs@[i as int]@));
            return true;
        }
        i += 1;
    }
    false
}

/// What is wrong with a folder that a conversation is to be bound to.
pub open spec fn binding_objection(
    folder: Seq<char>,
    canonical: Seq<char>,
    is_dir: bool,
    owned: bool,
) -> Option<Seq<char>> {
    if crate::paths::components(canonical) != crate::paths::components(folder) {
        Some("workspace path is not canonical"@)
    } else if !(is_dir && owned) {
        Some("workspace identity invalid"@)
    } else if !crate::paths::absolute(folder) {
        Some("workspace must be absolute"@)
    } else {
        None
    }
}

/// Whether a conversation can be bound to a folder: a plain directory of this user, named without
/// detours.
pub fn check_binding(folder: &str, canonical: &str, is_dir: bool, owned: bool) -> (r: Result<
    (),
    &'static str,
>)
    ensures
        match binding_objection(folder@, canonical@, is_dir, owned) {
            Some(e) => r is Err && r->Err_0@ == e,
            None => r is Ok,
        },
{
    if !crate::paths::same_path(canonical, folder) {
        Err("workspace path is not canonical")
    } else if !(is_dir && owned) {
        Err("workspace identity invalid")
    } else if !crate::paths::is_absolute(folder) {
        Err("workspace must be absolute")
    } else {
        Ok(())
    }
}

/// What forbids preparing a request.
pub open spec fn prepare_objection(v: RunView, f: PrepareFacts) -> Option<Seq<char>> {
    if !(v.state == RequestState::Queued && !v.started && v.eligible && !f.proxy_identity) {
        Some("request is not a fresh direct-mode candidate"@)
    } else if !f.direct_mode && f.proxy_boundary {
        Some("legacy Proxy conversation has an execution boundary"@)
    } else if !f.direct_mode && f.legacy_execution {
        Some("legacy execution requires explicit migration before direct use"@)
    } else if !f.binding_kept {
        Some("direct conversation binding changed"@)
    } else if v.send is Some && v.send->0 != SendState::Prepared {
        Some("direct intent already crossed the send boundary"@)
    } else {
        None
    }
}

/// What is known of the conversation of a request that is to be sent.
#[derive(Clone, Copy, Debug)]
pub struct SendFacts {
    pub recovery_pending: bool,
    pub paused: bool,
    /// The conversation is new or ready.
    pub dispatchable: bool,
    pub has_model: bool,
    pub project_active: bool,
    pub model_validating: bool,
    /// Requests that occupy a conversation now.
    pub occupied: i64,
    pub conversation_occupied: bool,
    pub earlier_waiting: bool,
    /// The generation that the hold of this request gets.
    pub generation: i64,
}

/// What forbids sending a request.
pub open spec fn send_objection(v: RunView, f: SendFacts) -> Option<Seq<char>> {
    if f.recovery_pending {
        Some("database restore is not released"@)
    } else if v.send != Some(SendState::Prepared) {
        Some(no_row())
    } else if f.paused || !f.dispatchable {
        Some("direct conversation is not dispatchable"@)
    } else if !f.has_model {
        Some("direct conversation has no selected model"@)
    } else if !f.project_active {
        Some("project retired"@)
    } else if f.model_validating {
        Some("model validation pending"@)
    } else if f.occupied >= 2 {
        Some("direct execution capacity is full"@)
    } else if f.conversation_occupied {
        Some("direct conversation already has an active request"@)
    } else if f.earlier_waiting {
        Some("earlier request has priority"@)
    } else if !(v.state == RequestState::Queued && !v.started && v.eligible) {
        Some("request is not queued for direct send"@)
    } else {
        None
    }
}

/// A request that crossed the send boundary.
pub open spec fn sent(v: RunView, f: SendFacts) -> RunView {
    RunView {
        state: RequestState::Sending,
        started: true,
        eligible: false,
        send: Some(SendState::Sending),
        hold: Hold::Held(f.generation),
        ..v
    }
}

/// Whether a thread of Codex may be bound to a conversation: only the one it has.
pub open spec fn thread_kept(bound: Option<Seq<char>>, thread: Seq<char>) -> bool {
    bound is None || bound->0 == thread
}

/// What forbids recording a thread of Codex.
pub open spec fn thread_objection(v: RunView, bound: Option<Seq<char>>, thread: Seq<char>) -> Option<
    Seq<char>,
> {
    if v.send != Some(SendState::Sending) {
        Some("direct send not in progress"@)
    } else if !thread_kept(bound, thread) {
        Some("Codex thread changed"@)
    } else {
        None
    }
}

/// What forbids acknowledging a turn.
pub open spec fn acknowledge_objection(
    v: RunView,
    bound: Option<Seq<char>>,
    thread: Seq<char>,
) -> Option<Seq<char>> {
    if thread_objection(v, bound, thread) is Some {
        thread_objection(v, bound, thread)
    } else if v.state != RequestState::Sending {
        Some("request send state changed"@)
    } else {
        None
    }
}

/// A request whose turn was reported.
pub open spec fn acknowledged(v: RunView, thread: Seq<char>, turn: Seq<char>) -> RunView {
    RunView {
        state: RequestState::Running,
        send: Some(SendState::Acked),
        thread: Some(thread),
        turn: Some(turn),
        ..v
    }
}

/// Whether what became of a request can be unknown.
pub open spec fn may_be_uncertain(s: RequestState) -> bool {
    s == RequestState::Sending || executing(s) || s == RequestState::Unknown
}

/// A request whose outcome is unknown.
pub open spec fn uncertain(v: RunView) -> RunView {
    RunView {
        state: RequestState::Unknown,
        send: match v.send {
            Some(SendState::Sending) => Some(SendState::Unknown),
            Some(SendState::Acked) => Some(SendState::Unknown),
            other => other,
        },
        ..v
    }
}

/// The state that the end of a turn stands for.
pub open spec fn ended_state(status: Seq<char>) -> Option<RequestState> {
    if status == "completed"@ {
        Some(RequestState::Completed)
    } else if status == "failed"@ {
        Some(RequestState::Failed)
    } else if status == "interrupted"@ {
        Some(RequestState::Cancelled)
    } else {
        None
    }
}

/// What forbids confirming the end of a turn.
pub open spec fn finish_objection(
    v: RunView,
    thread: Seq<char>,
    turn: Seq<char>,
    status: Seq<char>,
    has_answer: bool,
) -> Option<Seq<char>> {
    if ended_state(status) is None {
        Some("unconfirmed Codex terminal status"@)
    } else if status == "completed"@ && !has_answer {
        Some("completed answer is not stored"@)
    } else if v.send != Some(SendState::Acked) && v.send != Some(SendState::Unknown) {
        Some("direct turn not eligible for terminal confirmation"@)
    } else if v.thread != Some(thread) || v.turn != Some(turn) {
        Some("Codex terminal identity mismatch"@)
    } else if !executing(v.state) && v.state != RequestState::Unknown {
        Some("request is not active or uncertain"@)
    } else {
        None
    }
}

/// The hold once it is given up.
pub open spec fn given_up(h: Hold) -> Hold {
    match h {
        Hold::Held(g) => Hold::Released((g + 1) as i64),
        other => other,
    }
}

/// A request whose end is confirmed.
pub open spec fn finished(v: RunView, status: Seq<char>) -> RunView {
    RunView {
        state: ended_state(status)->0,
        send: Some(SendState::Terminal),
        hold: given_up(v.hold),
        ..v
    }
}

/// A request after a restart: what may have been sent is unknown.
pub open spec fn fenced(v: RunView) -> RunView {
    if v.send == Some(SendState::Sending) || v.send == Some(SendState::Acked) {
        RunView {
            send: Some(SendState::Unknown),
            state: if v.state.ended() {
                v.state
            } else {
                RequestState::Unknown
            },
            ..v
        }
    } else {
        v
    }
}

/// Whether a request is unsent for certain.
pub open spec fn surely_unsent(v: RunView) -> bool {
    v.state == RequestState::Queued && !v.started
}

/// What is said where a record that must be stored is not.
pub open spec fn no_row() -> Seq<char> {
    "Query returned no rows"@
}

/// What forbids releasing the hold of an uncertain request: it must have been prepared and be
/// uncertain, and hold its conversation in this generation.
pub open spec fn release_objection(v: RunView, generation: i64) -> Option<Seq<char>> {
    if v.send is None {
        Some(no_row())
    } else if !(v.state == RequestState::Unknown && v.send == Some(SendState::Unknown)) {
        Some("request is not an unknown direct execution"@)
    } else if !(v.hold is Held) {
        Some(no_row())
    } else if v.hold != Hold::Held(generation) {
        Some("unknown hold generation changed"@)
    } else {
        None
    }
}

impl RunRecord {
    /// Stores the intent to send. Returns whether it is new.
    pub fn prepare_direct(&mut self, f: &PrepareFacts) -> (r: Result<bool, &'static str>)
        ensures
            match prepare_objection(old(self)@, *f) {
                Some(e) => r is Err && r->Err_0@ == e && final(self)@ == old(self)@,
                None => r == Ok::<bool, &'static str>(old(self)@.send is None) && final(self)@ == (
                RunView { send: Some(SendState::Prepared), ..old(self)@ }),
            },
    {
        if !(self.state == RequestState::Queued && !self.started && self.eligible
            && !f.proxy_identity) {
            return Err("request is not a fresh direct-mode candidate");
        }
        if !f.direct_mode {
            if f.proxy_boundary {
                return Err("legacy Proxy conversation has an execution boundary");
            }
            if f.legacy_execution {
                return Err("legacy execution requires explicit migration before direct use");
            }
        }
        if !f.binding_kept {
            return Err("direct conversation binding changed");
        }
        match self.send {
            Some(s) => {
                if s == SendState::Prepared {
                    Ok(false)
                } else {
                    Err("direct intent already crossed the send boundary")
                }
            },
            None => {
                self.send = Some(SendState::Prepared);
                Ok(true)
            },
        }
    }

    /// Crosses the send boundary. It is stored before the first byte is written, so that after a
    /// crash the request counts as uncertain.
    pub fn begin_direct_send(&mut self, f: &SendFacts) -> (r: Result<(), &'static str>)
        ensures
            match send_objection(old(self)@, *f) {
                Some(e) => r is Err && r->Err_0@ == e && final(self)@ == old(self)@,
                None => r is Ok && final(self)@ == sent(old(self)@, *f),
            },
    {
        if f.recovery_pending {
            return Err("database restore is not released");
        }
        match self.send {
            Some(SendState::Prepared) => {},
            _ => return Err("Query returned no rows"),
        }
        if f.paused || !f.dispatchable {
            return Err("direct conversation is not dispatchable");
        }
        if !f.has_model {
            return Err("direct conversation has no selected model");
        }
        if !f.project_active {
            return Err("project retired");
        }
        if f.model_validating {
            return Err("model validation pending");
        }
        if f.occupied >= 2 {
            return Err("direct execution capacity is full");
        }
        if f.conversation_occupied {
            return Err("direct conversation already has an active request");
        }
        if f.earlier_waiting {
            return Err("earlier request has priority");
        }
        if !(self.state == RequestState::Queued && !self.started && self.eligible) {
            return Err("request is not queued for direct send");
        }
        self.state = RequestState::Sending;
        self.started = true;
        self.eligible = false;
        self.send = Some(SendState::Sending);
        self.hold = Hold::Held(f.generation);
        Ok(())
    }

    /// Records the thread of Codex, before a turn is started in it. `bound` is the thread that the
    /// conversation has.
    pub fn record_direct_thread(&mut self, bound: Option<&str>, thread: &str) -> (r: Result<
        (),
        &'static str,
    >)
        ensures
            match thread_objection(old(self)@, opt_str(bound), thread@) {
                Some(e) => r is Err && r->Err_0@ == e && final(self)@ == old(self)@,
                None => r is Ok && final(self)@ == (RunView {
                    thread: Some(thread@),
                    ..old(self)@
                }),
            },
    {
        match self.send {
            Some(SendState::Sending) => {},
            _ => return Err("direct send not in progress"),
        }
        if let Some(b) = bound {
            if !same(b, thread) {
                return Err("Codex thread changed");
            }
        }
        self.codex_thread = Some(thread.to_owned());
        Ok(())
    }

    /// Records the turn that the app server reported.
    pub fn acknowledge_direct_turn(&mut self, bound: Option<&str>, thread: &str, turn: &str) -> (r: Result<
        (),
        &'static str,
    >)
        ensures
            match acknowledge_objection(old(self)@, opt_str(bound), thread@) {
                Some(e) => r is Err && r->Err_0@ == e && final(self)@ == old(self)@,
                None => r is Ok && final(self)@ == acknowledged(old(self)@, thread@, turn@),
            },
    {
        match self.send {
            Some(SendState::Sending) => {},
            _ => return Err("direct send not in progress"),
        }
        if let Some(b) = bound {
            if !same(b, thread) {
                return Err("Codex thread changed");
            }
        }
        if self.state != RequestState::Sending {
            return Err("request send state changed");
        }
        self.state = RequestState::Running;
        self.send = Some(SendState::Acked);
        self.codex_thread = Some(thread.to_owned());
        self.codex_turn = Some(turn.to_owned());
        Ok(())
    }

    /// Records that the outcome is unknown. Nothing is sent again because of it.
    pub fn mark_direct_unknown(&mut self) -> (r: Result<(), &'static str>)
        ensures
            !may_be_uncertain(old(self)@.state) ==> r is Err && r->Err_0@ == "request is not uncertain"@
                && final(self)@ == old(self)@,
            may_be_uncertain(old(self)@.state) ==> r is Ok && final(self)@ == uncertain(old(self)@),
    {
        match self.state {
            RequestState::Sending | RequestState::Running | RequestState::ApprovalRequired
            | RequestState::CancelRequested | RequestState::Unknown => {},
            _ => return Err("request is not uncertain"),
        }
        self.state = RequestState::Unknown;
        match self.send {
            Some(SendState::Sending) | Some(SendState::Acked) => {
                self.send = Some(SendState::Unknown);
            },
            _ => {},
        }
        Ok(())
    }

    /// Records the end of exactly this turn. The answer of a completed turn must be stored before.
    pub fn finish_direct(&mut self, identity: &TurnIdentity, status: &str, has_answer: bool) -> (r: Result<
        (),
        &'static str,
    >)
        requires
            old(self).hold is Held ==> old(self).hold->Held_0 < i64::MAX,
        ensures
            match finish_objection(
                old(self)@,
                identity.thread_id@,
                identity.turn_id@,
                status@,
                has_answer,
            ) {
                Some(e) => r is Err && r->Err_0@ == e && final(self)@ == old(self)@,
                None => r is Ok && final(self)@ == finished(old(self)@, status@),
            },
    {
        let completed = same(status, "completed");
        let next = if completed {
            RequestState::Completed
        } else if same(status, "failed") {
            RequestState::Failed
        } else if same(status, "interrupted") {
            RequestState::Cancelled
        } else {
            return Err("unconfirmed Codex terminal status");
        };
        if completed && !has_answer {
            return Err("completed answer is not stored");
        }
        match self.send {
            Some(SendState::Acked) | Some(SendState::Unknown) => {},
            _ => return Err("direct turn not eligible for terminal confirmation"),
        }
        if !some_same(borrowed(&self.codex_thread), identity.thread_id.as_str()) || !some_same(
            borrowed(&self.codex_turn),
            identity.turn_id.as_str(),
        ) {
            return Err("Codex terminal identity mismatch");
        }
        match self.state {
            RequestState::Running | RequestState::ApprovalRequired | RequestState::CancelRequested
            | RequestState::Unknown => {},
            _ => return Err("request is not active or uncertain"),
        }
        self.state = next;
        self.send = Some(SendState::Terminal);
        match self.hold {
            Hold::Held(g) => {
                self.hold = Hold::Released(g + 1);
            },
            _ => {},
        }
        Ok(())
    }

    /// After a restart, what may have been sent is unknown. Returns whether this changed anything.
    pub fn fence_direct_after_restart(&mut self) -> (r: bool)
        ensures
            final(self)@ == fenced(old(self)@),
            r == (old(self)@.send == Some(SendState::Sending) || old(self)@.send == Some(
                SendState::Acked,
            )),
    {
        match self.send {
            Some(SendState::Sending) | Some(SendState::Acked) => {
                self.send = Some(SendState::Unknown);
                if !self.state.terminal() {
                    self.state = RequestState::Unknown;
                }
                true
            },
            _ => false,
        }
    }

    /// Fails a request that was not sent.
    pub fn fail_direct_before_send(&mut self) -> (r: Result<(), &'static str>)
        ensures
            !surely_unsent(old(self)@) ==> r is Err && r->Err_0@
                == "direct request is no longer unsent"@ && final(self)@ == old(self)@,
            surely_unsent(old(self)@) ==> r is Ok && final(self)@ == (RunView {
                state: RequestState::Failed,
                eligible: false,
                ..old(self)@
            }),
    {
        if self.state != RequestState::Queued || self.started {
            return Err("direct request is no longer unsent");
        }
        self.state = RequestState::Failed;
        self.eligible = false;
        Ok(())
    }

    /// Cancels a waiting request when its conversation is recovered.
    pub fn cancel_unsent(&mut self) -> (r: Result<(), &'static str>)
        ensures
            !(old(self)@.state.unsent() && !old(self)@.started) ==> r is Err && r->Err_0@
                == "waiting request crossed the send boundary"@ && final(self)@ == old(self)@,
            old(self)@.state.unsent() && !old(self)@.started ==> r is Ok && final(self)@ == (RunView {
                state: RequestState::Cancelled,
                eligible: false,
                ..old(self)@
            }),
    {
        match self.state {
            RequestState::Received | RequestState::Queued => {},
            _ => return Err("waiting request crossed the send boundary"),
        }
        if self.started {
            return Err("waiting request crossed the send boundary");
        }
        self.state = RequestState::Cancelled;
        self.eligible = false;
        Ok(())
    }

    /// Releases the conversation from an uncertain request. The request itself stays uncertain and
    /// is not executed again.
    pub fn release(&mut self, generation: i64) -> (r: Result<(), &'static str>)
        requires
            generation < i64::MAX,
        ensures
            match release_objection(old(self)@, generation) {
                Some(e) => r is Err && r->Err_0@ == e && final(self)@ == old(self)@,
                None => r is Ok && final(self)@ == (RunView {
                    hold: Hold::Released((generation + 1) as i64),
                    ..old(self)@
                }),
            },
    {
        if self.send.is_none() {
            return Err("Query returned no rows");
        }
        let unknown_send = match self.send {
            Some(SendState::Unknown) => true,
            _ => false,
        };
        if self.state != RequestState::Unknown || !unknown_send {
            return Err("request is not an unknown direct execution");
        }
        match self.hold {
            Hold::Held(g) => {
                if g != generation {
                    return Err("unknown hold generation changed");
                }
                self.hold = Hold::Released(g + 1);
                Ok(())
            },
            _ => Err("Query returned no rows"),
        }
    }
}

/// One change of a stored execution.
pub enum StoreOp {
    Prepare(PrepareFacts),
    Send(SendFacts),
    Thread(Option<Seq<char>>, Seq<char>),
    Acknowledge(Option<Seq<char>>, Seq<char>, Seq<char>),
    Uncertain,
    Finish(Seq<char>, Seq<char>, Seq<char>, bool),
    Restart,
    FailUnsent,
    CancelUnsent,
    Release(i64),
}

/// A stored execution after a change; a change that is refused leaves it alone.
pub open spec fn after(v: RunView, op: StoreOp) -> RunView {
    match op {
        StoreOp::Prepare(f) => if prepare_objection(v, f) is None {
            RunView { send: Some(SendState::Prepared), ..v }
        } else {
            v
        },
        StoreOp::Send(f) => if send_objection(v, f) is None {
            sent(v, f)
        } else {
            v
        },
        StoreOp::Thread(bound, thread) => if thread_objection(v, bound, thread) is None {
            RunView { thread: Some(thread), ..v }
        } else {
            v
        },
        StoreOp::Acknowledge(bound, thread, turn) => if acknowledge_objection(
            v,
            bound,
            thread,
        ) is None {
            acknowledged(v, thread, turn)
        } else {
            v
        },
        StoreOp::Uncertain => if may_be_uncertain(v.state) {
            uncertain(v)
        } else {
            v
        },
        StoreOp::Finish(thread, turn, status, has_answer) => if finish_objection(
            v,
            thread,
            turn,
            status,
            has_answer,
        ) is None {
            finished(v, status)
        } else {
            v
        },
        StoreOp::Restart => fenced(v),
        StoreOp::FailUnsent => if surely_unsent(v) {
            RunView { state: RequestState::Failed, eligible: false, ..v }
        } else {
            v
        },
        StoreOp::CancelUnsent => if v.state.unsent() && !v.started {
            RunView { state: RequestState::Cancelled, eligible: false, ..v }
        } else {
            v
        },
        StoreOp::Release(g) => if release_objection(v, g) is None {
            RunView { hold: Hold::Released((g + 1) as i64), ..v }
        } else {
            v
        },
    }
}

/// Whether a change crosses the send boundary.
pub open spec fn crosses(v: RunView, op: StoreOp) -> bool {
    op is Send && send_objection(v, op->Send_0) is None
}

/// Every change keeps a stored execution consistent, and moves its request only as a request may
/// move.
pub proof fn changes_keep_consistency(v: RunView, op: StoreOp)
    requires
        v.consistent(),
    ensures
        after(v, op).consistent(),
        v.state.may_become(after(v, op).state),
        v.started ==> after(v, op).started,
{
}

/// A stored execution after the first `n` of some changes.
pub open spec fn history(v: RunView, ops: Seq<StoreOp>, n: nat) -> RunView
    decreases n,
{
    if n == 0 || n > ops.len() {
        v
    } else {
        after(history(v, ops, (n - 1) as nat), ops[n - 1])
    }
}

/// Whatever happens to a stored execution, it stays consistent.
pub proof fn history_is_consistent(v: RunView, ops: Seq<StoreOp>, n: nat)
    requires
        v.consistent(),
        n <= ops.len(),
    ensures
        history(v, ops, n).consistent(),
    decreases n,
{
    if n > 0 {
        history_is_consistent(v, ops, (n - 1) as nat);
        changes_keep_consistency(history(v, ops, (n - 1) as nat), ops[n - 1]);
    }
}

/// A request is sent at most once, whatever happens in between: once it crossed the send boundary,
/// nothing makes it cross again.
pub proof fn sent_at_most_once(v: RunView, ops: Seq<StoreOp>, i: nat, j: nat)
    requires
        v.consistent(),
        i < j < ops.len(),
        crosses(history(v, ops, i), ops[i as int]),
    ensures
        !crosses(history(v, ops, j), ops[j as int]),
{
    lemma_started_stays(v, ops, i, j);
}

proof fn lemma_started_stays(v: RunView, ops: Seq<StoreOp>, i: nat, j: nat)
    requires
        v.consistent(),
        i < j <= ops.len(),
        crosses(history(v, ops, i), ops[i as int]),
    ensures
        history(v, ops, j).started,
    decreases j,
{
    history_is_consistent(v, ops, (j - 1) as nat);
    changes_keep_consistency(history(v, ops, (j - 1) as nat), ops[j - 1]);
    if j > i + 1 {
        lemma_started_stays(v, ops, i, (j - 1) as nat);
    }
}

/// An uncertain request keeps its conversation occupied until it is confirmed to have ended or is
/// released by hand: nothing else gives the hold up.
pub proof fn uncertain_requests_stay_held(v: RunView, op: StoreOp)
    requires
        v.consistent(),
        v.hold is Held,
        !(after(v, op).hold is Held),
    ensures
        op is Finish || op is Release,
        op is Release ==> v.state == RequestState::Unknown,
{
}

/// What is known of a conversation when its recovery is asked for.
#[derive(Debug)]
pub struct RecoveryFacts {
    pub restore_pending: bool,
    /// The uncertain requests that hold the conversation, with their generations.
    pub uncertain: Vec<(String, i64)>,
    /// All requests that hold the conversation.
    pub held: i64,
    /// A request is executed or an input is checked.
    pub busy: bool,
    pub waiting: i64,
    pub pause_revision: i64,
    pub next_sequence: i64,
}

/// The recovery that can be offered: exactly one uncertain request holds the conversation, and
/// nothing is in progress.
pub fn direct_recovery_offer(f: &RecoveryFacts) -> (r: Option<DirectRecoveryOffer>)
    ensures
        r is Some <==> !f.restore_pending && f.uncertain@.len() == 1 && f.held == 1 && !f.busy,
        r is Some ==> {
            let o = r->0;
            &&& o.request_id@ == f.uncertain@[0].0@
            &&& o.generation == f.uncertain@[0].1
            &&& o.waiting == f.waiting
            &&& o.pause_revision == f.pause_revision
            &&& o.next_sequence == f.next_sequence
        },
{
    if f.restore_pending || f.uncertain.len() != 1 || f.held != 1 || f.busy {
        return None;
    }
    Some(
        DirectRecoveryOffer {
            request_id: f.uncertain[0].0.clone(),
            generation: f.uncertain[0].1,
            waiting: f.waiting,
            pause_revision: f.pause_revision,
            next_sequence: f.next_sequence,
        },
    )
}

/// What is known of a conversation when its recovery is carried out.
#[derive(Clone, Copy, Debug)]
pub struct RecoverFacts {
    /// The interaction was handled before.
    pub handled: bool,
    pub restore_pending: bool,
    pub pause_revision: i64,
    pub next_sequence: i64,
    /// Uncertain requests that match the offer.
    pub matching: i64,
    pub held: i64,
    pub active: bool,
    /// A waiting request crossed the send boundary.
    pub unsafe_waiting: bool,
    pub waiting: i64,
}

/// What forbids carrying out a recovery: it must be exactly what was confirmed.
pub open spec fn recover_objection(o: DirectRecoveryOffer, f: RecoverFacts) -> Option<Seq<char>> {
    if f.restore_pending {
        Some("restore quarantine is active"@)
    } else if f.pause_revision != o.pause_revision || f.next_sequence != o.next_sequence {
        Some("conversation changed after recovery confirmation"@)
    } else if f.matching != 1 {
        Some("unknown recovery target changed"@)
    } else if f.held != 1 {
        Some("conversation has another execution hold"@)
    } else if f.active {
        Some("conversation has an active execution or input validation"@)
    } else if f.unsafe_waiting {
        Some("waiting request crossed the send boundary"@)
    } else if f.waiting != o.waiting {
        Some("waiting requests changed after recovery confirmation"@)
    } else {
        None
    }
}

/// Whether a recovery is carried out. An interaction that was handled before does nothing.
pub fn recover_direct_unknown(o: &DirectRecoveryOffer, f: &RecoverFacts) -> (r: Result<
    bool,
    &'static str,
>)
    ensures
        f.handled ==> r == Ok::<bool, &'static str>(false),
        !f.handled ==> match recover_objection(*o, *f) {
            Some(e) => r is Err && r->Err_0@ == e,
            None => r == Ok::<bool, &'static str>(true),
        },
{
    if f.handled {
        return Ok(false);
    }
    if f.restore_pending {
        return Err("restore quarantine is active");
    }
    if f.pause_revision != o.pause_revision || f.next_sequence != o.next_sequence {
        return Err("conversation changed after recovery confirmation");
    }
    if f.matching != 1 {
        return Err("unknown recovery target changed");
    }
    if f.held != 1 {
        return Err("conversation has another execution hold");
    }
    if f.active {
        return Err("conversation has an active execution or input validation");
    }
    if f.unsafe_waiting {
        return Err("waiting request crossed the send boundary");
    }
    if f.waiting != o.waiting {
        return Err("waiting requests changed after recovery confirmation");
    }
    Ok(true)
}

/// Whether a reason is given and short enough.
pub open spec fn reason_given(reason: Seq<char>) -> bool {
    !blank(reason) && utf8_len(reason) <= 1024
}

pub fn is_reason(reason: &str) -> (r: bool)
    ensures
        r == reason_given(reason@),
{
    !is_blank(reason) && byte_len(reason) <= 1024
}

/// Whether an operator may release the conversation of an uncertain request.
pub fn abandon_direct_unknown(
    reason: &str,
    record: &mut RunRecord,
    generation: i64,
    active: bool,
    another_hold: bool,
) -> (r: Result<(), &'static str>)
    requires
        generation < i64::MAX,
    ensures
        ({
            let released = release_objection(old(record)@, generation);
            let e = if !reason_given(reason@) {
                Some("recovery reason required (up to 1024 bytes)"@)
            } else if released is Some {
                released
            } else if active {
                Some("conversation still has an active direct request"@)
            } else if another_hold {
                Some("conversation has another unreleased hold"@)
            } else {
                None
            };
            match e {
                Some(e) => r is Err && r->Err_0@ == e && final(record)@ == old(record)@,
                None => r is Ok && final(record)@ == (RunView {
                    hold: Hold::Released((generation + 1) as i64),
                    ..old(record)@
                }),
            }
        }),
{
    if !is_reason(reason) {
        return Err("recovery reason required (up to 1024 bytes)");
    }
    if record.send.is_none() {
        return Err("Query returned no rows");
    }
    let unknown_send = match record.send {
        Some(SendState::Unknown) => true,
        _ => false,
    };
    if record.state != RequestState::Unknown || !unknown_send {
        return Err("request is not an unknown direct execution");
    }
    match record.hold {
        Hold::Held(g) => {
            if g != generation {
                return Err("unknown hold generation changed");
            }
        },
        _ => return Err("Query returned no rows"),
    }
    if active {
        return Err("conversation still has an active direct request");
    }
    if another_hold {
        return Err("conversation has another unreleased hold");
    }
    record.release(generation)
}

} // verus!
