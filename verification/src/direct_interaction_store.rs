//! The durable send boundary of decisions on requests of the app server.
use crate::codec::{compact_text, document, list_fault, not_a_list};
use crate::direct_approval::{
    decision_word, wire_decision, DirectInteraction, InteractionView, ManualDecision,
};
use crate::domain::RequestState;
use crate::direct_store::SendState;
use crate::json::{Json, JsonView};
use crate::text::{same, some_same};
use vstd::prelude::*;

verus! {

/// How far a decision has come.
#[derive(Clone, Copy, Debug, PartialEq, Eq, Structural)]
pub enum ReplyState {
    /// Waits for a decision.
    Pending,
    /// The decision may have been written.
    Sending,
    Sent,
    /// What became of the decision is not known.
    Unknown,
    /// The app server confirmed that the request is settled.
    Resolved,
    /// Can no longer be decided.
    Unavailable,
}

/// What is stored of a request of the app server.
#[derive(Debug)]
pub struct InteractionRecord {
    pub fingerprint: String,
    pub method: String,
    pub state: ReplyState,
    /// The decisions that were offered, where the app server said so.
    pub offered: Option<Json>,
}

/// The mathematical form of an `InteractionRecord`.
pub struct InteractionRecordView {
    pub fingerprint: Seq<char>,
    pub method: Seq<char>,
    pub state: ReplyState,
    pub offered: Option<JsonView>,
}

impl View for InteractionRecord {
    type V = InteractionRecordView;

    open spec fn view(&self) -> InteractionRecordView {
        InteractionRecordView {
            fingerprint: self.fingerprint@,
            method: self.method@,
            state: self.state,
            offered: match self.offered {
                Some(j) => Some(j@),
                None => None,
            },
        }
    }
}

/// What forbids recording a request of the app server: it must belong to the turn that runs.
pub open spec fn record_objection(
    v: InteractionView,
    thread: Option<Seq<char>>,
    turn: Option<Seq<char>>,
    send: SendState,
    existing: Option<Seq<char>>,
    state: RequestState,
) -> Option<Seq<char>> {
    if thread != Some(v.thread_id) || turn != Some(v.turn_id) || send != SendState::Acked {
        Some("approval does not belong to the active direct turn"@)
    } else if existing is Some {
        if existing->0 == v.fingerprint {
            None
        } else {
            Some("App Server request ID reused for another operation"@)
        }
    } else if state != RequestState::Running && state != RequestState::ApprovalRequired {
        Some("approval request is not running"@)
    } else {
        None
    }
}

/// Records a request of the app server. `existing` is the fingerprint under which the same request
/// was recorded before. Returns the record where it is new, after which the request of the user
/// waits for an approval.
pub fn record_direct_interaction(
    interaction: &DirectInteraction,
    thread: Option<&str>,
    turn: Option<&str>,
    send: SendState,
    existing: Option<&str>,
    state: RequestState,
) -> (r: Result<Option<InteractionRecord>, &'static str>)
    ensures
        match record_objection(
            interaction@,
            crate::text::opt_str(thread),
            crate::text::opt_str(turn),
            send,
            crate::text::opt_str(existing),
            state,
        ) {
            Some(e) => r is Err && r->Err_0@ == e,
            None => {
                &&& r is Ok
                &&& existing is Some ==> r->Ok_0 is None
                &&& existing is None ==> r->Ok_0 is Some && r->Ok_0->0@ == (InteractionRecordView {
                    fingerprint: interaction@.fingerprint,
                    method: interaction@.method,
                    state: ReplyState::Pending,
                    offered: interaction@.params.get("availableDecisions"@),
                })
            },
        },
{
    if !some_same(thread, interaction.thread_id.as_str()) || !some_same(
        turn,
        interaction.turn_id.as_str(),
    ) || send != SendState::Acked {
        return Err("approval does not belong to the active direct turn");
    }
    match existing {
        Some(fingerprint) => {
            if same(fingerprint, interaction.fingerprint.as_str()) {
                Ok(None)
            } else {
                Err("App Server request ID reused for another operation")
            }
        },
        None => {
            if state != RequestState::Running && state != RequestState::ApprovalRequired {
                return Err("approval request is not running");
            }
            let offered: Option<Json> = match interaction.params.get("availableDecisions") {
                Some(j) => Some(j.copy()),
                None => None,
            };
            Ok(
                Some(
                    InteractionRecord {
                        fingerprint: interaction.fingerprint.clone(),
                        method: interaction.method.clone(),
                        state: ReplyState::Pending,
                        offered,
                    },
                ),
            )
        },
    }
}

/// The word under which a decision is stored: a question about a tool has no separate cancellation.
pub open spec fn stored_decision(mcp: bool, d: ManualDecision) -> Seq<char> {
    if mcp && d == ManualDecision::Cancel {
        "decline"@
    } else {
        wire_decision(d)
    }
}

/// Whether a method takes a kind of reply: a question or a form about a tool takes the one, a command
/// or a file change the other.
pub open spec fn method_takes(mcp: bool, method: Seq<char>) -> bool {
    if mcp {
        method == "item/tool/requestUserInput"@ || method == "mcpServer/elicitation/request"@
    } else {
        method == "item/commandExecution/requestApproval"@ || method
            == "item/fileChange/requestApproval"@
    }
}

/// Whether every element of a list is a text.
pub open spec fn all_texts(j: JsonView) -> bool {
    j is Array && forall|i: int| 0 <= i < j->Array_0.len() ==> (#[trigger] j->Array_0[i]) is Text
}

/// What forbids sending a decision: the request must be the one that was shown, still open, and the
/// decision one that is offered.
pub open spec fn reply_objection(
    v: InteractionRecordView,
    shown: Seq<char>,
    dispatch: SendState,
    d: ManualDecision,
    mcp: bool,
) -> Option<Seq<char>> {
    if v.fingerprint != shown || v.state != ReplyState::Pending || dispatch != SendState::Acked {
        Some("approval is stale or does not match the displayed operation"@)
    } else if !method_takes(mcp, v.method) {
        Some("approval requires a different method-specific reply"@)
    } else if !mcp && v.offered is Some && !all_texts(v.offered->0) {
        Some(list_fault(compact_text(document(v.offered->0))))
    } else if !mcp && v.offered is Some && !v.offered->0.lists(wire_decision(d)) {
        Some("decision not offered by App Server"@)
    } else {
        None
    }
}

fn only_texts(j: &Json) -> (r: bool)
    ensures
        r == all_texts(j@),
{
    match j.as_array() {
        None => false,
        Some(list) => {
            let ghost all = j@->Array_0;
            let mut i: usize = 0;
            while i < list.len()
                invariant
                    i <= list@.len(),
                    list@.len() == all.len(),
                    j@ == JsonView::Array(all),
                    forall|k: int| 0 <= k < all.len() ==> #[trigger] list@[k]@ == all[k],
                    forall|k: int| 0 <= k < i ==> (#[trigger] all[k]) is Text,
                decreases list@.len() - i,
            {
                assert(list@[i as int]@ == all[i as int]);
                if list[i].as_str().is_none() {
                    return false;
                }
                i += 1;
            }
            true
        },
    }
}

impl InteractionRecord {
    /// Begins to send a decision. It is stored before the reply is written: after a crash the
    /// outcome is unknown and the decision is not sent again. Returns the word to be stored.
    pub fn begin_reply(&mut self, shown: &str, dispatch: SendState, d: ManualDecision, mcp: bool) -> (r:
        Result<&'static str, String>)
        ensures
            match reply_objection(old(self)@, shown@, dispatch, d, mcp) {
                Some(e) => r is Err && r->Err_0@ == e && final(self)@ == old(self)@,
                None => {
                    &&& r is Ok
                    &&& r->Ok_0@ == stored_decision(mcp, d)
                    &&& final(self)@ == (InteractionRecordView {
                        state: ReplyState::Sending,
                        ..old(self)@
                    })
                },
            },
    {
        if !same(self.fingerprint.as_str(), shown) || self.state != ReplyState::Pending || dispatch
            != SendState::Acked {
            return Err(String::from_str("approval is stale or does not match the displayed operation"));
        }
        let method = self.method.as_str();
        let taken = if mcp {
            same(method, "item/tool/requestUserInput") || same(
                method,
                "mcpServer/elicitation/request",
            )
        } else {
            same(method, "item/commandExecution/requestApproval") || same(
                method,
                "item/fileChange/requestApproval",
            )
        };
        if !taken {
            return Err(String::from_str("approval requires a different method-specific reply"));
        }
        if !mcp {
            if let Some(list) = &self.offered {
                if !only_texts(list) {
                    return Err(not_a_list(list));
                }
                if !list.lists(decision_word(d)) {
                    return Err(String::from_str("decision not offered by App Server"));
                }
            }
        }
        self.state = ReplyState::Sending;
        if mcp && d == ManualDecision::Cancel {
            Ok("decline")
        } else {
            Ok(decision_word(d))
        }
    }

    /// Begins to send a decision on a command or file change.
    pub fn begin_direct_approval_reply(&mut self, shown: &str, dispatch: SendState, d: ManualDecision) -> (r:
        Result<&'static str, String>)
        ensures
            match reply_objection(old(self)@, shown@, dispatch, d, false) {
                Some(e) => r is Err && r->Err_0@ == e && final(self)@ == old(self)@,
                None => {
                    &&& r is Ok
                    &&& r->Ok_0@ == wire_decision(d)
                    &&& final(self)@ == (InteractionRecordView {
                        state: ReplyState::Sending,
                        ..old(self)@
                    })
                },
            },
    {
        self.begin_reply(shown, dispatch, d, false)
    }

    /// Begins to send a decision on a tool call.
    pub fn begin_direct_mcp_reply(&mut self, shown: &str, dispatch: SendState, d: ManualDecision) -> (r:
        Result<&'static str, String>)
        ensures
            match reply_objection(old(self)@, shown@, dispatch, d, true) {
                Some(e) => r is Err && r->Err_0@ == e && final(self)@ == old(self)@,
                None => {
                    &&& r is Ok
                    &&& r->Ok_0@ == stored_decision(true, d)
                    &&& final(self)@ == (InteractionRecordView {
                        state: ReplyState::Sending,
                        ..old(self)@
                    })
                },
            },
    {
        self.begin_reply(shown, dispatch, d, true)
    }

    /// The reply was written.
    pub fn mark_direct_approval_sent(&mut self) -> (r: Result<(), &'static str>)
        ensures
            old(self)@.state == ReplyState::Sending ==> r is Ok && final(self)@ == (
            InteractionRecordView { state: ReplyState::Sent, ..old(self)@ }),
            old(self)@.state != ReplyState::Sending ==> r is Err && r->Err_0@
                == "approval send boundary changed"@ && final(self)@ == old(self)@,
    {
        if self.state != ReplyState::Sending {
            return Err("approval send boundary changed");
        }
        self.state = ReplyState::Sent;
        Ok(())
    }

    /// What became of the reply is not known.
    pub fn mark_direct_approval_unknown(&mut self) -> (r: Result<(), &'static str>)
        ensures
            in_flight(old(self)@.state) ==> r is Ok && final(self)@ == (InteractionRecordView {
                state: ReplyState::Unknown,
                ..old(self)@
            }),
            !in_flight(old(self)@.state) ==> r is Err && r->Err_0@
                == "approval result is not uncertain"@ && final(self)@ == old(self)@,
    {
        match self.state {
            ReplyState::Sending | ReplyState::Sent => {
                self.state = ReplyState::Unknown;
                Ok(())
            },
            _ => Err("approval result is not uncertain"),
        }
    }

    /// The app server confirmed that the request is settled.
    pub fn resolve_direct_approval(&mut self) -> (r: Result<(), &'static str>)
        ensures
            in_flight(old(self)@.state) || old(self)@.state == ReplyState::Unknown ==> r is Ok
                && final(self)@ == (InteractionRecordView {
                state: ReplyState::Resolved,
                ..old(self)@
            }),
            !(in_flight(old(self)@.state) || old(self)@.state == ReplyState::Unknown) ==> r is Err
                && r->Err_0@ == "approval resolution not correlated"@ && final(self)@ == old(self)@,
    {
        match self.state {
            ReplyState::Sending | ReplyState::Sent | ReplyState::Unknown => {
                self.state = ReplyState::Resolved;
                Ok(())
            },
            _ => Err("approval resolution not correlated"),
        }
    }

    /// After a restart or the end of the turn, an open request can no longer be decided, and a
    /// decision on its way is uncertain. Returns whether this changed anything.
    pub fn fence(&mut self) -> (r: bool)
        ensures
            final(self)@ == closed_off(old(self)@),
            r == (old(self)@.state == ReplyState::Pending || in_flight(old(self)@.state)),
    {
        match self.state {
            ReplyState::Pending => {
                self.state = ReplyState::Unavailable;
                true
            },
            ReplyState::Sending | ReplyState::Sent => {
                self.state = ReplyState::Unknown;
                true
            },
            _ => false,
        }
    }
}

/// Whether a decision is on its way.
pub open spec fn in_flight(s: ReplyState) -> bool {
    s == ReplyState::Sending || s == ReplyState::Sent
}

/// A record after a restart or the end of the turn.
pub open spec fn closed_off(v: InteractionRecordView) -> InteractionRecordView {
    InteractionRecordView {
        state: match v.state {
            ReplyState::Pending => ReplyState::Unavailable,
            ReplyState::Sending => ReplyState::Unknown,
            ReplyState::Sent => ReplyState::Unknown,
            other => other,
        },
        ..v
    }
}

/// Whether a restart or the end of the turn changes a record.
pub open spec fn left_open(v: InteractionRecordView) -> bool {
    v.state == ReplyState::Pending || in_flight(v.state)
}

/// Whether each of some records was closed off.
pub open spec fn each_closed(
    before: Seq<InteractionRecord>,
    after: Seq<InteractionRecord>,
) -> bool {
    &&& after.len() == before.len()
    &&& forall|i: int| 0 <= i < before.len() ==> (#[trigger] after[i])@ == closed_off(before[i]@)
}

/// How many of the first `n` records are left open.
pub open spec fn count_open(all: Seq<InteractionRecord>, n: nat) -> nat
    decreases n,
{
    if n == 0 || n > all.len() {
        0
    } else {
        count_open(all, (n - 1) as nat) + if left_open(all[n - 1]@) {
            1nat
        } else {
            0nat
        }
    }
}

proof fn lemma_count_open(all: Seq<InteractionRecord>, n: nat)
    ensures
        count_open(all, n) <= n,
    decreases n,
{
    if n > 0 && n <= all.len() {
        lemma_count_open(all, (n - 1) as nat);
    }
}

/// Closes off every record of the store after a restart. Returns how many were open.
pub fn fence_direct_approvals_after_restart(records: &mut Vec<InteractionRecord>) -> (r: usize)
    ensures
        r == count_open(old(records)@, old(records)@.len()),
        final(records)@.len() == old(records)@.len(),
        forall|i: int|
            0 <= i < old(records)@.len() ==> (#[trigger] final(records)@[i])@ == closed_off(
                old(records)@[i]@,
            ),
        each_closed(old(records)@, final(records)@),
{
    close_direct_approvals(records)
}

/// Closes off the records of a request once its turn has ended: none of them can be decided any
/// more. Returns how many were open.
pub fn close_direct_approvals(records: &mut Vec<InteractionRecord>) -> (r: usize)
    ensures
        r == count_open(old(records)@, old(records)@.len()),
        final(records)@.len() == old(records)@.len(),
        forall|i: int|
            0 <= i < old(records)@.len() ==> (#[trigger] final(records)@[i])@ == closed_off(
                old(records)@[i]@,
            ),
        each_closed(old(records)@, final(records)@),
{
    let ghost all = records@;
    let mut closed: usize = 0;
    let mut i: usize = 0;
    while i < records.len()
        invariant
            i <= records@.len(),
            records@.len() == all.len(),
            closed == count_open(all, i as nat),
            forall|k: int| 0 <= k < i ==> (#[trigger] records@[k])@ == closed_off(all[k]@),
            forall|k: int| i <= k < all.len() ==> #[trigger] records@[k] == all[k],
        decreases all.len() - i,
    {
        proof {
            lemma_count_open(all, i as nat);
        }
        let record = &mut records[i];
        if record.fence() {
            closed = closed + 1;
        }
        i += 1;
    }
    closed
}

/// Nothing can be decided on a record that was closed off.
pub proof fn closed_requests_are_not_decided(
    v: InteractionRecordView,
    shown: Seq<char>,
    dispatch: SendState,
    d: ManualDecision,
    mcp: bool,
)
    ensures
        reply_objection(closed_off(v), shown, dispatch, d, mcp) is Some,
{
}

/// Whether one of some requests still keeps its run waiting.
pub open spec fn any_open(states: Seq<ReplyState>) -> bool {
    exists|i: int|
        0 <= i < states.len() && (#[trigger] states[i] == ReplyState::Pending || in_flight(states[i])
            || states[i] == ReplyState::Unknown)
}

/// The state of the request of the user once one of its approvals is settled: it runs again when
/// none is open.
pub fn state_after_resolution(state: RequestState, states: &Vec<ReplyState>) -> (r: RequestState)
    ensures
        r == if state == RequestState::ApprovalRequired && !any_open(states@) {
            RequestState::Running
        } else {
            state
        },
{
    let mut i: usize = 0;
    while i < states.len()
        invariant
            i <= states@.len(),
            forall|k: int|
                0 <= k < i ==> !(#[trigger] states@[k] == ReplyState::Pending || in_flight(states@[k])
                    || states@[k] == ReplyState::Unknown),
        decreases states@.len() - i,
    {
        let s = states[i];
        if s == ReplyState::Pending || s == ReplyState::Sending || s == ReplyState::Sent || s
            == ReplyState::Unknown {
            assert(any_open(states@)) by {
                assert(states@[i as int] == s);
            }
            return state;
        }
        i += 1;
    }
    if state == RequestState::ApprovalRequired {
        RequestState::Running
    } else {
        state
    }
}

/// One change of a stored decision.
pub enum ReplyOp {
    Begin(Seq<char>, SendState, ManualDecision, bool),
    MarkSent,
    MarkUnknown,
    Resolve,
    Fence,
}

/// A record after a change; a change that is refused leaves it alone.
pub open spec fn after_reply(v: InteractionRecordView, op: ReplyOp) -> InteractionRecordView {
    match op {
        ReplyOp::Begin(shown, dispatch, d, mcp) => if reply_objection(
            v,
            shown,
            dispatch,
            d,
            mcp,
        ) is None {
            InteractionRecordView { state: ReplyState::Sending, ..v }
        } else {
            v
        },
        ReplyOp::MarkSent => if v.state == ReplyState::Sending {
            InteractionRecordView { state: ReplyState::Sent, ..v }
        } else {
            v
        },
        ReplyOp::MarkUnknown => if in_flight(v.state) {
            InteractionRecordView { state: ReplyState::Unknown, ..v }
        } else {
            v
        },
        ReplyOp::Resolve => if in_flight(v.state) || v.state == ReplyState::Unknown {
            InteractionRecordView { state: ReplyState::Resolved, ..v }
        } else {
            v
        },
        ReplyOp::Fence => closed_off(v),
    }
}

/// A record after the first `n` of some changes.
pub open spec fn reply_history(v: InteractionRecordView, ops: Seq<ReplyOp>, n: nat) -> InteractionRecordView
    decreases n,
{
    if n == 0 || n > ops.len() {
        v
    } else {
        after_reply(reply_history(v, ops, (n - 1) as nat), ops[n - 1])
    }
}

/// Whether a change begins to send a decision.
pub open spec fn begins_reply(v: InteractionRecordView, op: ReplyOp) -> bool {
    op is Begin && reply_objection(v, op->Begin_0, op->Begin_1, op->Begin_2, op->Begin_3) is None
}

/// At most one decision is ever sent for a request, whatever happens in between.
pub proof fn decided_at_most_once(v: InteractionRecordView, ops: Seq<ReplyOp>, i: nat, j: nat)
    requires
        i < j < ops.len(),
        begins_reply(reply_history(v, ops, i), ops[i as int]),
    ensures
        !begins_reply(reply_history(v, ops, j), ops[j as int]),
{
    lemma_decided(v, ops, i, j);
}

proof fn lemma_decided(v: InteractionRecordView, ops: Seq<ReplyOp>, i: nat, j: nat)
    requires
        i < j <= ops.len(),
        begins_reply(reply_history(v, ops, i), ops[i as int]),
    ensures
        reply_history(v, ops, j).state != ReplyState::Pending,
    decreases j,
{
    if j > i + 1 {
        lemma_decided(v, ops, i, (j - 1) as nat);
    }
}

} // verus!
