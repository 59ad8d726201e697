//! What a running turn tells its owner, and what follows from it.
use crate::codec::{compact, compact_form, compact_text, document, encode};
use crate::codex_execution::TurnIdentity;
use crate::codex_transport::{Event, EventView};
use crate::direct_approval::{
    evidence_objection, grantable, interaction_of, DirectInteraction, InteractionKind, InteractionView,
    RunGrantAudit, MAX_REQUEST_BYTES,
};
use crate::direct_buttons::{generation_of, RunRequest};
use crate::domain::RequestState;
use crate::json::{alike, Json, JsonView};
use crate::run_grants::{
    after_decision, after_steer, after_stop, allowed_by, check_generation, for_the_run,
    lemma_given_push, recorded, selected_by, AuditView, GrantView, GrantsView, RunGrants,
};
use crate::tables::Table;
use crate::text::same;
use vstd::prelude::*;
use vstd::string::*;

verus! {

/// How many calls of tools are remembered.
pub const MAX_ITEMS: usize = 128;

/// How long the end of a turn may lack its content, in nanoseconds.
pub const TERMINAL_NANOS: u128 = 60_000_000_000;

/// The value of a remembered call.
pub open spec fn kept(o: Option<Json>) -> Option<JsonView> {
    match o {
        Some(j) => Some(j@),
        None => None,
    }
}

/// The calls that a table remembers.
pub open spec fn calls(m: Map<Seq<char>, Option<Json>>) -> Map<Seq<char>, Option<JsonView>> {
    m.map_values(|o: Option<Json>| kept(o))
}

/// What is remembered after a call of a tool started. A call that is announced twice with different
/// content, or again with too much, is evidence of nothing.
pub open spec fn remembered(m: Map<Seq<char>, Option<JsonView>>, item: JsonView) -> Map<
    Seq<char>,
    Option<JsonView>,
> {
    match item.at("id"@).text() {
        None => m,
        Some(id) => if compact(document(item)).len() > MAX_REQUEST_BYTES {
            if m.contains_key(id) {
                m.insert(id, None)
            } else {
                m
            }
        } else if !m.contains_key(id) {
            if m.dom().len() >= MAX_ITEMS {
                m
            } else {
                m.insert(id, Some(item))
            }
        } else if m[id] is Some && alike(m[id]->0, item) {
            m
        } else {
            m.insert(id, None)
        },
    }
}

/// The evidence for the call that a request names.
pub open spec fn evidence_for(m: Map<Seq<char>, Option<JsonView>>, params: JsonView) -> Option<
    JsonView,
> {
    match params.at("itemId"@).text() {
        Some(id) => if m.contains_key(id) {
            m[id]
        } else {
            None
        },
        None => None,
    }
}

/// The order of the remembered calls after a call of a tool started.
pub open spec fn ordered(order: Seq<Seq<char>>, m: Map<Seq<char>, Option<JsonView>>, item: JsonView) -> Seq<
    Seq<char>,
> {
    match item.at("id"@).text() {
        Some(id) => if !m.contains_key(id) && remembered(m, item).contains_key(id) {
            order.push(id)
        } else {
            order
        },
        None => order,
    }
}

/// The newest of the first `n` remembered calls that a form asks about: the one that can be bound to
/// it.
pub open spec fn fitting(
    order: Seq<Seq<char>>,
    m: Map<Seq<char>, Option<JsonView>>,
    v: InteractionView,
    n: nat,
) -> Option<JsonView>
    decreases n,
{
    if n == 0 || n > order.len() {
        None
    } else {
        let id = order[n - 1];
        if m.contains_key(id) && m[id] is Some && evidence_objection(v, m[id]->0) is None {
            m[id]
        } else {
            fitting(order, m, v, (n - 1) as nat)
        }
    }
}

/// The evidence for what a request asks about. A form names no call: its evidence is the newest
/// remembered call that can be bound to it.
pub open spec fn evidence_of(
    order: Seq<Seq<char>>,
    m: Map<Seq<char>, Option<JsonView>>,
    event: EventView,
    thread: Seq<char>,
    turn: Seq<char>,
) -> Option<JsonView> {
    let named = evidence_for(m, event->ServerRequest_2);
    if named is Some {
        named
    } else {
        match interaction_of(event, thread, turn) {
            Ok(Some(v)) => if v.kind == InteractionKind::McpElicitation {
                fitting(order, m, v, order.len())
            } else {
                None
            },
            _ => None,
        }
    }
}

/// The evidence for a form is a call that was remembered and that can be bound to it.
pub proof fn evidence_fits_its_form(
    order: Seq<Seq<char>>,
    m: Map<Seq<char>, Option<JsonView>>,
    v: InteractionView,
    n: nat,
)
    requires
        fitting(order, m, v, n) is Some,
    ensures
        evidence_objection(v, fitting(order, m, v, n)->0) is None,
        exists|id: Seq<char>| #[trigger]
            m.contains_key(id) && m[id] == fitting(order, m, v, n),
    decreases n,
{
    let id = order[n - 1];
    if !(m.contains_key(id) && m[id] is Some && evidence_objection(v, m[id]->0) is None) {
        evidence_fits_its_form(order, m, v, (n - 1) as nat);
    }
}

/// What is remembered after some calls started.
pub open spec fn remembered_all(items: Seq<JsonView>, n: nat) -> Map<Seq<char>, Option<JsonView>>
    decreases n,
{
    if n == 0 || n > items.len() {
        Map::empty()
    } else {
        remembered(remembered_all(items, (n - 1) as nat), items[n - 1])
    }
}

/// Evidence for a call is what was announced under its identity, whole and within the size limit.
pub proof fn evidence_was_announced(items: Seq<JsonView>, n: nat, params: JsonView)
    requires
        n <= items.len(),
        evidence_for(remembered_all(items, n), params) is Some,
    ensures
        ({
            let item = evidence_for(remembered_all(items, n), params)->0;
            &&& exists|i: int| 0 <= i < n && #[trigger] items[i] == item
            &&& item.at("id"@).text() == params.at("itemId"@).text()
            &&& compact(document(item)).len() <= MAX_REQUEST_BYTES
        }),
{
    lemma_announced(items, n, params.at("itemId"@).text()->0);
}

proof fn lemma_announced(items: Seq<JsonView>, n: nat, id: Seq<char>)
    requires
        n <= items.len(),
        remembered_all(items, n).contains_key(id),
        remembered_all(items, n)[id] is Some,
    ensures
        ({
            let item = remembered_all(items, n)[id]->0;
            &&& exists|i: int| 0 <= i < n && #[trigger] items[i] == item
            &&& item.at("id"@).text() == Some(id)
            &&& compact(document(item)).len() <= MAX_REQUEST_BYTES
        }),
    decreases n,
{
    if n > 0 {
        let m = remembered_all(items, (n - 1) as nat);
        let item = items[n - 1];
        if m.contains_key(id) && m[id] == remembered(m, item)[id] {
            lemma_announced(items, (n - 1) as nat, id);
        } else {
            assert(remembered(m, item)[id] == Some(item));
            assert(items[n - 1] == item);
        }
    }
}

/// An identity under which two contents were announced is never evidence again in the run.
pub proof fn conflicts_are_final(items: Seq<JsonView>, i: nat, n: nat, id: Seq<char>)
    requires
        i <= n <= items.len(),
        remembered_all(items, i).contains_key(id),
        remembered_all(items, i)[id] is None,
    ensures
        remembered_all(items, n).contains_key(id),
        remembered_all(items, n)[id] is None,
    decreases n,
{
    if i < n {
        conflicts_are_final(items, i, (n - 1) as nat, id);
    }
}

/// At most so many calls are remembered, whatever is announced.
pub proof fn memory_is_bounded(items: Seq<JsonView>, n: nat)
    requires
        n <= items.len(),
    ensures
        remembered_all(items, n).dom().finite(),
        remembered_all(items, n).dom().len() <= MAX_ITEMS,
    decreases n,
{
    if n > 0 {
        memory_is_bounded(items, (n - 1) as nat);
        let m = remembered_all(items, (n - 1) as nat);
        let item = items[n - 1];
        if item.at("id"@).text() is Some {
            let id = item.at("id"@).text()->0;
            if m.contains_key(id) {
                assert(m.insert(id, None).dom() =~= m.dom());
            } else {
                assert(m.insert(id, Some(item)).dom() =~= m.dom().insert(id));
            }
        }
    }
}

/// What the owner of a run does next.
#[derive(Debug)]
pub enum RunStep {
    /// Store the request for a decision, with the evidence for it.
    Register(Option<Json>),
    /// Store that the request is resolved.
    Resolve(String),
    /// Store that the outcome is unknown, tell it and end.
    Unknown(&'static str),
    /// Read the end of the turn and deliver it.
    Finish,
    Wait,
}

/// The mathematical form of a `RunStep`.
pub enum RunStepView {
    Register(Option<JsonView>),
    Resolve(Seq<char>),
    Unknown(Seq<char>),
    Finish,
    Wait,
}

impl View for RunStep {
    type V = RunStepView;

    open spec fn view(&self) -> RunStepView {
        match self {
            RunStep::Register(e) => RunStepView::Register(kept(*e)),
            RunStep::Resolve(id) => RunStepView::Resolve(id@),
            RunStep::Unknown(s) => RunStepView::Unknown(s@),
            RunStep::Finish => RunStepView::Finish,
            RunStep::Wait => RunStepView::Wait,
        }
    }
}

/// What is known of a run while it is watched.
pub struct RunWatch {
    pub items: Table<Option<Json>>,
    /// What the user permitted for the rest of the run.
    pub granted: RunGrants,
    /// The requests for a decision, by the compact text of their identity on the wire.
    pub requests: Table<String>,
    pub seen: Table<bool>,
    pub terminal_seen: Option<u128>,
}

/// The mathematical form of a `RunWatch`.
pub struct RunWatchView {
    pub items: Map<Seq<char>, Option<JsonView>>,
    pub order: Seq<Seq<char>>,
    pub granted: GrantsView,
    pub requests: Map<Seq<char>, Seq<char>>,
    pub seen: Set<Seq<char>>,
    pub terminal_seen: Option<u128>,
}

impl View for RunWatch {
    type V = RunWatchView;

    open spec fn view(&self) -> RunWatchView {
        RunWatchView {
            items: calls(self.items.map()),
            order: self.items.keys(),
            granted: self.granted@,
            requests: self.requests.map().map_values(|s: String| s@),
            seen: self.seen.map().dom(),
            terminal_seen: self.terminal_seen,
        }
    }
}

/// What is done with a request for a decision that was stored.
#[derive(Debug)]
pub enum Registered {
    /// It came before: nothing.
    Again,
    /// Show a card, for this generation of the input.
    Show { input_generation: u64 },
    /// Accept it without a card, with this record.
    Allow(RunGrantAudit),
}

/// The mathematical form of `Registered`.
pub enum RegisteredView {
    Again,
    Show(u64),
    Allow(AuditView),
}

impl View for Registered {
    type V = RegisteredView;

    open spec fn view(&self) -> RegisteredView {
        match self {
            Registered::Again => RegisteredView::Again,
            Registered::Show { input_generation } => RegisteredView::Show(*input_generation),
            Registered::Allow(a) => RegisteredView::Allow(a@),
        }
    }
}

/// What is done with a request for a decision that was stored under an identity.
pub open spec fn registration(w: RunWatchView, v: InteractionView, id: Seq<char>) -> RegisteredView {
    if w.seen.contains(id) {
        RegisteredView::Again
    } else {
        match allowed_by(w.granted, v) {
            Some(a) => RegisteredView::Allow(a),
            None => RegisteredView::Show(w.granted.generation),
        }
    }
}

/// Once the user permitted a tool for the rest of the run, another verified call of it is accepted
/// without a card, whatever its arguments. Additional instructions or a stop end that, and so does
/// the run: the next one begins with nothing permitted.
pub proof fn permitted_tools_are_not_asked_about(
    w: RunWatchView,
    first: InteractionView,
    id: Seq<char>,
    request: RunRequest,
    next: InteractionView,
    next_id: Seq<char>,
)
    requires
        for_the_run(request),
        grantable(first) is Some,
        grantable(next) == grantable(first),
        !w.seen.contains(next_id),
    ensures
        ({
            let granted = after_decision(w.granted, first, id, request);
            &&& registration(RunWatchView { granted, ..w }, next, next_id) is Allow
            &&& registration(RunWatchView { granted: after_steer(granted), ..w }, next, next_id) is Show
            &&& registration(RunWatchView { granted: after_stop(granted), ..w }, next, next_id) is Show
        }),
{
    let (server, tool) = grantable(first)->0;
    lemma_given_push(w.granted.grants, GrantView { server, tool, interaction: id }, server, tool, 0);
}

/// Whether a notification is the start of a call of a tool in a turn.
pub open spec fn call_started(
    method: Seq<char>,
    params: JsonView,
    thread: Seq<char>,
    turn: Seq<char>,
) -> bool {
    method == "item/started"@ && params.at("threadId"@).says(thread) && params.at("turnId"@).says(
        turn,
    ) && params.at("item"@).at("type"@).says("mcpToolCall"@)
}

/// The moment of the end, once it was seen.
pub open spec fn first_seen(seen: Option<u128>, now: u128) -> Option<u128> {
    match seen {
        Some(t) => Some(t),
        None => Some(now),
    }
}

/// What follows from an event, where one came, and what is known then.
pub open spec fn heard(
    w: RunWatchView,
    event: Option<EventView>,
    thread: Seq<char>,
    turn: Seq<char>,
    now: u128,
) -> Result<(RunStepView, RunWatchView), Seq<char>> {
    match event {
        None => Ok((RunStepView::Unknown("runtime_closed"@), w)),
        Some(EventView::Closed(_)) => Ok((RunStepView::Unknown("runtime_closed"@), w)),
        Some(EventView::ProtocolError(_)) => Ok((RunStepView::Unknown("runtime_protocol_error"@), w)),
        Some(EventView::InvalidServerRequest(_, _)) => Ok(
            (RunStepView::Unknown("runtime_protocol_error"@), w),
        ),
        Some(EventView::ServerRequest(_, _, _)) => Ok(
            (RunStepView::Register(evidence_of(w.order, w.items, event->0, thread, turn)), w),
        ),
        Some(EventView::Notification(method, params)) => if call_started(
            method,
            params,
            thread,
            turn,
        ) {
            Ok(
                (
                    RunStepView::Wait,
                    RunWatchView {
                        items: remembered(w.items, params.at("item"@)),
                        order: ordered(w.order, w.items, params.at("item"@)),
                        ..w
                    },
                ),
            )
        } else if method == "serverRequest/resolved"@ {
            match params.get("requestId"@) {
                Some(id) => {
                    let key = compact_text(document(id));
                    if params.at("threadId"@).says(thread) && w.requests.contains_key(key) {
                        Ok(
                            (
                                RunStepView::Resolve(w.requests[key]),
                                RunWatchView { requests: w.requests.remove(key), ..w },
                            ),
                        )
                    } else {
                        Ok((RunStepView::Wait, w))
                    }
                },
                None => Ok((RunStepView::Wait, w)),
            }
        } else if method == "turn/completed"@ {
            if params.at("threadId"@).says(thread) && params.at("turn"@).at("id"@).says(turn) {
                Ok(
                    (
                        RunStepView::Finish,
                        RunWatchView { terminal_seen: first_seen(w.terminal_seen, now), ..w },
                    ),
                )
            } else {
                Err("another turn completed on this child"@)
            }
        } else {
            Ok((RunStepView::Wait, w))
        },
    }
}

/// Whether the status of a turn is an end.
pub open spec fn ended_status(s: Seq<char>) -> bool {
    s == "completed"@ || s == "failed"@ || s == "interrupted"@
}

/// What follows from a look at the turn: its status, where it could be read in time.
pub open spec fn looked(w: RunWatchView, status: Option<Seq<char>>, closed: bool, now: u128) -> (
    RunStepView,
    RunWatchView,
) {
    match status {
        Some(s) => if ended_status(s) {
            (
                RunStepView::Finish,
                RunWatchView { terminal_seen: first_seen(w.terminal_seen, now), ..w },
            )
        } else {
            (RunStepView::Wait, w)
        },
        None => if closed {
            (RunStepView::Unknown("runtime_closed"@), w)
        } else {
            (RunStepView::Wait, w)
        },
    }
}

/// Whether the content of an ended turn is overdue.
pub open spec fn content_overdue(seen: Option<u128>, now: u128) -> bool {
    seen is Some && now - seen->0 > TERMINAL_NANOS
}

impl RunWatch {
    pub open spec fn wf(&self) -> bool {
        self.items.wf() && self.requests.wf() && self.seen.wf()
    }

    pub fn new() -> (r: RunWatch)
        ensures
            r.wf(),
            r@.items == Map::<Seq<char>, Option<JsonView>>::empty(),
            r@.requests == Map::<Seq<char>, Seq<char>>::empty(),
            r@.seen == Set::<Seq<char>>::empty(),
            r@.order == Seq::<Seq<char>>::empty(),
            r@.granted == (GrantsView { generation: 0, grants: Seq::empty() }),
            r@.terminal_seen is None,
    {
        let r = RunWatch {
            items: Table::new(),
            granted: RunGrants::new(),
            requests: Table::new(),
            seen: Table::new(),
            terminal_seen: None,
        };
        assert(r@.items =~= Map::<Seq<char>, Option<JsonView>>::empty());
        assert(r@.requests =~= Map::<Seq<char>, Seq<char>>::empty());
        assert(r@.seen =~= Set::<Seq<char>>::empty());
        r
    }

    /// Remembers a request for a decision, and says what is done with it: it is shown the first time
    /// that it comes, unless the user permitted its tool for the rest of the run.
    pub fn registered(&mut self, operation: &DirectInteraction, id: &str) -> (r: Registered)
        requires
            old(self).wf(),
        ensures
            final(self).wf(),
            r@ == registration(old(self)@, operation@, id@),
            final(self)@ == (RunWatchView {
                requests: old(self)@.requests.insert(compact_text(document(operation@.rpc_id)), id@),
                seen: old(self)@.seen.insert(id@),
                ..old(self)@
            }),
    {
        let key = compact_form(&operation.rpc_id);
        self.requests.insert(key.as_str(), id.to_owned());
        let again = self.seen.holds(id);
        self.seen.insert(id, true);
        assert(self@.requests =~= old(self)@.requests.insert(key@, id@));
        assert(self@.seen =~= old(self)@.seen.insert(id@));
        if again {
            return Registered::Again;
        }
        match self.granted.allowed(operation) {
            Some(audit) => Registered::Allow(audit),
            None => Registered::Show { input_generation: self.granted.generation },
        }
    }

    /// Whether a decision of the user is sent: not one on a card from before the newest instructions.
    pub fn check_decision(&self, request: RunRequest) -> (r: Result<(), &'static str>)
        ensures
            r is Err <==> generation_of(request) < self@.granted.generation,
            r is Err ==> r->Err_0@ == "approval belongs to an earlier input generation"@,
    {
        check_generation(request.generation(), self.granted.generation)
    }

    /// Remembers a decision that was sent; says what is recorded of it.
    pub fn decided(&mut self, operation: &DirectInteraction, id: &str, request: RunRequest) -> (r:
        Option<RunGrantAudit>)
        requires
            old(self).wf(),
        ensures
            final(self).wf(),
            recorded(r) == selected_by(operation@, request),
            final(self)@ == (RunWatchView {
                granted: after_decision(old(self)@.granted, operation@, id@, request),
                ..old(self)@
            }),
    {
        self.granted.decided(operation, id, request)
    }

    /// Ends what was permitted, before instructions are added; returns the new generation of the
    /// input.
    pub fn steer(&mut self) -> (r: u64)
        requires
            old(self).wf(),
            old(self).granted.generation < u64::MAX,
        ensures
            final(self).wf(),
            r == old(self).granted.generation + 1,
            final(self)@ == (RunWatchView { granted: after_steer(old(self)@.granted), ..old(self)@ }),
    {
        self.granted.steer()
    }

    /// Ends what was permitted, before a stop or cancellation is carried out.
    pub fn stop(&mut self)
        requires
            old(self).wf(),
        ensures
            final(self).wf(),
            final(self)@ == (RunWatchView { granted: after_stop(old(self)@.granted), ..old(self)@ }),
    {
        self.granted.stop()
    }

    /// The newest remembered call that can be bound to a form.
    fn find_fitting(&self, operation: &DirectInteraction) -> (r: Option<Json>)
        requires
            self.wf(),
        ensures
            kept(r) == fitting(self@.order, self@.items, operation@, self@.order.len()),
    {
        let ghost order = self@.order;
        let ghost m = self@.items;
        let mut n: usize = self.items.entries.len();
        proof {
            self.items.lemma_entries();
        }
        while n > 0
            invariant
                n <= self.items.entries@.len(),
                order.len() == self.items.entries@.len(),
                order == self@.order,
                m == self@.items,
                forall|i: int|
                    0 <= i < self.items.entries@.len() ==> self.items.map().contains_key(
                        (#[trigger] self.items.entries@[i]).0@,
                    ) && self.items.map()[self.items.entries@[i].0@] == self.items.entries@[i].1,
                fitting(order, m, operation@, order.len()) == fitting(
                    order,
                    m,
                    operation@,
                    n as nat,
                ),
            decreases n,
        {
            let entry = &self.items.entries[n - 1];
            assert(order[n - 1] == entry.0@);
            assert(m.contains_key(entry.0@) && m[entry.0@] == kept(entry.1));
            if let Some(item) = &entry.1 {
                if operation.check_evidence(item).is_ok() {
                    return Some(item.copy());
                }
            }
            n = n - 1;
        }
        None
    }

    fn call_started(&mut self, item: &Json)
        requires
            old(self).wf(),
        ensures
            final(self).wf(),
            final(self)@ == (RunWatchView {
                items: remembered(old(self)@.items, item@),
                order: ordered(old(self)@.order, old(self)@.items, item@),
                ..old(self)@
            }),
    {
        let ghost before = self@.items;
        assert(before.dom() =~= self.items.map().dom());
        if let Some(id) = item.at("id").as_str() {
            let bounded = encode(item).len() <= MAX_REQUEST_BYTES;
            let count: usize = self.items.len();
            let known = match self.items.get(id) {
                None => None,
                Some(None) => Some(false),
                Some(Some(j)) => Some(j.same_as(item)),
            };
            match known {
                Some(agrees) => {
                    if !bounded || !agrees {
                        self.items.insert(id, None);
                        assert(self@.items =~= before.insert(id@, None));
                    }
                },
                None => {
                    if bounded && count < MAX_ITEMS {
                        self.items.insert(id, Some(item.copy()));
                        assert(self@.items =~= before.insert(id@, Some(item@)));
                    }
                },
            }
        }
    }

    /// What follows from an event of the run; without one the events have ended.
    pub fn hear(&mut self, event: Option<&Event>, run: &TurnIdentity, now: u128) -> (r: Result<
        RunStep,
        &'static str,
    >)
        requires
            old(self).wf(),
        ensures
            final(self).wf(),
            match heard(
                old(self)@,
                match event {
                    Some(e) => Some(e@),
                    None => None,
                },
                run.thread_id@,
                run.turn_id@,
                now,
            ) {
                Ok((step, after)) => r is Ok && r->Ok_0@ == step && final(self)@ == after,
                Err(e) => r is Err && r->Err_0@ == e && final(self)@ == old(self)@,
            },
    {
        let event = match event {
            None => {
                return Ok(RunStep::Unknown("runtime_closed"));
            },
            Some(e) => e,
        };
        match event {
            Event::Closed(_) => Ok(RunStep::Unknown("runtime_closed")),
            Event::ProtocolError(_) => Ok(RunStep::Unknown("runtime_protocol_error")),
            Event::InvalidServerRequest { .. } => Ok(RunStep::Unknown("runtime_protocol_error")),
            Event::ServerRequest { id: _, method: _, params } => {
                if let Some(item) = params.at("itemId").as_str() {
                    if let Some(Some(j)) = self.items.get(item) {
                        return Ok(RunStep::Register(Some(j.copy())));
                    }
                }
                let evidence = match DirectInteraction::from_event(event, run) {
                    Ok(Some(operation)) => {
                        if operation.kind == InteractionKind::McpElicitation {
                            self.find_fitting(&operation)
                        } else {
                            None
                        }
                    },
                    _ => None,
                };
                Ok(RunStep::Register(evidence))
            },
            Event::Notification { method, params } => {
                let here = params.at("threadId").is_text(run.thread_id.as_str());
                let method = method.as_str();
                if same(method, "item/started") && here && params.at("turnId").is_text(
                    run.turn_id.as_str(),
                ) && params.at("item").at("type").is_text("mcpToolCall") {
                    self.call_started(params.at("item"));
                    Ok(RunStep::Wait)
                } else if same(method, "serverRequest/resolved") {
                    if let Some(id) = params.get("requestId") {
                        let key = compact_form(id);
                        if here {
                            if let Some(found) = self.requests.remove(key.as_str()) {
                                assert(self@.requests =~= old(self)@.requests.remove(key@));
                                return Ok(RunStep::Resolve(found));
                            }
                            assert(self@.requests =~= old(self)@.requests);
                        }
                    }
                    Ok(RunStep::Wait)
                } else if same(method, "turn/completed") {
                    if !(here && params.at("turn").at("id").is_text(run.turn_id.as_str())) {
                        return Err("another turn completed on this child");
                    }
                    if self.terminal_seen.is_none() {
                        self.terminal_seen = Some(now);
                    }
                    Ok(RunStep::Finish)
                } else {
                    Ok(RunStep::Wait)
                }
            },
        }
    }

    /// What follows from a look at the turn.
    pub fn look(&mut self, status: Option<&str>, closed: bool, now: u128) -> (r: RunStep)
        requires
            old(self).wf(),
        ensures
            final(self).wf(),
            (r@, final(self)@) == looked(
                old(self)@,
                match status {
                    Some(s) => Some(s@),
                    None => None,
                },
                closed,
                now,
            ),
    {
        match status {
            Some(s) => {
                if same(s, "completed") || same(s, "failed") || same(s, "interrupted") {
                    if self.terminal_seen.is_none() {
                        self.terminal_seen = Some(now);
                    }
                    RunStep::Finish
                } else {
                    RunStep::Wait
                }
            },
            None => {
                if closed {
                    RunStep::Unknown("runtime_closed")
                } else {
                    RunStep::Wait
                }
            },
        }
    }

    /// Gives up on the content of an ended turn after a minute.
    pub fn overdue(&self, now: u128) -> (r: RunStep)
        ensures
            r@ == if content_overdue(self.terminal_seen, now) {
                RunStepView::Unknown("terminal_content_unavailable"@)
            } else {
                RunStepView::Wait
            },
    {
        match self.terminal_seen {
            Some(t) => {
                if now > t && now - t > TERMINAL_NANOS {
                    RunStep::Unknown("terminal_content_unavailable")
                } else {
                    RunStep::Wait
                }
            },
            None => RunStep::Wait,
        }
    }
}

/// The end of a run is never inferred: it is read only after the app server said that this turn
/// ended, or after the turn itself was read as ended.
pub proof fn completion_is_never_inferred(
    w: RunWatchView,
    event: Option<EventView>,
    thread: Seq<char>,
    turn: Seq<char>,
    now: u128,
)
    requires
        heard(w, event, thread, turn, now) is Ok,
        (heard(w, event, thread, turn, now)->Ok_0).0 is Finish,
    ensures
        event is Some,
        event->0 is Notification,
        event->0->Notification_0 == "turn/completed"@,
        event->0->Notification_1.at("threadId"@).says(thread),
        event->0->Notification_1.at("turn"@).at("id"@).says(turn),
{
}

/// How a run ended.
#[derive(Clone, Copy, Debug, PartialEq, Eq, Structural)]
pub enum Ending {
    /// The answer was delivered.
    Delivered,
    /// The answer is stored, its delivery is not confirmed.
    DeliveryPending,
    /// The end is not stored yet.
    Open,
}

/// How a run ended, after an attempt to store and deliver its end.
pub fn finish_if_ready(delivered: bool, state: RequestState) -> (r: Ending)
    ensures
        r == if delivered {
            Ending::Delivered
        } else if state == RequestState::Completed || state == RequestState::Failed || state
            == RequestState::Cancelled {
            Ending::DeliveryPending
        } else {
            Ending::Open
        },
{
    if delivered {
        Ending::Delivered
    } else if state == RequestState::Completed || state == RequestState::Failed || state
        == RequestState::Cancelled {
        Ending::DeliveryPending
    } else {
        Ending::Open
    }
}

} // verus!
