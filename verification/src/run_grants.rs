//! Permissions that last for the rest of a run, and the generation of its input. A permission is
//! narrower than a lasting one of Codex: it ends with additional instructions, a stop or the run.
use crate::direct_approval::{
    grantable, tool_reply, DirectInteraction, InteractionKind, InteractionView, ManualDecision,
    RunGrantAudit,
};
use crate::direct_buttons::RunRequest;
use crate::text::same;
use vstd::prelude::*;

verus! {

/// A tool that is permitted for the rest of a run, with the request that was answered so.
#[derive(Debug)]
pub struct RunGrant {
    pub server: String,
    pub tool: String,
    pub interaction: String,
}

/// The mathematical form of a `RunGrant`.
#[verifier::ext_equal]
pub struct GrantView {
    pub server: Seq<char>,
    pub tool: Seq<char>,
    pub interaction: Seq<char>,
}

impl View for RunGrant {
    type V = GrantView;

    open spec fn view(&self) -> GrantView {
        GrantView { server: self.server@, tool: self.tool@, interaction: self.interaction@ }
    }
}

/// What is permitted in a run, and how often its input was added to.
#[derive(Debug)]
pub struct RunGrants {
    pub generation: u64,
    pub grants: Vec<RunGrant>,
}

/// The mathematical form of `RunGrants`.
#[verifier::ext_equal]
pub struct GrantsView {
    pub generation: u64,
    pub grants: Seq<GrantView>,
}

impl View for RunGrants {
    type V = GrantsView;

    open spec fn view(&self) -> GrantsView {
        GrantsView {
            generation: self.generation,
            grants: self.grants@.map_values(|g: RunGrant| g@),
        }
    }
}

/// The mathematical form of a `RunGrantAudit`.
#[verifier::ext_equal]
pub enum AuditView {
    Selected(Seq<char>, Seq<char>),
    Applied(Seq<char>, Seq<char>, Seq<char>),
}

impl View for RunGrantAudit {
    type V = AuditView;

    open spec fn view(&self) -> AuditView {
        match self {
            RunGrantAudit::Selected { server, tool } => AuditView::Selected(server@, tool@),
            RunGrantAudit::Applied { initial_interaction_id, server, tool } => AuditView::Applied(
                initial_interaction_id@,
                server@,
                tool@,
            ),
        }
    }
}

/// What is recorded, where something is.
pub open spec fn recorded(o: Option<RunGrantAudit>) -> Option<AuditView> {
    match o {
        Some(a) => Some(a@),
        None => None,
    }
}

/// The request that a tool was permitted with, from a position in the list on.
pub open spec fn given(grants: Seq<GrantView>, server: Seq<char>, tool: Seq<char>, from: nat) -> Option<
    Seq<char>,
>
    decreases grants.len() - from,
{
    if from >= grants.len() {
        None
    } else if grants[from as int].server == server && grants[from as int].tool == tool {
        Some(grants[from as int].interaction)
    } else {
        given(grants, server, tool, from + 1)
    }
}

/// The permission that a call passes with, without a card: its tool must be one that can be permitted
/// for a run, and was.
pub open spec fn allowed_by(g: GrantsView, v: InteractionView) -> Option<AuditView> {
    match grantable(v) {
        None => None,
        Some((server, tool)) => match given(g.grants, server, tool, 0) {
            None => None,
            Some(id) => Some(AuditView::Applied(id, server, tool)),
        },
    }
}

/// Whether a decision permits its tool for the rest of the run.
pub open spec fn for_the_run(request: RunRequest) -> bool {
    request is Tool && request->Tool_decision == ManualDecision::AcceptOnce && request->run_grant
}

/// What is permitted once a decision was sent.
pub open spec fn after_decision(
    g: GrantsView,
    v: InteractionView,
    id: Seq<char>,
    request: RunRequest,
) -> GrantsView {
    match grantable(v) {
        Some((server, tool)) => if for_the_run(request) && given(g.grants, server, tool, 0) is None {
            GrantsView { grants: g.grants.push(GrantView { server, tool, interaction: id }), ..g }
        } else {
            g
        },
        None => g,
    }
}

/// What is recorded of a decision that was sent.
pub open spec fn selected_by(v: InteractionView, request: RunRequest) -> Option<AuditView> {
    match grantable(v) {
        Some((server, tool)) => if for_the_run(request) {
            Some(AuditView::Selected(server, tool))
        } else {
            None
        },
        None => None,
    }
}

/// What is permitted once a stop was asked for: nothing.
pub open spec fn after_stop(g: GrantsView) -> GrantsView {
    GrantsView { grants: Seq::empty(), ..g }
}

/// What is permitted once instructions were added: nothing, and every card before them is out of
/// date.
pub open spec fn after_steer(g: GrantsView) -> GrantsView {
    GrantsView { generation: (g.generation + 1) as u64, grants: Seq::empty() }
}

/// Something that changes what is permitted in a run.
pub enum GrantEvent {
    /// This decision on a request was sent.
    Decided(InteractionView, Seq<char>, RunRequest),
    Steered,
    Stopped,
}

/// What is permitted after an event.
pub open spec fn after_event(g: GrantsView, e: GrantEvent) -> GrantsView {
    match e {
        GrantEvent::Decided(v, id, request) => after_decision(g, v, id, request),
        GrantEvent::Steered => after_steer(g),
        GrantEvent::Stopped => after_stop(g),
    }
}

/// What is permitted in a run after the first `n` of some events.
pub open spec fn after_events(events: Seq<GrantEvent>, n: nat) -> GrantsView
    decreases n,
{
    if n == 0 || n > events.len() {
        GrantsView { generation: 0, grants: Seq::empty() }
    } else {
        after_event(after_events(events, (n - 1) as nat), events[n - 1])
    }
}

/// Whether an event permits a tool for the rest of the run.
pub open spec fn permits(e: GrantEvent, server: Seq<char>, tool: Seq<char>) -> bool {
    match e {
        GrantEvent::Decided(v, _, request) => for_the_run(request) && grantable(v) == Some(
            (server, tool),
        ),
        _ => false,
    }
}

/// Whether a tool was permitted among the first `n` events, with no instructions and no stop since.
pub open spec fn permitted(events: Seq<GrantEvent>, server: Seq<char>, tool: Seq<char>, n: nat) -> bool {
    exists|i: int|
        0 <= i < n && #[trigger] permits(events[i], server, tool) && forall|j: int|
            i < j < n ==> (#[trigger] events[j]) is Decided
}

/// A call passes without a card exactly where its tool can be permitted for a run, the user permitted
/// it in this run, and neither instructions nor a stop came since.
pub proof fn calls_pass_while_permitted(events: Seq<GrantEvent>, n: nat, v: InteractionView)
    requires
        n <= events.len(),
    ensures
        allowed_by(after_events(events, n), v) is Some <==> grantable(v) is Some && permitted(
            events,
            (grantable(v)->0).0,
            (grantable(v)->0).1,
            n,
        ),
{
    if grantable(v) is Some {
        lemma_permitted(events, n, (grantable(v)->0).0, (grantable(v)->0).1);
    }
}

proof fn lemma_permitted(events: Seq<GrantEvent>, n: nat, server: Seq<char>, tool: Seq<char>)
    requires
        n <= events.len(),
    ensures
        given(after_events(events, n).grants, server, tool, 0) is Some <==> permitted(
            events,
            server,
            tool,
            n,
        ),
    decreases n,
{
    if n > 0 {
        let before = after_events(events, (n - 1) as nat);
        let e = events[n - 1];
        lemma_permitted(events, (n - 1) as nat, server, tool);
        match e {
            GrantEvent::Decided(v, id, request) => {
                if permits(e, server, tool) {
                    assert(permits(events[n - 1], server, tool));
                    assert(permitted(events, server, tool, n));
                    if given(before.grants, server, tool, 0) is None {
                        lemma_given_push(before.grants, GrantView { server, tool, interaction: id }, server, tool, 0);
                    }
                } else {
                    if after_decision(before, v, id, request) != before {
                        let (s, t) = grantable(v)->0;
                        lemma_given_push(before.grants, GrantView { server: s, tool: t, interaction: id }, server, tool, 0);
                    }
                    if permitted(events, server, tool, (n - 1) as nat) {
                        let i = choose|i: int|
                            0 <= i < n - 1 && #[trigger] permits(events[i], server, tool) && forall|
                                j: int,
                            |
                                i < j < n - 1 ==> (#[trigger] events[j]) is Decided;
                        assert(permits(events[i], server, tool));
                        assert forall|j: int| i < j < n implies (#[trigger] events[j]) is Decided by {}
                        assert(permitted(events, server, tool, n));
                    }
                    if permitted(events, server, tool, n) {
                        let i = choose|i: int|
                            0 <= i < n && #[trigger] permits(events[i], server, tool) && forall|j: int|
                                i < j < n ==> (#[trigger] events[j]) is Decided;
                        assert(i < n - 1);
                        assert(permits(events[i], server, tool));
                        assert(permitted(events, server, tool, (n - 1) as nat));
                    }
                }
            },
            _ => {
                if permitted(events, server, tool, n) {
                    let i = choose|i: int|
                        0 <= i < n && #[trigger] permits(events[i], server, tool) && forall|j: int|
                            i < j < n ==> (#[trigger] events[j]) is Decided;
                    if i < n - 1 {
                        assert(events[n - 1] is Decided);
                    }
                }
            },
        }
    }
}

/// A permission that is added is found, and the others are found as before.
pub proof fn lemma_given_push(
    grants: Seq<GrantView>,
    g: GrantView,
    server: Seq<char>,
    tool: Seq<char>,
    from: nat,
)
    requires
        from <= grants.len(),
    ensures
        given(grants.push(g), server, tool, from) is Some <==> given(grants, server, tool, from) is Some
            || (g.server == server && g.tool == tool),
    decreases grants.len() - from,
{
    let all = grants.push(g);
    if from < grants.len() {
        assert(all[from as int] == grants[from as int]);
        lemma_given_push(grants, g, server, tool, from + 1);
    } else {
        assert(all[from as int] == g);
        assert(given(all, server, tool, from + 1) is None);
    }
}

/// A call that passes is a form about a tool of this turn with the evidence of its call, and there is
/// a reply that accepts it.
pub proof fn passing_calls_have_a_reply(g: GrantsView, v: InteractionView)
    requires
        allowed_by(g, v) is Some,
    ensures
        v.kind == InteractionKind::McpElicitation,
        v.evidence is Some,
        tool_reply(v, ManualDecision::AcceptOnce) is Ok,
{
}

/// Whether a decision is taken: not one on a card from before the newest instructions.
pub fn check_generation(card: u64, current: u64) -> (r: Result<(), &'static str>)
    ensures
        r is Err <==> card < current,
        r is Err ==> r->Err_0@ == "approval belongs to an earlier input generation"@,
{
    if card < current {
        Err("approval belongs to an earlier input generation")
    } else {
        Ok(())
    }
}

impl RunGrants {
    pub fn new() -> (r: RunGrants)
        ensures
            r@ == (GrantsView { generation: 0, grants: Seq::empty() }),
    {
        let r = RunGrants { generation: 0, grants: Vec::new() };
        assert(r@.grants =~= Seq::<GrantView>::empty());
        r
    }

    fn find(&self, server: &str, tool: &str) -> (r: Option<String>)
        ensures
            match given(self@.grants, server@, tool@, 0) {
                None => r is None,
                Some(id) => r is Some && r->0@ == id,
            },
    {
        let ghost all = self@.grants;
        let mut i: usize = 0;
        while i < self.grants.len()
            invariant
                i <= self.grants@.len(),
                all == self@.grants,
                all.len() == self.grants@.len(),
                given(all, server@, tool@, 0) == given(all, server@, tool@, i as nat),
            decreases self.grants@.len() - i,
        {
            let g = &self.grants[i];
            assert(all[i as int] == g@);
            if same(g.server.as_str(), server) && same(g.tool.as_str(), tool) {
                return Some(g.interaction.clone());
            }
            i += 1;
        }
        None
    }

    /// The permission that a call passes with, without a card.
    pub fn allowed(&self, operation: &DirectInteraction) -> (r: Option<RunGrantAudit>)
        ensures
            recorded(r) == allowed_by(self@, operation@),
    {
        match operation.run_grant_tool() {
            None => None,
            Some((server, tool)) => match self.find(server.as_str(), tool.as_str()) {
                None => None,
                Some(initial_interaction_id) => Some(
                    RunGrantAudit::Applied { initial_interaction_id, server, tool },
                ),
            },
        }
    }

    /// Remembers a decision that was sent; says what is recorded of it.
    pub fn decided(&mut self, operation: &DirectInteraction, id: &str, request: RunRequest) -> (r:
        Option<RunGrantAudit>)
        ensures
            recorded(r) == selected_by(operation@, request),
            final(self)@ == after_decision(old(self)@, operation@, id@, request),
    {
        let lasting = match request {
            RunRequest::Tool { decision, run_grant, input_generation: _ } => decision
                == ManualDecision::AcceptOnce && run_grant,
            _ => false,
        };
        if !lasting {
            return None;
        }
        match operation.run_grant_tool() {
            None => None,
            Some((server, tool)) => {
                if self.find(server.as_str(), tool.as_str()).is_none() {
                    let ghost before = self@.grants;
                    let grant = RunGrant {
                        server: server.clone(),
                        tool: tool.clone(),
                        interaction: id.to_owned(),
                    };
                    let ghost added = grant@;
                    self.grants.push(grant);
                    assert(self@.grants =~= before.push(added));
                }
                Some(RunGrantAudit::Selected { server, tool })
            },
        }
    }

    /// Ends every permission before instructions are added; returns the new generation. Cards of an
    /// earlier one are out of date.
    pub fn steer(&mut self) -> (r: u64)
        requires
            old(self).generation < u64::MAX,
        ensures
            final(self)@ == after_steer(old(self)@),
            r == final(self).generation,
    {
        self.grants = Vec::new();
        self.generation = self.generation + 1;
        assert(self@.grants =~= Seq::<GrantView>::empty());
        self.generation
    }

    /// Ends every permission before a stop or cancellation is carried out.
    pub fn stop(&mut self)
        ensures
            final(self)@ == after_stop(old(self)@),
    {
        self.grants = Vec::new();
        assert(self@.grants =~= Seq::<GrantView>::empty());
    }
}

} // verus!
