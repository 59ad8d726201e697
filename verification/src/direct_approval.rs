//! Correlates a request of the app server with exactly one active turn, and says which replies it
//! can be given.
use crate::codec::{compact, document, encode, sha256_hex};
use crate::codex_execution::TurnIdentity;
use crate::codex_transport::{Event, EventView};
use crate::domain::digest;
use crate::json::{alike, array1, array2, empty_object, object1, object2, object3, text, Json, JsonView};
use crate::text::{
    byte_len, contains, fold, folded, holds, opt_view, same, same_option, some_same, utf8_len,
};
use vstd::prelude::*;
use vstd::string::*;

verus! {

/// Largest request, in bytes of its JSON text, that can be approved.
pub const MAX_REQUEST_BYTES: usize = 65536;

#[derive(Clone, Copy, Debug, PartialEq, Eq, Structural)]
pub enum InteractionKind {
    CommandApproval,
    FileChangeApproval,
    UserInput,
    PermissionsApproval,
    McpElicitation,
    DynamicTool,
}

#[derive(Clone, Copy, Debug, PartialEq, Eq, Structural)]
pub enum ManualDecision {
    AcceptOnce,
    Decline,
    Cancel,
}

/// What is recorded of a grant for the rest of a run.
#[derive(Debug)]
pub enum RunGrantAudit {
    Selected { server: String, tool: String },
    Applied { initial_interaction_id: String, server: String, tool: String },
}

/// A request of the app server that waits for a decision.
#[derive(Debug)]
pub struct DirectInteraction {
    pub rpc_id: Json,
    pub thread_id: String,
    pub turn_id: String,
    pub item_id: Option<String>,
    pub kind: InteractionKind,
    pub method: String,
    /// Exact upstream content for a private, authorized view. Never part of a public message.
    pub params: Json,
    pub fingerprint: String,
    /// The tool call that the request belongs to. The question alone cannot establish which server,
    /// tool or arguments are about to run.
    pub mcp_evidence: Option<Json>,
}

/// The mathematical form of a `DirectInteraction`.
pub struct InteractionView {
    pub rpc_id: JsonView,
    pub thread_id: Seq<char>,
    pub turn_id: Seq<char>,
    pub item_id: Option<Seq<char>>,
    pub kind: InteractionKind,
    pub method: Seq<char>,
    pub params: JsonView,
    pub fingerprint: Seq<char>,
    pub evidence: Option<JsonView>,
}

impl View for DirectInteraction {
    type V = InteractionView;

    open spec fn view(&self) -> InteractionView {
        InteractionView {
            rpc_id: self.rpc_id@,
            thread_id: self.thread_id@,
            turn_id: self.turn_id@,
            item_id: opt_view(self.item_id),
            kind: self.kind,
            method: self.method@,
            params: self.params@,
            fingerprint: self.fingerprint@,
            evidence: match self.mcp_evidence {
                Some(j) => Some(j@),
                None => None,
            },
        }
    }
}

/// The kind of request that a method makes.
pub open spec fn kind_of(method: Seq<char>) -> Option<InteractionKind> {
    if method == "item/commandExecution/requestApproval"@ {
        Some(InteractionKind::CommandApproval)
    } else if method == "item/fileChange/requestApproval"@ {
        Some(InteractionKind::FileChangeApproval)
    } else if method == "item/tool/requestUserInput"@ || method == "tool/requestUserInput"@ {
        Some(InteractionKind::UserInput)
    } else if method == "item/permissions/requestApproval"@ {
        Some(InteractionKind::PermissionsApproval)
    } else if method == "mcpServer/elicitation/request"@ {
        Some(InteractionKind::McpElicitation)
    } else if method == "item/tool/call"@ {
        Some(InteractionKind::DynamicTool)
    } else {
        None
    }
}

fn find_kind(method: &str) -> (r: Option<InteractionKind>)
    ensures
        r == kind_of(method@),
{
    if same(method, "item/commandExecution/requestApproval") {
        Some(InteractionKind::CommandApproval)
    } else if same(method, "item/fileChange/requestApproval") {
        Some(InteractionKind::FileChangeApproval)
    } else if same(method, "item/tool/requestUserInput") || same(method, "tool/requestUserInput") {
        Some(InteractionKind::UserInput)
    } else if same(method, "item/permissions/requestApproval") {
        Some(InteractionKind::PermissionsApproval)
    } else if same(method, "mcpServer/elicitation/request") {
        Some(InteractionKind::McpElicitation)
    } else if same(method, "item/tool/call") {
        Some(InteractionKind::DynamicTool)
    } else {
        None
    }
}

/// The request as one document, which its fingerprint covers.
pub open spec fn whole_request(id: JsonView, method: Seq<char>, params: JsonView) -> JsonView {
    JsonView::Object(
        seq![("id"@, id), ("method"@, JsonView::Text(method)), ("params"@, params)],
    )
}

/// The item that a request is about.
pub open spec fn request_item(kind: InteractionKind, params: JsonView) -> Option<Seq<char>> {
    if kind == InteractionKind::DynamicTool {
        params.at("callId"@).text()
    } else {
        params.at("itemId"@).text()
    }
}

/// The interaction that an event opens in a turn: none for another event, an error for a request
/// that does not belong to the turn.
pub open spec fn interaction_of(event: EventView, thread: Seq<char>, turn: Seq<char>) -> Result<
    Option<InteractionView>,
    Seq<char>,
> {
    match event {
        EventView::ServerRequest(id, method, params) => match kind_of(method) {
            None => Ok(None),
            Some(kind) => {
                let bytes = compact(document(whole_request(id, method, params)));
                let wire_turn = params.at("turnId"@).text();
                if !(id is Text || id.signed() is Some || id.unsigned() is Some) {
                    Err("invalid App Server request ID"@)
                } else if params.at("threadId"@).text() != Some(thread) {
                    Err("App Server request belongs to another thread"@)
                } else if wire_turn != Some(turn) && !(kind == InteractionKind::McpElicitation
                    && wire_turn is None) {
                    Err("App Server request belongs to another turn"@)
                } else if kind != InteractionKind::McpElicitation && request_item(
                    kind,
                    params,
                ) is None {
                    Err("App Server request item ID missing"@)
                } else if bytes.len() > MAX_REQUEST_BYTES {
                    Err("App Server request exceeds approval limit"@)
                } else {
                    Ok(
                        Some(
                            InteractionView {
                                rpc_id: id,
                                thread_id: thread,
                                turn_id: turn,
                                item_id: request_item(kind, params),
                                kind,
                                method,
                                params,
                                fingerprint: sha256_hex(bytes),
                                evidence: None,
                            },
                        ),
                    )
                }
            },
        },
        _ => Ok(None),
    }
}

/// A text of one to `max` bytes.
pub open spec fn short_text(j: JsonView, max: nat) -> bool {
    j.text() is Some && 0 < j.text()->0.len() && utf8_len(j.text()->0) <= max
}

pub fn is_short_text(j: &Json, max: usize) -> (r: bool)
    ensures
        r == short_text(j@, max as nat),
{
    match j.as_str() {
        Some(s) => !s.is_empty() && byte_len(s) <= max,
        None => false,
    }
}

/// The question that the app server asks about a tool call.
pub open spec fn elicitation_message(server: Seq<char>, tool: Seq<char>) -> Seq<char> {
    "Allow the "@ + server + " MCP server to run tool \""@ + tool + "\"?"@
}

/// Whether a tool call is the one that an interaction asks about.
pub open spec fn evidence_objection(v: InteractionView, item: JsonView) -> Option<Seq<char>> {
    if v.kind != InteractionKind::UserInput && v.kind != InteractionKind::McpElicitation {
        Some("MCP evidence on another interaction"@)
    } else if !(item.at("type"@).says("mcpToolCall"@) && (v.kind == InteractionKind::McpElicitation
        || item.at("id"@).text() == v.item_id) && short_text(item.at("server"@), 128) && short_text(
        item.at("tool"@),
        128,
    ) && item.at("arguments"@) is Object) {
        Some("MCP call evidence does not match the question"@)
    } else if v.kind == InteractionKind::McpElicitation && !(alike(
        v.params.at("serverName"@),
        item.at("server"@),
    ) && alike(v.params.at("_meta"@).at("tool_params"@), item.at("arguments"@)) && v.params.at(
        "message"@,
    ).says(
        elicitation_message(item.at("server"@).text()->0, item.at("tool"@).text()->0),
    ) && item.at("id"@).text() is Some && item.at("id"@).text()->0.len() > 0) {
        Some("MCP call evidence does not match the elicitation"@)
    } else if compact(document(item)).len() > MAX_REQUEST_BYTES {
        Some("MCP call evidence too large"@)
    } else {
        None
    }
}

/// The fingerprint of an interaction together with its tool call.
pub open spec fn bound_fingerprint(fingerprint: Seq<char>, item: JsonView) -> Seq<char> {
    sha256_hex(compact(document(JsonView::Array(seq![JsonView::Text(fingerprint), item]))))
}

/// The word that a decision is sent as.
pub open spec fn wire_decision(d: ManualDecision) -> Seq<char> {
    match d {
        ManualDecision::AcceptOnce => "accept"@,
        ManualDecision::Decline => "decline"@,
        ManualDecision::Cancel => "cancel"@,
    }
}

pub fn decision_word(d: ManualDecision) -> (s: &'static str)
    ensures
        s@ == wire_decision(d),
{
    match d {
        ManualDecision::AcceptOnce => "accept",
        ManualDecision::Decline => "decline",
        ManualDecision::Cancel => "cancel",
    }
}

/// The reply to a command or file change: only a decision that the app server offers, where it says
/// what it offers.
pub open spec fn manual_reply(v: InteractionView, d: ManualDecision) -> Result<JsonView, Seq<char>> {
    let offered = v.params.get("availableDecisions"@);
    if v.kind != InteractionKind::CommandApproval && v.kind != InteractionKind::FileChangeApproval {
        Err("this interaction needs a method-specific reply"@)
    } else if offered is Some && !(offered->0 is Array) {
        Err("App Server decisions are not an array"@)
    } else if offered is Some && !offered->0.lists(wire_decision(d)) {
        Err("decision not offered by App Server"@)
    } else {
        Ok(JsonView::Object(seq![("decision"@, JsonView::Text(wire_decision(d)))]))
    }
}

/// Whether one of some options has a label.
pub open spec fn has_label(options: Seq<JsonView>, label: Seq<char>) -> bool {
    exists|i: int| 0 <= i < options.len() && (#[trigger] options[i]).at("label"@).says(label)
}

/// The reply to a question about a tool call.
pub open spec fn question_reply(v: InteractionView, d: ManualDecision) -> Result<
    JsonView,
    Seq<char>,
> {
    let questions = v.params.at("questions"@).array();
    let question = v.params.at("questions"@).item(0);
    let id = question.at("id"@).text();
    let options = question.at("options"@).array();
    if v.kind != InteractionKind::UserInput || v.method != "item/tool/requestUserInput"@ {
        Err("not a Codex MCP tool confirmation"@)
    } else if d == ManualDecision::AcceptOnce && v.evidence is None {
        Err("matching MCP tool call evidence is missing"@)
    } else if questions is None {
        Err("MCP confirmation questions missing"@)
    } else if questions->0.len() != 1 {
        Err("MCP confirmation must have one question"@)
    } else if v.item_id is None {
        Err("MCP item ID missing"@)
    } else if id is None {
        Err("MCP question ID missing"@)
    } else if !(id->0 == "mcp_tool_call_approval_"@ + v.item_id->0 && question.at(
        "isOther"@,
    ).is_false() && question.at("isSecret"@).is_false()) {
        Err("MCP confirmation shape is not trusted"@)
    } else if options is None {
        Err("MCP confirmation options missing"@)
    } else if !(has_label(options->0, "Allow"@) && has_label(options->0, "Cancel"@)) {
        Err("MCP confirmation choices are incomplete"@)
    } else {
        let choice = if d == ManualDecision::AcceptOnce {
            "Allow"@
        } else {
            "Cancel"@
        };
        Ok(
            JsonView::Object(
                seq![
                    (
                        "answers"@,
                        JsonView::Object(
                            seq![
                                (
                                    id->0,
                                    JsonView::Object(
                                        seq![
                                            (
                                                "answers"@,
                                                JsonView::Array(seq![JsonView::Text(choice)]),
                                            ),
                                        ],
                                    ),
                                ),
                            ],
                        ),
                    ),
                ],
            ),
        )
    }
}

/// Whether a key may stand in the schema of an empty form.
pub open spec fn form_key(k: Seq<char>) -> bool {
    k == "type"@ || k == "properties"@ || k == "required"@ || k == "additionalProperties"@
}

/// Whether a schema asks for nothing.
pub open spec fn empty_form(schema: JsonView) -> bool {
    let m = schema->Object_0;
    &&& forall|i: int| 0 <= i < m.len() ==> form_key(#[trigger] m[i].0)
    &&& schema.at("type"@).says("object"@)
    &&& schema.at("properties"@) == JsonView::Object(Seq::empty())
    &&& schema.get("required"@) is None || schema.at("required"@) == JsonView::Array(Seq::empty())
    &&& schema.get("additionalProperties"@) is None || schema.at("additionalProperties"@).is_false()
}

/// The reply to a form about a tool call: it is accepted only where the form is empty and bound to
/// this very turn.
pub open spec fn form_reply(v: InteractionView, d: ManualDecision) -> Result<JsonView, Seq<char>> {
    let p = v.params;
    let meta = p.at("_meta"@);
    if v.method != "mcpServer/elicitation/request"@ {
        Err("not an MCP elicitation"@)
    } else if d != ManualDecision::AcceptOnce {
        Ok(
            JsonView::Object(
                seq![("action"@, JsonView::Text("decline"@)), ("content"@, JsonView::Null)],
            ),
        )
    } else if !(p.at("mode"@).says("form"@) && meta.at("codex_approval_kind"@).says(
        "mcp_tool_call"@,
    ) && p.at("threadId"@).says(v.thread_id) && p.at("turnId"@).says(v.turn_id)) {
        Err("not a turn-bound MCP tool confirmation"@)
    } else if !(short_text(p.at("serverName"@), 128) && short_text(p.at("message"@), 8192)
        && meta.at("tool_params"@) is Object) {
        Err("MCP tool confirmation details are incomplete"@)
    } else if !(p.at("requestedSchema"@) is Object) {
        Err("MCP tool confirmation schema missing"@)
    } else if !empty_form(p.at("requestedSchema"@)) {
        Err("MCP tool confirmation is not an empty form"@)
    } else {
        Ok(
            JsonView::Object(
                seq![
                    ("action"@, JsonView::Text("accept"@)),
                    ("content"@, JsonView::Object(Seq::empty())),
                ],
            ),
        )
    }
}

/// The reply to a tool confirmation.
pub open spec fn tool_reply(v: InteractionView, d: ManualDecision) -> Result<JsonView, Seq<char>> {
    if v.kind == InteractionKind::McpElicitation {
        form_reply(v, d)
    } else {
        question_reply(v, d)
    }
}

/// Whether the name of a tool says that it may do harm.
pub open spec fn risky_tool(tool: Seq<char>) -> bool {
    let t = folded(tool);
    holds(t, "unsafe"@) || holds(t, "evaluate"@) || holds(t, "run_code"@) || holds(t, "execute"@)
        || holds(t, "eval"@) || holds(t, "delete"@) || holds(t, "remove"@) || holds(t, "purchase"@)
        || holds(t, "payment"@) || holds(t, "secret"@) || holds(t, "password"@)
}

fn is_risky_tool(tool: &str) -> (r: bool)
    ensures
        r == risky_tool(tool@),
{
    let lower = fold(tool);
    let t = lower.as_str();
    contains(t, "unsafe") || contains(t, "evaluate") || contains(t, "run_code") || contains(
        t,
        "execute",
    ) || contains(t, "eval") || contains(t, "delete") || contains(t, "remove") || contains(
        t,
        "purchase",
    ) || contains(t, "payment") || contains(t, "secret") || contains(t, "password")
}

/// The server and tool that may be allowed for the rest of a run.
pub open spec fn grantable(v: InteractionView) -> Option<(Seq<char>, Seq<char>)> {
    let e = v.evidence;
    if v.kind != InteractionKind::McpElicitation || tool_reply(v, ManualDecision::AcceptOnce) is Err
        || !v.params.at("_meta"@).at("persist"@).lists("session"@) || e is None {
        None
    } else if e->0.at("server"@).text() is None || e->0.at("tool"@).text() is None || risky_tool(
        e->0.at("tool"@).text()->0,
    ) {
        None
    } else {
        Some((e->0.at("server"@).text()->0, e->0.at("tool"@).text()->0))
    }
}

fn labelled(options: &Vec<Json>, label: &str, Ghost(list): Ghost<Seq<JsonView>>) -> (r: bool)
    requires
        options@.len() == list.len(),
        forall|i: int| 0 <= i < list.len() ==> #[trigger] options@[i]@ == list[i],
    ensures
        r == has_label(list, label@),
{
    let mut i: usize = 0;
    while i < options.len()
        invariant
            i <= options@.len(),
            options@.len() == list.len(),
            forall|j: int| 0 <= j < list.len() ==> #[trigger] options@[j]@ == list[j],
            forall|j: int| 0 <= j < i ==> !(#[trigger] list[j]).at("label"@).says(label@),
        decreases options@.len() - i,
    {
        assert(options@[i as int]@ == list[i as int]);
        if options[i].at("label").is_text(label) {
            return true;
        }
        i += 1;
    }
    false
}

fn is_empty_form(schema: &Json) -> (r: bool)
    requires
        schema@ is Object,
    ensures
        r == empty_form(schema@),
{
    let ghost m = schema@->Object_0;
    match schema.as_object() {
        None => false,
        Some(members) => {
            let mut i: usize = 0;
            while i < members.len()
                invariant
                    i <= members@.len(),
                    members@.len() == m.len(),
                    m == schema@->Object_0,
                    forall|j: int|
                        0 <= j < m.len() ==> m[j] == ((#[trigger] members@[j]).key@, members@[j].value@),
                    forall|j: int| 0 <= j < i ==> form_key(#[trigger] m[j].0),
                decreases members@.len() - i,
            {
                let k = members[i].key.as_str();
                assert(m[i as int].0 == k@);
                if !(same(k, "type") || same(k, "properties") || same(k, "required") || same(
                    k,
                    "additionalProperties",
                )) {
                    assert(!form_key(m[i as int].0));
                    return false;
                }
                i += 1;
            }
            schema.at("type").is_text("object") && is_empty_object(schema.at("properties")) && (
            schema.get("required").is_none() || is_empty_array(schema.at("required"))) && (
            schema.get("additionalProperties").is_none() || schema.at("additionalProperties").is_bool(
                false,
            ))
        },
    }
}

pub fn is_empty_object(j: &Json) -> (r: bool)
    ensures
        r == (j@ == JsonView::Object(Seq::empty())),
{
    match j.as_object() {
        Some(v) => {
            if v.len() == 0 {
                assert(j@->Object_0 =~= Seq::<(Seq<char>, JsonView)>::empty());
                true
            } else {
                false
            }
        },
        None => false,
    }
}

pub fn is_empty_array(j: &Json) -> (r: bool)
    ensures
        r == (j@ == JsonView::Array(Seq::empty())),
{
    match j.as_array() {
        Some(v) => {
            if v.len() == 0 {
                assert(j@->Array_0 =~= Seq::<JsonView>::empty());
                true
            } else {
                false
            }
        },
        None => false,
    }
}

impl DirectInteraction {
    /// The interaction that an event opens in the active turn.
    pub fn from_event(event: &Event, active: &TurnIdentity) -> (r: Result<
        Option<DirectInteraction>,
        &'static str,
    >)
        ensures
            match interaction_of(event@, active.thread_id@, active.turn_id@) {
                Ok(None) => r is Ok && r->Ok_0 is None,
                Ok(Some(v)) => r is Ok && r->Ok_0 is Some && r->Ok_0->0@ == v,
                Err(e) => r is Err && r->Err_0@ == e,
            },
    {
        let (id, method, params) = match event {
            Event::ServerRequest { id, method, params } => (id, method, params),
            _ => return Ok(None),
        };
        let kind = match find_kind(method.as_str()) {
            Some(kind) => kind,
            None => return Ok(None),
        };
        if !(id.as_str().is_some() || id.as_i64().is_some() || id.as_u64().is_some()) {
            return Err("invalid App Server request ID");
        }
        if !some_same(params.at("threadId").as_str(), active.thread_id.as_str()) {
            return Err("App Server request belongs to another thread");
        }
        let wire_turn = params.at("turnId").as_str();
        if !some_same(wire_turn, active.turn_id.as_str()) && !(kind
            == InteractionKind::McpElicitation && wire_turn.is_none()) {
            return Err("App Server request belongs to another turn");
        }
        let found = if kind == InteractionKind::DynamicTool {
            params.at("callId").as_str()
        } else {
            params.at("itemId").as_str()
        };
        let item_id: Option<String> = match found {
            Some(s) => Some(s.to_owned()),
            None => None,
        };
        if kind != InteractionKind::McpElicitation && item_id.is_none() {
            return Err("App Server request item ID missing");
        }
        let whole = object3("id", id.copy(), "method", text(method.as_str()), "params", params.copy());
        let canonical = encode(&whole);
        if canonical.len() > MAX_REQUEST_BYTES {
            return Err("App Server request exceeds approval limit");
        }
        Ok(
            Some(
                DirectInteraction {
                    rpc_id: id.copy(),
                    thread_id: active.thread_id.clone(),
                    turn_id: active.turn_id.clone(),
                    item_id,
                    kind,
                    method: method.clone(),
                    params: params.copy(),
                    fingerprint: digest(canonical.as_slice()),
                    mcp_evidence: None,
                },
            ),
        )
    }

    /// Whether a tool call is the one that the interaction asks about.
    pub fn check_evidence(&self, item: &Json) -> (r: Result<(), &'static str>)
        ensures
            match evidence_objection(self@, item@) {
                Some(e) => r is Err && r->Err_0@ == e,
                None => r is Ok,
            },
    {
        if self.kind != InteractionKind::UserInput && self.kind != InteractionKind::McpElicitation {
            return Err("MCP evidence on another interaction");
        }
        let own: Option<&str> = match &self.item_id {
            Some(s) => Some(s.as_str()),
            None => None,
        };
        if !(item.at("type").is_text("mcpToolCall") && (self.kind == InteractionKind::McpElicitation
            || same_option(item.at("id").as_str(), own)) && is_short_text(item.at("server"), 128)
            && is_short_text(item.at("tool"), 128) && item.at("arguments").is_object()) {
            return Err("MCP call evidence does not match the question");
        }
        if self.kind == InteractionKind::McpElicitation {
            let mut expected = String::from_str("Allow the ");
            if let (Some(server), Some(tool)) = (item.at("server").as_str(), item.at("tool").as_str()) {
                expected.append(server);
                expected.append(" MCP server to run tool \"");
                expected.append(tool);
                expected.append("\"?");
            }
            let named = match item.at("id").as_str() {
                Some(s) => !s.is_empty(),
                None => false,
            };
            if !(self.params.at("serverName").same_as(item.at("server")) && self.params.at(
                "_meta",
            ).at("tool_params").same_as(item.at("arguments")) && self.params.at("message").is_text(
                expected.as_str(),
            ) && named) {
                return Err("MCP call evidence does not match the elicitation");
            }
        }
        if encode(item).len() > MAX_REQUEST_BYTES {
            return Err("MCP call evidence too large");
        }
        Ok(())
    }

    /// Ties the interaction to the tool call that it asks about, and its fingerprint to both.
    pub fn bind_mcp_evidence(&mut self, item: Json) -> (r: Result<(), &'static str>)
        ensures
            match evidence_objection(old(self)@, item@) {
                Some(e) => r is Err && r->Err_0@ == e && final(self)@ == old(self)@,
                None => r is Ok && final(self)@ == (InteractionView {
                    fingerprint: bound_fingerprint(old(self)@.fingerprint, item@),
                    evidence: Some(item@),
                    ..old(self)@
                }),
            },
    {
        if let Err(e) = self.check_evidence(&item) {
            return Err(e);
        }
        let both = encode(&array2(text(self.fingerprint.as_str()), item.copy()));
        self.fingerprint = digest(both.as_slice());
        self.mcp_evidence = Some(item);
        Ok(())
    }

    /// The server and tool of a call that may be allowed for the rest of the run. Such a grant is
    /// narrower than a lasting one: it ends before a steer or stop.
    pub fn run_grant_tool(&self) -> (r: Option<(String, String)>)
        ensures
            match grantable(self@) {
                None => r is None,
                Some((server, tool)) => r is Some && (r->0).0@ == server && (r->0).1@ == tool,
            },
    {
        if self.kind != InteractionKind::McpElicitation || self.mcp_tool_decision(
            ManualDecision::AcceptOnce,
        ).is_err() || !self.params.at("_meta").at("persist").lists("session") {
            return None;
        }
        match &self.mcp_evidence {
            None => None,
            Some(evidence) => match (
                evidence.at("server").as_str(),
                evidence.at("tool").as_str(),
            ) {
                (Some(server), Some(tool)) => {
                    if is_risky_tool(tool) {
                        None
                    } else {
                        Some((server.to_owned(), tool.to_owned()))
                    }
                },
                _ => None,
            },
        }
    }

    /// The reply to a command or file change. Acceptance for a whole session is not among them.
    pub fn manual_decision(&self, decision: ManualDecision) -> (r: Result<Json, &'static str>)
        ensures
            match manual_reply(self@, decision) {
                Ok(v) => r is Ok && r->Ok_0@ == v,
                Err(e) => r is Err && r->Err_0@ == e,
            },
    {
        if self.kind != InteractionKind::CommandApproval && self.kind
            != InteractionKind::FileChangeApproval {
            return Err("this interaction needs a method-specific reply");
        }
        let wire = decision_word(decision);
        if let Some(offered) = self.params.get("availableDecisions") {
            if offered.as_array().is_none() {
                return Err("App Server decisions are not an array");
            }
            if !offered.lists(wire) {
                return Err("decision not offered by App Server");
            }
        }
        Ok(object1("decision", text(wire)))
    }

    /// The reply to a tool confirmation.
    pub fn mcp_tool_decision(&self, decision: ManualDecision) -> (r: Result<Json, &'static str>)
        ensures
            match tool_reply(self@, decision) {
                Ok(v) => r is Ok && r->Ok_0@ == v,
                Err(e) => r is Err && r->Err_0@ == e,
            },
    {
        if self.kind == InteractionKind::McpElicitation {
            return self.mcp_form_tool_decision(decision);
        }
        if self.kind != InteractionKind::UserInput || !same(
            self.method.as_str(),
            "item/tool/requestUserInput",
        ) {
            return Err("not a Codex MCP tool confirmation");
        }
        if decision == ManualDecision::AcceptOnce && self.mcp_evidence.is_none() {
            return Err("matching MCP tool call evidence is missing");
        }
        let questions = match self.params.at("questions").as_array() {
            Some(v) => v,
            None => return Err("MCP confirmation questions missing"),
        };
        if questions.len() != 1 {
            return Err("MCP confirmation must have one question");
        }
        let question = self.params.at("questions").item(0);
        let item = match &self.item_id {
            Some(s) => s,
            None => return Err("MCP item ID missing"),
        };
        let id = match question.at("id").as_str() {
            Some(s) => s,
            None => return Err("MCP question ID missing"),
        };
        let expected = String::from_str("mcp_tool_call_approval_").concat(item.as_str());
        if !(same(id, expected.as_str()) && question.at("isOther").is_bool(false) && question.at(
            "isSecret",
        ).is_bool(false)) {
            return Err("MCP confirmation shape is not trusted");
        }
        let offered = match question.at("options").as_array() {
            Some(v) => v,
            None => return Err("MCP confirmation options missing"),
        };
        let ghost list = question@.at("options"@).array()->0;
        if !(labelled(offered, "Allow", Ghost(list)) && labelled(offered, "Cancel", Ghost(list))) {
            return Err("MCP confirmation choices are incomplete");
        }
        let choice = if decision == ManualDecision::AcceptOnce {
            "Allow"
        } else {
            "Cancel"
        };
        Ok(object1("answers", object1(id, object1("answers", array1(text(choice))))))
    }

    fn mcp_form_tool_decision(&self, decision: ManualDecision) -> (r: Result<Json, &'static str>)
        ensures
            match form_reply(self@, decision) {
                Ok(v) => r is Ok && r->Ok_0@ == v,
                Err(e) => r is Err && r->Err_0@ == e,
            },
    {
        let p = &self.params;
        let meta = p.at("_meta");
        if !same(self.method.as_str(), "mcpServer/elicitation/request") {
            return Err("not an MCP elicitation");
        }
        if decision != ManualDecision::AcceptOnce {
            return Ok(object2("action", text("decline"), "content", Json::Null));
        }
        if !(p.at("mode").is_text("form") && meta.at("codex_approval_kind").is_text("mcp_tool_call")
            && p.at("threadId").is_text(self.thread_id.as_str()) && p.at("turnId").is_text(
            self.turn_id.as_str(),
        )) {
            return Err("not a turn-bound MCP tool confirmation");
        }
        if !(is_short_text(p.at("serverName"), 128) && is_short_text(p.at("message"), 8192)
            && meta.at("tool_params").is_object()) {
            return Err("MCP tool confirmation details are incomplete");
        }
        let schema = p.at("requestedSchema");
        if !schema.is_object() {
            return Err("MCP tool confirmation schema missing");
        }
        if !is_empty_form(schema) {
            return Err("MCP tool confirmation is not an empty form");
        }
        Ok(object2("action", text("accept"), "content", empty_object()))
    }
}

/// Nothing is accepted in a form that is not bound to this very thread and turn, nor for a tool
/// call without its details.
pub proof fn acceptance_is_bound_to_the_turn(v: InteractionView)
    requires
        v.kind == InteractionKind::McpElicitation,
        tool_reply(v, ManualDecision::AcceptOnce) is Ok,
    ensures
        v.params.at("threadId"@).says(v.thread_id),
        v.params.at("turnId"@).says(v.turn_id),
        v.params.at("_meta"@).at("tool_params"@) is Object,
        empty_form(v.params.at("requestedSchema"@)),
{
}

/// What the app server does not offer is never replied.
pub proof fn only_offered_decisions(v: InteractionView, d: ManualDecision)
    requires
        v.params.get("availableDecisions"@) is Some,
        manual_reply(v, d) is Ok,
    ensures
        v.params.at("availableDecisions"@).lists(wire_decision(d)),
{
}

/// A grant for the rest of a run is never given to a risky tool, nor without the tool call itself.
pub proof fn grants_are_narrow(v: InteractionView)
    requires
        grantable(v) is Some,
    ensures
        v.evidence is Some,
        !risky_tool((grantable(v)->0).1),
        tool_reply(v, ManualDecision::AcceptOnce) is Ok,
{
}

} // verus!
