//! JSON-RPC with the Codex app server: which line means what, and which request it answers.
use crate::json::{object2, object3, object4, text, Json, JsonView};
use crate::numbers::{signed_decimal, signed_text};
use crate::text::same;
use vstd::prelude::*;
use vstd::string::*;

verus! {

/// How the app server is started. Times are in milliseconds.
#[derive(Debug)]
pub struct LaunchConfig {
    pub command: String,
    pub args: Vec<String>,
    pub codex_home: String,
    pub initialize_timeout: u64,
    pub request_timeout: u64,
    pub experimental_api: bool,
}

/// What went wrong with a request to the app server.
#[derive(Debug, PartialEq, Eq)]
pub enum TransportError {
    /// The request was definitely not written to the child.
    NotSent(String),
    /// Bytes may have reached the child. The caller must reconcile, never retry blindly.
    ResultUnknown(String),
    Remote { code: i64, message: String },
    Protocol(String),
}

/// The mathematical form of a `TransportError`.
pub enum TransportErrorView {
    NotSent(Seq<char>),
    ResultUnknown(Seq<char>),
    Remote(i64, Seq<char>),
    Protocol(Seq<char>),
}

impl View for TransportError {
    type V = TransportErrorView;

    open spec fn view(&self) -> TransportErrorView {
        match self {
            TransportError::NotSent(s) => TransportErrorView::NotSent(s@),
            TransportError::ResultUnknown(s) => TransportErrorView::ResultUnknown(s@),
            TransportError::Remote { code, message } => TransportErrorView::Remote(*code, message@),
            TransportError::Protocol(s) => TransportErrorView::Protocol(s@),
        }
    }
}

impl TransportErrorView {
    /// The text that describes an error.
    pub open spec fn described(self) -> Seq<char> {
        match self {
            TransportErrorView::NotSent(s) => "not sent: "@ + s,
            TransportErrorView::ResultUnknown(s) => "result unknown: "@ + s,
            TransportErrorView::Remote(code, s) => "Codex error "@ + signed_decimal(code as int)
                + ": "@ + s,
            TransportErrorView::Protocol(s) => "Codex protocol error: "@ + s,
        }
    }
}

impl TransportError {
    pub fn not_sent(s: &str) -> (r: TransportError)
        ensures
            r@ == TransportErrorView::NotSent(s@),
    {
        TransportError::NotSent(s.to_owned())
    }

    pub fn result_unknown(s: &str) -> (r: TransportError)
        ensures
            r@ == TransportErrorView::ResultUnknown(s@),
    {
        TransportError::ResultUnknown(s.to_owned())
    }

    pub fn protocol(s: &str) -> (r: TransportError)
        ensures
            r@ == TransportErrorView::Protocol(s@),
    {
        TransportError::Protocol(s.to_owned())
    }

    /// The text that describes the error.
    pub fn describe(&self) -> (r: String)
        ensures
            r@ == self@.described(),
    {
        match self {
            TransportError::NotSent(s) => String::from_str("not sent: ").concat(s.as_str()),
            TransportError::ResultUnknown(s) => String::from_str("result unknown: ").concat(
                s.as_str(),
            ),
            TransportError::Remote { code, message } => {
                let number = signed_text(*code);
                String::from_str("Codex error ").concat(number.as_str()).concat(": ").concat(
                    message.as_str(),
                )
            },
            TransportError::Protocol(s) => String::from_str("Codex protocol error: ").concat(
                s.as_str(),
            ),
        }
    }
}

/// What the app server tells its owner.
#[derive(Debug)]
pub enum Event {
    Notification { method: String, params: Json },
    ServerRequest { id: Json, method: String, params: Json },
    InvalidServerRequest { id: Json, reason: String },
    ProtocolError(String),
    Closed(String),
}

/// The mathematical form of an `Event`.
pub enum EventView {
    Notification(Seq<char>, JsonView),
    ServerRequest(JsonView, Seq<char>, JsonView),
    InvalidServerRequest(JsonView, Seq<char>),
    ProtocolError(Seq<char>),
    Closed(Seq<char>),
}

impl View for Event {
    type V = EventView;

    open spec fn view(&self) -> EventView {
        match self {
            Event::Notification { method, params } => EventView::Notification(method@, params@),
            Event::ServerRequest { id, method, params } => EventView::ServerRequest(
                id@,
                method@,
                params@,
            ),
            Event::InvalidServerRequest { id, reason } => EventView::InvalidServerRequest(
                id@,
                reason@,
            ),
            Event::ProtocolError(s) => EventView::ProtocolError(s@),
            Event::Closed(s) => EventView::Closed(s@),
        }
    }
}

/// The parameters of a line: absent, read, or unreadable with a reason.
pub enum Params {
    Absent,
    Read(Json),
    Unreadable(String),
}

/// An error that the app server returned.
pub struct RpcError {
    pub code: i64,
    pub message: String,
}

/// One line of the app server, taken apart.
pub struct Envelope {
    pub id: Option<Json>,
    pub method: Option<String>,
    pub params: Params,
    pub has_result: bool,
    pub error: Option<RpcError>,
}

/// What one line means.
pub enum Dispatch {
    Emit(Event),
    /// The request is answered; its result is still to be read.
    Answer { id: u64, catalog: bool },
    Fail { id: u64, error: TransportError },
    Ignore,
}

/// The mathematical form of a `Dispatch`.
pub enum DispatchView {
    Emit(EventView),
    Answer(u64, bool),
    Fail(u64, TransportErrorView),
    Ignore,
}

impl View for Dispatch {
    type V = DispatchView;

    open spec fn view(&self) -> DispatchView {
        match self {
            Dispatch::Emit(e) => DispatchView::Emit(e@),
            Dispatch::Answer { id, catalog } => DispatchView::Answer(*id, *catalog),
            Dispatch::Fail { id, error } => DispatchView::Fail(*id, error@),
            Dispatch::Ignore => DispatchView::Ignore,
        }
    }
}

/// Whether the parameters of a line must be kept exactly as they were written.
pub fn exact_params(has_id: bool, method: &str) -> (r: bool)
    ensures
        r == (has_id || method@ == "item/started"@),
{
    has_id || same(method, "item/started")
}

/// The event that a line with a method is.
pub open spec fn method_event(line: Envelope) -> EventView
    recommends
        line.method is Some,
{
    let method = line.method->0@;
    match line.params {
        Params::Unreadable(reason) => match line.id {
            Some(id) => EventView::InvalidServerRequest(id@, reason@),
            None => EventView::ProtocolError(reason@),
        },
        Params::Read(params) => match line.id {
            Some(id) => EventView::ServerRequest(id@, method, params@),
            None => EventView::Notification(method, params@),
        },
        Params::Absent => match line.id {
            Some(id) => EventView::ServerRequest(id@, method, JsonView::Null),
            None => EventView::Notification(method, JsonView::Null),
        },
    }
}

/// The request that a response names.
pub open spec fn answered(line: Envelope) -> Option<u64> {
    match line.id {
        Some(id) => id@.unsigned(),
        None => None,
    }
}

/// The state of a connection: whether it is closed, the next request number, and the requests that
/// wait for an answer (with whether each asks for the tool catalog).
pub struct Connection {
    next_id: u64,
    closed: bool,
    pending: Vec<(u64, bool)>,
}

impl Connection {
    pub closed spec fn is_shut(&self) -> bool {
        self.closed
    }

    pub closed spec fn next(&self) -> u64 {
        self.next_id
    }

    pub closed spec fn waiting(&self) -> Map<u64, bool> {
        Map::new(
            |id: u64| exists|i: int| 0 <= i < self.pending@.len() && (#[trigger] self.pending@[i]).0 == id,
            |id: u64|
                self.pending@[choose|i: int|
                    0 <= i < self.pending@.len() && (#[trigger] self.pending@[i]).0 == id].1,
        )
    }

    /// Each waiting request has a number of its own, below the next one.
    #[verifier::type_invariant]
    closed spec fn numbered(&self) -> bool {
        &&& forall|i: int, j: int|
            0 <= i < j < self.pending@.len() ==> (#[trigger] self.pending@[i]).0 != (
            #[trigger] self.pending@[j]).0
        &&& forall|i: int| 0 <= i < self.pending@.len() ==> (#[trigger] self.pending@[i]).0 < self.next_id
    }

    pub fn new() -> (r: Connection)
        ensures
            !r.is_shut(),
            r.next() == 1,
            r.waiting() == Map::<u64, bool>::empty(),
    {
        let r = Connection { next_id: 1, closed: false, pending: Vec::new() };
        assert(r.waiting() =~= Map::<u64, bool>::empty());
        r
    }

    /// Whether a further request can be numbered.
    pub fn can_begin(&self) -> (r: bool)
        ensures
            r == (self.next() < u64::MAX),
    {
        self.next_id < u64::MAX
    }

    pub fn is_closed(&self) -> (r: bool)
        ensures
            r == self.is_shut(),
    {
        self.closed
    }

    /// Numbers a request, unless the connection is closed: a request to a closed connection is
    /// definitely not sent.
    pub fn begin(&mut self, method: &str) -> (r: Result<u64, TransportError>)
        requires
            old(self).next() < u64::MAX,
        ensures
            old(self).is_shut() ==> {
                &&& r is Err
                &&& r->Err_0@ == TransportErrorView::NotSent("transport closed"@)
                &&& final(self).waiting() == old(self).waiting()
                &&& final(self).next() == old(self).next()
            },
            !old(self).is_shut() ==> {
                &&& r == Ok::<u64, TransportError>(old(self).next())
                &&& !old(self).waiting().contains_key(old(self).next())
                &&& final(self).waiting() == old(self).waiting().insert(
                    old(self).next(),
                    method@ == "mcpServerStatus/list"@,
                )
                &&& final(self).next() == old(self).next() + 1
            },
            final(self).is_shut() == old(self).is_shut(),
    {
        proof {
            use_type_invariant(&*self);
        }
        if self.closed {
            return Err(TransportError::not_sent("transport closed"));
        }
        let id: u64 = self.next_id;
        let catalog = same(method, "mcpServerStatus/list");
        let mut pending: Vec<(u64, bool)> = Vec::new();
        let mut i: usize = 0;
        let ghost before = self.pending@;
        while i < self.pending.len()
            invariant
                i <= self.pending@.len(),
                self.pending@ == before,
                pending@ =~= before.take(i as int),
            decreases self.pending@.len() - i,
        {
            pending.push(self.pending[i]);
            i += 1;
        }
        pending.push((id, catalog));
        let ghost old_self = *self;
        *self = Connection { next_id: id + 1, closed: false, pending };
        proof {
            let after = self.pending@;
            assert(after =~= before.push((id, catalog)));
            lemma_waiting(old_self);
            lemma_waiting(*self);
            assert forall|k: u64| #[trigger]
                self.waiting().contains_key(k) <==> old_self.waiting().insert(id, catalog).contains_key(
                    k,
                ) by {
                if old_self.waiting().contains_key(k) {
                    let j = choose|j: int| 0 <= j < before.len() && (#[trigger] before[j]).0 == k;
                    assert(after[j].0 == k);
                }
                if k == id {
                    assert(after[before.len() as int].0 == k);
                }
                if self.waiting().contains_key(k) {
                    let j = choose|j: int| 0 <= j < after.len() && (#[trigger] after[j]).0 == k;
                    if j < before.len() {
                        assert(before[j].0 == k);
                    }
                }
            }
            assert forall|k: u64| #[trigger] self.waiting().contains_key(k) implies self.waiting()[k]
                == old_self.waiting().insert(id, catalog)[k] by {
                let j = choose|j: int| 0 <= j < after.len() && (#[trigger] after[j]).0 == k;
                if j < before.len() {
                    assert(before[j].0 == k);
                    assert(old_self.waiting()[k] == before[j].1);
                }
            }
            assert(self.waiting() =~= old_self.waiting().insert(id, catalog));
        }
        Ok(id)
    }

    /// Forgets a request. Returns whether it asked for the catalog, where it was waiting.
    pub fn forget(&mut self, id: u64) -> (r: Option<bool>)
        ensures
            r is Some <==> old(self).waiting().contains_key(id),
            r is Some ==> r->0 == old(self).waiting()[id],
            final(self).waiting() == old(self).waiting().remove(id),
            final(self).is_shut() == old(self).is_shut(),
            final(self).next() == old(self).next(),
    {
        proof {
            use_type_invariant(&*self);
        }
        let ghost before = self.pending@;
        let ghost old_self = *self;
        let mut found: Option<bool> = None;
        let mut pending: Vec<(u64, bool)> = Vec::new();
        let mut i: usize = 0;
        while i < self.pending.len()
            invariant
                i <= self.pending@.len(),
                self.pending@ == before,
                *self == old_self,
                old_self.numbered(),
                found is Some ==> exists|j: int| 0 <= j < i && #[trigger] before[j] == (id, found->0),
                found is None ==> forall|j: int| 0 <= j < i ==> (#[trigger] before[j]).0 != id,
                forall|k: int|
                    0 <= k < pending@.len() ==> (#[trigger] pending@[k]).0 != id && exists|j: int|
                        0 <= j < i && #[trigger] before[j] == pending@[k],
                forall|j: int|
                    0 <= j < i && (#[trigger] before[j]).0 != id ==> exists|k: int|
                        0 <= k < pending@.len() && #[trigger] pending@[k] == before[j],
                forall|k: int, l: int|
                    0 <= k < l < pending@.len() ==> (#[trigger] pending@[k]).0 != (
                    #[trigger] pending@[l]).0,
            decreases self.pending@.len() - i,
        {
            let ghost kept = pending@;
            let entry = self.pending[i];
            assert(before[i as int] == entry);
            if entry.0 == id {
                found = Some(entry.1);
            } else {
                pending.push(entry);
                proof {
                    assert forall|j: int|
                        0 <= j < i + 1 && (#[trigger] before[j]).0 != id implies exists|k: int|
                        0 <= k < pending@.len() && #[trigger] pending@[k] == before[j] by {
                        if j < i {
                            let k = choose|k: int| 0 <= k < kept.len() && #[trigger] kept[k] == before[j];
                            assert(pending@[k] == before[j]);
                        } else {
                            assert(pending@[kept.len() as int] == before[j]);
                        }
                    }
                    assert forall|k: int, l: int| 0 <= k < l < pending@.len() implies (
                    #[trigger] pending@[k]).0 != (#[trigger] pending@[l]).0 by {
                        if l == kept.len() {
                            assert(pending@[k] == kept[k]);
                            let j = choose|j: int| 0 <= j < i && #[trigger] before[j] == kept[k];
                            assert(before[j].0 != before[i as int].0);
                        }
                    }
                }
            }
            i += 1;
        }
        let (next_id, closed): (u64, bool) = (self.next_id, self.closed);
        proof {
            assert forall|k: int| 0 <= k < pending@.len() implies (#[trigger] pending@[k]).0 < next_id by {
                let j = choose|j: int| 0 <= j < before.len() && #[trigger] before[j] == pending@[k];
                assert(before[j].0 < next_id);
            }
        }
        *self = Connection { next_id, closed, pending };
        proof {
            lemma_waiting(old_self);
            lemma_waiting(*self);
            assert forall|k: u64| #[trigger]
                self.waiting().contains_key(k) <==> old_self.waiting().remove(id).contains_key(k) by {
                if self.waiting().contains_key(k) {
                    let n = choose|n: int| 0 <= n < pending@.len() && (#[trigger] pending@[n]).0 == k;
                    let j = choose|j: int| 0 <= j < before.len() && #[trigger] before[j] == pending@[n];
                    assert(before[j].0 == k);
                }
                if old_self.waiting().remove(id).contains_key(k) {
                    let j = choose|j: int| 0 <= j < before.len() && (#[trigger] before[j]).0 == k;
                    let n = choose|n: int| 0 <= n < pending@.len() && #[trigger] pending@[n] == before[j];
                    assert(pending@[n].0 == k);
                }
            }
            assert forall|k: u64| #[trigger] self.waiting().contains_key(k) implies self.waiting()[k]
                == old_self.waiting().remove(id)[k] by {
                let n = choose|n: int| 0 <= n < pending@.len() && (#[trigger] pending@[n]).0 == k;
                let j = choose|j: int| 0 <= j < before.len() && #[trigger] before[j] == pending@[n];
                assert(before[j].0 == k);
                assert(old_self.waiting()[k] == before[j].1);
                assert(self.waiting()[k] == pending@[n].1);
            }
            assert(self.waiting() =~= old_self.waiting().remove(id));
        }
        found
    }

    /// What a line means, and which waiting request it settles.
    pub fn dispatch(&mut self, line: Envelope) -> (r: Dispatch)
        ensures
            final(self).is_shut() == old(self).is_shut(),
            final(self).next() == old(self).next(),
            line.method is Some ==> {
                &&& r@ == DispatchView::Emit(method_event(line))
                &&& final(self).waiting() == old(self).waiting()
            },
            line.method is None && answered(line) is None ==> {
                &&& r@ == DispatchView::Emit(
                    EventView::ProtocolError("response without numeric request ID"@),
                )
                &&& final(self).waiting() == old(self).waiting()
            },
            line.method is None && answered(line) is Some ==> {
                let id = answered(line)->0;
                &&& final(self).waiting() == old(self).waiting().remove(id)
                &&& r@ == if !old(self).waiting().contains_key(id) {
                    DispatchView::Ignore
                } else if line.has_result {
                    DispatchView::Answer(id, old(self).waiting()[id])
                } else if line.error is Some {
                    DispatchView::Fail(
                        id,
                        TransportErrorView::Remote(line.error->0.code, line.error->0.message@),
                    )
                } else {
                    DispatchView::Fail(
                        id,
                        TransportErrorView::Protocol("response missing result and error"@),
                    )
                }
            },
    {
        match line.method {
            Some(method) => {
                let event = match line.params {
                    Params::Unreadable(reason) => match line.id {
                        Some(id) => Event::InvalidServerRequest { id, reason },
                        None => Event::ProtocolError(reason),
                    },
                    Params::Read(params) => match line.id {
                        Some(id) => Event::ServerRequest { id, method, params },
                        None => Event::Notification { method, params },
                    },
                    Params::Absent => match line.id {
                        Some(id) => Event::ServerRequest { id, method, params: Json::Null },
                        None => Event::Notification { method, params: Json::Null },
                    },
                };
                Dispatch::Emit(event)
            },
            None => {
                let number: Option<u64> = match &line.id {
                    Some(id) => id.as_u64(),
                    None => None,
                };
                match number {
                    None => Dispatch::Emit(
                        Event::ProtocolError("response without numeric request ID".to_owned()),
                    ),
                    Some(id) => match self.forget(id) {
                        None => {
                            assert(old(self).waiting().remove(id) =~= old(self).waiting());
                            Dispatch::Ignore
                        },
                        Some(catalog) => {
                            if line.has_result {
                                Dispatch::Answer { id, catalog }
                            } else {
                                match line.error {
                                    Some(e) => Dispatch::Fail {
                                        id,
                                        error: TransportError::Remote {
                                            code: e.code,
                                            message: e.message,
                                        },
                                    },
                                    None => Dispatch::Fail {
                                        id,
                                        error: TransportError::protocol(
                                            "response missing result and error",
                                        ),
                                    },
                                }
                            }
                        },
                    },
                }
            },
        }
    }

    /// Closes the connection. The first time, returns the requests whose result is now unknown;
    /// from then on nothing waits.
    pub fn close(&mut self) -> (r: Option<Vec<u64>>)
        ensures
            final(self).is_shut(),
            final(self).next() == old(self).next(),
            old(self).is_shut() ==> r is None && final(self).waiting() == old(self).waiting(),
            !old(self).is_shut() ==> {
                &&& r is Some
                &&& forall|id: u64| #[trigger]
                    old(self).waiting().contains_key(id) <==> r->0@.contains(id)
                &&& r->0@.no_duplicates()
                &&& final(self).waiting() == Map::<u64, bool>::empty()
            },
    {
        proof {
            use_type_invariant(&*self);
        }
        if self.closed {
            return None;
        }
        let mut ids: Vec<u64> = Vec::new();
        let mut i: usize = 0;
        let ghost before = self.pending@;
        while i < self.pending.len()
            invariant
                i <= self.pending@.len(),
                self.pending@ == before,
                ids@.len() == i,
                forall|j: int| 0 <= j < i ==> #[trigger] ids@[j] == before[j].0,
            decreases self.pending@.len() - i,
        {
            ids.push(self.pending[i].0);
            i += 1;
        }
        proof {
            assert forall|id: u64| #[trigger] self.waiting().contains_key(id) <==> ids@.contains(
                id,
            ) by {
                if self.waiting().contains_key(id) {
                    let j = choose|j: int| 0 <= j < before.len() && (#[trigger] before[j]).0 == id;
                    assert(ids@[j] == id);
                }
                if ids@.contains(id) {
                    let j = choose|j: int| 0 <= j < ids@.len() && ids@[j] == id;
                    assert(before[j].0 == id);
                }
            }
            assert forall|j: int, k: int| 0 <= j < ids@.len() && 0 <= k < ids@.len() && j
                != k implies ids@[j] != ids@[k] by {
                assert(before[j].0 != before[k].0);
            }
        }
        let next_id: u64 = self.next_id;
        *self = Connection { next_id, closed: true, pending: Vec::new() };
        assert(self.waiting() =~= Map::<u64, bool>::empty());
        Some(ids)
    }
}

proof fn lemma_waiting(c: Connection)
    requires
        c.numbered(),
    ensures
        forall|i: int|
            0 <= i < c.pending@.len() ==> c.waiting().contains_key((#[trigger] c.pending@[i]).0)
                && c.waiting()[c.pending@[i].0] == c.pending@[i].1,
{
    assert forall|i: int| 0 <= i < c.pending@.len() implies c.waiting().contains_key(
        (#[trigger] c.pending@[i]).0,
    ) && c.waiting()[c.pending@[i].0] == c.pending@[i].1 by {
        let id = c.pending@[i].0;
        let k = choose|k: int| 0 <= k < c.pending@.len() && (#[trigger] c.pending@[k]).0 == id;
        assert(c.pending@[k].0 == c.pending@[i].0);
        if k < i {
            assert(c.pending@[k].0 != c.pending@[i].0);
        }
        if i < k {
            assert(c.pending@[i].0 != c.pending@[k].0);
        }
    }
}

/// The line of a notification.
pub fn notification(method: &str, params: Json) -> (r: Json)
    ensures
        r@ == JsonView::Object(
            seq![
                ("jsonrpc"@, JsonView::Text("2.0"@)),
                ("method"@, JsonView::Text(method@)),
                ("params"@, params@),
            ],
        ),
{
    object3("jsonrpc", text("2.0"), "method", text(method), "params", params)
}

/// The line of a request.
pub fn request_line(id: u64, method: &str, params: Json) -> (r: Json)
    ensures
        r@ == JsonView::Object(
            seq![
                ("id"@, JsonView::Unsigned(id)),
                ("jsonrpc"@, JsonView::Text("2.0"@)),
                ("method"@, JsonView::Text(method@)),
                ("params"@, params@),
            ],
        ),
{
    object4("id", Json::Unsigned(id), "jsonrpc", text("2.0"), "method", text(method), "params", params)
}

/// The line that answers a request of the app server.
pub fn response_line(id: Json, result: Json) -> (r: Json)
    ensures
        r@ == JsonView::Object(
            seq![("id"@, id@), ("jsonrpc"@, JsonView::Text("2.0"@)), ("result"@, result@)],
        ),
{
    object3("id", id, "jsonrpc", text("2.0"), "result", result)
}

/// The line that refuses a request of the app server.
pub fn rejection_line(id: Json, code: i64, message: &str) -> (r: Json)
    ensures
        r@ == JsonView::Object(
            seq![
                (
                    "error"@,
                    JsonView::Object(
                        seq![
                            (
                                "code"@,
                                if code < 0 {
                                    JsonView::Negative(code)
                                } else {
                                    JsonView::Unsigned(code as u64)
                                },
                            ),
                            ("message"@, JsonView::Text(message@)),
                        ],
                    ),
                ),
                ("id"@, id@),
                ("jsonrpc"@, JsonView::Text("2.0"@)),
            ],
        ),
{
    let number = if code < 0 {
        Json::Negative(code)
    } else {
        Json::Unsigned(code as u64)
    };
    object3(
        "error",
        object2("code", number, "message", text(message)),
        "id",
        id,
        "jsonrpc",
        text("2.0"),
    )
}

} // verus!
