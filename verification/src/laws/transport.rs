//! Requests to Codex are answered by their own answers.
use crate::codex_transport::{
    exact_params, notification, rejection_line, request_line, response_line, Connection, Dispatch,
    Envelope, TransportError,
};
use crate::json::{lookup, Json, JsonView};
use vstd::prelude::*;

verus! {

/// A request gets a number that no open request has, and waits under it; a closed connection sends
/// nothing.
pub proof fn requests_wait_under_their_number(
    c: &mut Connection,
    method: &str,
    r: Result<u64, TransportError>,
)
    requires
        call_ensures(Connection::begin, (c, method), r),
        old(c).next() < u64::MAX,
    ensures
        r is Ok <==> !old(c).is_shut(),
        r is Ok ==> !old(c).waiting().contains_key(r->Ok_0) && final(c).waiting().contains_key(
            r->Ok_0,
        ) && final(c).next() > r->Ok_0,
        r is Ok ==> (final(c).waiting()[r->Ok_0] <==> method@ == "mcpServerStatus/list"@),
        r is Err ==> r->Err_0@ is NotSent && final(c).waiting() == old(c).waiting(),
        forall|id: u64| #[trigger]
            old(c).waiting().contains_key(id) ==> final(c).waiting().contains_key(id),
{
}

/// An answer goes to the request whose number it bears, and to that one once; an answer to no open
/// request is left alone; what bears a method is passed on as an event and answers nothing.
pub proof fn answers_go_to_their_request(c: &mut Connection, line: Envelope, r: Dispatch, id: u64)
    requires
        call_ensures(Connection::dispatch, (c, line), r),
    ensures
        r is Answer ==> line.method is None && line.has_result && line.id is Some && line.id->0@
            == JsonView::Unsigned(r->Answer_id) && old(c).waiting().contains_key(r->Answer_id)
            && !final(c).waiting().contains_key(r->Answer_id),
        r is Fail ==> line.method is None && !line.has_result && line.id is Some && line.id->0@
            == JsonView::Unsigned(r->Fail_id) && old(c).waiting().contains_key(r->Fail_id)
            && !final(c).waiting().contains_key(r->Fail_id),
        r is Fail && line.error is Some ==> r->error@ is Remote && r->error@->Remote_0
            == line.error->0.code && r->error@->Remote_1 == line.error->0.message@,
        r is Fail && line.error is None ==> r->error@ is Protocol,
        line.method is None && line.id is Some && line.id->0@ == JsonView::Unsigned(id) && old(
            c).waiting().contains_key(id) && line.has_result ==> r is Answer && r->Answer_id == id
            && r->catalog == old(c).waiting()[id],
        line.method is None && line.id is Some && line.id->0@ == JsonView::Unsigned(id) && !old(
            c).waiting().contains_key(id) ==> r is Ignore,
        line.method is Some ==> r is Emit && final(c).waiting() == old(c).waiting(),
        (line.id is None || line.id->0@ != JsonView::Unsigned(id)) && old(
            c).waiting().contains_key(id) ==> final(c).waiting().contains_key(id),
{
    let k = r@;
}

/// What Codex asks or tells is passed on as it came: with a number it is a request, without one it
/// is news, and what cannot be read is neither.
pub proof fn events_are_passed_on_as_they_came(c: &mut Connection, line: Envelope, r: Dispatch)
    requires
        call_ensures(Connection::dispatch, (c, line), r),
        line.method is Some,
    ensures
        r is Emit,
        line.id is Some && line.params is Read ==> r->Emit_0@ is ServerRequest
            && r->Emit_0@->ServerRequest_0 == line.id->0@ && r->Emit_0@->ServerRequest_1
            == line.method->0@ && r->Emit_0@->ServerRequest_2 == line.params->Read_0@,
        line.id is None && line.params is Read ==> r->Emit_0@ is Notification
            && r->Emit_0@->Notification_0 == line.method->0@ && r->Emit_0@->Notification_1
            == line.params->Read_0@,
        line.id is Some && line.params is Unreadable ==> r->Emit_0@ is InvalidServerRequest
            && r->Emit_0@->InvalidServerRequest_0 == line.id->0@,
        line.id is None && line.params is Unreadable ==> r->Emit_0@ is ProtocolError,
{
    let k = r@;
}

/// Closing leaves no request open: each that waited is given up, once.
pub proof fn closing_gives_up_what_waits(c: &mut Connection, r: Option<Vec<u64>>)
    requires
        call_ensures(Connection::close, (c,), r),
    ensures
        final(c).is_shut(),
        r is Some <==> !old(c).is_shut(),
        r is Some ==> final(c).waiting() == Map::<u64, bool>::empty() && r->0@.no_duplicates(),
{
}

/// A request that is given up does not wait any more; the others do.
pub proof fn forgotten_requests_do_not_wait(c: &mut Connection, id: u64, r: Option<bool>, other: u64)
    requires
        call_ensures(Connection::forget, (c, id), r),
    ensures
        r is Some <==> old(c).waiting().contains_key(id),
        !final(c).waiting().contains_key(id),
        other != id ==> (final(c).waiting().contains_key(other) <==> old(c).waiting().contains_key(
            other,
        )),
{
}

/// Requests and the start of an item are read exactly; other news is not.
pub proof fn requests_are_read_exactly(has_id: bool, method: &str, r: bool)
    requires
        call_ensures(exact_params, (has_id, method), r),
    ensures
        r <==> has_id || method@ == "item/started"@,
{
}

/// A line carries the number, the method and the parameters that were given.
pub proof fn lines_carry_what_was_given(
    id: u64,
    method: &str,
    params: Json,
    request: Json,
    news: Json,
)
    requires
        call_ensures(request_line, (id, method, params), request),
        call_ensures(notification, (method, params), news),
    ensures
        request@.at("id"@) == JsonView::Unsigned(id),
        request@.at("method"@) == JsonView::Text(method@),
        request@.at("params"@) == params@,
        request@.at("jsonrpc"@) == JsonView::Text("2.0"@),
        news@.at("id"@) == JsonView::Null,
        news@.at("method"@) == JsonView::Text(method@),
        news@.at("params"@) == params@,
        news@.at("jsonrpc"@) == JsonView::Text("2.0"@),
{
    reveal_strlit("id");
    reveal_strlit("jsonrpc");
    reveal_strlit("method");
    reveal_strlit("params");
    assert("id"@.len() == 2 && "jsonrpc"@.len() == 7 && "method"@.len() == 6 && "params"@.len() == 6);
    assert("method"@[0] != "params"@[0]);
    let m = request@->Object_0;
    assert(m[0].0 == "id"@ && m[1].0 == "jsonrpc"@ && m[2].0 == "method"@ && m[3].0 == "params"@);
    let n = news@->Object_0;
    assert(n[0].0 == "jsonrpc"@ && n[1].0 == "method"@ && n[2].0 == "params"@);
    reveal_with_fuel(lookup, 5);
}

/// A reply bears the number of the request that it answers, and either a result or a refusal.
pub proof fn replies_bear_the_number_they_answer(
    id: Json,
    result: Json,
    code: i64,
    message: &str,
    reply: Json,
    refusal: Json,
)
    requires
        call_ensures(response_line, (id, result), reply),
        call_ensures(rejection_line, (id, code, message), refusal),
    ensures
        reply@.at("id"@) == id@,
        reply@.at("result"@) == result@,
        reply@.at("error"@) == JsonView::Null,
        refusal@.at("id"@) == id@,
        refusal@.at("result"@) == JsonView::Null,
        refusal@.at("error"@).at("message"@) == JsonView::Text(message@),
        code < 0 ==> refusal@.at("error"@).at("code"@) == JsonView::Negative(code),
        code >= 0 ==> refusal@.at("error"@).at("code"@) == JsonView::Unsigned(code as u64),
{
    reveal_strlit("id");
    reveal_strlit("jsonrpc");
    reveal_strlit("result");
    reveal_strlit("error");
    assert("id"@.len() == 2 && "jsonrpc"@.len() == 7 && "result"@.len() == 6 && "error"@.len() == 5);
    reveal_strlit("code");
    reveal_strlit("message");
    assert("code"@.len() == 4 && "message"@.len() == 7);
    let m = reply@->Object_0;
    assert(m[0].0 == "id"@ && m[1].0 == "jsonrpc"@ && m[2].0 == "result"@);
    let n = refusal@->Object_0;
    assert(n[0].0 == "error"@ && n[1].0 == "id"@ && n[2].0 == "jsonrpc"@);
    let e = n[0].1->Object_0;
    assert(e[0].0 == "code"@ && e[1].0 == "message"@);
    reveal_with_fuel(lookup, 4);
}

} // verus!
