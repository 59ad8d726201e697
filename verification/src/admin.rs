//! Commands of the operator.
use crate::codec::{parsed_bytes, read_bytes};
use crate::config::Limits;
use crate::direct_store::{is_reason, reason_given};
use crate::json::{object1, object2, object5, text, Json, JsonView};
use crate::paths::{beside, sibling};
use vstd::prelude::*;
use vstd::string::*;

verus! {

/// How many bytes a command or an answer may have.
pub const MAX_FRAME_BYTES: usize = 65536;

/// How many commands are served at once.
pub const MAX_COMMANDS: usize = 8;

/// A command of the operator.
#[derive(Debug, PartialEq)]
pub enum Command {
    Status,
    ProxyInspect,
    ProxyAccept { review_token: String, reason: String, accept_risk: bool },
    Reload,
    Reconcile { request_id: String },
    Abandon { request_id: String, generation: i64, reason: String, accept_risk: bool },
    Backup { to: String },
    RecoveryRelease { restore_id: String, reason: String, accept_risk: bool },
}

/// The file that binds the configuration to one instance, beside the configuration.
pub fn binding(config: &str) -> (r: Result<String, &'static str>)
    ensures
        match beside(config@, "gateway-instance.json"@) {
            Some(s) => r is Ok && r->Ok_0@ == s,
            None => r is Err && r->Err_0@ == "configuration parent unavailable"@,
        },
{
    match sibling(config, "gateway-instance.json") {
        Some(s) => Ok(s),
        None => Err("configuration parent unavailable"),
    }
}

/// Whether a file names an instance and its state.
pub open spec fn names_instance(v: JsonView, instance: Seq<char>, state_dir: Seq<char>) -> bool {
    v.at("instance_uuid"@).says(instance) && v.at("state_dir"@).says(state_dir)
}

/// Whether the file that binds a configuration names the instance that its state holds.
pub fn validate_binding(file: &[u8], instance: &str, state_dir: &str) -> (r: Result<(), String>)
    ensures
        match parsed_bytes(file@) {
            Err(e) => r is Err && r->Err_0@ == e,
            Ok(v) => if names_instance(v, instance@, state_dir@) {
                r is Ok
            } else {
                r is Err && r->Err_0@ == "external instance binding mismatch"@
            },
        },
{
    match read_bytes(file) {
        Err(e) => Err(e),
        Ok(value) => match judge_binding(&value, instance, state_dir) {
            Ok(()) => Ok(()),
            Err(e) => Err(String::from_str(e)),
        },
    }
}

/// Whether what the binding of a configuration says names the instance that its state holds.
pub fn judge_binding(value: &Json, instance: &str, state_dir: &str) -> (r: Result<
    (),
    &'static str,
>)
    ensures
        r is Ok <==> names_instance(value@, instance@, state_dir@),
        r is Err ==> r->Err_0@ == "external instance binding mismatch"@,
{
    if value.at("instance_uuid").is_text(instance) && value.at("state_dir").is_text(state_dir) {
        Ok(())
    } else {
        Err("external instance binding mismatch")
    }
}

/// What the binding of a new instance says.
pub fn new_binding(instance: &str, state_dir: &str) -> (r: Json)
    ensures
        r@ == JsonView::Object(
            seq![
                ("instance_uuid"@, JsonView::Text(instance@)),
                ("state_dir"@, JsonView::Text(state_dir@)),
            ],
        ),
        names_instance(r@, instance@, state_dir@),
{
    proof {
        reveal_strlit("instance_uuid");
        reveal_strlit("state_dir");
        assert("instance_uuid"@.len() != "state_dir"@.len());
        let m = seq![
            ("instance_uuid"@, JsonView::Text(instance@)),
            ("state_dir"@, JsonView::Text(state_dir@)),
        ];
        assert(m[0].0 == "instance_uuid"@ && m[1].0 == "state_dir"@);
        reveal_with_fuel(crate::json::lookup, 3);
    }
    object2("instance_uuid", text(instance), "state_dir", text(state_dir))
}

/// Whether an answer fits.
pub fn check_response(bytes: usize) -> (r: Result<(), &'static str>)
    ensures
        r is Ok <==> bytes <= MAX_FRAME_BYTES,
        r is Err ==> r->Err_0@ == "admin response too large"@,
{
    if bytes <= MAX_FRAME_BYTES {
        Ok(())
    } else {
        Err("admin response too large")
    }
}

/// Whether a command fits.
pub fn check_request(bytes: usize) -> (r: Result<(), &'static str>)
    ensures
        r is Ok <==> bytes <= MAX_FRAME_BYTES,
        r is Err ==> r->Err_0@ == "admin request too large"@,
{
    if bytes <= MAX_FRAME_BYTES {
        Ok(())
    } else {
        Err("admin request too large")
    }
}

/// Whether what stands at the place of the operator's socket may be removed: only a socket of the
/// user that runs the gateway.
pub fn check_socket(is_socket: bool, owned: bool) -> (r: Result<(), &'static str>)
    ensures
        r is Ok <==> is_socket && owned,
        r is Err ==> r->Err_0@ == "unsafe existing admin socket"@,
{
    if is_socket && owned {
        Ok(())
    } else {
        Err("unsafe existing admin socket")
    }
}

/// Whether a gateway that answers belongs to the user that asks.
pub fn check_server(peer: u32, own: u32) -> (r: Result<(), &'static str>)
    ensures
        r is Ok <==> peer == own,
        r is Err ==> r->Err_0@ == "admin server UID mismatch"@,
{
    if peer == own {
        Ok(())
    } else {
        Err("admin server UID mismatch")
    }
}

/// Whether a caller is served: only the user that runs the gateway, and not too many at once.
pub fn serve(peer: u32, own: u32, jobs: usize) -> (r: bool)
    ensures
        r == (peer == own && jobs < MAX_COMMANDS),
{
    peer == own && jobs < MAX_COMMANDS
}

/// What the operator is answered. Of a failure nothing is told that could hold a secret.
pub fn respond(result: Option<Json>) -> (r: Json)
    ensures
        r@ == match result {
            Some(v) => JsonView::Object(
                seq![("ok"@, JsonView::Bool(true)), ("result"@, v@)],
            ),
            None => JsonView::Object(
                seq![
                    (
                        "error"@,
                        JsonView::Text(
                            "管理操作を完了できませんでした。設定・状態・対象IDを確認してください。"@,
                        ),
                    ),
                    ("ok"@, JsonView::Bool(false)),
                ],
            ),
        },
{
    match result {
        Some(v) => object2("ok", Json::Bool(true), "result", v),
        None => object2(
            "error",
            text("管理操作を完了できませんでした。設定・状態・対象IDを確認してください。"),
            "ok",
            Json::Bool(false),
        ),
    }
}

/// The status of the gateway.
pub fn status(database: Json, holds: Json, connected: bool, proxy_ready: bool, recovery: bool) -> (r: Json)
    ensures
        r@ == JsonView::Object(
            seq![
                ("connected"@, JsonView::Bool(connected)),
                ("database"@, database@),
                ("holds"@, holds@),
                ("proxy_ready"@, JsonView::Bool(proxy_ready)),
                ("recovery_pending"@, JsonView::Bool(recovery)),
            ],
        ),
{
    object5(
        "connected",
        Json::Bool(connected),
        "database",
        database,
        "holds",
        holds,
        "proxy_ready",
        Json::Bool(proxy_ready),
        "recovery_pending",
        Json::Bool(recovery),
    )
}

/// Whether an operator acknowledges giving a request up.
pub fn check_abandon(accept_risk: bool, reason: &str) -> (r: Result<(), &'static str>)
    ensures
        r is Ok <==> accept_risk && reason_given(reason@),
        r is Err ==> r->Err_0@ == "risk acknowledgement and reason required"@,
{
    if accept_risk && is_reason(reason) {
        Ok(())
    } else {
        Err("risk acknowledgement and reason required")
    }
}

/// Whether the proxy has given an execution up.
pub open spec fn given_up_remotely(remote: JsonView, response: Seq<char>) -> bool {
    remote.at("response_id"@).says(response) && remote.at("execution_status"@).says("unknown"@)
        && remote.at("hold_state"@).says("administratively_released"@) && remote.at(
        "dispatch_eligible"@,
    ).is_false()
}

/// Whether the hold of a request may be released: only where the proxy has released its own.
pub fn abandon(response: Option<&str>, remote: &Json) -> (r: Result<(), &'static str>)
    ensures
        match response {
            None => r is Err && r->Err_0@
                == "Proxy execution identity must be reconciled before release"@,
            Some(id) => if given_up_remotely(remote@, id@) {
                r is Ok
            } else {
                r is Err && r->Err_0@ == "Proxy operator must release the hold first"@
            },
        },
{
    match response {
        None => Err("Proxy execution identity must be reconciled before release"),
        Some(id) => {
            if remote.at("response_id").is_text(id) && remote.at("execution_status").is_text(
                "unknown",
            ) && remote.at("hold_state").is_text("administratively_released") && remote.at(
                "dispatch_eligible",
            ).is_bool(false) {
                Ok(())
            } else {
                Err("Proxy operator must release the hold first")
            }
        },
    }
}

/// Whether exactly the hold that was meant was released.
pub fn check_released(rows: usize) -> (r: Result<Json, &'static str>)
    ensures
        rows == 1 ==> r is Ok && r->Ok_0@ == JsonView::Object(
            seq![("hold_released"@, JsonView::Bool(true)), ("state"@, JsonView::Text("UNKNOWN"@))],
        ),
        rows != 1 ==> r is Err && r->Err_0@ == "UNKNOWN hold or generation mismatch"@,
{
    if rows == 1 {
        Ok(object2("hold_released", Json::Bool(true), "state", text("UNKNOWN")))
    } else {
        Err("UNKNOWN hold or generation mismatch")
    }
}

/// Whether an operator acknowledges the risk of ending a quarantine.
pub fn check_recovery_release(accept_risk: bool) -> (r: Result<Json, &'static str>)
    ensures
        accept_risk ==> r is Ok && r->Ok_0@ == JsonView::Object(
            seq![
                ("holds_and_pause_unchanged"@, JsonView::Bool(true)),
                ("recovery_released"@, JsonView::Bool(true)),
            ],
        ),
        !accept_risk ==> r is Err && r->Err_0@ == "risk acknowledgement required"@,
{
    if accept_risk {
        Ok(
            object2(
                "holds_and_pause_unchanged",
                Json::Bool(true),
                "recovery_released",
                Json::Bool(true),
            ),
        )
    } else {
        Err("risk acknowledgement required")
    }
}

/// Whether any limit is lower than before.
pub open spec fn shrinks(old: Limits, next: Limits) -> bool {
    next.attachments < old.attachments || next.attachment_bytes < old.attachment_bytes
        || next.input_bytes < old.input_bytes || next.text_bytes < old.text_bytes
        || next.image_pixels < old.image_pixels || next.artifact_bytes < old.artifact_bytes
        || next.temp_bytes < old.temp_bytes || next.output_bytes < old.output_bytes
        || next.output_total_bytes < old.output_total_bytes || next.delivery_retention_secs
        < old.delivery_retention_secs || next.queue_conversation < old.queue_conversation
        || next.queue_global < old.queue_global || next.validation_secs < old.validation_secs
}

/// Whether any limit is lower than before.
pub fn limits_shrink(old: &Limits, next: &Limits) -> (r: bool)
    ensures
        r == shrinks(*old, *next),
{
    next.attachments < old.attachments || next.attachment_bytes < old.attachment_bytes
        || next.input_bytes < old.input_bytes || next.text_bytes < old.text_bytes
        || next.image_pixels < old.image_pixels || next.artifact_bytes < old.artifact_bytes
        || next.temp_bytes < old.temp_bytes || next.output_bytes < old.output_bytes
        || next.output_total_bytes < old.output_total_bytes || next.delivery_retention_secs
        < old.delivery_retention_secs || next.queue_conversation < old.queue_conversation
        || next.queue_global < old.queue_global || next.validation_secs < old.validation_secs
}

/// Why the limits of a running gateway cannot change as asked.
pub open spec fn limits_objection(old: Limits, next: Limits, used: nat, busy: bool, sending: bool) -> Option<
    Seq<char>,
> {
    if used > next.temp_bytes {
        Some("temporary budget below current usage"@)
    } else if shrinks(old, next) && (busy || sending) {
        Some("limit reduction requires an idle gateway"@)
    } else {
        None
    }
}

/// Whether the limits of a running gateway may change. Work that was taken in under the old limits
/// is not invalidated by lower ones.
pub fn reload(old: &Limits, next: &Limits, used: u64, busy: bool, sending: bool) -> (r: Result<
    (),
    &'static str,
>)
    ensures
        match limits_objection(*old, *next, used as nat, busy, sending) {
            None => r is Ok,
            Some(e) => r is Err && r->Err_0@ == e,
        },
{
    if used > next.temp_bytes {
        return Err("temporary budget below current usage");
    }
    if limits_shrink(old, next) && (busy || sending) {
        return Err("limit reduction requires an idle gateway");
    }
    Ok(())
}

/// Whether the configuration was stored over the revision that it was checked against.
pub fn check_revision(rows: usize) -> (r: Result<Json, &'static str>)
    ensures
        rows == 1 ==> r is Ok && r->Ok_0@ == JsonView::Object(seq![("reloaded"@, JsonView::Bool(true))]),
        rows != 1 ==> r is Err && r->Err_0@ == "config revision conflict"@,
{
    if rows == 1 {
        Ok(object1("reloaded", Json::Bool(true)))
    } else {
        Err("config revision conflict")
    }
}

} // verus!
