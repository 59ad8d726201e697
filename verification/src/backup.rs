//! Backups of the state, and the quarantine after a restore.
use crate::codec::{parsed_bytes, read_bytes, sha256_hex};
use crate::direct_store::{is_reason, reason_given};
use crate::domain::{digest, RequestState};
use crate::json::{object4, text, Json, JsonView};
use crate::paths::{beside, components, path_components, sibling};
use crate::text::{begins, opt_str, opt_view, same, some_same, starts_with, views};
use vstd::prelude::*;
use vstd::string::*;

verus! {

/// What a backup says of itself.
#[derive(Debug)]
pub struct Manifest {
    pub format_version: u32,
    pub backup_id: String,
    pub schema_version: i64,
    pub instance_uuid: String,
    pub started_at: i64,
    pub completed_at: i64,
    pub build: String,
    pub db_bytes: u64,
    pub sha256: String,
    pub integrity: String,
}

/// What was found of a database file.
#[derive(Debug)]
pub struct FoundDatabase {
    pub bytes: u64,
    pub sha256: String,
    pub schema: i64,
    pub instance: String,
}

/// The name of the last component of a path.
pub open spec fn final_name(path: Seq<char>) -> Option<Seq<char>> {
    let c = components(path);
    if c.len() == 0 || c.last() == "/"@ || c.last() == "."@ || c.last() == ".."@ {
        None
    } else {
        Some(c.last())
    }
}

fn file_name(path: &str) -> (r: Option<String>)
    ensures
        opt_view(r) == final_name(path@),
{
    let mut c = path_components(path);
    assert(views(c@).len() == c@.len());
    let ghost all = views(c@);
    match c.pop() {
        None => None,
        Some(last) => {
            assert(all.last() == last@);
            if same(last.as_str(), "/") || same(last.as_str(), ".") || same(last.as_str(), "..") {
                None
            } else {
                Some(last)
            }
        },
    }
}

/// The name of the directory in which a backup is made before it is complete.
pub open spec fn stage_name(id: Seq<char>) -> Seq<char> {
    ".backup-"@ + id
}

pub fn stage(id: &str) -> (r: String)
    ensures
        r@ == stage_name(id@),
{
    String::from_str(".backup-").concat(id)
}

/// Why a bundle is not accepted as a backup.
pub open spec fn bundle_objection(bundle: Seq<char>, m: Manifest, found: FoundDatabase) -> Option<
    Seq<char>,
> {
    let name = final_name(bundle);
    if name is None || begins(name->0, ".backup-"@) {
        Some("incomplete backup"@)
    } else if m.format_version != 1 || m.integrity@ != "ok"@ {
        Some("unsupported backup manifest"@)
    } else if found.bytes != m.db_bytes || found.sha256@ != m.sha256@ {
        Some("backup checksum mismatch"@)
    } else if found.schema != m.schema_version || found.instance@ != m.instance_uuid@ {
        Some("backup identity mismatch"@)
    } else {
        None
    }
}

/// Whether a bundle is a complete backup: its manifest and the database in it agree.
pub fn verify(bundle: &str, manifest: &Manifest, found: &FoundDatabase) -> (r: Result<
    (),
    &'static str,
>)
    ensures
        match bundle_objection(bundle@, *manifest, *found) {
            None => r is Ok,
            Some(e) => r is Err && r->Err_0@ == e,
        },
{
    match file_name(bundle) {
        None => {
            return Err("incomplete backup");
        },
        Some(name) => {
            if starts_with(name.as_str(), ".backup-") {
                return Err("incomplete backup");
            }
        },
    }
    if manifest.format_version != 1 || !same(manifest.integrity.as_str(), "ok") {
        return Err("unsupported backup manifest");
    }
    if found.bytes != manifest.db_bytes || !same(found.sha256.as_str(), manifest.sha256.as_str()) {
        return Err("backup checksum mismatch");
    }
    if found.schema != manifest.schema_version || !same(
        found.instance.as_str(),
        manifest.instance_uuid.as_str(),
    ) {
        return Err("backup identity mismatch");
    }
    Ok(())
}

/// Whether a backup may be made at a place.
pub fn check_target(exists: bool, parent: Option<bool>) -> (r: Result<(), &'static str>)
    ensures
        exists ==> r is Err && r->Err_0@ == "backup target already exists"@,
        !exists && parent is None ==> r is Err && r->Err_0@ == "backup parent required"@,
        !exists && parent == Some(false) ==> r is Err && r->Err_0@ == "backup parent unavailable"@,
        !exists && parent == Some(true) ==> r is Ok,
{
    if exists {
        return Err("backup target already exists");
    }
    match parent {
        None => Err("backup parent required"),
        Some(false) => Err("backup parent unavailable"),
        Some(true) => Ok(()),
    }
}

/// The manifest of a database that was copied and validated.
pub fn create(found: &FoundDatabase, backup_id: &str, started_at: i64, completed_at: i64, build: &str) -> (r:
    Manifest)
    ensures
        r.format_version == 1,
        r.integrity@ == "ok"@,
        r.backup_id@ == backup_id@,
        r.schema_version == found.schema,
        r.instance_uuid@ == found.instance@,
        r.started_at == started_at,
        r.completed_at == completed_at,
        r.build@ == build@,
        r.db_bytes == found.bytes,
        r.sha256@ == found.sha256@,
{
    Manifest {
        format_version: 1,
        backup_id: backup_id.to_owned(),
        schema_version: found.schema,
        instance_uuid: found.instance.clone(),
        started_at,
        completed_at,
        build: build.to_owned(),
        db_bytes: found.bytes,
        sha256: found.sha256.clone(),
        integrity: String::from_str("ok"),
    }
}

/// The size and the digest of a file.
pub fn hash_file(content: &[u8]) -> (r: (u64, String))
    ensures
        r.0 == content@.len(),
        r.1@ == sha256_hex(content@),
{
    (content.len() as u64, digest(content))
}

/// A backup that was completed is accepted as long as its database stays what it was, and only
/// then.
pub proof fn completed_backups_are_accepted(bundle: Seq<char>, m: Manifest, made: FoundDatabase, found: FoundDatabase)
    requires
        m.format_version == 1,
        m.integrity@ == "ok"@,
        m.schema_version == made.schema,
        m.instance_uuid@ == made.instance@,
        m.db_bytes == made.bytes,
        m.sha256@ == made.sha256@,
        final_name(bundle) is Some,
        !begins(final_name(bundle)->0, ".backup-"@),
    ensures
        bundle_objection(bundle, m, found) is None <==> found.bytes == made.bytes && found.sha256@
            == made.sha256@ && found.schema == made.schema && found.instance@ == made.instance@,
{
}

/// A backup whose making was interrupted is never accepted, whatever its directory holds.
pub proof fn staged_backups_are_refused(bundle: Seq<char>, id: Seq<char>, m: Manifest, found: FoundDatabase)
    requires
        final_name(bundle) == Some(stage_name(id)),
    ensures
        bundle_objection(bundle, m, found) == Some("incomplete backup"@),
{
    assert(stage_name(id).take(".backup-"@.len() as int) =~= ".backup-"@);
}

/// The file that says that a restore is pending, beside the configuration.
pub fn marker(config_path: &str) -> (r: Result<String, &'static str>)
    ensures
        match beside(config_path@, "recovery/restore-pending.json"@) {
            Some(s) => r is Ok && r->Ok_0@ == s,
            None => r is Err && r->Err_0@ == "config parent unavailable"@,
        },
{
    match sibling(config_path, "recovery/restore-pending.json") {
        Some(s) => Ok(s),
        None => Err("config parent unavailable"),
    }
}

/// What the marker of a restore says.
pub fn restore_marker(restore_id: &str, instance: &str, state_dir: &str, backup_id: &str) -> (r: Json)
    ensures
        r@ == JsonView::Object(
            seq![
                ("backup_id"@, JsonView::Text(backup_id@)),
                ("instance_uuid"@, JsonView::Text(instance@)),
                ("restore_id"@, JsonView::Text(restore_id@)),
                ("state_dir"@, JsonView::Text(state_dir@)),
            ],
        ),
{
    object4(
        "backup_id",
        text(backup_id),
        "instance_uuid",
        text(instance),
        "restore_id",
        text(restore_id),
        "state_dir",
        text(state_dir),
    )
}

/// Whether a verified backup may be restored over the present state.
pub fn restore(manifest: &Manifest, instance: &str, pending: bool) -> (r: Result<(), &'static str>)
    ensures
        manifest.instance_uuid@ != instance@ ==> r is Err && r->Err_0@ == "different backup instance"@,
        manifest.instance_uuid@ == instance@ && pending ==> r is Err && r->Err_0@
            == "recovery already pending"@,
        manifest.instance_uuid@ == instance@ && !pending ==> r is Ok,
{
    if !same(manifest.instance_uuid.as_str(), instance) {
        return Err("different backup instance");
    }
    if pending {
        return Err("recovery already pending");
    }
    Ok(())
}

/// What the quarantine touches of a request.
#[derive(Debug)]
pub struct QuarantinedRequest {
    pub state: RequestState,
    pub version: i64,
    pub dispatch_eligible: bool,
    pub stop_requested: bool,
    pub restore_id: Option<String>,
    pub error_code: Option<String>,
}

/// Whether a restore was already taken into account.
pub fn already_quarantined(prior: Option<&str>, restore_id: &str) -> (r: bool)
    ensures
        r == (opt_str(prior) == Some(restore_id@)),
{
    some_same(prior, restore_id)
}

/// What becomes of a request in a quarantine.
pub open spec fn request_quarantined(old: QuarantinedRequest, new: QuarantinedRequest, restore: Seq<char>) -> bool {
    if old.state.ended() {
        new == old
    } else {
        &&& new.state == RequestState::Unknown
        &&& new.version == old.version + 1
        &&& !new.dispatch_eligible
        &&& !new.stop_requested
        &&& opt_view(new.restore_id) == Some(restore)
        &&& opt_view(new.error_code) == Some("restore_quarantined"@)
    }
}

impl QuarantinedRequest {
    /// Puts a request that had not ended at the time of the backup under quarantine: what became of
    /// it since is unknown.
    pub fn quarantine(&mut self, restore_id: &str)
        requires
            old(self).version < i64::MAX,
        ensures
            request_quarantined(*old(self), *final(self), restore_id@),
    {
        if !self.state.terminal() {
            self.state = RequestState::Unknown;
            self.version = self.version + 1;
            self.dispatch_eligible = false;
            self.stop_requested = false;
            self.restore_id = Some(restore_id.to_owned());
            self.error_code = Some(String::from_str("restore_quarantined"));
        }
    }
}

/// After a restore no request that was open at the time of the backup can be sent, and those that
/// had ended stay as they were.
pub proof fn restored_requests_are_not_sent(old: QuarantinedRequest, new: QuarantinedRequest, restore: Seq<char>)
    requires
        request_quarantined(old, new, restore),
    ensures
        old.state.ended() ==> new.state == old.state,
        !old.state.ended() ==> new.state == RequestState::Unknown && !new.dispatch_eligible,
        !new.state.may_become(RequestState::Sending) || old.state.ended(),
{
}

/// The state of sending of a control that a quarantine supersedes.
pub fn superseded_send_state<'a>(send_state: &'a str) -> (r: &'a str)
    ensures
        r@ == if send_state@ == "NOT_SENT"@ {
            "UNKNOWN"@
        } else {
            send_state@
        },
{
    if same(send_state, "NOT_SENT") {
        "UNKNOWN"
    } else {
        send_state
    }
}

/// Why an operator may not end the quarantine of a restore. `marker` is what the marker file says,
/// where there is one; `current` is the restore that the state holds.
pub open spec fn release_objection(
    reason: Seq<char>,
    marker: Option<Result<JsonView, Seq<char>>>,
    current: Option<Seq<char>>,
    restore_id: Seq<char>,
) -> Option<Seq<char>> {
    if !reason_given(reason) {
        Some("reason required"@)
    } else if marker is Some && marker->0 is Err {
        Some(marker->0->Err_0)
    } else if marker is Some && !marker->0->Ok_0.at("restore_id"@).says(restore_id) {
        Some("marker mismatch"@)
    } else if current != Some(restore_id) {
        Some("restore ID mismatch"@)
    } else {
        None
    }
}

/// Whether an operator may end the quarantine of a restore. `marker` holds the bytes of the marker
/// file, where there is one.
pub fn release(reason: &str, marker: Option<&Vec<u8>>, current: Option<&str>, restore_id: &str) -> (r:
    Result<(), String>)
    ensures
        match release_objection(
            reason@,
            match marker {
                Some(b) => Some(parsed_bytes(b@)),
                None => None,
            },
            opt_str(current),
            restore_id@,
        ) {
            None => r is Ok,
            Some(e) => r is Err && r->Err_0@ == e,
        },
{
    match marker {
        None => judge_release(reason, None, current, restore_id),
        Some(b) => {
            let read = read_bytes(b.as_slice());
            judge_release(reason, Some(&read), current, restore_id)
        },
    }
}

/// Whether an operator may end the quarantine of a restore, with the marker as it was read.
pub fn judge_release(
    reason: &str,
    marker: Option<&Result<Json, String>>,
    current: Option<&str>,
    restore_id: &str,
) -> (r: Result<(), String>)
    ensures
        match release_objection(
            reason@,
            match marker {
                Some(Ok(v)) => Some(Ok(v@)),
                Some(Err(e)) => Some(Err(e@)),
                None => None,
            },
            opt_str(current),
            restore_id@,
        ) {
            None => r is Ok,
            Some(e) => r is Err && r->Err_0@ == e,
        },
{
    if !is_reason(reason) {
        return Err(String::from_str("reason required"));
    }
    match marker {
        None => {},
        Some(Err(e)) => {
            return Err(e.clone());
        },
        Some(Ok(m)) => {
            if !m.at("restore_id").is_text(restore_id) {
                return Err(String::from_str("marker mismatch"));
            }
        },
    }
    if !some_same(current, restore_id) {
        return Err(String::from_str("restore ID mismatch"));
    }
    Ok(())
}

} // verus!
