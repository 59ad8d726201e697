//! The one-way handover from a service behind a proxy, done while the gateway is stopped.
use crate::files::{integer, integer_view};
use crate::json::{object3, object5, text, Json, JsonView};
use crate::paths::{is_within, paths_overlap};
use crate::text::{opt_str, same};
use vstd::prelude::*;
use vstd::string::*;

verus! {

/// From this schema on the database says which runtime it serves.
pub const MODE_SCHEMA: i64 = 12;

/// What is unfinished in a database.
#[derive(Clone, Copy, Debug)]
pub struct Unfinished {
    pub requests: i64,
    pub admissions: i64,
    pub deliveries: i64,
    pub holds: i64,
    pub controls: i64,
}

/// Why a database is not at rest.
pub open spec fn rest_objection(u: Unfinished) -> Option<Seq<char>> {
    if u.requests != 0 {
        Some("cutover blocked by unfinished requests"@)
    } else if u.admissions != 0 {
        Some("cutover blocked by unfinished admissions"@)
    } else if u.deliveries != 0 {
        Some("cutover blocked by unfinished resource deliveries"@)
    } else if u.holds != 0 {
        Some("cutover blocked by unreleased execution holds"@)
    } else if u.controls != 0 {
        Some("cutover blocked by unfinished controls"@)
    } else {
        None
    }
}

/// Whether nothing in a database is unfinished.
pub fn assert_quiescent(u: &Unfinished) -> (r: Result<(), &'static str>)
    ensures
        match rest_objection(*u) {
            None => r is Ok,
            Some(e) => r is Err && r->Err_0@ == e,
        },
{
    if u.requests != 0 {
        Err("cutover blocked by unfinished requests")
    } else if u.admissions != 0 {
        Err("cutover blocked by unfinished admissions")
    } else if u.deliveries != 0 {
        Err("cutover blocked by unfinished resource deliveries")
    } else if u.holds != 0 {
        Err("cutover blocked by unreleased execution holds")
    } else if u.controls != 0 {
        Err("cutover blocked by unfinished controls")
    } else {
        Ok(())
    }
}

/// A point of the handover, with what is known there.
#[derive(Debug)]
pub enum Cutover<'a> {
    /// The database before anything is done.
    Source { schema: i64, supported: i64, served: Option<&'a str>, unfinished: Unfinished },
    /// The backup, as made and as read back.
    Backup { made: &'a str, read: &'a str, read_instance: &'a str, instance: &'a str },
    /// The trial of the migration on a copy of the backup.
    Trial { unfinished: Unfinished, integrity: &'a str, broken_keys: bool },
    /// The database itself, migrated, before the change is stored.
    Target { mode: &'a str, unfinished: Unfinished },
}

/// Why the handover stops at a point.
pub open spec fn cutover_objection(at: Cutover) -> Option<Seq<char>> {
    match at {
        Cutover::Source { schema, supported, served, unfinished } => if schema > supported {
            Some("unsupported database schema"@)
        } else if schema >= MODE_SCHEMA && opt_str(served) != Some("proxy"@) {
            Some("database was already converted to direct Codex"@)
        } else {
            rest_objection(unfinished)
        },
        Cutover::Backup { made, read, read_instance, instance } => if made@ != read@
            || read_instance@ != instance@ {
            Some("cutover backup verification failed"@)
        } else {
            None
        },
        Cutover::Trial { unfinished, integrity, broken_keys } => match rest_objection(unfinished) {
            Some(e) => Some(e),
            None => if integrity@ != "ok"@ {
                Some("trial migration failed integrity check"@)
            } else if broken_keys {
                Some("trial migration failed foreign key check"@)
            } else {
                None
            },
        },
        Cutover::Target { mode, unfinished } => if mode@ != "proxy"@ {
            Some("database was already converted to direct Codex"@)
        } else {
            rest_objection(unfinished)
        },
    }
}

/// Whether the handover goes on at a point.
pub fn cutover(at: Cutover<'_>) -> (r: Result<(), &'static str>)
    ensures
        match cutover_objection(at) {
            None => r is Ok,
            Some(e) => r is Err && r->Err_0@ == e,
        },
{
    match at {
        Cutover::Source { schema, supported, served, unfinished } => {
            if schema > supported {
                return Err("unsupported database schema");
            }
            let proxy = match served {
                Some(m) => same(m, "proxy"),
                None => false,
            };
            if schema >= MODE_SCHEMA && !proxy {
                return Err("database was already converted to direct Codex");
            }
            assert_quiescent(&unfinished)
        },
        Cutover::Backup { made, read, read_instance, instance } => {
            if same(made, read) && same(read_instance, instance) {
                Ok(())
            } else {
                Err("cutover backup verification failed")
            }
        },
        Cutover::Trial { unfinished, integrity, broken_keys } => {
            match assert_quiescent(&unfinished) {
                Err(e) => Err(e),
                Ok(()) => {
                    if !same(integrity, "ok") {
                        Err("trial migration failed integrity check")
                    } else if broken_keys {
                        Err("trial migration failed foreign key check")
                    } else {
                        Ok(())
                    }
                },
            }
        },
        Cutover::Target { mode, unfinished } => {
            if !same(mode, "proxy") {
                return Err("database was already converted to direct Codex");
            }
            assert_quiescent(&unfinished)
        },
    }
}

/// The handover is made once, and never over unfinished work.
pub proof fn handover_is_made_once_at_rest(mode: &str, unfinished: Unfinished)
    ensures
        cutover_objection(Cutover::Target { mode, unfinished }) is None <==> mode@ == "proxy"@
            && rest_objection(unfinished) is None,
{
}

/// What a handover changes of a conversation: its context, not its history.
#[derive(Debug)]
pub struct Continuation {
    pub continuation: String,
    pub last_response_id: Option<String>,
    pub proxy_thread_id: Option<String>,
    pub effective_model: Option<String>,
    pub effective_reasoning_effort: Option<String>,
    pub selected_model: String,
    pub selected_reasoning_effort: String,
    pub selection_revision: i64,
    pub effort_revision: i64,
}

impl Continuation {
    /// Clears what a conversation would continue, so that its next message starts afresh.
    pub fn begin_afresh(&mut self, model: &str, effort: &str)
        requires
            old(self).selection_revision < i64::MAX,
            old(self).effort_revision < i64::MAX,
        ensures
            final(self).continuation@ == "NEW"@,
            final(self).last_response_id is None,
            final(self).proxy_thread_id is None,
            final(self).effective_model is None,
            final(self).effective_reasoning_effort is None,
            final(self).selected_model@ == model@,
            final(self).selected_reasoning_effort@ == effort@,
            final(self).selection_revision == old(self).selection_revision + 1,
            final(self).effort_revision == old(self).effort_revision + 1,
    {
        self.continuation = String::from_str("NEW");
        self.last_response_id = None;
        self.proxy_thread_id = None;
        self.effective_model = None;
        self.effective_reasoning_effort = None;
        self.selected_model = model.to_owned();
        self.selected_reasoning_effort = effort.to_owned();
        self.selection_revision = self.selection_revision + 1;
        self.effort_revision = self.effort_revision + 1;
    }
}

/// The reason that is stored for a handover.
pub fn cutover_reason(backup_id: &str) -> (r: String)
    ensures
        r@ == "backup="@ + backup_id@ + "; fresh Codex context; historical requests retained"@,
{
    String::from_str("backup=").concat(backup_id).concat(
        "; fresh Codex context; historical requests retained",
    )
}

/// A point of starting afresh beside an archive, with what is known there.
#[derive(Debug)]
pub enum ArchiveInit<'a> {
    /// The two directories, with every link resolved.
    Directories { legacy: &'a str, direct: &'a str },
    /// The old database and the place of the new one.
    Databases { mode: Option<&'a str>, exists: bool },
    /// The archive, as made and as read back.
    Archive { made: &'a str, read: &'a str },
}

/// Why starting afresh stops at a point.
pub open spec fn archive_objection(at: ArchiveInit) -> Option<Seq<char>> {
    match at {
        ArchiveInit::Directories { legacy, direct } => if paths_overlap(legacy@, direct@) {
            Some("legacy and direct state directories must be separate"@)
        } else {
            None
        },
        ArchiveInit::Databases { mode, exists } => if mode is Some && mode->0@ != "proxy"@ {
            Some("legacy database is not Proxy-backed"@)
        } else if exists {
            Some("direct database already exists"@)
        } else {
            None
        },
        ArchiveInit::Archive { made, read } => if made@ != read@ {
            Some("archive verification changed"@)
        } else {
            None
        },
    }
}

/// Whether starting afresh goes on at a point.
pub fn archive_init(at: ArchiveInit<'_>) -> (r: Result<(), &'static str>)
    ensures
        match archive_objection(at) {
            None => r is Ok,
            Some(e) => r is Err && r->Err_0@ == e,
        },
{
    match at {
        ArchiveInit::Directories { legacy, direct } => {
            if is_within(legacy, direct) || is_within(direct, legacy) {
                Err("legacy and direct state directories must be separate")
            } else {
                Ok(())
            }
        },
        ArchiveInit::Databases { mode, exists } => {
            if let Some(m) = mode {
                if !same(m, "proxy") {
                    return Err("legacy database is not Proxy-backed");
                }
            }
            if exists {
                Err("direct database already exists")
            } else {
                Ok(())
            }
        },
        ArchiveInit::Archive { made, read } => {
            if same(made, read) {
                Ok(())
            } else {
                Err("archive verification changed")
            }
        },
    }
}

/// What is stored while starting afresh is not complete.
pub fn archive_pending(backup_id: &str, archive: &str, legacy: &str) -> (r: Json)
    ensures
        r@ == JsonView::Object(
            seq![
                ("archive"@, JsonView::Text(archive@)),
                ("backup_id"@, JsonView::Text(backup_id@)),
                ("legacy_state"@, JsonView::Text(legacy@)),
            ],
        ),
{
    object3("archive", text(archive), "backup_id", text(backup_id), "legacy_state", text(legacy))
}

/// What is stored of starting afresh: nothing of the old state is sent again.
pub fn archive_audit(backup_id: &str, archive: &str, requests: i64, resources: i64) -> (r: Json)
    ensures
        r@ == JsonView::Object(
            seq![
                ("archive"@, JsonView::Text(archive@)),
                ("backup_id"@, JsonView::Text(backup_id@)),
                ("legacy_replay"@, JsonView::Bool(false)),
                ("unresolved_requests"@, integer_view(requests as int)),
                ("unresolved_resources"@, integer_view(resources as int)),
            ],
        ),
{
    object5(
        "archive",
        text(archive),
        "backup_id",
        text(backup_id),
        "legacy_replay",
        Json::Bool(false),
        "unresolved_requests",
        integer(requests),
        "unresolved_resources",
        integer(resources),
    )
}

/// Why the direct service does not run on a database.
pub open spec fn database_objection(pending: bool, mode: Seq<char>, found: Seq<char>, expected: Seq<char>) -> Option<
    Seq<char>,
> {
    if pending {
        Some("archived direct initialization is incomplete"@)
    } else if mode != "direct"@ {
        Some("direct Codex cutover has not completed"@)
    } else if found != expected {
        Some("direct Codex instance identity changed"@)
    } else {
        None
    }
}

/// Whether the direct service runs on a database: it was handed over, and for this identity.
pub fn direct_database(pending: bool, mode: &str, found: &str, expected: &str) -> (r: Result<
    (),
    &'static str,
>)
    ensures
        match database_objection(pending, mode@, found@, expected@) {
            None => r is Ok,
            Some(e) => r is Err && r->Err_0@ == e,
        },
{
    if pending {
        return Err("archived direct initialization is incomplete");
    }
    if !same(mode, "direct") {
        return Err("direct Codex cutover has not completed");
    }
    if !same(found, expected) {
        return Err("direct Codex instance identity changed");
    }
    Ok(())
}

} // verus!
