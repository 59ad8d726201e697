//! What the operator of the gateway can rely on.
use crate::admin::{
    abandon, check_abandon, check_recovery_release, check_released, check_server, check_socket,
    judge_binding, limits_shrink, new_binding, reload, respond, serve,
};
use crate::backup::{
    already_quarantined, check_target, create, judge_release, restore, restore_marker,
    superseded_send_state, verify, FoundDatabase, Manifest, QuarantinedRequest,
};
use crate::config::{Discord, Limits, Located, ResponseMode, Workspace};
use crate::direct_config::{CodexFiles, DirectConfig};
use crate::direct_migration::{
    archive_init, assert_quiescent, cutover, direct_database, ArchiveInit, Continuation, Cutover,
    Unfinished,
};
use crate::domain::{held, shown, unfinished, Redactor, RequestState};
use crate::json::{lookup, Json, JsonView};
use crate::paths::components;
use crate::program::judge_marker;
use crate::text::{begins, opt_view, utf8_len};
use vstd::prelude::*;

verus! {

/// A backup that was made of a database is accepted as that of this database, and of no other: the
/// same size, the same digest, the same schema, the same instance.
pub proof fn backups_are_of_the_database_they_were_made_of(
    made: &FoundDatabase,
    id: &str,
    started: i64,
    completed: i64,
    build: &str,
    m: Manifest,
    bundle: &str,
    found: &FoundDatabase,
    r: Result<(), &'static str>,
)
    requires
        call_ensures(create, (made, id, started, completed, build), m),
        call_ensures(verify, (bundle, &m, found), r),
    ensures
        r is Ok ==> found.bytes == made.bytes && found.sha256@ == made.sha256@ && found.schema
            == made.schema && found.instance@ == made.instance@,
        r is Ok ==> components(bundle@).len() > 0 && !begins(
            components(bundle@).last(),
            ".backup-"@,
        ),
        components(bundle@).len() > 0 && components(bundle@).last() != "/"@ && components(
            bundle@,
        ).last() != "."@ && components(bundle@).last() != ".."@ && !begins(
            components(bundle@).last(),
            ".backup-"@,
        ) && found.bytes == made.bytes && found.sha256@ == made.sha256@ && found.schema
            == made.schema && found.instance@ == made.instance@ ==> r is Ok,
        m.backup_id@ == id@,
        m.started_at == started,
        m.completed_at == completed,
{
}

/// A backup never replaces what is there.
pub proof fn backups_replace_nothing(
    exists: bool,
    parent: Option<bool>,
    r: Result<(), &'static str>,
)
    requires
        call_ensures(check_target, (exists, parent), r),
    ensures
        r is Ok <==> !exists && parent == Some(true),
{
    if parent is Some {
        if parent->0 {
            assert(parent == Some(true));
        } else {
            assert(parent == Some(false));
        }
    }
}

/// A backup is restored only for the instance that it was made of, and not while another restore is
/// pending.
pub proof fn backups_are_restored_for_their_instance(
    m: &Manifest,
    instance: &str,
    pending: bool,
    r: Result<(), &'static str>,
)
    requires
        call_ensures(restore, (m, instance, pending), r),
    ensures
        r is Ok <==> m.instance_uuid@ == instance@ && !pending,
{
}

/// A restored request that had not ended is unknown and is not sent; one that had ended is left.
pub proof fn restored_requests_are_not_sent_again(q: &mut QuarantinedRequest, restore_id: &str)
    requires
        call_ensures(QuarantinedRequest::quarantine, (q, restore_id), ()),
    ensures
        ({
            let ended = old(q).state == RequestState::Completed || old(q).state
                == RequestState::Failed || old(q).state == RequestState::Cancelled;
            &&& ended ==> *final(q) == *old(q)
            &&& !ended ==> final(q).state == RequestState::Unknown && !final(q).dispatch_eligible
                && opt_view(final(q).restore_id) == Some(restore_id@) && opt_view(
                final(q).error_code,
            ) == Some("restore_quarantined"@)
        }),
{
}

/// What was not sent before a restore may have been sent since: it counts as unknown.
pub proof fn unsent_controls_are_unknown_after_a_restore(s: &'static str, r: &'static str)
    requires
        call_ensures(superseded_send_state, (s,), r),
    ensures
        s@ == "NOT_SENT"@ ==> r@ == "UNKNOWN"@,
        s@ != "NOT_SENT"@ ==> r@ == s@,
{
}

/// A restore is quarantined once.
pub proof fn restores_are_quarantined_once(prior: Option<&str>, restore_id: &str, r: bool)
    requires
        call_ensures(already_quarantined, (prior, restore_id), r),
    ensures
        r <==> prior is Some && prior->0@ == restore_id@,
{
}

/// A restore is released with a reason, under its own identity, and not against its marker.
pub proof fn restores_are_released_by_name(
    reason: &str,
    marker: Option<&Result<Json, String>>,
    current: Option<&str>,
    restore_id: &str,
    r: Result<(), String>,
)
    requires
        call_ensures(judge_release, (reason, marker, current, restore_id), r),
    ensures
        r is Ok ==> reason@.len() > 0 && utf8_len(reason@) <= 1024 && current is Some
            && current->0@ == restore_id@,
        r is Ok && marker is Some ==> *marker->0 is Ok && (*marker->0)->Ok_0@.at("restore_id"@)
            == JsonView::Text(restore_id@),
{
}

/// The marker of a restore says which restore, of which instance, from which backup.
pub proof fn markers_name_their_restore(
    restore_id: &str,
    instance: &str,
    state_dir: &str,
    backup: &str,
    m: Json,
    i2: &str,
    s2: &str,
    r: Result<String, &'static str>,
)
    requires
        call_ensures(restore_marker, (restore_id, instance, state_dir, backup), m),
        call_ensures(judge_marker, (&m, i2, s2), r),
    ensures
        r is Ok <==> i2@ == instance@ && s2@ == state_dir@,
        r is Ok ==> r->Ok_0@ == restore_id@,
        m@.at("backup_id"@) == JsonView::Text(backup@),
{
    reveal_strlit("backup_id");
    reveal_strlit("instance_uuid");
    reveal_strlit("restore_id");
    reveal_strlit("state_dir");
    assert("backup_id"@.len() == 9 && "instance_uuid"@.len() == 13 && "restore_id"@.len() == 10 && "state_dir"@.len() == 9);
    assert("backup_id"@[0] != "state_dir"@[0]);
    let o = m@->Object_0;
    assert(o[0].0 == "backup_id"@ && o[1].0 == "instance_uuid"@ && o[2].0 == "restore_id"@ && o[3].0
        == "state_dir"@);
    reveal_with_fuel(lookup, 5);
}

/// A database is handed over to Codex only at rest, from a verified backup, after a sound trial, and
/// only once.
pub proof fn databases_are_handed_over_at_rest(at: Cutover, r: Result<(), &'static str>)
    requires
        call_ensures(cutover, (at,), r),
    ensures
        match at {
            Cutover::Source { schema, supported, served, unfinished } => r is Ok ==> schema
                <= supported && (schema >= 12 ==> served is Some && served->0@ == "proxy"@)
                && unfinished.requests == 0 && unfinished.admissions == 0 && unfinished.deliveries
                == 0 && unfinished.holds == 0 && unfinished.controls == 0,
            Cutover::Backup { made, read, read_instance, instance } => r is Ok <==> made@ == read@
                && read_instance@ == instance@,
            Cutover::Trial { unfinished, integrity, broken_keys } => r is Ok <==> integrity@
                == "ok"@ && !broken_keys && unfinished.requests == 0 && unfinished.admissions == 0
                && unfinished.deliveries == 0 && unfinished.holds == 0 && unfinished.controls == 0,
            Cutover::Target { mode, unfinished } => r is Ok <==> mode@ == "proxy"@
                && unfinished.requests == 0 && unfinished.admissions == 0 && unfinished.deliveries
                == 0 && unfinished.holds == 0 && unfinished.controls == 0,
        },
{
}

/// The gateway is at rest where nothing of any kind is unfinished.
pub proof fn rest_is_when_nothing_is_unfinished(u: &Unfinished, r: Result<(), &'static str>)
    requires
        call_ensures(assert_quiescent, (u,), r),
    ensures
        r is Ok <==> u.requests == 0 && u.admissions == 0 && u.deliveries == 0 && u.holds == 0
            && u.controls == 0,
{
}

/// A conversation that is handed over begins afresh: nothing of the earlier one is continued.
pub proof fn handed_over_conversations_begin_afresh(
    c: &mut Continuation,
    model: &str,
    effort: &str,
)
    requires
        call_ensures(Continuation::begin_afresh, (c, model, effort), ()),
    ensures
        final(c).continuation@ == "NEW"@,
        final(c).last_response_id is None,
        final(c).proxy_thread_id is None,
        final(c).effective_model is None,
        final(c).selected_model@ == model@,
        final(c).selected_reasoning_effort@ == effort@,
{
}

/// A new database is made beside the old one only where none is there, from a verified archive.
pub proof fn archives_replace_nothing(at: ArchiveInit, r: Result<(), &'static str>)
    requires
        call_ensures(archive_init, (at,), r),
    ensures
        match at {
            ArchiveInit::Directories { legacy, direct } => r is Ok ==> components(legacy@)
                != components(direct@),
            ArchiveInit::Databases { mode, exists } => r is Ok <==> !exists && (mode is None
                || mode->0@ == "proxy"@),
            ArchiveInit::Archive { made, read } => r is Ok <==> made@ == read@,
        },
{
    if let ArchiveInit::Directories { legacy, direct } = at {
        if components(legacy@) == components(direct@) {
            let p = components(legacy@);
            assert(p.take(p.len() as int) =~= p);
            assert(crate::paths::path_within(legacy@, direct@));
        }
    }
}

/// The gateway runs on a database that was handed over whole and is its own.
pub proof fn the_database_is_the_own_one(
    pending: bool,
    mode: &str,
    found: &str,
    expected: &str,
    r: Result<(), &'static str>,
)
    requires
        call_ensures(direct_database, (pending, mode, found, expected), r),
    ensures
        r is Ok <==> !pending && mode@ == "direct"@ && found@ == expected@,
{
}

/// The binding of an instance accepts this instance and folder, and no other.
pub proof fn bindings_are_of_their_instance(
    instance: &str,
    state_dir: &str,
    b: Json,
    i2: &str,
    s2: &str,
    r: Result<(), &'static str>,
)
    requires
        call_ensures(new_binding, (instance, state_dir), b),
        call_ensures(judge_binding, (&b, i2, s2), r),
    ensures
        r is Ok <==> i2@ == instance@ && s2@ == state_dir@,
{
}

/// Only the own user administers the gateway, over a socket of that user, at most eight at once.
pub proof fn only_the_own_user_administers(
    peer: u32,
    own: u32,
    jobs: usize,
    served: bool,
    server: Result<(), &'static str>,
    is_socket: bool,
    owned: bool,
    socket: Result<(), &'static str>,
)
    requires
        call_ensures(serve, (peer, own, jobs), served),
        call_ensures(check_server, (peer, own), server),
        call_ensures(check_socket, (is_socket, owned), socket),
    ensures
        served <==> peer == own && jobs < 8,
        server is Ok <==> peer == own,
        socket is Ok <==> is_socket && owned,
{
}

/// A command that failed is answered as failed, and one that was done with what it gave.
pub proof fn administration_answers_as_it_went(result: Option<Json>, r: Json)
    requires
        call_ensures(respond, (result,), r),
    ensures
        r@.at("ok"@) == JsonView::Bool(result is Some),
        result is Some ==> r@.at("result"@) == result->0@,
        result is None ==> r@.at("result"@) == JsonView::Null && r@.at("error"@) is Text,
{
    reveal_strlit("ok");
    reveal_strlit("result");
    reveal_strlit("error");
    assert("ok"@.len() == 2 && "result"@.len() == 6 && "error"@.len() == 5);
    let m = r@->Object_0;
    assert(m[0].0 == "ok"@ || m[0].0 == "error"@);
    assert(m[1].0 == "result"@ || m[1].0 == "ok"@);
    reveal_with_fuel(lookup, 3);
}

/// A hold is given up only with a reason and the risk accepted, and where the other side gave it up
/// before.
pub proof fn holds_are_given_up_with_consent(
    accept: bool,
    reason: &str,
    r: Result<(), &'static str>,
    response: Option<&str>,
    remote: &Json,
    other: Result<(), &'static str>,
    release: Result<Json, &'static str>,
    rows: usize,
    released: Result<Json, &'static str>,
)
    requires
        call_ensures(check_abandon, (accept, reason), r),
        call_ensures(abandon, (response, remote), other),
        call_ensures(check_recovery_release, (accept,), release),
        call_ensures(check_released, (rows,), released),
    ensures
        r is Ok ==> accept && reason@.len() > 0 && utf8_len(reason@) <= 1024,
        other is Ok <==> response is Some && remote@.at("response_id"@) == JsonView::Text(
            response->0@,
        ) && remote@.at("execution_status"@) == JsonView::Text("unknown"@) && remote@.at(
            "hold_state"@,
        ) == JsonView::Text("administratively_released"@) && remote@.at("dispatch_eligible"@)
            == JsonView::Bool(false),
        release is Ok <==> accept,
        released is Ok <==> rows == 1,
{
}

/// Limits are made smaller only while the gateway is idle, and never below what is in use.
pub proof fn limits_shrink_while_idle(
    old_limits: &Limits,
    next: &Limits,
    used: u64,
    busy: bool,
    sending: bool,
    r: Result<(), &'static str>,
    shrink: bool,
)
    requires
        call_ensures(reload, (old_limits, next, used, busy, sending), r),
        call_ensures(limits_shrink, (old_limits, next), shrink),
    ensures
        r is Ok <==> used <= next.temp_bytes && (!shrink || (!busy && !sending)),
        !shrink <==> next.attachments >= old_limits.attachments && next.attachment_bytes
            >= old_limits.attachment_bytes && next.input_bytes >= old_limits.input_bytes
            && next.text_bytes >= old_limits.text_bytes && next.image_pixels
            >= old_limits.image_pixels && next.artifact_bytes >= old_limits.artifact_bytes
            && next.temp_bytes >= old_limits.temp_bytes && next.output_bytes
            >= old_limits.output_bytes && next.output_total_bytes >= old_limits.output_total_bytes
            && next.delivery_retention_secs >= old_limits.delivery_retention_secs
            && next.queue_conversation >= old_limits.queue_conversation && next.queue_global
            >= old_limits.queue_global && next.validation_secs >= old_limits.validation_secs,
{
}

/// The gateway answers every message, or only those that mention it, as it is set.
pub proof fn the_mode_is_read_as_set(
    guild: &str,
    user: &str,
    token: &str,
    mode: Option<&str>,
    r: Result<Discord, &'static str>,
    word: &str,
    parsed: Option<ResponseMode>,
)
    requires
        call_ensures(Discord::read, (guild, user, token, mode), r),
        call_ensures(ResponseMode::parse, (word,), parsed),
    ensures
        r is Ok && r->Ok_0.response_mode == ResponseMode::Mention <==> mode is Some && mode->0@
            == "mention"@,
        r is Ok && r->Ok_0.response_mode == ResponseMode::All <==> mode is None || mode->0@
            == "all"@,
        r is Ok ==> r->Ok_0.guild_id@ == guild@ && r->Ok_0.allowed_user_id@ == user@
            && r->Ok_0.token_file@ == token@,
        parsed == Some(ResponseMode::All) <==> word@ == "all"@,
        parsed == Some(ResponseMode::Mention) <==> word@ == "mention"@,
{
    reveal_strlit("all");
    reveal_strlit("mention");
    assert("all"@.len() == 3 && "mention"@.len() == 7);
}

/// A configuration is accepted only where Codex asks before it acts, in a sandbox, from a command that
/// can be run and a private home, and where the folders of the conversations lie apart from both.
pub proof fn configurations_keep_codex_in_bounds(
    c: &DirectConfig,
    files: &CodexFiles,
    r: Result<(), &'static str>,
)
    requires
        call_ensures(DirectConfig::validate, (c, files), r),
        r is Ok,
    ensures
        c.codex.approval_policy@ == "on-request"@,
        c.codex.sandbox@ == "workspace-write"@ || c.codex.sandbox@ == "read-only"@,
        files.command is Some && files.command->0.is_file && files.command->0.mode & 0o111 != 0,
        files.home is Some && files.home->0.is_dir && !files.home->0.is_symlink && files.home->0.owned
            && files.home->0.mode & 0o077 == 0,
        c.codex.home@.len() > 0 && c.codex.home@[0] == '/',
        c.storage.state_dir@.len() > 0 && c.storage.state_dir@[0] == '/',
        c.discord.token_file@.len() > 0 && c.discord.token_file@[0] == '/',
        c.codex.workspace_root is Some ==> {
            let root = c.codex.workspace_root->0@;
            &&& root.len() > 0 && root[0] == '/'
            &&& components(root) != components(c.codex.home@)
            &&& components(root) != components(c.storage.state_dir@)
            &&& !components(root).contains(".."@)
        },
        c.limits.queue_conversation > 0 && c.limits.queue_global >= c.limits.queue_conversation,
        c.limits.temp_bytes >= c.limits.input_bytes && c.limits.temp_bytes
            >= c.limits.artifact_bytes,
        c.default_model@.len() > 0,
{
    if c.codex.workspace_root is Some {
        let root = c.codex.workspace_root->0@;
        let p = components(root);
        assert(p.take(p.len() as int) =~= p);
    }
}

/// A working folder stays the one that was found: same path, same device, same number.
pub proof fn working_folders_stay_themselves(
    w: &Workspace,
    found: &Located,
    r: Result<(), &'static str>,
)
    requires
        call_ensures(Workspace::verify, (w, found), r),
    ensures
        r is Ok <==> components(found.path@) == components(w.path@) && found.dev == w.dev
            && found.ino == w.ino,
{
}

/// Whether no secret begins with a letter of a text.
pub open spec fn apart(secrets: Set<Seq<char>>, text: Seq<char>) -> bool {
    forall|p: Seq<char>| #[trigger] secrets.contains(p) ==> p.len() > 0 && !text.contains(p[0])
}

proof fn clear_text_is_shown(secrets: Set<Seq<char>>, text: Seq<char>)
    requires
        apart(secrets, text),
    ensures
        shown(secrets, text) == text,
        held(secrets, text).len() == 0,
    decreases text.len(),
{
    if text.len() > 0 {
        assert(!unfinished(secrets, text)) by {
            if unfinished(secrets, text) {
                let p = choose|p: Seq<char>| #[trigger]
                    secrets.contains(p) && p.len() > text.len() && begins(p, text);
                assert(p.take(text.len() as int)[0] == text[0]);
                assert(text.contains(p[0]));
            }
        }
        crate::domain::lemma_hit_within(secrets, text, text.len());
        let n = crate::domain::hit(secrets, text);
        if n > 0 {
            let p = text.take(n as int);
            assert(secrets.contains(p));
            assert(p[0] == text[0]);
            assert(text.contains(p[0]));
        }
        let rest = text.skip(1);
        assert(apart(secrets, rest)) by {
            assert forall|p: Seq<char>| #[trigger] secrets.contains(p) implies p.len() > 0
                && !rest.contains(p[0]) by {
                if rest.contains(p[0]) {
                    let i = choose|i: int| 0 <= i < rest.len() && rest[i] == p[0];
                    assert(text[i + 1] == p[0]);
                }
            }
        }
        clear_text_is_shown(secrets, rest);
        assert(seq![text[0]] + rest =~= text);
    }
}

/// Text in which no secret can begin is shown as it is, and nothing of it is held back.
pub proof fn other_text_is_shown(red: &mut Redactor, text: &str, r: String)
    requires
        call_ensures(Redactor::push, (red, text), r),
        old(red).waiting().len() == 0,
        apart(old(red).secrets(), text@),
    ensures
        r@ == text@,
        final(red).waiting().len() == 0,
{
    assert(old(red).waiting() + text@ =~= text@);
    clear_text_is_shown(old(red).secrets(), text@);
}

/// A secret is not shown, in whatever pieces it comes, and what is held back at the end is not shown
/// either.
pub proof fn secrets_are_not_shown(red: &mut Redactor, text: &str, r: String, p: Seq<char>, i: int)
    requires
        call_ensures(Redactor::push, (red, text), r),
        old(red).secrets().contains(p),
        p.len() > 0,
        crate::domain::unmasked(p),
        0 <= i,
        i + p.len() <= r@.len(),
    ensures
        r@.subrange(i, i + p.len()) != p,
{
    crate::domain::no_secret_is_shown(old(red).secrets(), old(red).waiting() + text@, p, i);
}

/// What is held back at the end is replaced, not shown.
pub proof fn what_is_held_back_is_replaced(red: &mut Redactor, r: String)
    requires
        call_ensures(Redactor::finish, (red,), r),
    ensures
        old(red).waiting().len() == 0 ==> r@.len() == 0,
        old(red).waiting().len() > 0 ==> r@ == "[非公開]"@,
        final(red).waiting().len() == 0,
{
}

/// What is hidden are the texts that were given, and the forms in which a document writes them.
pub proof fn the_given_texts_are_hidden(patterns: Vec<String>, r: Redactor, i: int)
    requires
        call_ensures(Redactor::new, (patterns,), r),
        0 <= i < patterns@.len(),
        patterns@[i]@.len() > 0,
    ensures
        r.secrets().contains(patterns@[i]@),
        r.waiting().len() == 0,
{
    assert(patterns@[i]@ == patterns@[i]@);
}

} // verus!
