use codex_hoshikage_gateway::admin;
use codex_hoshikage_gateway::backup;
use codex_hoshikage_gateway::backup::{FoundDatabase, QuarantinedRequest};
use codex_hoshikage_gateway::codec::{compact_form, parse};
use codex_hoshikage_gateway::config::{secret, Config, CredentialFile, Discord, Limits, Located, Project, Proxy, ResponseMode, Storage};
use codex_hoshikage_gateway::direct_config::{Codex, CodexFiles, CommandFile, DirectConfig, HomeDirectory};
use codex_hoshikage_gateway::direct_migration::{
    archive_audit, archive_init, archive_pending, cutover, cutover_reason, direct_database, ArchiveInit, Continuation,
    Cutover, Unfinished,
};
use codex_hoshikage_gateway::direct_model_store::{select_direct_model, Choice, EarlierChoice};
use codex_hoshikage_gateway::direct_workspace::ensure_conversation_workspace;
use codex_hoshikage_gateway::domain::RequestState;
use codex_hoshikage_gateway::json::Json;

fn json(text: &str) -> Json {
    parse(text).unwrap()
}

fn found() -> FoundDatabase {
    let (bytes, sha256) = backup::hash_file(b"database");
    FoundDatabase { bytes, sha256, schema: 14, instance: "instance".into() }
}

#[test]
fn a_completed_backup_is_accepted_until_it_changes() {
    let manifest = backup::create(&found(), "id", 1, 2, "0.1.0");
    assert_eq!(backup::verify("/backups/today", &manifest, &found()), Ok(()));
    assert_eq!(
        backup::verify(&format!("/backups/{}", backup::stage("id")), &manifest, &found()),
        Err("incomplete backup")
    );
    let mut changed = found();
    changed.bytes += 1;
    assert_eq!(backup::verify("/backups/today", &manifest, &changed), Err("backup checksum mismatch"));
    let mut other = found();
    other.instance = "other".into();
    assert_eq!(backup::verify("/backups/today", &manifest, &other), Err("backup identity mismatch"));
    let mut odd = backup::create(&found(), "id", 1, 2, "0.1.0");
    odd.integrity = "bad".into();
    assert_eq!(backup::verify("/backups/today", &odd, &found()), Err("unsupported backup manifest"));
    assert_eq!(backup::check_target(true, Some(true)), Err("backup target already exists"));
    assert_eq!(backup::check_target(false, None), Err("backup parent required"));
    assert_eq!(backup::check_target(false, Some(false)), Err("backup parent unavailable"));
    assert_eq!(backup::check_target(false, Some(true)), Ok(()));
}

#[test]
fn a_restore_keeps_its_instance_and_is_marked() {
    let manifest = backup::create(&found(), "id", 1, 2, "0.1.0");
    assert_eq!(backup::restore(&manifest, "instance", false), Ok(()));
    assert_eq!(backup::restore(&manifest, "instance", true), Err("recovery already pending"));
    assert_eq!(backup::restore(&manifest, "other", false), Err("different backup instance"));
    assert_eq!(
        backup::marker("/etc/gateway/config.toml").unwrap(),
        "/etc/gateway/recovery/restore-pending.json"
    );
    assert_eq!(backup::marker("/").unwrap_err(), "config parent unavailable");
    let marker = backup::restore_marker("r", "i", "/s", "b");
    assert_eq!(
        compact_form(&marker),
        r#"{"backup_id":"b","instance_uuid":"i","restore_id":"r","state_dir":"/s"}"#
    );
    let marker = compact_form(&marker).into_bytes();
    let release = |reason: &str, marker: Option<&Vec<u8>>, id: &str| backup::release(reason, marker, Some("r"), id);
    assert_eq!(release("checked", Some(&marker), "r"), Ok(()));
    assert_eq!(release(" ", Some(&marker), "r").unwrap_err(), "reason required");
    assert_eq!(release("checked", Some(&marker), "q").unwrap_err(), "marker mismatch");
    assert_eq!(release("checked", None, "q").unwrap_err(), "restore ID mismatch");
    assert_eq!(
        release("checked", Some(&b"{".to_vec()), "r").unwrap_err(),
        "EOF while parsing an object at line 1 column 1"
    );
}

#[test]
fn a_restored_request_is_not_sent() {
    let request = |state| QuarantinedRequest {
        state,
        version: 1,
        dispatch_eligible: true,
        stop_requested: true,
        restore_id: None,
        error_code: None,
    };
    let mut open = request(RequestState::Queued);
    open.quarantine("r");
    assert_eq!(open.state, RequestState::Unknown);
    assert!(!open.dispatch_eligible && !open.stop_requested);
    assert_eq!(open.error_code.as_deref(), Some("restore_quarantined"));
    let mut ended = request(RequestState::Completed);
    ended.quarantine("r");
    assert_eq!((ended.state, ended.version), (RequestState::Completed, 1));
    assert!(backup::already_quarantined(Some("r"), "r"));
    assert!(!backup::already_quarantined(None, "r"));
    assert_eq!(backup::superseded_send_state("NOT_SENT"), "UNKNOWN");
    assert_eq!(backup::superseded_send_state("SENT"), "SENT");
}

fn limits() -> Limits {
    Limits {
        attachments: 4,
        attachment_bytes: 1024,
        input_bytes: 4096,
        text_bytes: 1024,
        image_pixels: 1000,
        artifact_bytes: 1024,
        temp_bytes: 8192,
        output_bytes: 1024,
        output_total_bytes: 4096,
        delivery_retention_secs: 60,
        queue_conversation: 5,
        queue_global: 20,
        validation_secs: 120,
    }
}

#[test]
fn lower_limits_wait_for_an_idle_gateway() {
    let mut lower = limits();
    lower.text_bytes = 10;
    assert!(admin::limits_shrink(&limits(), &lower));
    assert!(!admin::limits_shrink(&lower, &limits()));
    assert_eq!(
        admin::reload(&limits(), &lower, 0, true, false),
        Err("limit reduction requires an idle gateway")
    );
    assert_eq!(admin::reload(&limits(), &lower, 0, false, false), Ok(()));
    assert_eq!(admin::reload(&lower, &limits(), 0, true, true), Ok(()));
    assert_eq!(
        admin::reload(&limits(), &limits(), 9000, false, false),
        Err("temporary budget below current usage")
    );
}

#[test]
fn the_operator_is_answered_without_details() {
    assert_eq!(compact_form(&admin::respond(Some(Json::Null))), r#"{"ok":true,"result":null}"#);
    assert!(admin::respond(None).at("ok").is_bool(false));
    assert!(admin::serve(1, 1, 7) && !admin::serve(1, 1, 8) && !admin::serve(1, 2, 0));
    assert_eq!(admin::check_request(65537), Err("admin request too large"));
    assert_eq!(admin::check_response(65537), Err("admin response too large"));
    assert_eq!(admin::check_request(65536), Ok(()));
    assert_eq!(admin::check_response(65536), Ok(()));
    assert_eq!(admin::check_abandon(true, "seen"), Ok(()));
    assert!(admin::check_abandon(false, "seen").is_err());
    assert!(admin::check_abandon(true, &"x".repeat(1025)).is_err());
    assert!(admin::check_recovery_release(true).is_ok());
    assert_eq!(admin::check_recovery_release(false).unwrap_err(), "risk acknowledgement required");
    let remote = json(
        r#"{"response_id":"r","execution_status":"unknown","hold_state":"administratively_released","dispatch_eligible":false}"#,
    );
    assert_eq!(admin::abandon(Some("r"), &remote), Ok(()));
    assert!(admin::abandon(Some("q"), &remote).is_err());
    assert!(admin::abandon(None, &remote).is_err());
    assert!(admin::check_released(1).is_ok() && admin::check_released(0).is_err());
    assert!(admin::check_revision(1).is_ok() && admin::check_revision(2).is_err());
    assert_eq!(
        compact_form(&admin::status(Json::Null, Json::Null, true, false, false)),
        r#"{"connected":true,"database":null,"holds":null,"proxy_ready":false,"recovery_pending":false}"#
    );
}

#[test]
fn a_binding_names_one_instance() {
    assert_eq!(admin::binding("/etc/g/c.toml").unwrap(), "/etc/g/gateway-instance.json");
    let binding = compact_form(&admin::new_binding("i", "/s")).into_bytes();
    assert_eq!(admin::validate_binding(&binding, "i", "/s"), Ok(()));
    assert_eq!(
        admin::validate_binding(&binding, "j", "/s").unwrap_err(),
        "external instance binding mismatch"
    );
    assert_eq!(
        admin::validate_binding(&[], "i", "/s").unwrap_err(),
        "EOF while parsing a value at line 1 column 0"
    );
}

const REST: Unfinished = Unfinished { requests: 0, admissions: 0, deliveries: 0, holds: 0, controls: 0 };

#[test]
fn the_handover_stops_at_every_doubt() {
    let source = |schema, served, unfinished| {
        cutover(Cutover::Source { schema, supported: 14, served, unfinished })
    };
    assert_eq!(source(14, Some("proxy"), REST), Ok(()));
    assert_eq!(source(11, None, REST), Ok(()));
    assert_eq!(source(15, Some("proxy"), REST), Err("unsupported database schema"));
    assert_eq!(
        source(14, Some("direct"), REST),
        Err("database was already converted to direct Codex")
    );
    let blocked = [
        (Unfinished { requests: 1, ..REST }, "cutover blocked by unfinished requests"),
        (Unfinished { admissions: 1, ..REST }, "cutover blocked by unfinished admissions"),
        (Unfinished { deliveries: 1, ..REST }, "cutover blocked by unfinished resource deliveries"),
        (Unfinished { holds: 1, ..REST }, "cutover blocked by unreleased execution holds"),
        (Unfinished { controls: 1, ..REST }, "cutover blocked by unfinished controls"),
    ];
    for (unfinished, error) in blocked {
        assert_eq!(source(14, Some("proxy"), unfinished), Err(error));
        assert_eq!(cutover(Cutover::Target { mode: "proxy", unfinished }), Err(error));
    }
    assert_eq!(
        cutover(Cutover::Backup { made: "a", read: "b", read_instance: "i", instance: "i" }),
        Err("cutover backup verification failed")
    );
    assert_eq!(
        cutover(Cutover::Trial { unfinished: REST, integrity: "bad", broken_keys: false }),
        Err("trial migration failed integrity check")
    );
    assert_eq!(
        cutover(Cutover::Trial { unfinished: REST, integrity: "ok", broken_keys: true }),
        Err("trial migration failed foreign key check")
    );
    assert!(cutover_reason("b").starts_with("backup=b;"));
}

#[test]
fn a_conversation_begins_afresh_after_the_handover() {
    let mut c = Continuation {
        continuation: "CONTINUE".into(),
        last_response_id: Some("r".into()),
        proxy_thread_id: Some("t".into()),
        effective_model: Some("m".into()),
        effective_reasoning_effort: None,
        selected_model: "m".into(),
        selected_reasoning_effort: "low".into(),
        selection_revision: 4,
        effort_revision: 5,
    };
    c.begin_afresh("new", "high");
    assert_eq!((c.continuation.as_str(), c.selected_model.as_str()), ("NEW", "new"));
    assert!(c.last_response_id.is_none() && c.proxy_thread_id.is_none());
    assert_eq!((c.selection_revision, c.effort_revision), (5, 6));
}

#[test]
fn an_archive_is_kept_apart() {
    assert_eq!(archive_init(ArchiveInit::Directories { legacy: "/a", direct: "/b" }), Ok(()));
    assert!(archive_init(ArchiveInit::Directories { legacy: "/a", direct: "/a/b" }).is_err());
    assert_eq!(
        archive_init(ArchiveInit::Databases { mode: Some("direct"), exists: false }),
        Err("legacy database is not Proxy-backed")
    );
    assert_eq!(
        archive_init(ArchiveInit::Databases { mode: None, exists: true }),
        Err("direct database already exists")
    );
    assert_eq!(
        archive_init(ArchiveInit::Archive { made: "a", read: "b" }),
        Err("archive verification changed")
    );
    assert!(archive_pending("b", "/x", "/y").at("archive").is_text("/x"));
    assert!(archive_audit("b", "/x", 1, 2).at("legacy_replay").is_bool(false));
    assert_eq!(direct_database(false, "direct", "d", "d"), Ok(()));
    assert!(direct_database(true, "direct", "d", "d").is_err());
    assert!(direct_database(false, "proxy", "d", "d").is_err());
    assert!(direct_database(false, "direct", "d", "e").is_err());
}

fn discord() -> Discord {
    Discord {
        guild_id: "1".into(),
        allowed_user_id: "2".into(),
        token_file: "/token".into(),
        response_mode: ResponseMode::All,
    }
}

fn storage() -> Storage {
    Storage { state_dir: "/state".into(), temp_dir: "/temp".into(), socket_path: "/run/s".into() }
}

fn direct() -> DirectConfig {
    DirectConfig {
        discord: discord(),
        codex: Codex {
            command: "/bin/codex".into(),
            home: "/home/codex".into(),
            workspace_root: None,
            model_provider: "openai".into(),
            sandbox: "workspace-write".into(),
            approval_policy: "on-request".into(),
            network_access: false,
        },
        storage: storage(),
        limits: limits(),
        default_model: "m".into(),
        default_reasoning_effort: "medium".into(),
    }
}

fn files() -> CodexFiles {
    CodexFiles {
        command: Some(CommandFile { is_file: true, mode: 0o755 }),
        home: Some(HomeDirectory { is_dir: true, is_symlink: false, owned: true, mode: 0o700 }),
    }
}

#[test]
fn a_direct_configuration_is_checked() {
    assert_eq!(direct().validate(&files()), Ok(()));
    let mut c = direct();
    c.discord.guild_id = "0".into();
    assert_eq!(c.validate(&files()), Err("Discord IDs must be nonzero"));
    let mut c = direct();
    c.codex.sandbox = "danger-full-access".into();
    assert_eq!(c.validate(&files()), Err("unsupported Codex sandbox"));
    let mut c = direct();
    c.codex.approval_policy = "never".into();
    assert_eq!(c.validate(&files()), Err("interactive Codex approval policy is required"));
    let mut c = direct();
    c.codex.workspace_root = Some("/state/work".into());
    assert_eq!(c.validate(&files()), Err("Codex workspace root overlaps private runtime state"));
    let mut open = files();
    open.home.as_mut().unwrap().mode = 0o755;
    assert!(direct().validate(&open).is_err());
    let mut other = direct();
    other.discord.guild_id = "9".into();
    assert_ne!(direct().fixed_digest(), other.fixed_digest());
}

fn project(id: &str, channel: &str, cwd: &str) -> Project {
    Project {
        id: id.into(),
        name: "p".into(),
        channel_id: channel.into(),
        cwd: cwd.into(),
        default_model: "m".into(),
        lifecycle: "ACTIVE".into(),
    }
}

const FIRST: &str = "00000000-0000-4000-8000-000000000001";
const SECOND: &str = "00000000-0000-4000-8000-000000000002";

fn config(projects: Vec<Project>) -> Config {
    Config {
        discord: discord(),
        proxy: Proxy {
            base_url: "https://proxy.example".into(),
            api_key_file: "/key".into(),
            contract_version: "1.0".into(),
        },
        storage: storage(),
        limits: limits(),
        projects,
    }
}

fn located(path: &str, ino: u64) -> Option<Located> {
    Some(Located { path: path.into(), is_dir: true, dev: 1, ino })
}

#[test]
fn workspaces_do_not_overlap() {
    let c = config(vec![project(FIRST, "5", "/w/a"), project(SECOND, "6", "/w/b")]);
    let workspaces = c.validate(&vec![located("/w/a", 1), located("/w/b", 2)]).unwrap();
    assert_eq!(workspaces.len(), 2);
    assert_eq!(
        c.validate(&vec![located("/w/a", 1), located("/w/a/b", 2)]).unwrap_err(),
        "overlapping workspaces"
    );
    assert_eq!(c.validate(&vec![located("/w/a", 1), None]).unwrap_err(), "workspace unavailable");
}

#[test]
fn a_proxy_is_reached_safely() {
    let mut c = config(vec![]);
    c.proxy.base_url = "nonsense".into();
    assert_eq!(c.validate(&vec![]).unwrap_err(), "relative URL without a base");
    c.proxy.base_url = "http://proxy.example".into();
    assert_eq!(c.validate(&vec![]).unwrap_err(), "Proxy requires HTTPS or loopback HTTP");
    c.proxy.base_url = "https://user@proxy.example".into();
    assert_eq!(c.validate(&vec![]).unwrap_err(), "invalid Proxy URL");
    c.proxy.contract_version = "2.0".into();
    assert_eq!(c.validate(&vec![]).unwrap_err(), "unsupported control contract");
    assert!(config(vec![]).check_reload(&config(vec![])).is_ok());
    let mut moved = config(vec![]);
    moved.storage.state_dir = "/elsewhere".into();
    assert!(config(vec![]).check_reload(&moved).is_err());
}

#[test]
fn a_credential_is_private() {
    let file = |mode| CredentialFile { regular: true, mode, owned: true };
    assert_eq!(secret(&file(0o600), " token\n").unwrap(), "token");
    assert!(secret(&file(0o644), "token").is_err());
    assert_eq!(secret(&file(0o600), " \n").unwrap_err(), "invalid credential length");
}

#[test]
fn the_newest_choice_of_a_model_applies() {
    let choose = |interaction: &str, latest: i64, earlier: Option<EarlierChoice>| {
        select_direct_model(interaction, "t", "m", true, earlier, latest)
    };
    assert!(matches!(choose("5", 4, None), Ok(Choice::Apply(5))));
    assert!(matches!(choose("5", 6, None), Ok(Choice::Superseded)));
    let again = EarlierChoice { thread: "t".into(), model: "m".into(), applied: true };
    assert!(matches!(choose("5", 9, Some(again)), Ok(Choice::Again(true))));
    let other = EarlierChoice { thread: "u".into(), model: "m".into(), applied: true };
    assert!(choose("5", 9, Some(other)).is_err());
    assert!(choose("x", 0, None).is_err());
}

#[test]
fn each_conversation_has_its_own_folder() {
    let a = ensure_conversation_workspace("/state", "5").unwrap();
    let b = ensure_conversation_workspace("/state", "6").unwrap();
    assert_ne!(a, b);
    assert!(a.starts_with("/state/") && a.ends_with("/5"));
    assert!(ensure_conversation_workspace("/state", "../5").is_err());
}

#[test]
fn only_an_own_socket_is_replaced() {
    assert_eq!(admin::check_socket(true, true), Ok(()));
    assert_eq!(admin::check_socket(false, true), Err("unsafe existing admin socket"));
    assert_eq!(admin::check_socket(true, false), Err("unsafe existing admin socket"));
    assert_eq!(admin::check_server(1, 1), Ok(()));
    assert_eq!(admin::check_server(1, 2), Err("admin server UID mismatch"));
}
