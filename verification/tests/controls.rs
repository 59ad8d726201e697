use codex_hoshikage_gateway::application::{
    admit_loop, answer_note, approval_id, approvals_of, discover_approvals, is_resource_notice, needs_lookup,
    progress_id, reserve_failed, scheduler_open, text_control_notice, waiting_notice, AdmissionFacts, AdmissionStep,
    AnswerNote, App,
};
use codex_hoshikage_gateway::codec::{compact_form, parse};
use codex_hoshikage_gateway::command_replies::{check_creation, conversation_parent, model_question, note, Note};
use codex_hoshikage_gateway::commands::{answer_control, check_message, control_loop, stop_meant, ControlAnswer, ControlPlan};
use codex_hoshikage_gateway::config::Limits;
use codex_hoshikage_gateway::direct_store::check_binding;
use codex_hoshikage_gateway::domain::RequestState;
use codex_hoshikage_gateway::files::artifact_root;
use codex_hoshikage_gateway::json::Json;
use codex_hoshikage_gateway::mcp_grant_menu::{check_selection, latest_mcp_grants};
use codex_hoshikage_gateway::operations::{
    approval_body, reserve_control, steer_body, steer_turn, ControlTarget, Deciding, HeldApproval, ModelLine,
};

fn json(text: &str) -> Json {
    parse(text).unwrap()
}

fn limits() -> Limits {
    Limits {
        attachments: 4,
        attachment_bytes: 1024,
        input_bytes: 4096,
        text_bytes: 1024,
        image_pixels: 1000,
        artifact_bytes: 1024,
        temp_bytes: 8192,
        output_bytes: 1024,
        output_total_bytes: 4096,
        delivery_retention_secs: 60,
        queue_conversation: 5,
        queue_global: 2,
        validation_secs: 120,
    }
}

fn facts() -> AdmissionFacts {
    AdmissionFacts {
        placed: true,
        model_chosen: true,
        reloading: false,
        recovering: false,
        proxy_ready: true,
        connected: true,
        known: true,
        readable: true,
        workers: 0,
    }
}

#[test]
fn an_open_gateway_takes_requests_in() {
    let limits = limits();
    let step = |f: AdmissionFacts| admit_loop(&f, &limits);
    assert!(matches!(step(facts()), AdmissionStep::Reserve));
    let full = AdmissionFacts { workers: limits.queue_global, ..facts() };
    assert!(matches!(step(full), AdmissionStep::Skip));
    let cut_off = AdmissionFacts { connected: false, ..facts() };
    assert!(matches!(step(cut_off), AdmissionStep::Notice("受付停止中です。/status で状態を確認してください。")));
    let unknown = AdmissionFacts { reloading: true, known: false, ..facts() };
    assert!(matches!(step(unknown), AdmissionStep::Skip));
    match step(AdmissionFacts { placed: false, ..facts() }) {
        AdmissionStep::Notice(s) => assert!(s.starts_with("この場所では会話を開始できません。")),
        _ => panic!("no notice"),
    }
    match step(AdmissionFacts { model_chosen: false, ..facts() }) {
        AdmissionStep::Notice(s) => assert!(s.starts_with("初期モデルを選んでください。")),
        _ => panic!("no notice"),
    }
    assert_eq!(reserve_failed(false), None);
    assert!(reserve_failed(true).unwrap().contains("AIへ送信していません"));
}

#[test]
fn waiting_requests_say_why_they_wait() {
    assert_eq!(waiting_notice(true, true), Some("受け付けました。一時停止中のため待機します。/resume で再開できます。"));
    assert_eq!(waiting_notice(false, true), Some("受け付けました。先の作業が終わるまで待機します。"));
    assert_eq!(waiting_notice(false, false), None);
    assert_eq!(text_control_notice(7, Some("done")), "done");
    assert!(text_control_notice(8, Some("done")).starts_with("操作が混み合っています。"));
    assert!(text_control_notice(0, None).starts_with("操作の適用を確認できませんでした。"));
    assert!(scheduler_open(false, false, true, true, 1));
    assert!(!scheduler_open(false, false, true, true, 2));
    assert!(!scheduler_open(false, true, true, true, 0));
    assert!(needs_lookup(RequestState::Running));
    assert!(!needs_lookup(RequestState::Queued));
    assert!(!needs_lookup(RequestState::Completed));
}

#[test]
fn a_started_response_is_named_by_its_receipt() {
    let receipt = json(r#"{"resource":{"type":"response","id":"resp-1"}}"#);
    assert_eq!(App::started_response(&receipt), Ok("resp-1".to_string()));
    assert_eq!(App::started_response(&json(r#"{"resource":{"type":"file","id":"f"}}"#)), Err("execution receipt mismatch"));
    assert_eq!(
        App::started_response(&json(r#"{"resource":{"type":"response"}}"#)),
        Err("execution receipt without identity")
    );
    let secrets = App::secrets("first-token", "proxy-key", "/private/state", "/private/temp", &vec!["old-token".to_string()]);
    assert_eq!(secrets, ["first-token", "proxy-key", "/private/state", "/private/temp", "old-token"]);
    assert_eq!(App::redact(secrets, "an old-token in /private/state"), "an [非公開] in [非公開]");
}

#[test]
fn notes_on_an_answer_say_what_is_missing() {
    assert_eq!(answer_note(AnswerNote::Loss), "回答表示に欠落があります。再実行はしていません。");
    assert!(answer_note(AnswerNote::Silent).contains("120秒以上"));
    assert!(answer_note(AnswerNote::Unavailable).contains("自動再実行はしません"));
    assert_eq!(answer_note(AnswerNote::Rejected), "入力を確認できなかったため、実行していません。");
    assert_eq!(progress_id("r1"), "progress-r1");
    assert!(is_resource_notice("resource-error-1"));
    assert!(!is_resource_notice("progress-r1"));
}

#[test]
fn approvals_belong_to_the_turn() {
    assert_eq!(approvals_of(Some("u")), Ok("u"));
    assert_eq!(approvals_of(None), Err("Turn unknown"));
    assert_eq!(approval_id(&json(r#"{"approval_id":"a"}"#)), Ok("a"));
    assert_eq!(approval_id(&json("{}")), Err("approval ID missing"));
    let approval = json(r#"{"details":{"threadId":"t","turnId":"u"},"expires_at_ms":5}"#);
    assert_eq!(discover_approvals(&approval, Some("t"), "u"), Ok(Some(5)));
    assert_eq!(discover_approvals(&approval, Some("x"), "u"), Err("approval target mismatch"));
    assert_eq!(discover_approvals(&approval, None, "u"), Err("approval target mismatch"));
}

#[test]
fn a_stop_is_stored_while_every_place_is_taken() {
    let stop = json(r#"{"guild_id":"1","member":{"user":{"id":"2"}},"data":{"name":"stop"}}"#);
    assert_eq!(control_loop(&stop, "1", "2", 10), ControlPlan { pause: true, cancel: false, serve: false });
    assert_eq!(control_loop(&stop, "1", "3", 0), ControlPlan { pause: false, cancel: false, serve: false });
    let status = json(r#"{"guild_id":"1","user":{"id":"2"},"data":{"name":"status"}}"#);
    assert_eq!(control_loop(&status, "1", "2", 7), ControlPlan { pause: false, cancel: false, serve: true });
    assert_eq!(control_loop(&status, "1", "2", 8), ControlPlan { pause: false, cancel: false, serve: false });
    let cancel = json(r#"{"guild_id":"1","user":{"id":"2"},"data":{"name":"cancel"}}"#);
    assert_eq!(control_loop(&cancel, "1", "2", 9), ControlPlan { pause: false, cancel: true, serve: true });
    let press = json(r#"{"data":{"custom_id":"stop:r1"}}"#);
    assert!(stop_meant(&press, Some("r1")));
    assert!(!stop_meant(&press, Some("r2")));
    assert!(!stop_meant(&press, None));
    assert!(stop_meant(&stop, None));
}

#[test]
fn outcomes_of_controls_are_told_once() {
    assert!(matches!(answer_control(true, Some("done".into())), ControlAnswer::Quiet));
    assert!(matches!(answer_control(true, None), ControlAnswer::Failure(_)));
    assert!(matches!(answer_control(false, Some(String::new())), ControlAnswer::Quiet));
    match answer_control(false, Some("done".into())) {
        ControlAnswer::Reply(s) => assert_eq!(s, "done"),
        _ => panic!("no reply"),
    }
    match answer_control(false, None) {
        ControlAnswer::Reply(s) => assert!(s.contains("自動再送はしません")),
        _ => panic!("no reply"),
    }
    assert_eq!(check_message(&json(r#"{"id":"7"}"#), true), Ok("7"));
    assert_eq!(check_message(&json(r#"{"id":"7"}"#), false), Err("old command message"));
    assert_eq!(check_message(&json("{}"), true), Err("message ID missing"));
}

#[test]
fn a_new_conversation_begins_in_a_channel_of_the_guild() {
    assert_eq!(conversation_parent(&json(r#"{"guild_id":"1","type":0}"#), "1"), Ok(None));
    assert_eq!(conversation_parent(&json(r#"{"guild_id":"1","type":11,"parent_id":"5"}"#), "1"), Ok(Some("5")));
    assert_eq!(conversation_parent(&json(r#"{"guild_id":"2","type":0}"#), "1"), Err("channel guild mismatch"));
    assert_eq!(conversation_parent(&json(r#"{"guild_id":"1","type":12}"#), "1"), Err("parent missing"));
    assert_eq!(
        conversation_parent(&json(r#"{"guild_id":"1","type":12,"parent_id":"x"}"#), "1"),
        Err("invalid Discord ID")
    );
    assert_eq!(check_creation(true), Ok(()));
    assert_eq!(check_creation(false), Err("thread creation already attempted"));
    assert_eq!(model_question("m"), "選択中のモデル: m\n/models で一覧、/model の id 欄で変更できます。");
    assert_eq!(note(Note::NothingToCancel), "取り消せる依頼はありません。");
    assert!(note(Note::NotHere).starts_with("この場所では会話できません。"));
    assert!(note(Note::TagRequired).contains("タグの指定が必要です"));
    assert!(note(Note::SteerAccepted).contains("追加指示が受け付けられました"));
}

#[test]
fn the_later_of_two_choices_applies() {
    let mut line = ModelLine { newest: 4, newest_choice: 2, selected: "old".into(), revision: 0 };
    let first = line.begin_choice(false).unwrap();
    let second = line.begin_choice(false).unwrap();
    assert_eq!((first, second), (5, 6));
    assert_eq!(line.begin_choice(true), Err("duplicate operation"));
    assert_eq!(line.settle_choice(second, true, "second"), (true, "APPLIED"));
    assert_eq!(line.settle_choice(first, true, "first"), (false, "SUPERSEDED"));
    assert_eq!(line.settle_choice(second, false, "again"), (false, "SUPERSEDED"));
    assert_eq!((line.selected.as_str(), line.revision), ("second", 1));
}

fn target() -> ControlTarget {
    ControlTarget {
        turn_id: Some("u".into()),
        proxy_thread_id: Some("t".into()),
        state: RequestState::Running,
        stop_requested: false,
    }
}

fn reserve(again: bool, t: &ControlTarget, turn: Option<&str>, deciding: Deciding) -> Result<(), &'static str> {
    reserve_control(again, t, turn, Some("t"), deciding, "r", 10)
}

#[test]
fn an_operation_is_for_the_turn_that_runs() {
    assert_eq!(reserve(false, &target(), Some("u"), Deciding::Nothing), Ok(()));
    assert_eq!(reserve(true, &target(), Some("u"), Deciding::Nothing), Err("duplicate operation"));
    assert_eq!(reserve(false, &target(), Some("x"), Deciding::Nothing), Err("control target no longer active"));
    let stopped = ControlTarget { stop_requested: true, ..target() };
    assert_eq!(reserve(false, &stopped, Some("u"), Deciding::Nothing), Err("control target no longer active"));
    let nameless = ControlTarget { turn_id: None, ..target() };
    assert_eq!(reserve(false, &nameless, None, Deciding::Nothing), Err("control target no longer active"));
    let approval = |end| HeldApproval { request_id: "r".into(), decided: false, pending: true, expires_at: end };
    assert_eq!(reserve(false, &target(), Some("u"), Deciding::Approval(Some(&approval(None)))), Ok(()));
    assert_eq!(reserve(false, &target(), Some("u"), Deciding::Approval(Some(&approval(Some(11))))), Ok(()));
    assert_eq!(
        reserve(false, &target(), Some("u"), Deciding::Approval(Some(&approval(Some(10))))),
        Err("approval no longer available")
    );
    assert_eq!(reserve(false, &target(), Some("u"), Deciding::Approval(None)), Err("approval no longer available"));
    let decided = HeldApproval { decided: true, ..approval(None) };
    assert_eq!(
        reserve(false, &target(), Some("u"), Deciding::Approval(Some(&decided))),
        Err("approval no longer available")
    );
}

#[test]
fn instructions_name_the_turn_they_are_for() {
    assert_eq!(steer_turn(None, Some("u")), Err("no active turn"));
    assert_eq!(steer_turn(Some(RequestState::ApprovalRequired), Some("u")), Err("steer unavailable in current state"));
    assert_eq!(steer_turn(Some(RequestState::Running), None), Err("Turn unknown"));
    assert_eq!(steer_turn(Some(RequestState::Running), Some("u")), Ok("u"));
    assert_eq!(compact_form(&steer_body("u", "more")), r#"{"expected_turn_id":"u","input":"more"}"#);
    assert_eq!(
        compact_form(&approval_body("accept", Some("t"), None)),
        r#"{"decision":"accept","expected_thread_id":"t","expected_turn_id":null}"#
    );
}

#[test]
fn a_folder_is_bound_by_its_plain_name() {
    assert_eq!(check_binding("/w/1", "/w/1", true, true), Ok(()));
    assert_eq!(check_binding("/w/1", "/v/1", true, true), Err("workspace path is not canonical"));
    assert_eq!(check_binding("/w/1", "/w/1", true, false), Err("workspace identity invalid"));
    assert_eq!(check_binding("w", "w", true, true), Err("workspace must be absolute"));
    assert_eq!(artifact_root(1, 2, 1, 2), Ok(()));
    assert_eq!(artifact_root(1, 2, 1, 3), Err("workspace changed"));
    assert_eq!(check_selection(Some(true)), Ok(()));
    assert_eq!(check_selection(Some(false)), Err("grant selection mismatch"));
    assert_eq!(check_selection(None), Err("missing v06 selection"));
    assert_eq!(latest_mcp_grants(Some("r")), "");
    assert_eq!(latest_mcp_grants(None), "この会話にはまだ作業がありません。");
}
