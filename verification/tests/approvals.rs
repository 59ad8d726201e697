use codex_hoshikage_gateway::approval_ui::{approval_can_accept, approval_description, approval_paths, refresh_approval, safe_text, typing_tick};
use codex_hoshikage_gateway::codec::parse;
use codex_hoshikage_gateway::codex_execution::TurnIdentity;
use codex_hoshikage_gateway::codex_transport::Event;
use codex_hoshikage_gateway::direct_approval::{DirectInteraction, ManualDecision, RunGrantAudit};
use codex_hoshikage_gateway::direct_buttons::{approval_button, decision_failed, feedback, read_button, ApprovalCard, ButtonStep, RunRequest};
use codex_hoshikage_gateway::direct_interaction_store::{
    close_direct_approvals, fence_direct_approvals_after_restart, record_direct_interaction, InteractionRecord, ReplyState,
};
use codex_hoshikage_gateway::direct_run::DirectRunService;
use codex_hoshikage_gateway::direct_run_actor::{Registered, RunStep, RunWatch};
use codex_hoshikage_gateway::direct_store::SendState;
use codex_hoshikage_gateway::domain::RequestState;
use codex_hoshikage_gateway::json::Json;
use codex_hoshikage_gateway::run_grants::check_generation;

fn json(text: &str) -> Json {
    parse(text).unwrap()
}

fn run() -> TurnIdentity {
    TurnIdentity { thread_id: "thread".into(), turn_id: "turn".into() }
}

fn command(params: &str) -> DirectInteraction {
    let event = Event::ServerRequest {
        id: Json::Unsigned(1),
        method: "item/commandExecution/requestApproval".into(),
        params: json(params),
    };
    DirectInteraction::from_event(&event, &run()).unwrap().unwrap()
}

fn card(operation: DirectInteraction) -> ApprovalCard {
    ApprovalCard {
        request_id: "request".into(),
        thread_id: "conversation".into(),
        fingerprint: operation.fingerprint.clone(),
        operation,
        input_generation: 0,
        highest_viewed_page: None,
    }
}

#[test]
fn a_request_of_another_turn_is_refused() {
    let event = |params: &str| Event::ServerRequest {
        id: Json::Unsigned(1),
        method: "item/commandExecution/requestApproval".into(),
        params: json(params),
    };
    let other = event(r#"{"threadId":"x","turnId":"turn","itemId":"i"}"#);
    assert_eq!(
        DirectInteraction::from_event(&other, &run()).unwrap_err(),
        "App Server request belongs to another thread"
    );
    let other = event(r#"{"threadId":"thread","turnId":"x","itemId":"i"}"#);
    assert_eq!(
        DirectInteraction::from_event(&other, &run()).unwrap_err(),
        "App Server request belongs to another turn"
    );
    let bare = event(r#"{"threadId":"thread","turnId":"turn"}"#);
    assert_eq!(
        DirectInteraction::from_event(&bare, &run()).unwrap_err(),
        "App Server request item ID missing"
    );
    let large = event(&format!(
        r#"{{"threadId":"thread","turnId":"turn","itemId":"i","command":"{}"}}"#,
        "x".repeat(70_000)
    ));
    assert_eq!(
        DirectInteraction::from_event(&large, &run()).unwrap_err(),
        "App Server request exceeds approval limit"
    );
}

#[test]
fn only_an_offered_decision_is_sent() {
    let operation = command(
        r#"{"threadId":"thread","turnId":"turn","itemId":"i","availableDecisions":["decline"]}"#,
    );
    assert!(operation.manual_decision(ManualDecision::AcceptOnce).is_err());
    assert_eq!(
        operation.manual_decision(ManualDecision::Decline).unwrap(),
        json(r#"{"decision":"decline"}"#)
    );
}

#[test]
fn evidence_changes_the_fingerprint() {
    let event = Event::ServerRequest {
        id: Json::Unsigned(1),
        method: "item/tool/requestUserInput".into(),
        params: json(r#"{"threadId":"thread","turnId":"turn","itemId":"i"}"#),
    };
    let item = json(r#"{"type":"mcpToolCall","id":"i","server":"s","tool":"t","arguments":{}}"#);
    let plain = DirectRunService::register_interaction_with_evidence(&run(), &event, None);
    let bound = DirectRunService::register_interaction_with_evidence(&run(), &event, Some(item.copy()));
    let (plain, bound) = (plain.unwrap().unwrap(), bound.unwrap().unwrap());
    assert_ne!(plain.fingerprint, bound.fingerprint);
    assert_eq!(bound.mcp_evidence, Some(item));
    let other = json(r#"{"type":"mcpToolCall","id":"j","server":"s","tool":"t","arguments":{}}"#);
    let refused = DirectRunService::register_interaction_with_evidence(&run(), &event, Some(other));
    assert_eq!(refused.unwrap_err(), "MCP call evidence does not match the question");
}

#[test]
fn a_long_operation_is_accepted_only_from_its_last_page() {
    let long = format!(
        r#"{{"threadId":"thread","turnId":"turn","itemId":"i","command":"{}"}}"#,
        "x".repeat(6000)
    );
    let mut shown = card(command(&long));
    let step = approval_button("direct:accept:id", Some(&shown), "conversation", Some("request"));
    assert!(matches!(step, ButtonStep::Answer(_)));
    let mut page = 0;
    loop {
        let custom = if page == 0 {
            "direct:detail:id".to_string()
        } else {
            format!("direct:page:id:{page}")
        };
        match approval_button(&custom, Some(&shown), "conversation", Some("request")) {
            ButtonStep::Show { page: at, .. } => {
                assert_eq!(at, page);
                shown.viewed(at);
            }
            _ => break,
        }
        page += 1;
    }
    assert!(page > 1);
    let step = approval_button("direct:accept:id", Some(&shown), "conversation", Some("request"));
    assert!(matches!(
        step,
        ButtonStep::Send(RunRequest::Manual { decision: ManualDecision::AcceptOnce, input_generation: 0 })
    ));
}

#[test]
fn a_page_is_not_skipped() {
    let long = format!(
        r#"{{"threadId":"thread","turnId":"turn","itemId":"i","command":"{}"}}"#,
        "x".repeat(6000)
    );
    let shown = card(command(&long));
    let step = approval_button("direct:page:id:2", Some(&shown), "conversation", Some("request"));
    assert!(matches!(step, ButtonStep::Answer(_)));
}

#[test]
fn a_stale_card_answers_and_sends_nothing() {
    let shown = card(command(r#"{"threadId":"thread","turnId":"turn","itemId":"i"}"#));
    assert!(matches!(
        approval_button("direct:decline:id", None, "conversation", Some("request")),
        ButtonStep::Answer(_)
    ));
    assert!(matches!(
        approval_button("direct:decline:id", Some(&shown), "elsewhere", Some("request")),
        ButtonStep::Answer(_)
    ));
    assert!(matches!(
        approval_button("direct:decline:id", Some(&shown), "conversation", None),
        ButtonStep::Answer(_)
    ));
}

#[test]
fn the_identity_of_a_button_is_read_back() {
    let button = read_button("direct:page:abc:3").unwrap();
    assert_eq!(
        (button.action.as_str(), button.card.as_str(), button.extra.as_deref()),
        ("page", "abc", Some("3"))
    );
    assert!(read_button("other:page:abc").is_none());
    assert!(read_button("direct:abc").is_none());
    assert_ne!(feedback("accept"), feedback("decline"));
}

#[test]
fn a_request_for_a_decision_is_decided_once() {
    let mut record = InteractionRecord {
        fingerprint: "f".into(),
        method: "item/commandExecution/requestApproval".into(),
        state: ReplyState::Pending,
        offered: None,
    };
    assert!(record
        .begin_direct_approval_reply("other", SendState::Acked, ManualDecision::Decline)
        .is_err());
    record.begin_direct_approval_reply("f", SendState::Acked, ManualDecision::Decline).unwrap();
    assert_eq!(record.state, ReplyState::Sending);
    assert!(record
        .begin_direct_approval_reply("f", SendState::Acked, ManualDecision::AcceptOnce)
        .is_err());
    record.mark_direct_approval_unknown().unwrap();
    assert_eq!(record.state, ReplyState::Unknown);
    assert!(record
        .begin_direct_approval_reply("f", SendState::Acked, ManualDecision::AcceptOnce)
        .is_err());
}

#[test]
fn quoted_text_cannot_leave_its_block() {
    assert_eq!(safe_text("a`b@c\u{7}", 100), "aˋb＠c");
    let cut = safe_text("abcdef", 3);
    assert!(cut.starts_with("abc\n…"));
    assert_eq!(safe_text("😀😀", 3).chars().next(), Some('😀'));
}

#[test]
fn the_files_of_an_approval_are_its_changes() {
    let changes = json(r#"{"changes":{"a.txt":{},"b.txt":{}}}"#);
    assert_eq!(approval_paths(&changes).unwrap(), vec!["a.txt", "b.txt"]);
    assert!(approval_paths(&json(r#"{"grantRoot":"/","changes":{"a":{}}}"#)).is_none());
    assert!(approval_paths(&json(r#"{"paths":["a"," "]}"#)).is_none());
    assert!(approval_paths(&json(r#"{"paths":["a",1]}"#)).is_none());
    assert_eq!(approval_paths(&json(r#"{"paths":["a"]}"#)).unwrap(), vec!["a"]);
}

#[test]
fn an_unclear_operation_cannot_be_accepted() {
    let unclear = json(r#"{"details":{"command":" "},"available_decisions":["accept","cancel"]}"#);
    assert!(!approval_can_accept(&unclear));
    assert!(approval_description(&unclear).contains("承認ボタンを表示していません"));
    let clear = json(r#"{"details":{"command":"ls","kind":"command"},"available_decisions":["accept"]}"#);
    assert!(approval_can_accept(&clear));
    assert!(approval_description(&clear).starts_with("**コマンドの実行許可が必要です**"));
}

#[test]
fn the_card_of_an_approval_follows_its_state() {
    let open = json(
        r#"{"id":"a","state":"pending","details":{"threadId":"t","turnId":"u","command":"ls"},"available_decisions":["accept","cancel"]}"#,
    );
    let view = |v: Option<&Json>, state: RequestState| {
        refresh_approval(v, "a", Some("t"), Some("u"), state, "PENDING", 0)
    };
    let shown = view(Some(&open), RequestState::Running).unwrap();
    assert!(!shown.closed);
    assert_eq!(shown.components.item(0).at("components").as_array().unwrap().len(), 2);
    let ended = view(Some(&open), RequestState::Completed).unwrap();
    assert!(ended.closed);
    assert_eq!(ended.components, Json::Array(vec![]));
    assert!(!view(None, RequestState::Running).unwrap().closed);
    assert_eq!(
        refresh_approval(Some(&open), "b", Some("t"), Some("u"), RequestState::Running, "PENDING", 0).err(),
        Some("approval target mismatch")
    );
}

#[test]
fn closed_approvals_are_not_decided() {
    let record = |state| InteractionRecord {
        fingerprint: "f".into(),
        method: "item/fileChange/requestApproval".into(),
        state,
        offered: None,
    };
    let mut all = vec![
        record(ReplyState::Pending),
        record(ReplyState::Sending),
        record(ReplyState::Sent),
        record(ReplyState::Resolved),
    ];
    assert_eq!(close_direct_approvals(&mut all), 3);
    let states: Vec<ReplyState> = all.iter().map(|r| r.state).collect();
    assert_eq!(
        states,
        [ReplyState::Unavailable, ReplyState::Unknown, ReplyState::Unknown, ReplyState::Resolved]
    );
    assert_eq!(fence_direct_approvals_after_restart(&mut all), 0);
    for r in all.iter_mut() {
        assert!(r.begin_direct_approval_reply("f", SendState::Acked, ManualDecision::Decline).is_err());
    }
}

#[test]
fn a_conversation_that_waits_for_the_user_is_not_busy() {
    assert!(typing_tick(RequestState::Running, false, false));
    assert!(typing_tick(RequestState::Sending, false, false));
    assert!(!typing_tick(RequestState::Running, true, false));
    assert!(!typing_tick(RequestState::Running, false, true));
    assert!(!typing_tick(RequestState::Queued, false, false));
}

fn form(arguments: &str) -> DirectInteraction {
    let event = Event::ServerRequest {
        id: Json::Unsigned(7),
        method: "mcpServer/elicitation/request".into(),
        params: json(
            r#"{"threadId":"thread","turnId":"turn","mode":"form","serverName":"s",
            "message":"Allow the s MCP server to run tool \"t\"?",
            "requestedSchema":{"type":"object","properties":{}},
            "_meta":{"codex_approval_kind":"mcp_tool_call","persist":["session"],"tool_params":{"n":0.0}}}"#,
        ),
    };
    let item = json(&format!(
        r#"{{"type":"mcpToolCall","id":"i","server":"s","tool":"t","arguments":{arguments}}}"#
    ));
    DirectRunService::register_interaction_with_evidence(&run(), &event, Some(item)).unwrap().unwrap()
}

#[test]
fn the_buttons_of_a_form_reach_the_run() {
    for (action, decision, word, reply) in [
        ("accept", ManualDecision::AcceptOnce, "accept", r#"{"action":"accept","content":{}}"#),
        ("run", ManualDecision::AcceptOnce, "accept", r#"{"action":"accept","content":{}}"#),
        ("decline", ManualDecision::Decline, "decline", r#"{"action":"decline","content":null}"#),
    ] {
        let operation = form(r#"{"n":0.0}"#);
        let mut record = record_direct_interaction(
            &operation,
            Some("thread"),
            Some("turn"),
            SendState::Acked,
            None,
            RequestState::Running,
        )
        .unwrap()
        .unwrap();
        let fingerprint = operation.fingerprint.clone();
        let mut shown = card(operation);
        shown.viewed(0);
        let step = approval_button(&format!("direct:{action}:id"), Some(&shown), "conversation", Some("request"));
        match step {
            ButtonStep::Send(RunRequest::Tool { decision: d, run_grant, input_generation: 0 }) => {
                assert_eq!((d, run_grant), (decision, action == "run"));
            }
            _ => panic!("not sent"),
        }
        assert_eq!(
            DirectRunService::reply_mcp_tool(&shown.operation, &run(), decision).unwrap(),
            json(reply)
        );
        assert_eq!(record.begin_direct_mcp_reply(&fingerprint, SendState::Acked, decision), Ok(word));
        assert_eq!(record.state, ReplyState::Sending);
        assert!(record.begin_direct_mcp_reply(&fingerprint, SendState::Acked, decision).is_err());
    }
}

#[test]
fn evidence_is_compared_by_the_values_of_numbers() {
    assert!(form(r#"{"n":-0.0}"#).mcp_evidence.is_some());
    assert!(json("[0.0]").same_as(&json("[-0.0]")));
    assert!(json("1.50").same_as(&json("1.5")));
    assert!(!json("1.0").same_as(&json("1")));
    assert!(!json("0.0").same_as(&json("0.5")));
    assert!(json(r#"{"a":1,"b":[null]}"#).same_as(&json(r#"{"b":[null],"a":1}"#)));
    assert!(!json(r#"{"a":1}"#).same_as(&json(r#"{"a":2}"#)));
    let refused = json(r#"{"type":"mcpToolCall","id":"i","server":"s","tool":"t","arguments":{"n":1.0}}"#);
    let mut operation = form(r#"{"n":0.0}"#);
    assert_eq!(
        operation.bind_mcp_evidence(refused),
        Err("MCP call evidence does not match the elicitation")
    );
}

fn call(id: &str, tool: &str, n: u64) -> Event {
    Event::Notification {
        method: "item/started".into(),
        params: json(&format!(
            r#"{{"threadId":"thread","turnId":"turn","item":{{"type":"mcpToolCall","id":"{id}","server":"s","tool":"{tool}","arguments":{{"n":{n}}}}}}}"#
        )),
    }
}

fn asks(rpc: u64, tool: &str, n: u64) -> Event {
    Event::ServerRequest {
        id: Json::Unsigned(rpc),
        method: "mcpServer/elicitation/request".into(),
        params: json(&format!(
            r#"{{"threadId":"thread","turnId":"turn","mode":"form","serverName":"s",
            "message":"Allow the s MCP server to run tool \"{tool}\"?",
            "requestedSchema":{{"type":"object","properties":{{}}}},
            "_meta":{{"codex_approval_kind":"mcp_tool_call","persist":["session"],"tool_params":{{"n":{n}}}}}}}"#
        )),
    }
}

/// What the run does with a form, and the form with its evidence.
fn form_comes(watch: &mut RunWatch, rpc: u64, tool: &str, n: u64) -> (Registered, DirectInteraction) {
    let event = asks(rpc, tool, n);
    let evidence = match watch.hear(Some(&event), &run(), 0) {
        Ok(RunStep::Register(evidence)) => evidence,
        _ => panic!("not registered"),
    };
    let operation =
        DirectRunService::register_interaction_with_evidence(&run(), &event, evidence).unwrap().unwrap();
    let id = format!("card-{rpc}");
    (watch.registered(&operation, &id), operation)
}

#[test]
fn a_permitted_tool_is_not_asked_about_again() {
    let mut watch = RunWatch::new();
    for (id, tool, n) in [("a", "click", 1), ("b", "click", 2), ("c", "type", 1), ("d", "click", 3)] {
        watch.hear(Some(&call(id, tool, n)), &run(), 0).unwrap();
    }
    let (shown, first) = form_comes(&mut watch, 1, "click", 1);
    assert!(matches!(shown, Registered::Show { input_generation: 0 }));
    assert!(first.mcp_evidence.as_ref().unwrap().at("id").is_text("a"));
    let grant = RunRequest::Tool { decision: ManualDecision::AcceptOnce, run_grant: true, input_generation: 0 };
    assert_eq!(watch.check_decision(grant), Ok(()));
    assert!(matches!(
        watch.decided(&first, "card-1", grant),
        Some(RunGrantAudit::Selected { server, tool }) if server == "s" && tool == "click"
    ));
    let (passed, second) = form_comes(&mut watch, 2, "click", 2);
    assert!(matches!(
        passed,
        Registered::Allow(RunGrantAudit::Applied { initial_interaction_id, .. }) if initial_interaction_id == "card-1"
    ));
    assert!(second.mcp_tool_decision(ManualDecision::AcceptOnce).is_ok());
    assert!(matches!(form_comes(&mut watch, 2, "click", 2).0, Registered::Again));
    assert!(matches!(form_comes(&mut watch, 3, "type", 1).0, Registered::Show { input_generation: 0 }));
    assert_eq!(watch.steer(), 1);
    assert_eq!(watch.check_decision(grant), Err("approval belongs to an earlier input generation"));
    assert!(decision_failed(watch.check_decision(grant).unwrap_err(), None).starts_with("追加指示の前の確認画面です。"));
    assert!(matches!(form_comes(&mut watch, 4, "click", 3).0, Registered::Show { input_generation: 1 }));
}

#[test]
fn a_stop_ends_what_was_permitted() {
    let mut watch = RunWatch::new();
    watch.hear(Some(&call("a", "click", 1)), &run(), 0).unwrap();
    let (_, first) = form_comes(&mut watch, 1, "click", 1);
    let grant = RunRequest::Tool { decision: ManualDecision::AcceptOnce, run_grant: true, input_generation: 0 };
    let once = RunRequest::Tool { decision: ManualDecision::AcceptOnce, run_grant: false, input_generation: 0 };
    assert!(watch.decided(&first, "card-1", once).is_none());
    assert!(matches!(form_comes(&mut watch, 2, "click", 1).0, Registered::Show { .. }));
    assert!(watch.decided(&first, "card-1", grant).is_some());
    assert!(matches!(form_comes(&mut watch, 3, "click", 1).0, Registered::Allow(_)));
    watch.stop();
    assert!(matches!(form_comes(&mut watch, 4, "click", 1).0, Registered::Show { .. }));
    assert_eq!(check_generation(3, 3), Ok(()));
    assert!(check_generation(2, 3).is_err());
}

#[test]
fn a_form_without_its_call_has_no_evidence() {
    let mut watch = RunWatch::new();
    watch.hear(Some(&call("a", "click", 1)), &run(), 0).unwrap();
    assert!(form_comes(&mut watch, 1, "click", 2).1.mcp_evidence.is_none());
    assert!(form_comes(&mut watch, 2, "type", 1).1.mcp_evidence.is_none());
    watch.hear(Some(&call("b", "click", 1)), &run(), 0).unwrap();
    let (_, newest) = form_comes(&mut watch, 3, "click", 1);
    assert!(newest.mcp_evidence.unwrap().at("id").is_text("b"));
}

#[test]
fn offered_decisions_must_be_texts() {
    let mut record = InteractionRecord {
        fingerprint: "f".into(),
        method: "item/fileChange/requestApproval".into(),
        state: ReplyState::Pending,
        offered: Some(json("[1]")),
    };
    assert_eq!(
        record.begin_direct_approval_reply("f", SendState::Acked, ManualDecision::Decline).unwrap_err(),
        "invalid type: integer `1`, expected a string at line 1 column 2"
    );
}
