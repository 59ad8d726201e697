use codex_hoshikage_gateway::codec::parse;
use codex_hoshikage_gateway::codex_execution::{CodexExecution, ExecutionOptions, ModelPages, PageStep, TurnIdentity, TurnSnapshot};
use codex_hoshikage_gateway::codex_transport::{Connection, Dispatch, Envelope, Event, Params, RpcError, TransportError};
use codex_hoshikage_gateway::direct_approval::{DirectInteraction, ManualDecision};
use codex_hoshikage_gateway::direct_buttons::ApprovalCard;
use codex_hoshikage_gateway::direct_daemon::{
    accepted_notice, control_loop, drive, leftover_cards, scheduler_loop, start_failed, typing_loop, watch_failed,
    ControlStep, RunNews, Signal,
};
use codex_hoshikage_gateway::direct_run::{DirectRunService, StartNext, StartStep, UnknownOnDrop};
use codex_hoshikage_gateway::direct_run_actor::{finish_if_ready, Ending, Registered, RunStep, RunWatch};
use codex_hoshikage_gateway::direct_store::{direct_unknown_blocker, Hold, PrepareFacts, RunRecord, SendFacts, SendState};
use codex_hoshikage_gateway::domain::RequestState;
use codex_hoshikage_gateway::json::Json;
use codex_hoshikage_gateway::tables::Table;

fn json(text: &str) -> Json {
    parse(text).unwrap()
}

fn run() -> TurnIdentity {
    TurnIdentity { thread_id: "thread".into(), turn_id: "turn".into() }
}

fn started(id: &str, arguments: &str) -> Event {
    Event::Notification {
        method: "item/started".into(),
        params: json(&format!(
            r#"{{"threadId":"thread","turnId":"turn","item":{{"type":"mcpToolCall","id":"{id}","server":"s","tool":"t","arguments":{arguments}}}}}"#
        )),
    }
}

fn question(item: &str) -> Event {
    Event::ServerRequest {
        id: Json::Unsigned(1),
        method: "item/tool/requestUserInput".into(),
        params: json(&format!(r#"{{"threadId":"thread","turnId":"turn","itemId":"{item}"}}"#)),
    }
}

#[test]
fn evidence_is_what_was_announced() {
    let mut watch = RunWatch::new();
    watch.hear(Some(&started("i", "{}")), &run(), 0).unwrap();
    let step = watch.hear(Some(&question("i")), &run(), 0).unwrap();
    assert!(matches!(step, RunStep::Register(Some(item)) if item.at("tool").is_text("t")));
    let step = watch.hear(Some(&question("other")), &run(), 0).unwrap();
    assert!(matches!(step, RunStep::Register(None)));
}

#[test]
fn a_call_announced_twice_differently_is_evidence_of_nothing() {
    let mut watch = RunWatch::new();
    watch.hear(Some(&started("i", "{}")), &run(), 0).unwrap();
    watch.hear(Some(&started("i", r#"{"x":1}"#)), &run(), 0).unwrap();
    watch.hear(Some(&started("i", "{}")), &run(), 0).unwrap();
    let step = watch.hear(Some(&question("i")), &run(), 0).unwrap();
    assert!(matches!(step, RunStep::Register(None)));
}

#[test]
fn the_memory_of_calls_is_bounded() {
    let mut watch = RunWatch::new();
    for n in 0..200 {
        watch.hear(Some(&started(&format!("i{n}"), "{}")), &run(), 0).unwrap();
    }
    assert_eq!(watch.items.len(), 128);
}

#[test]
fn only_the_end_of_this_turn_finishes_the_run() {
    let mut watch = RunWatch::new();
    let ended = |thread: &str, turn: &str| Event::Notification {
        method: "turn/completed".into(),
        params: json(&format!(r#"{{"threadId":"{thread}","turn":{{"id":"{turn}"}}}}"#)),
    };
    assert_eq!(
        watch.hear(Some(&ended("thread", "other")), &run(), 5).unwrap_err(),
        "another turn completed on this child"
    );
    assert!(matches!(watch.hear(Some(&ended("thread", "turn")), &run(), 5), Ok(RunStep::Finish)));
    assert!(matches!(watch.overdue(60_000_000_005), RunStep::Wait));
    assert!(matches!(
        watch.overdue(60_000_000_006),
        RunStep::Unknown("terminal_content_unavailable")
    ));
}

#[test]
fn a_closed_runtime_leaves_the_outcome_unknown() {
    let mut watch = RunWatch::new();
    assert!(matches!(watch.hear(None, &run(), 0), Ok(RunStep::Unknown("runtime_closed"))));
    let broken = Event::ProtocolError("x".into());
    assert!(matches!(
        watch.hear(Some(&broken), &run(), 0),
        Ok(RunStep::Unknown("runtime_protocol_error"))
    ));
    assert!(matches!(watch.look(None, true, 0), RunStep::Unknown("runtime_closed")));
    assert!(matches!(watch.look(None, false, 0), RunStep::Wait));
    assert!(matches!(watch.look(Some("inProgress"), false, 0), RunStep::Wait));
    assert!(matches!(watch.look(Some("interrupted"), false, 0), RunStep::Finish));
}

#[test]
fn a_request_is_shown_once_and_resolved_once() {
    let mut watch = RunWatch::new();
    let event = Event::ServerRequest {
        id: Json::Unsigned(9),
        method: "item/fileChange/requestApproval".into(),
        params: json(r#"{"threadId":"thread","turnId":"turn","itemId":"i"}"#),
    };
    let operation = DirectInteraction::from_event(&event, &run()).unwrap().unwrap();
    assert!(matches!(watch.registered(&operation, "card"), Registered::Show { input_generation: 0 }));
    assert!(matches!(watch.registered(&operation, "card"), Registered::Again));
    let resolved = Event::Notification {
        method: "serverRequest/resolved".into(),
        params: json(r#"{"threadId":"thread","requestId":9}"#),
    };
    assert!(matches!(watch.hear(Some(&resolved), &run(), 0), Ok(RunStep::Resolve(id)) if id == "card"));
    assert!(matches!(watch.hear(Some(&resolved), &run(), 0), Ok(RunStep::Wait)));
}

#[test]
fn an_ending_without_delivery_is_pending() {
    assert_eq!(finish_if_ready(true, RequestState::Completed), Ending::Delivered);
    assert_eq!(finish_if_ready(false, RequestState::Failed), Ending::DeliveryPending);
    assert_eq!(finish_if_ready(false, RequestState::Running), Ending::Open);
}

#[test]
fn a_run_that_is_given_up_is_uncertain_until_disarmed() {
    let mut guard = UnknownOnDrop::new("r");
    assert_eq!(guard.given_up(), Some("dispatch_task_cancelled"));
    guard.disarm();
    assert_eq!(guard.given_up(), None);
}

#[test]
fn a_failure_beyond_the_boundary_is_uncertain() {
    let step = DirectRunService::start(StartStep::StartTurn, Some("lost"), RequestState::Sending, true);
    assert!(matches!(step, StartNext::Uncertain(reason) if reason == "turn_start: lost"));
    let step = DirectRunService::start(StartStep::Acquire, Some("none"), RequestState::Queued, true);
    assert!(matches!(step, StartNext::GiveUp));
    let step = DirectRunService::start(StartStep::Acknowledge, None, RequestState::Sending, true);
    assert!(matches!(step, StartNext::Running));
}

#[test]
fn a_turn_is_confirmed_only_when_it_ended_whole() {
    let mut snapshot = TurnSnapshot {
        identity: run(),
        status: "completed".into(),
        final_text: Some("done".into()),
        items_view_full: true,
        items: vec![],
    };
    assert_eq!(
        DirectRunService::confirm_terminal(&snapshot).unwrap().answer.as_deref(),
        Some("done")
    );
    snapshot.items_view_full = false;
    assert_eq!(
        DirectRunService::confirm_terminal(&snapshot).err(),
        Some("Codex output inventory is incomplete")
    );
    snapshot.status = "inProgress".into();
    assert_eq!(
        DirectRunService::confirm_terminal(&snapshot).err(),
        Some("Codex turn has not ended")
    );
}

#[test]
fn a_decision_is_sent_by_its_word() {
    assert_eq!(
        DirectRunService::reply_manual(ManualDecision::Cancel),
        json(r#"{"decision":"cancel"}"#)
    );
}

fn fresh() -> RunRecord {
    RunRecord {
        state: RequestState::Queued,
        started: false,
        eligible: true,
        send: None,
        codex_thread: None,
        codex_turn: None,
        hold: Hold::Free,
    }
}

fn prepare() -> PrepareFacts {
    PrepareFacts {
        proxy_identity: false,
        direct_mode: true,
        proxy_boundary: false,
        legacy_execution: false,
        binding_kept: true,
    }
}

fn send() -> SendFacts {
    SendFacts {
        recovery_pending: false,
        paused: false,
        dispatchable: true,
        has_model: true,
        project_active: true,
        model_validating: false,
        occupied: 0,
        conversation_occupied: false,
        earlier_waiting: false,
        generation: 1,
    }
}

#[test]
fn a_request_is_sent_at_most_once() {
    let mut record = fresh();
    record.prepare_direct(&prepare()).unwrap();
    record.begin_direct_send(&send()).unwrap();
    assert_eq!(record.state, RequestState::Sending);
    assert!(matches!(record.hold, Hold::Held(1)));
    assert!(record.begin_direct_send(&send()).is_err());
    record.record_direct_thread(None, "thread").unwrap();
    record.acknowledge_direct_turn(Some("thread"), "thread", "turn").unwrap();
    assert_eq!(record.state, RequestState::Running);
    assert!(record.begin_direct_send(&send()).is_err());
    record.finish_direct(&run(), "completed", true).unwrap();
    assert_eq!(record.state, RequestState::Completed);
    assert!(record.begin_direct_send(&send()).is_err());
}

#[test]
fn an_uncertain_request_holds_its_conversation_until_released() {
    let mut record = fresh();
    record.prepare_direct(&prepare()).unwrap();
    record.begin_direct_send(&send()).unwrap();
    record.mark_direct_unknown().unwrap();
    assert_eq!(record.state, RequestState::Unknown);
    assert!(matches!(record.send, Some(SendState::Unknown)));
    assert!(record.begin_direct_send(&send()).is_err());
    assert_eq!(record.release(7), Err("unknown hold generation changed"));
    assert_eq!(fresh().release(1), Err("Query returned no rows"));
    assert!(matches!(record.hold, Hold::Held(1)));
    record.release(1).unwrap();
    assert!(matches!(record.hold, Hold::Released(2)));
    assert_eq!(record.state, RequestState::Unknown);
}

#[test]
fn a_restart_fences_what_was_under_way() {
    let mut record = fresh();
    record.prepare_direct(&prepare()).unwrap();
    record.begin_direct_send(&send()).unwrap();
    assert!(record.fence_direct_after_restart());
    assert_eq!(record.state, RequestState::Unknown);
    let mut waiting = fresh();
    assert!(!waiting.fence_direct_after_restart());
    assert_eq!(waiting.state, RequestState::Queued);
}

#[test]
fn a_busy_or_paused_conversation_sends_nothing() {
    for change in 0..4 {
        let mut record = fresh();
        record.prepare_direct(&prepare()).unwrap();
        let mut facts = send();
        match change {
            0 => facts.paused = true,
            1 => facts.conversation_occupied = true,
            2 => facts.earlier_waiting = true,
            _ => facts.recovery_pending = true,
        }
        assert!(record.begin_direct_send(&facts).is_err());
        assert_eq!(record.state, RequestState::Queued);
    }
}

fn card(request: &str, thread: &str, generation: u64) -> ApprovalCard {
    let event = Event::ServerRequest {
        id: Json::Unsigned(1),
        method: "item/commandExecution/requestApproval".into(),
        params: json(r#"{"threadId":"thread","turnId":"turn","itemId":"i"}"#),
    };
    let operation = DirectInteraction::from_event(&event, &run()).unwrap().unwrap();
    ApprovalCard {
        request_id: request.into(),
        thread_id: thread.into(),
        fingerprint: operation.fingerprint.clone(),
        operation,
        input_generation: generation,
        highest_viewed_page: None,
    }
}

#[test]
fn a_further_instruction_closes_the_cards_before_it() {
    let mut cards = Table::new();
    cards.insert("old", card("r", "t", 0));
    cards.insert("new", card("r", "t", 2));
    cards.insert("other", card("q", "u", 0));
    let step = drive(&RunNews::ApprovalInvalidated(2), "r", &mut cards);
    assert_eq!(step.closed.len(), 1);
    assert_eq!(step.closed[0].id, "old");
    assert!(!step.over);
    assert!(cards.holds("new") && cards.holds("other"));
    let rest = leftover_cards("r", &mut cards);
    assert_eq!(rest.len(), 1);
    assert_eq!(rest[0].thread, "t");
    assert!(cards.holds("other"));
}

#[test]
fn an_unknown_result_is_told_and_ends_the_run() {
    let mut cards = Table::new();
    let step = drive(&RunNews::ResultUnknown("terminal_content_unavailable".into()), "r", &mut cards);
    assert!(step.over);
    assert!(step.notice.unwrap().starts_with("Codexの作業終了は確認できましたが"));
    let step = drive(&RunNews::ResultUnknown("runtime_closed".into()), "r", &mut cards);
    assert!(step.notice.unwrap().starts_with("作業の状態を確認できず"));
    let step = drive(&RunNews::Terminal, "r", &mut cards);
    assert!(step.over && step.notice.is_none());
}

#[test]
fn at_most_two_requests_start() {
    let mut busy = Table::new();
    busy.insert("a", true);
    let waiting = vec!["a".to_string(), "b".into(), "c".into(), "d".into()];
    assert_eq!(scheduler_loop(&waiting, &mut busy, 1, true), vec!["b"]);
    assert!(busy.holds("b"));
    assert!(scheduler_loop(&waiting, &mut busy, 2, true).is_empty());
    assert!(scheduler_loop(&waiting, &mut busy, 0, false).is_empty());
}

#[test]
fn a_conversation_that_awaits_a_decision_is_quiet() {
    let mut cards = Table::new();
    cards.insert("x", card("r", "t", 0));
    let active = vec!["t".to_string(), "u".into()];
    assert_eq!(typing_loop(&active, &cards, true), vec!["u"]);
    assert!(typing_loop(&active, &cards, false).is_empty());
}

#[test]
fn notices_and_failures_around_a_run() {
    assert!(accepted_notice(false, false).is_none());
    assert!(accepted_notice(true, false).unwrap().contains("/recover"));
    assert!(accepted_notice(false, true).unwrap().contains("/resume"));
    assert_eq!(start_failed(RequestState::Queued).unwrap().0, "direct_pre_send_failed");
    assert!(start_failed(RequestState::Running).is_none());
    assert_eq!(watch_failed(true, RequestState::Running), Some("direct_actor_failed"));
    assert_eq!(watch_failed(true, RequestState::Completed), None);
    assert_eq!(watch_failed(false, RequestState::Running), None);
    assert_eq!(control_loop(Signal::Interaction, 32), Ok(ControlStep::Skip));
    assert_eq!(control_loop(Signal::Interaction, 31), Ok(ControlStep::Serve));
    assert!(control_loop(Signal::Closed, 0).is_err());
}

fn answer(id: u64) -> Envelope {
    Envelope {
        id: Some(Json::Unsigned(id)),
        method: None,
        params: Params::Absent,
        has_result: true,
        error: None,
    }
}

#[test]
fn an_answer_reaches_the_request_that_waits_for_it() {
    let mut connection = Connection::new();
    let id = connection.begin("turn/start").unwrap();
    assert!(matches!(connection.dispatch(answer(id)), Dispatch::Answer { id: found, .. } if found == id));
    assert!(!matches!(connection.dispatch(answer(id)), Dispatch::Answer { .. }));
}

#[test]
fn a_closed_connection_fails_what_waits() {
    let mut connection = Connection::new();
    let id = connection.begin("turn/start").unwrap();
    assert_eq!(connection.close(), Some(vec![id]));
    assert_eq!(connection.close(), None);
    assert!(connection.is_closed());
    assert!(matches!(connection.begin("turn/start"), Err(TransportError::NotSent(_))));
}

#[test]
fn a_remote_error_is_told_with_its_code() {
    let mut connection = Connection::new();
    let id = connection.begin("turn/start").unwrap();
    let mut line = answer(id);
    line.has_result = false;
    line.error = Some(RpcError { code: -32000, message: "no".into() });
    match connection.dispatch(line) {
        Dispatch::Fail { error, .. } => assert_eq!(error.describe(), "Codex error -32000: no"),
        _ => panic!("an error was expected"),
    }
}

fn options() -> ExecutionOptions {
    ExecutionOptions {
        cwd: "/work".into(),
        model: "m".into(),
        model_provider: "openai".into(),
        sandbox: "workspace-write".into(),
        approval_policy: "on-request".into(),
        network_access: false,
    }
}

#[test]
fn a_thread_and_a_turn_are_identified() {
    assert_eq!(
        CodexExecution::thread_started(&json(r#"{"thread":{"id":"thread"}}"#)).unwrap(),
        "thread"
    );
    assert!(CodexExecution::thread_started(&json("{}")).is_err());
    assert!(CodexExecution::thread_resumed(&json(r#"{"thread":{"id":"other"}}"#), "thread").is_err());
    let turn = CodexExecution::turn_started(&json(r#"{"turn":{"id":"turn"}}"#), "thread").unwrap();
    assert_eq!((turn.thread_id.as_str(), turn.turn_id.as_str()), ("thread", "turn"));
    assert!(CodexExecution::start_turn("thread", &options(), vec![]).is_err());
    assert!(CodexExecution::start_thread(&options()).at("cwd").is_text("/work"));
}

#[test]
fn the_pages_of_models_do_not_repeat() {
    let mut pages = ModelPages::new();
    let first = json(r#"{"data":[{"id":"a"}],"nextCursor":"c1"}"#);
    assert!(matches!(pages.list_models(&first), Ok(PageStep::More(c)) if c == "c1"));
    assert!(pages.list_models(&first).is_err());
    let mut pages = ModelPages::new();
    let only = json(r#"{"data":[{"id":"a"}],"nextCursor":null}"#);
    assert!(matches!(pages.list_models(&only), Ok(PageStep::Done)));
    assert_eq!(pages.models.len(), 1);
}

#[test]
fn an_uncertain_run_holds_its_conversation_back() {
    let mut record = fresh();
    record.prepare_direct(&prepare()).unwrap();
    record.begin_direct_send(&send()).unwrap();
    assert!(!direct_unknown_blocker(&vec![fresh()]));
    record.mark_direct_unknown().unwrap();
    let mut runs = vec![fresh(), record];
    assert!(direct_unknown_blocker(&runs));
    runs[1].release(1).unwrap();
    assert!(!direct_unknown_blocker(&runs));
}
