use codex_hoshikage_gateway::codec::{compact_form, parse};
use codex_hoshikage_gateway::commands::{command, component, control_slot, is_text_control, text_control_command, urgency, AppRoute, Component, TextCommand};
use codex_hoshikage_gateway::command_replies::{check_model_id, check_steer_text, check_title, new_conversation, new_thread_body, NewPlace};
use codex_hoshikage_gateway::config::{Discord, Limits, ResponseMode};
use codex_hoshikage_gateway::direct_application::{Admissions, CancelStep, DirectAdmission, DirectApplication, DirectControlOutcome, Location, QueuedCheck};
use codex_hoshikage_gateway::direct_commands as direct;
use codex_hoshikage_gateway::direct_commands::{ControlEvent, ControlStep, DirectCommand, DirectRoute, Menu};
use codex_hoshikage_gateway::direct_control_store::{BoundRun, ControlState, Operation};
use codex_hoshikage_gateway::direct_conversation::Standing;
use codex_hoshikage_gateway::direct_daemon::{admit_loop, busy_notice, refused_notice, AdmitStep};
use codex_hoshikage_gateway::direct_input::app_server_input;
use codex_hoshikage_gateway::discord::{fetched_message, register_direct};
use codex_hoshikage_gateway::direct_models::DirectModelCatalog;
use codex_hoshikage_gateway::direct_store::{direct_recovery_offer, DirectRecoveryOffer, RecoveryFacts};
use codex_hoshikage_gateway::codex_execution::TurnIdentity;
use codex_hoshikage_gateway::domain::RequestState;
use codex_hoshikage_gateway::json::Json;

fn json(text: &str) -> Json {
    parse(text).unwrap()
}

fn discord() -> Discord {
    Discord {
        guild_id: "1".into(),
        allowed_user_id: "2".into(),
        token_file: "/token".into(),
        response_mode: ResponseMode::All,
    }
}

fn limits() -> Limits {
    Limits {
        attachments: 4,
        attachment_bytes: 1024,
        input_bytes: 4096,
        text_bytes: 1024,
        image_pixels: 1000,
        artifact_bytes: 1024,
        temp_bytes: 8192,
        output_bytes: 1024,
        output_total_bytes: 4096,
        delivery_retention_secs: 60,
        queue_conversation: 5,
        queue_global: 2,
        validation_secs: 120,
    }
}

fn message(user: &str) -> Json {
    json(&format!(
        r#"{{"id":"10","channel_id":"20","guild_id":"1","author":{{"id":"{user}"}},"content":"hello","type":0}}"#
    ))
}

#[test]
fn only_the_user_is_heard() {
    assert!(DirectApplication::is_request(&message("2"), &discord(), None));
    assert!(!DirectApplication::is_request(&message("3"), &discord(), None));
    let bot = json(
        r#"{"id":"10","channel_id":"20","guild_id":"1","author":{"id":"2","bot":true},"content":"hello","type":0}"#,
    );
    assert!(!DirectApplication::is_request(&bot, &discord(), None));
}

#[test]
fn a_second_event_of_a_message_is_a_duplicate() {
    let mut admissions = Admissions::new();
    let mut arrive = |raw: &Json, id: &str, waiting: usize| {
        DirectApplication::admit_message(&mut admissions, raw, &discord(), None, id, 0, waiting, &limits())
    };
    assert_eq!(arrive(&message("3"), "a", 0), Ok(DirectAdmission::Ignored));
    assert_eq!(arrive(&message("2"), "a", 2), Err("request queue is full"));
    assert_eq!(arrive(&message("2"), "a", 0), Ok(DirectAdmission::Accepted("a".into())));
    assert_eq!(arrive(&message("2"), "b", 0), Ok(DirectAdmission::Duplicate));
    let edited = json(
        r#"{"id":"10","channel_id":"20","guild_id":"1","author":{"id":"2"},"content":"other","type":0}"#,
    );
    assert_eq!(arrive(&edited, "c", 0), Ok(DirectAdmission::Duplicate));
    let next = json(
        r#"{"id":"11","channel_id":"20","guild_id":"1","author":{"id":"2"},"content":"hello","type":0}"#,
    );
    assert_eq!(arrive(&next, "d", 0), Ok(DirectAdmission::Accepted("d".into())));
    let faulty = json(
        r#"{"channel_id":"20","guild_id":"1","author":{"id":"2"},"content":"hello","type":0}"#,
    );
    assert_eq!(arrive(&faulty, "e", 0), Err("message ID missing"));
    assert_eq!(admissions.reserved.get("10").map(String::as_str), Some("a"));
    assert_eq!(admissions.reserved.len(), 2);
}

#[test]
fn every_registered_command_is_served() {
    let registered = register_direct();
    let names: Vec<&str> = registered.as_array().unwrap().iter().map(|c| c.at("name").as_str().unwrap()).collect();
    assert_eq!(names, ["status", "stop", "cancel", "resume", "recover", "models", "model", "get", "steer"]);
    for name in names {
        let v = json(&format!(
            r#"{{"id":"1","token":"t","guild_id":"1","user":{{"id":"2"}},"channel_id":"3","application_id":"4","data":{{"name":"{name}"}}}}"#
        ));
        let route = direct::handle_interaction(&v, "1", "2").unwrap();
        if name == "recover" {
            assert_eq!(route, DirectRoute::RecoveryMenu);
        } else {
            assert!(!matches!(direct::command(&v, 100), Ok(DirectCommand::Unavailable)));
        }
    }
}

#[test]
fn a_fetched_message_is_what_was_written() {
    let v = json(
        r#"{"id":"10","channel_id":"20","author":{"id":"2"},"content":"hello","edited_timestamp":"2026-01-01T00:00:00Z",
        "attachments":[{"id":"5","filename":"a.txt","url":"https://x/a","size":3,"content_type":"text/plain"}]}"#,
    );
    let m = fetched_message(&v, "20", "10", "1").unwrap();
    assert_eq!((m.id.as_str(), m.thread_id.as_str(), m.guild_id.as_str()), ("10", "20", "1"));
    assert_eq!((m.user_id.as_str(), m.content.as_str()), ("2", "hello"));
    assert!(m.edited_at.is_some());
    assert_eq!(m.attachments.len(), 1);
    assert_eq!((m.attachments[0].filename.as_str(), m.attachments[0].size), ("a.txt", 3));
    assert_eq!(fetched_message(&v, "20", "11", "1").unwrap_err(), "message identity invalid");
}

#[test]
fn a_full_gateway_tells_only_the_user() {
    let judge = |m: &Json, connected, workers| admit_loop(m, connected, workers, &limits(), "1", "2");
    assert!(matches!(judge(&message("2"), true, 1), AdmitStep::Admit));
    assert!(matches!(
        judge(&message("2"), true, 2),
        AdmitStep::Busy { target, thread } if target == "10" && thread == "20"
    ));
    assert!(matches!(judge(&message("3"), true, 2), AdmitStep::Skip));
    assert!(matches!(judge(&message("2"), false, 0), AdmitStep::Skip));
    assert!(busy_notice().contains("AIへ送っていません"));
    let notice = refused_notice(&message("2"), "1", "2", "text too large", &limits()).unwrap();
    assert_eq!((notice.target.as_str(), notice.thread.as_str()), ("10", "20"));
    assert!(refused_notice(&message("3"), "1", "2", "text too large", &limits()).is_none());
}

fn interaction(data: &str) -> Json {
    json(&format!(
        r#"{{"id":"7","token":"tok","guild_id":"1","member":{{"user":{{"id":"2"}}}},"channel_id":"20","application_id":"9","type":2,"data":{data}}}"#
    ))
}

#[test]
fn an_interaction_reaches_its_purpose() {
    let route = |data: &str| direct::handle_interaction(&interaction(data), "1", "2");
    assert_eq!(route(r#"{"name":"status"}"#), Ok(DirectRoute::Command));
    assert_eq!(route(r#"{"name":"model"}"#), Ok(DirectRoute::ModelMenu));
    assert_eq!(route(r#"{"name":"model","options":[{"name":"id","value":"m"}]}"#), Ok(DirectRoute::Command));
    assert_eq!(route(r#"{"name":"effort"}"#), Ok(DirectRoute::EffortMenu));
    assert_eq!(route(r#"{"name":"recover"}"#), Ok(DirectRoute::RecoveryMenu));
    assert_eq!(route(r#"{"custom_id":"direct:model:7"}"#), Ok(DirectRoute::ModelChoice));
    assert_eq!(route(r#"{"custom_id":"direct:recover:x"}"#), Ok(DirectRoute::Recovery));
    assert_eq!(route(r#"{"custom_id":"direct:detail:x"}"#), Ok(DirectRoute::Approval));
    assert_eq!(
        direct::handle_interaction(&interaction("{}"), "1", "3"),
        Ok(DirectRoute::Stranger)
    );
    assert_eq!(
        direct::handle_interaction(&interaction("{}"), "8", "2"),
        Ok(DirectRoute::Foreign)
    );
    assert!(direct::handle_interaction(&json("{}"), "1", "2").is_err());
}

#[test]
fn a_command_is_read() {
    let read = |data: &str| direct::command(&interaction(data), 10);
    assert!(matches!(read(r#"{"name":"models","options":[{"name":"page","value":3}]}"#), Ok(DirectCommand::Models(3))));
    assert!(matches!(
        read(r#"{"name":"steer","options":[{"name":"text","value":"go on"}]}"#),
        Ok(DirectCommand::Steer(t)) if t == "go on"
    ));
    assert_eq!(
        read(r#"{"name":"steer","options":[{"name":"text","value":"much too long"}]}"#).err(),
        Some("steer text invalid")
    );
    assert_eq!(read(r#"{"name":"steer"}"#).err(), Some("steer text missing"));
    assert!(matches!(read(r#"{"name":"other"}"#), Ok(DirectCommand::Unavailable)));
    assert_eq!(read("{}").err(), Some("command name missing"));
}

fn catalog() -> DirectModelCatalog {
    let raw: Vec<Json> = (0..9)
        .map(|n| {
            json(&format!(
                r#"{{"id":"m{n}","model":"m{n}","displayName":"M {n}","defaultReasoningEffort":"low","supportedReasoningEfforts":[{{"reasoningEffort":"low","description":"fast"}}],"hidden":false,"isDefault":false}}"#
            ))
        })
        .collect();
    DirectModelCatalog::list(&raw).unwrap()
}

#[test]
fn models_are_listed_by_pages() {
    let models = catalog().models;
    let first = direct::models_reply(&models, 1).unwrap();
    assert!(first.starts_with("利用可能なモデル（全9件、ページ1）:\nm0 — M 0\n"));
    assert!(first.ends_with("\n続き: /models page:2"));
    assert!(direct::models_reply(&models, 2).unwrap().ends_with("m8 — M 8"));
    assert_eq!(direct::models_reply(&models, 3).unwrap_err(), "model catalog page is empty");
    assert!(catalog().validate("m3").is_ok());
    assert!(catalog().validate("none").is_err());
    assert!(catalog().validate_effort("m3", "low").is_ok());
    assert!(catalog().validate_effort("m3", "high").is_err());
}

#[test]
fn a_control_without_its_run_still_stops_the_queue() {
    assert!(matches!(direct::control_step(ControlEvent::NoRun), ControlStep::WithoutRun { closed: false }));
    assert!(matches!(direct::control_step(ControlEvent::RunClosed), ControlStep::WithoutRun { closed: true }));
    assert!(matches!(direct::control_step(ControlEvent::ReplyTimedOut), ControlStep::Fail("direct control response timed out")));
    assert!(matches!(direct::control_step(ControlEvent::SendTimedOut), ControlStep::Fail("direct control send timed out")));
    assert!(matches!(
        direct::control_step(ControlEvent::Replied(DirectControlOutcome::Paused)),
        ControlStep::Done(DirectControlOutcome::Paused)
    ));
    assert!(direct::control_reply(true, true, DirectControlOutcome::Paused).contains("中断は確認できません"));
    assert!(direct::control_reply(false, false, DirectControlOutcome::NothingActive).contains("ありません"));
    assert!(matches!(
        DirectApplication::stop(None, None),
        CancelStep::Outcome(DirectControlOutcome::Paused)
    ));
    assert!(matches!(DirectApplication::stop(Some("r"), Some("r")), CancelStep::Interrupt));
}

fn offer() -> DirectRecoveryOffer {
    DirectRecoveryOffer {
        request_id: "r".into(),
        generation: 1,
        waiting: 0,
        pause_revision: 2,
        next_sequence: 3,
    }
}

#[test]
fn a_recovery_is_confirmed_as_offered() {
    let (_, menu) = direct::recovery_menu(false, Some(&offer()));
    let menu = compact_form(&menu.unwrap());
    assert!(menu.contains("direct:recover:r:1:2:3"));
    let press = |custom: &str, active, o: Option<&DirectRecoveryOffer>| direct::recovery_button(custom, active, o);
    assert_eq!(press("direct:recover:r:1:2:3", false, Some(&offer())), Ok(()));
    let mut later = offer();
    later.next_sequence = 4;
    assert_eq!(press("direct:recover:r:1:2:3", false, Some(&later)), Err("recovery offer changed"));
    assert_eq!(press("direct:recover:r:1:2:3", true, Some(&offer())), Err("direct run still active"));
    assert_eq!(press("direct:recover:r:1:2:3", false, None), Err("recovery no longer available"));
    assert_eq!(press("direct:recover:r:1:2", false, None), Err("recovery identity invalid"));
    assert_eq!(press("direct:recover:r:x:2:3", false, None), Err("invalid digit found in string"));
    assert_eq!(press("direct:recover:r:1::3", false, None), Err("cannot parse integer from empty string"));
    assert_eq!(
        press("direct:recover:r:1:2:9223372036854775808", false, None),
        Err("number too large to fit in target type")
    );
    assert_eq!(
        press("direct:recover:r:1:-9223372036854775809:3", false, None),
        Err("number too small to fit in target type")
    );
    assert_eq!(
        press("direct:recover:r:99999999999999999999x:2:3", false, None),
        Err("number too large to fit in target type")
    );
    assert_eq!(press("direct:recover:r:-:2:3", false, None), Err("invalid digit found in string"));
    assert_eq!(press("direct:model:1", false, None), Err("recovery identity missing"));
    assert_eq!(direct::recovery_after_backup(true), Err("direct run started during recovery"));
    assert_eq!(direct::recovery_after_backup(false), Ok(()));
    assert!(direct::recovery_menu_failed().contains("/recover を開き直して"));
    let facts = |uncertain: Vec<(String, i64)>, held| RecoveryFacts {
        restore_pending: false,
        uncertain,
        held,
        busy: false,
        waiting: 0,
        pause_revision: 2,
        next_sequence: 3,
    };
    assert!(direct_recovery_offer(&facts(vec![("r".into(), 1)], 1)).is_some());
    assert!(direct_recovery_offer(&facts(vec![], 0)).is_none());
}

#[test]
fn a_place_of_conversation_belongs_to_the_guild() {
    let channel = json(r#"{"id":"20","guild_id":"1","type":0}"#);
    assert!(matches!(DirectApplication::verify_location(&channel, "20", "1"), Ok(Location::Fine)));
    assert!(DirectApplication::verify_location(&channel, "20", "9").is_err());
    let thread = json(r#"{"id":"21","guild_id":"1","type":11,"parent_id":"20"}"#);
    assert!(matches!(
        DirectApplication::verify_location(&thread, "21", "1"),
        Ok(Location::Below(parent)) if parent == "20"
    ));
    assert!(DirectApplication::verify_parent(&channel, "20", "1").is_ok());
}

#[test]
fn a_changed_message_is_not_sent() {
    let check = |author: &str, digest: &str| {
        DirectApplication::start_queued(RequestState::Queued, author, "2", digest, "d")
    };
    assert!(matches!(check("2", "d"), Ok(QueuedCheck::Send)));
    assert!(matches!(check("3", "d"), Ok(QueuedCheck::AuthorChanged)));
    assert!(matches!(check("2", "e"), Ok(QueuedCheck::InputChanged)));
    assert!(DirectApplication::start_queued(RequestState::Running, "2", "2", "d", "d").is_err());
    assert!(DirectApplication::unsent_failure(QueuedCheck::InputChanged).is_some());
    assert!(DirectApplication::unsent_failure(QueuedCheck::Send).is_none());
}

#[test]
fn a_control_is_sent_once() {
    let identity = TurnIdentity { thread_id: "thread".into(), turn_id: "turn".into() };
    let bound = BoundRun {
        discord_thread: "20".into(),
        codex_thread: "thread".into(),
        codex_turn: "turn".into(),
    };
    let mut operation = Operation {
        kind: "cancel".into(),
        thread: "20".into(),
        target: Some("r".into()),
        state: ControlState::NotSent,
    };
    operation.begin_direct_interrupt("r", Some(&bound), &identity, true).unwrap();
    assert_eq!(operation.state, ControlState::Sending);
    assert!(operation.begin_direct_interrupt("r", Some(&bound), &identity, true).is_err());
    operation.finish_direct_control(true).unwrap();
    assert_eq!(operation.state, ControlState::Sent);
    assert!(operation.finish_direct_control(false).is_err());
    let mut early = Operation { kind: "stop".into(), thread: "20".into(), target: None, state: ControlState::NotSent };
    assert_eq!(early.begin_direct_interrupt("r", None, &identity, true), Err("Query returned no rows"));
    assert_eq!(Operation::begin_direct_steer("r", None, true, false).unwrap_err(), "Query returned no rows");
    assert_eq!(
        Operation::begin_direct_steer("r", Some("20"), false, false).unwrap_err(),
        "steer target is no longer active"
    );
    assert_eq!(
        Operation::begin_direct_steer("r", Some("20"), true, true).unwrap_err(),
        "steer interaction was already handled"
    );
    assert!(Operation::begin_direct_steer("r", Some("20"), true, false).is_ok());
}

#[test]
fn an_input_keeps_its_parts() {
    let prepared = json(
        r#"[{"role":"user","content":[{"type":"input_text","text":"hello"}]}]"#,
    );
    let input = app_server_input(&prepared).unwrap();
    assert_eq!(input.len(), 1);
    assert!(input[0].at("text").is_text("hello"));
    assert!(app_server_input(&json("[]")).is_err());
}

#[test]
fn stopping_is_urgent_and_always_has_a_place() {
    let stop = interaction(r#"{"name":"stop"}"#);
    let other = interaction(r#"{"name":"status"}"#);
    assert!(urgency(&stop).stop && urgency(&stop).urgent);
    assert!(!urgency(&other).urgent);
    let mut full = 0;
    while control_slot(full, false) {
        full += 1;
    }
    assert!(control_slot(full, true));
    assert!(is_text_control("/stop now"));
    assert!(!is_text_control("please /stop"));
    assert!(!is_text_control("/stop/me now"));
    assert!(matches!(text_control_command("/stop", false), TextCommand::Reply(_)));
    assert!(matches!(
        text_control_command("/model id: m", false),
        TextCommand::Run { name: "model", model: Some(m) } if m == "m"
    ));
    assert!(matches!(text_control_command("/model m", true), TextCommand::Reply(_)));
    assert_eq!(component(&interaction(r#"{"custom_id":"mi:v:once"}"#)), Component::Inline);
    assert_eq!(component(&interaction(r#"{"custom_id":"mt:once:v"}"#)), Component::Turn);
    assert!(matches!(command(&stop, true), Ok(AppRoute::Stop)));
    assert!(matches!(command(&other, false), Ok(AppRoute::Status)));
}

#[test]
fn inputs_of_commands_are_checked() {
    assert!(check_title("A title").is_ok());
    assert!(check_title("").is_err());
    assert!(check_title(&"あ".repeat(101)).is_err());
    assert!(new_thread_body(&json(r#"{"type":0}"#), " ").is_err());
    assert!(check_model_id("gpt-5").is_ok());
    assert!(check_model_id(&"m".repeat(257)).is_err());
    assert!(check_steer_text("go", 10).is_ok());
    assert!(check_steer_text(" ", 10).is_err());
    let channel = json(r#"{"id":"20","guild_id":"1","type":0}"#);
    assert!(matches!(new_conversation(&channel, "1"), Ok(NewPlace::Channel(_))));
}

#[test]
fn one_entry_of_a_menu_is_chosen() {
    let chosen = json(r#"{"data":{"component_type":3,"values":["m3"]}}"#);
    assert_eq!(direct::model_selection(&chosen, "direct:model:7"), Ok("m3".to_string()));
    assert_eq!(direct::effort_selection(&chosen, "direct:effort:7"), Ok("m3".to_string()));
    assert_eq!(direct::model_selection(&chosen, "direct:effort:7"), Err("model menu identity missing"));
    assert_eq!(direct::effort_selection(&chosen, "direct:model:7"), Err("reasoning effort menu identity missing"));
    assert_eq!(direct::model_selection(&chosen, "direct:model:x"), Err("invalid Discord ID"));
    let pressed = json(r#"{"data":{"component_type":2,"values":["m3"]}}"#);
    assert_eq!(direct::model_selection(&pressed, "direct:model:7"), Err("model choice component type is invalid"));
    assert_eq!(
        direct::effort_selection(&pressed, "direct:effort:7"),
        Err("reasoning effort component type is invalid")
    );
    let none = json(r#"{"data":{"component_type":3}}"#);
    assert_eq!(direct::model_selection(&none, "direct:model:7"), Err("model choice missing"));
    assert_eq!(direct::effort_selection(&none, "direct:effort:7"), Err("reasoning effort choice missing"));
    let two = json(r#"{"data":{"component_type":3,"values":["a","b"]}}"#);
    assert_eq!(direct::model_selection(&two, "direct:model:7"), Err("exactly one model must be selected"));
    assert_eq!(direct::effort_selection(&two, "direct:effort:7"), Err("exactly one reasoning effort must be selected"));
    let number = json(r#"{"data":{"component_type":3,"values":[1]}}"#);
    assert_eq!(direct::model_selection(&number, "direct:model:7"), Err("model choice is not text"));
    assert_eq!(direct::effort_selection(&number, "direct:effort:7"), Err("reasoning effort choice is not text"));
    assert!(direct::choice_failed(Menu::Models).contains("/model を開き直して"));
    assert!(direct::choice_failed(Menu::Efforts).contains("/effort を開き直して"));
    assert!(direct::menu_failed(Menu::Models).starts_with("モデル候補"));
    assert!(direct::menu_failed(Menu::Efforts).starts_with("推論レベル候補"));
    assert!(direct::command_failed().contains("自動再送しません"));
}

#[test]
fn a_stranger_is_acknowledged_and_refused() {
    let of = |user: &str, rest: &str| {
        json(&format!(r#"{{"id":"1","token":"t","guild_id":"1","user":{{"id":"{user}"}},"channel_id":"3"{rest}}}"#))
    };
    let known = of("9", r#","application_id":"4""#);
    assert!(direct::acknowledged_first(&known, "1", "2"));
    assert_eq!(direct::handle_interaction(&known, "1", "2"), Ok(DirectRoute::Stranger));
    let nameless = of("9", "");
    assert!(direct::acknowledged_first(&nameless, "1", "2"));
    assert_eq!(direct::handle_interaction(&nameless, "1", "2"), Err("application ID missing"));
    assert!(direct::acknowledged_first(&known, "8", "9"));
    assert!(!direct::acknowledged_first(&known, "1", "9"));
    assert!(direct::stranger_refused().contains("許可された利用者だけ"));
}

#[test]
fn a_recovered_conversation_takes_messages() {
    let mut s = Standing {
        codex_thread: Some("thread".into()),
        continuation: "READY".into(),
        paused: true,
        pause_revision: 4,
        effective_model: None,
        effective_sequence: None,
        last_success_sequence: Some(1),
    };
    assert!(s.ready());
    s.begin();
    assert!(!s.ready());
    s.give_up();
    assert!(s.ready() && s.paused && s.codex_thread.is_none());
    assert_eq!(s.pause_revision, 4);
    s.begin();
    s.recover();
    assert!(s.ready() && !s.paused);
    assert_eq!((s.pause_revision, s.continuation.as_str()), (5, "NEW"));
    s.settle(Some("m"), 7, true);
    assert_eq!(s.effective_sequence, None);
    s.begin();
    s.bind("next");
    s.settle(Some("m"), 8, false);
    assert_eq!((s.continuation.as_str(), s.codex_thread.as_deref()), ("READY", Some("next")));
    assert_eq!((s.effective_model.as_deref(), s.effective_sequence, s.last_success_sequence), (Some("m"), Some(8), Some(1)));
}
