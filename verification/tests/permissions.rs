use codex_hoshikage_gateway::codec::{compact_form, parse};
use codex_hoshikage_gateway::json::Json;
use codex_hoshikage_gateway::mcp_details::{
    check_mcp_view, check_permit, check_press, details_expiry, handle_mcp_turn, open_details, replaces_message,
    show_mcp_details, DetailView, TurnRoute,
};
use codex_hoshikage_gateway::mcp_grant_menu::{
    channel_id, check_grant, check_revoke, check_stored, grant_list, prepare_mcp_context, principal_id,
    refresh_mcp_revoke, revoke_mcp_grant, revoke_reply, run_context, saved_v06_grants, stored_scope, GrantMenu,
    RevokeOutcome, RevokePlan,
};
use codex_hoshikage_gateway::mcp_grants::{
    mcp_operation, scope_matches, timestamp, turn_eligible, Capabilities, McpRecord, ScopeFacts,
};

fn json(text: &str) -> Json {
    parse(text).unwrap()
}

fn caps() -> Capabilities {
    Capabilities { details: true, turn: true, inline: true }
}

fn facts() -> ScopeFacts {
    ScopeFacts {
        instance_id: "instance".into(),
        generation: "generation".into(),
        response_id: Some("response".into()),
        turn_id: Some("turn".into()),
        conversation_id: "conversation".into(),
        workspace_id: "workspace".into(),
        context: json(r#"{"run_id":"r"}"#),
    }
}

const SCOPE: &str = r#"{"instance_id":"instance","recovery_generation":"generation","response_id":"response","turn_id":"turn","conversation_id":"conversation","workspace_id":"workspace","context":{"run_id":"r"},"server":"s","tool":"t","config_generation":"c","input_generation":1}"#;

fn record() -> McpRecord {
    McpRecord {
        id: "local".into(),
        request: "request".into(),
        remote: "remote".into(),
        response: "response".into(),
        revision: 1,
        expires: 0,
    }
}

fn operation(from: &str, to: &str) -> Json {
    let text = format!(
        r#"{{"interaction_id":"remote","response_id":"response","revision":1,"disclosure":"requester_only","turn_id":"turn","call_id":"call","server":"s","tool":"t","binding_status":"verified","unavailable_reason":null,"config_generation":"c","input_generation":1,"scope":{SCOPE},"scope_fingerprint":"print","turn_grant_eligible":true,"ineligible_reason":null,"arguments":{{"code":"1+1"}},"redacted_paths":[]}}"#
    );
    assert!(text.contains(from));
    json(&text.replacen(from, to, 1))
}

fn whole() -> Json {
    operation("\"print\"", "\"print\"")
}

#[test]
fn capabilities_count_only_with_the_agreed_limits() {
    let text = r#"{"mcp_operation_details":{"enabled":true,"profile":"native-item-id-v1","max_argument_bytes":65536,"disclosure":"requester_only"},"mcp_turn_approval":{"enabled":true,"profile":"native-item-id-v1","max_grants":16,"ttl_seconds":600,"max_records":256},"mcp_inline_approval":{"enabled":true,"profile":"source-conversation-v1","max_response_bytes":32768,"max_display_text_utf16_units":1400,"max_display_fields":8,"max_presentations_per_interaction":4}}"#;
    assert_eq!(Capabilities::parse(&json(text)), caps());
    let changed = Capabilities::parse(&json(&text.replace("1400", "1401").replace("600", "601")));
    assert_eq!(changed, Capabilities { details: true, turn: false, inline: false });
    assert_eq!(Capabilities::parse(&json("{}")), Capabilities::default());
}

#[test]
fn an_operation_is_accepted_only_as_asked_for() {
    let check = |v: &Json| mcp_operation(v, &record(), 1, &facts(), caps());
    assert_eq!(check(&whole()), Ok(()));
    let cases = [
        ("\"remote\"", "\"else\"", "操作詳細の対応が一致しません"),
        ("\"call_id\":\"call\",", "", "operation field missing"),
        ("\"verified\"", "\"odd\"", "invalid operation state"),
        ("\"redacted_paths\":[]", "\"redacted_paths\":[1]", "invalid redaction metadata"),
        ("\"unavailable_reason\":null", "\"unavailable_reason\":\"x\"", "unknown unavailable reason"),
        ("\"ineligible_reason\":null", "\"ineligible_reason\":\"x\"", "unknown ineligible reason"),
        ("\"verified\"", "\"unavailable\"", "unavailable metadata mismatch"),
        ("\"conversation\"", "\"else\"", "許可の対象がこの作業と一致しません"),
        ("\"server\":\"s\"", "\"server\":\"z\"", "scope metadata mismatch"),
        ("\"scope_fingerprint\":\"print\"", "\"scope_fingerprint\":1", "string missing"),
        ("{\"code\":\"1+1\"}", "[]", "invalid arguments"),
    ];
    for (from, to, error) in cases {
        assert_eq!(check(&operation(from, to)), Err(error), "{to}");
    }
    let large = format!("{{\"code\":\"{}\"}}", "x".repeat(70_000));
    assert_eq!(check(&operation("{\"code\":\"1+1\"}", &large)), Err("arguments oversized"));
    let without = Capabilities { details: false, ..caps() };
    assert_eq!(
        mcp_operation(&whole(), &record(), 1, &facts(), without),
        Err("操作詳細は現在利用できません")
    );
}

#[test]
fn an_unavailable_operation_says_so_consistently() {
    let text = r#"{"interaction_id":"remote","response_id":"response","revision":1,"disclosure":"requester_only","turn_id":"turn","call_id":null,"server":null,"tool":null,"binding_status":"unavailable","unavailable_reason":"stable_call_id_unavailable","config_generation":null,"input_generation":null,"scope":null,"scope_fingerprint":null,"turn_grant_eligible":false,"ineligible_reason":"binding_unavailable","arguments":null,"redacted_paths":[]}"#;
    assert_eq!(mcp_operation(&json(text), &record(), 1, &facts(), caps()), Ok(()));
    let odd = json(&text.replace("stable_call_id_unavailable", "operation_details_expired"));
    assert_eq!(
        mcp_operation(&odd, &record(), 1, &facts(), caps()),
        Err("unavailable state mismatch")
    );
    assert!(open_details(&json(text)).unwrap().is_none());
}

#[test]
fn a_scope_is_that_of_the_request() {
    assert_eq!(scope_matches(&json(SCOPE), &facts()), Ok(()));
    assert_eq!(scope_matches(&json("{}"), &facts()), Err("context missing"));
    let long = SCOPE.replace("\"server\":\"s\"", &format!("\"server\":\"{}\"", "x".repeat(9000)));
    assert_eq!(scope_matches(&json(&long), &facts()), Err("string limit"));
    let bare = SCOPE.replace(",\"input_generation\":1", "");
    assert_eq!(scope_matches(&json(&bare), &facts()), Err("input generation missing"));
    let other = ScopeFacts { turn_id: None, ..facts() };
    assert_eq!(scope_matches(&json(SCOPE), &other), Err("許可の対象がこの作業と一致しません"));
}

#[test]
fn tools_that_run_code_are_permitted_once_at_most() {
    assert!(turn_eligible(&whole(), caps()));
    for tool in ["browser_evaluate", "browser_run_code_unsafe", ""] {
        let v = operation("\"tool\":\"t\"", &format!("\"tool\":\"{tool}\""));
        assert!(!turn_eligible(&v, caps()), "{tool}");
    }
    assert!(!turn_eligible(&operation("\"redacted_paths\":[]", "\"redacted_paths\":[\"a\"]"), caps()));
}

#[test]
fn the_pages_of_an_operation_hold_it_whole() {
    let v = operation("1+1", &"界".repeat(1200));
    let details = open_details(&v).unwrap().unwrap();
    assert_eq!(details.fingerprint, "print");
    let mut seen = String::new();
    let mut page = 0;
    while let Ok(shown) = show_mcp_details(&v, &details.body, &details.body, caps(), "view", "local", 1, page) {
        let inner = shown.text.split("```\n").nth(1).unwrap().to_string();
        seen.push_str(inner.trim_end_matches('\n'));
        assert!(shown.text.encode_utf16().count() <= 2000);
        page += 1;
    }
    assert!(page > 2);
    assert_eq!(seen.matches('界').count(), 1200);
    assert_eq!(
        show_mcp_details(&v, &details.body, &details.body, caps(), "view", "local", 1, page).err(),
        Some("ページがありません")
    );
}

#[test]
fn a_masked_operation_offers_no_permission_for_the_run() {
    let v = whole();
    let body = open_details(&v).unwrap().unwrap().body;
    let open = show_mcp_details(&v, &body, &body, caps(), "view", "local", 1, 0).unwrap();
    assert!(compact_form(&open.components).contains("mt:turn:view"));
    let masked = show_mcp_details(&v, &body, "[非公開]", caps(), "view", "local", 1, 0).unwrap();
    assert!(!compact_form(&masked.components).contains("mt:turn:view"));
    assert!(masked.text.contains("あり（伏字を含みます）"));
    assert_eq!(check_permit(&v, true, true, caps()), Err("秘匿を含む操作は個別確認してください"));
    assert_eq!(check_permit(&v, false, true, caps()), Ok(()));
    assert_eq!(check_permit(&json("{}"), false, false, caps()), Err("操作内容が失効しました"));
    let without = Capabilities { turn: false, ..caps() };
    assert_eq!(check_permit(&v, true, false, without), Err("この操作はターン許可できません"));
}

#[test]
fn the_controls_on_the_pages_are_read_back() {
    let route = |custom: &str| handle_mcp_turn(custom, None, false);
    assert!(matches!(route("mt:details:id:4"), Ok(TurnRoute::Details { revision: 4, .. })));
    assert!(matches!(route("mt:page:v:2"), Ok(TurnRoute::Page { page: 2, .. })));
    assert!(matches!(route("mt:once:v"), Ok(TurnRoute::Permit { turn: false, .. })));
    assert!(matches!(route("mt:turn:v"), Ok(TurnRoute::Permit { turn: true, .. })));
    assert!(matches!(route("mt:grants:r"), Ok(TurnRoute::Grants { .. })));
    assert!(matches!(route("mt:revoke:g"), Ok(TurnRoute::Revoke { .. })));
    assert_eq!(route("mt:revoke-menu:r").err(), Some("取消対象を選んでください"));
    assert!(matches!(
        handle_mcp_turn("mt:revoke-menu:r", Some("g"), false),
        Ok(TurnRoute::Revoke { grant }) if grant == "g"
    ));
    assert_eq!(route("mt:other:v").err(), Some("invalid action"));
    assert_eq!(route("xx:once:v").err(), Some("invalid control"));
    assert_eq!(route("mt:details:id").err(), Some("revision"));
    assert_eq!(route("mt:page:v:x").err(), Some("invalid digit found in string"));
    assert_eq!(handle_mcp_turn("mt:once:v", None, true).err(), Some("復旧確認中です"));
    assert!(replaces_message("mt:page:v:2"));
    assert!(!replaces_message("mt:details:v:2"));
    let press = json(r#"{"type":3,"guild_id":"g","member":{"user":{"id":"u"}}}"#);
    assert_eq!(check_press(&press, "g", "u"), Ok(()));
    assert_eq!(check_press(&press, "g", "v"), Err("操作権限がありません"));
}

#[test]
fn an_old_view_is_refused() {
    let view = DetailView {
        interaction: "local".into(),
        viewer: "user".into(),
        revision: 1,
        fingerprint: "print".into(),
        scope_digest: "digest".into(),
        expires: 10,
    };
    assert_eq!(check_mcp_view(&view, "local", "user", 1, "print", "digest", 9), Ok(()));
    assert!(check_mcp_view(&view, "local", "user", 1, "print", "digest", 10).is_err());
    assert!(check_mcp_view(&view, "local", "user", 2, "print", "digest", 9).is_err());
    assert_eq!(details_expiry(5, 0), 5);
    assert_eq!(details_expiry(i64::MAX, 0), 600_000);
}

fn grant(from: &str, to: &str) -> Json {
    let text = format!(
        r#"{{"grant_id":"g","scope":{SCOPE},"state":"active","reason":null,"created_at":"2026-01-01T00:00:00Z","expires_at":"2026-01-01T00:10:00Z","initial_interaction_id":"i","application_count":2}}"#
    );
    assert!(text.contains(from));
    json(&text.replacen(from, to, 1))
}

#[test]
fn a_listed_permission_is_checked() {
    let fine = grant("\"g\"", "\"g\"");
    assert_eq!(check_grant(&fine, &vec![], &facts()), Ok(()));
    assert_eq!(check_grant(&fine, &vec!["g".into()], &facts()).unwrap_err(), "duplicate grant");
    let cases = [
        ("\"grant_id\":\"g\"", "\"grant_id\":1", "string missing"),
        ("\"active\"", "\"odd\"", "unknown grant state"),
        ("\"active\"", "\"revoked\"", "grant reason missing"),
        ("\"2026-01-01T00:00:00Z\"", "1", "timestamp"),
        ("2026-01-01T00:10:00Z", "soon", "the 'year' component could not be parsed"),
        ("\"application_count\":2", "\"application_count\":-1", "count missing"),
    ];
    for (from, to, error) in cases {
        assert_eq!(check_grant(&grant(from, to), &vec![], &facts()).unwrap_err(), error, "{to}");
    }
    assert_eq!(timestamp(&json("\"1970-01-01T00:00:01.5Z\"")), Ok(1500));
    assert_eq!(timestamp(&json("\"1969-12-31T23:59:59.9995Z\"")), Ok(0));
    let list = json(r#"{"response_id":"response","data":[1,2]}"#);
    assert_eq!(grant_list(&list, "response").unwrap().len(), 2);
    assert_eq!(grant_list(&list, "other").err(), Some("grant list response mismatch"));
}

#[test]
fn the_menu_offers_what_can_be_taken_back() {
    let mut menu = GrantMenu::new(false);
    menu.push(&grant("\"g\"", "\"g\""), "l1", None).unwrap();
    let ended = grant("\"active\"", "\"revoked\"");
    menu.push(&ended, "l2", Some(&RevokeOutcome { state: "succeeded".into(), in_flight: Some(0) })).unwrap();
    menu.push(&ended, "l3", Some(&RevokeOutcome { state: "unknown".into(), in_flight: None })).unwrap();
    let (text, components) = menu.mcp_grant_menu("request");
    assert!(text.contains("s / t: 有効・適用送信 2件（成功件数ではありません）\n期限: 2026-01-01T00:10:00Z"));
    assert!(text.contains("取消確認済み・取消時の送信中/結果不明 0件"));
    assert!(text.contains("取消確認中（unknown）"));
    let options = components.item(0).at("components").item(0).at("options");
    let values: Vec<&str> = options.as_array().unwrap().iter().map(|o| o.at("value").as_str().unwrap()).collect();
    assert_eq!(values, vec!["l1", "l3"]);
    let (text, components) = GrantMenu::new(false).mcp_grant_menu("request");
    assert!(text.contains("この作業のターン限定許可はありません。"));
    assert_eq!(components, Json::Array(vec![]));
}

#[test]
fn a_permission_is_taken_back_by_one_request() {
    assert!(matches!(revoke_mcp_grant(None, "x"), RevokePlan::Send(key) if key == "revoke-x"));
    assert!(matches!(revoke_mcp_grant(Some("revoke-a"), "x"), RevokePlan::Look(key) if key == "revoke-a"));
    let done = json(
        r#"{"kind":"mcp_grant.revoke","resource":{"type":"mcp_grant","id":"g"},"state":"succeeded","in_flight_or_unknown_count":1}"#,
    );
    assert_eq!(refresh_mcp_revoke(Some(&done), "g"), Some(1));
    assert_eq!(refresh_mcp_revoke(Some(&done), "h"), None);
    assert_eq!(refresh_mcp_revoke(None, "g"), None);
    assert_eq!(revoke_reply(Some(1)).0, "succeeded");
    assert!(revoke_reply(Some(1)).1.contains("結果不明は1件です"));
    assert_eq!(revoke_reply(None).0, "unknown");
}

#[test]
fn stored_permissions_can_be_taken_back_without_the_list() {
    let fine = grant("\"g\"", "\"g\"");
    let scope = stored_scope(&fine, true);
    assert_eq!(check_stored(Some(&scope), &scope), Ok(()));
    assert_eq!(check_stored(Some("{}"), &scope), Err("grant scope changed"));
    assert_ne!(scope, stored_scope(&fine, false));
    let rows = vec![("l".to_string(), scope.clone())];
    let (_, menu) = saved_v06_grants("request", "t", "t", &rows, &facts()).unwrap();
    assert!(compact_form(&menu).contains("mt:revoke-menu:request"));
    assert_eq!(
        saved_v06_grants("request", "t", "u", &rows, &facts()).unwrap_err(),
        "grant conversation mismatch"
    );
    let other = ScopeFacts { workspace_id: "x".into(), ..facts() };
    assert!(saved_v06_grants("request", "t", "t", &rows, &other).is_err());
    let torn = vec![("l".to_string(), "{".to_string())];
    assert_eq!(
        saved_v06_grants("request", "t", "t", &torn, &facts()).unwrap_err(),
        "EOF while parsing an object at line 1 column 1"
    );
    let revoke = |thread: &str, saved: &str, f: &ScopeFacts, turn: bool| {
        check_revoke("t", thread, saved, f, false, Capabilities { turn, ..caps() })
    };
    assert_eq!(revoke("t", &scope, &facts(), true), Ok(()));
    assert_eq!(revoke("u", &scope, &facts(), true).unwrap_err(), "許可の会話が一致しません");
    assert_eq!(revoke("t", "{", &facts(), false).unwrap_err(), "EOF while parsing an object at line 1 column 1");
    assert_eq!(revoke("t", &scope, &other, false).unwrap_err(), "許可の対象がこの作業と一致しません");
    assert_eq!(revoke("t", &scope, &facts(), false).unwrap_err(), "ターン許可は現在利用できません");
}

#[test]
fn the_context_of_a_run_is_prepared() {
    let plan = prepare_mcp_context(caps(), false, false, false).unwrap();
    assert!(plan.create && plan.inline && !plan.fix_policy);
    assert!(prepare_mcp_context(caps(), true, false, false).is_err());
    assert!(prepare_mcp_context(caps(), false, true, true).is_err());
    assert!(!prepare_mcp_context(Capabilities::default(), false, false, false).unwrap().create);
    assert_ne!(principal_id("i", "u"), principal_id("i", "v"));
    assert_ne!(channel_id("i", "g", "t"), channel_id("i", "g", "u"));
    assert_eq!(
        compact_form(&run_context("p", "c", "r")),
        r#"{"channel_id":"c","principal_id":"p","run_id":"r"}"#
    );
}
