use codex_hoshikage_gateway::codec::parse;
use codex_hoshikage_gateway::json::Json;
use codex_hoshikage_gateway::mcp_grants::{Capabilities, McpRecord};
use codex_hoshikage_gateway::mcp_inline::{
    accepted_card, card_digest, confirm_press, expiry, handle_inline_mcp, known_reason, presentation, show_inline,
    snapshot, validate_presentation, InlineStep,
};

const NOW: i64 = 1_900_000_000_000;

fn json(text: &str) -> Json {
    parse(text).unwrap()
}

fn caps() -> Capabilities {
    Capabilities { details: true, turn: true, inline: true }
}

fn record() -> McpRecord {
    McpRecord {
        id: "local".into(),
        request: "request".into(),
        remote: "remote".into(),
        response: "response".into(),
        revision: 3,
        expires: NOW + 600_000,
    }
}

/// The description of a card that can be allowed in the conversation, with one text replaced.
fn described(from: &str, to: &str) -> Json {
    let text = r#"{"interaction_id":"remote","response_id":"response","turn_id":"turn","revision":3,
        "scope_fingerprint":"scope","presentation_id":"p","presentation_fingerprint":"token",
        "profile":"source-conversation-v1","renderer":"browser-find-v1",
        "audience":{"kind":"source_conversation","channel_id":"channel"},
        "state":"inline","reason":null,"expires_at":"2030-03-17T17:50:00Z",
        "display":{"disclosure":"source_conversation","provenance":"proxy_verified_call",
            "title":"ページ内検索","fields":[{"label":"語","value":"`x`"}],"limitations":["今のページだけ"],"omissions":[]},
        "actions":{"allow_once":true,"allow_turn_tool":true,"decline":true,"open_private_details":false}}"#;
    assert!(text.contains(from));
    json(&text.replace(from, to))
}

fn shown() -> Json {
    described("\"token\"", "\"token\"")
}

fn operation() -> Json {
    json(
        r#"{"turn_id":"turn","scope_fingerprint":"scope","binding_status":"verified","unavailable_reason":null,
        "ineligible_reason":null,"turn_grant_eligible":true,"scope":{"context":{}},
        "arguments":{},"redacted_paths":[],"tool":"browser_find"}"#,
    )
}

fn context() -> Json {
    json(r#"{"channel_id":"channel"}"#)
}

#[test]
fn a_whole_description_is_accepted() {
    assert_eq!(validate_presentation(&shown()), Ok(()));
    assert_eq!(expiry(&shown()), Ok(1_900_000_200_000));
    assert_eq!(presentation(&shown(), &operation(), &context(), &record(), caps(), NOW), Ok(()));
}

#[test]
fn each_fault_of_a_description_is_named() {
    let cases = [
        ("\"profile\":", "\"x\":1,\"profile\":", "unknown presentation field"),
        ("\"reason\":null,", "", "missing presentation field"),
        ("\"remote\"", "1", "presentation string missing"),
        ("\"remote\"", "\"\"", "presentation string limit"),
        ("\"revision\":3", "\"revision\":0", "presentation profile/revision"),
        ("\"source_conversation\",\"channel_id\"", "\"other\",\"channel_id\"", "presentation audience"),
        ("\"state\":\"inline\"", "\"state\":\"odd\"", "unknown presentation state"),
        ("\"reason\":null", "\"reason\":\"private_arguments\"", "inline reason"),
        ("browser-find-v1", "browser-other-v1", "unknown renderer"),
        ("\"decline\":true", "\"decline\":1", "invalid action type"),
        ("\"decline\":true", "\"decline\":false", "invalid inline actions"),
        ("\"disclosure\":\"source_conversation\"", "\"disclosure\":\"x\"", "invalid disclosure"),
        ("proxy_verified_call", "unavailable", "unverified inline"),
        ("ページ内検索", "bad\\u202e", "invalid display characters"),
        ("\"fields\":[{\"label\":\"語\",\"value\":\"`x`\"}]", "\"fields\":1", "fields"),
        ("\"label\":\"語\"", "\"label\":1", "display string"),
        ("\"omissions\":[]", "\"omissions\":[\"odd\"]", "unknown omission"),
        ("\"omissions\":[]", "\"omissions\":[\"private_arguments\"]", "incomplete inline"),
        ("2030-03-17T17:50:00Z", "tomorrow", "the 'year' component could not be parsed"),
    ];
    for (from, to, error) in cases {
        assert_eq!(validate_presentation(&described(from, to)).unwrap_err(), error, "{to}");
    }
    let long = "長".repeat(1500);
    assert_eq!(validate_presentation(&described("ページ内検索", &long)).unwrap_err(), "display text limit");
    let huge = "a".repeat(33_000);
    assert_eq!(validate_presentation(&described("ページ内検索", &huge)).unwrap_err(), "presentation byte limit");
}

#[test]
fn a_description_belongs_to_its_operation() {
    let check = |p: &Json, op: &Json, now: i64| presentation(p, op, &context(), &record(), caps(), now);
    let other = described("\"turn_id\":\"turn\"", "\"turn_id\":\"else\"");
    assert_eq!(check(&other, &operation(), NOW).unwrap_err(), "presentation identity mismatch");
    let elsewhere = described("\"channel_id\":\"channel\"", "\"channel_id\":\"else\"");
    assert_eq!(check(&elsewhere, &operation(), NOW).unwrap_err(), "presentation audience mismatch");
    assert_eq!(check(&shown(), &operation(), NOW + 300_000).unwrap_err(), "presentation expired");
    assert_eq!(check(&shown(), &operation(), NOW - 600_000).unwrap_err(), "presentation expired");
    let mut op = operation();
    if let Json::Object(members) = &mut op {
        members.iter_mut().find(|m| m.key == "tool").unwrap().value = json("\"browser_tabs\"");
    }
    assert_eq!(check(&shown(), &op, NOW).unwrap_err(), "renderer/tool mismatch");
    let none = Capabilities { inline: false, ..caps() };
    assert_eq!(
        presentation(&shown(), &operation(), &context(), &record(), none, NOW).unwrap_err(),
        "inline capability unavailable"
    );
    let turnless = Capabilities { turn: false, ..caps() };
    assert_eq!(
        presentation(&shown(), &operation(), &context(), &record(), turnless, NOW).unwrap_err(),
        "turn grant ineligible"
    );
}

#[test]
fn a_card_shows_the_operation_and_its_buttons() {
    let card = accepted_card(&shown(), &record(), "view").unwrap();
    assert!(card.inline);
    assert!(card.text.starts_with("```\nページ内検索\n語：`x`\n今のページだけ\n```\n"));
    let ids: Vec<&str> = card
        .components
        .item(0)
        .at("components")
        .as_array()
        .unwrap()
        .iter()
        .map(|b| b.at("custom_id").as_str().unwrap())
        .collect();
    assert_eq!(ids, vec!["mi:view:turn", "mi:view:once", "mcp:local:3:decline"]);
}

#[test]
fn what_cannot_be_read_allows_nothing() {
    match show_inline(None, &operation(), &context(), &record(), caps(), NOW) {
        InlineStep::Closed(card) => {
            assert!(!card.inline);
            assert!(card.text.starts_with("操作内容をまだ確認できません。"));
        }
        InlineStep::Open { .. } => panic!("nothing can be open"),
    }
    match show_inline(Some(&shown()), &operation(), &context(), &record(), caps(), NOW) {
        InlineStep::Open { presentation_id, token, expires, snapshot: hash } => {
            assert_eq!((presentation_id.as_str(), token.as_str()), ("p", "token"));
            assert_eq!(expires, 1_900_000_200_000);
            assert_eq!(hash, snapshot(&shown()));
        }
        InlineStep::Closed(_) => panic!("a view was expected"),
    }
}

#[test]
fn a_press_confirms_the_card_that_was_shown() {
    let press = |p: &Json, revision: i64, hash: &str, turn: bool, message: Option<&str>| {
        confirm_press(
            p,
            &operation(),
            &context(),
            &record(),
            caps(),
            NOW,
            "view",
            revision,
            hash,
            turn,
            message,
        )
    };
    let hash = snapshot(&shown());
    let receipt = press(&shown(), 3, &hash, true, Some("m")).unwrap();
    let card = accepted_card(&shown(), &record(), "view").unwrap();
    assert_eq!(receipt.card_digest, card_digest(&card.text, &card.components));
    assert_eq!((receipt.token.as_str(), receipt.message_id.as_str()), ("token", "m"));
    assert_eq!(press(&shown(), 2, &hash, false, Some("m")).unwrap_err(), "old revision");
    assert_eq!(press(&shown(), 3, "other", false, Some("m")).unwrap_err(), "changed presentation");
    assert_eq!(press(&shown(), 3, &hash, false, None).unwrap_err(), "message identity");
    let once = described("\"allow_turn_tool\":true", "\"allow_turn_tool\":false");
    assert_eq!(press(&once, 3, &snapshot(&once), true, Some("m")).unwrap_err(), "turn not allowed");
}

#[test]
fn the_buttons_of_a_card_are_read_back() {
    assert_eq!(handle_inline_mcp(Some("mi:view:turn"), false), Ok(("view".to_string(), true)));
    assert_eq!(handle_inline_mcp(Some("mi:view:once"), false), Ok(("view".to_string(), false)));
    assert_eq!(handle_inline_mcp(Some("mi:view:odd"), false), Err("invalid control"));
    assert_eq!(handle_inline_mcp(None, false), Err("button"));
    assert_eq!(handle_inline_mcp(Some("mi:view:once"), true), Err("復旧確認中です"));
    assert!(known_reason("display_too_large"));
    assert!(!known_reason("other"));
}
