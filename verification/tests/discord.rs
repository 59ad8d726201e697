use codex_hoshikage_gateway::codec::parse;
use codex_hoshikage_gateway::config::{Discord, ResponseMode};
use codex_hoshikage_gateway::discord::{
    api, identify_bot, owns_message, should_respond, snowflake, ApiStep, Health, HttpStatus, Route,
};
use codex_hoshikage_gateway::discord_permissions::attachment_allowed;
use codex_hoshikage_gateway::json::Json;

fn json(text: &str) -> Json {
    parse(text).unwrap()
}

#[test]
fn mention_mode_uses_bot_identity_and_structured_mentions() {
    assert!(should_respond(None, &json("{}"), ResponseMode::All));
    assert!(!should_respond(None, &json(r#"{"mentions":[{"id":"42"}]}"#), ResponseMode::Mention));
    let bot = Some("42");
    assert!(should_respond(bot, &json(r#"{"mentions":[{"id":"42"}]}"#), ResponseMode::Mention));
    assert!(!should_respond(
        bot,
        &json(r#"{"content":"<@42>","mentions":[{"id":"99"}]}"#),
        ResponseMode::Mention
    ));
    assert!(!should_respond(bot, &json(r#"{"mentions":[]}"#), ResponseMode::Mention));
}

fn read(text: &str) -> Result<Discord, &'static str> {
    let table: toml::Table = text.parse().unwrap();
    let field = |key: &str| table.get(key).and_then(|v| v.as_str());
    Discord::read(
        field("guild_id").unwrap(),
        field("allowed_user_id").unwrap(),
        field("token_file").unwrap(),
        field("response_mode"),
    )
}

#[test]
fn response_mode_defaults_and_rejects_typos() {
    let base = r#"guild_id = "1"
allowed_user_id = "2"
token_file = "/tmp/unused"
"#;
    let config = read(base).unwrap();
    assert_eq!(config.response_mode, ResponseMode::All);
    let config = read(&format!("{base}response_mode = \"mention\"\n")).unwrap();
    assert_eq!(config.response_mode, ResponseMode::Mention);
    assert!(read(&format!("{base}response_mode = \"mentions\"\n")).is_err());
}

#[test]
fn identities_of_discord_are_numbers() {
    assert_eq!(snowflake("123").unwrap(), "123");
    assert!(snowflake("").is_err());
    assert!(snowflake("12a").is_err());
    assert!(snowflake("../1").is_err());
    assert_eq!(Route::messages("5").unwrap(), "/channels/5/messages");
    assert!(Route::messages("5/6").is_err());
}

#[test]
fn only_own_messages_are_owned() {
    let message = json(r#"{"author":{"id":"42"}}"#);
    assert!(owns_message(Some("42"), &message));
    assert!(!owns_message(Some("43"), &message));
    assert!(!owns_message(None, &message));
}

#[test]
fn a_bot_identifies_itself() {
    assert_eq!(identify_bot(&json(r#"{"id":"42","bot":true}"#)).unwrap(), "42");
    assert!(identify_bot(&json(r#"{"bot":true}"#)).is_err());
}

#[test]
fn only_a_limited_answer_is_waited_for() {
    assert!(matches!(api(429, 0), ApiStep::Wait));
    assert!(matches!(api(200, 0), ApiStep::Read));
    assert!(matches!(api(500, 0), ApiStep::Fail(HttpStatus(500))));
}

#[test]
fn losing_the_connection_is_remembered() {
    let mut health = Health { connected: true };
    health.shard_stage_update(true);
    assert!(health.connected);
    health.shard_stage_update(false);
    assert!(!health.connected);
}

#[test]
fn a_member_override_decides_about_attachments() {
    let roles = json(r#"[{"id":"1","permissions":"3072"}]"#);
    let member = json(r#"{"user":{"id":"42"},"roles":[]}"#);
    let none = json("[]");
    let now: i128 = 0;
    let bare = attachment_allowed("1", "42", &roles, &member, &none, false, now);
    assert_eq!(bare, Ok(false));
    let grant = json(r#"[{"id":"42","type":1,"allow":"98304","deny":"0"}]"#);
    let allowed = attachment_allowed("1", "42", &roles, &member, &grant, false, now);
    assert_eq!(allowed, Ok(true));
}
