use codex_hoshikage_gateway::codec::parse;
use codex_hoshikage_gateway::codex_execution::TurnIdentity;
use codex_hoshikage_gateway::codex_transport::Event;
use codex_hoshikage_gateway::config::Limits;
use codex_hoshikage_gateway::direct_approval::DirectInteraction;
use codex_hoshikage_gateway::direct_menus::{
    approval_detail, effort_menu, input_rejection_message, model_menu, DirectCoordinator,
};
use codex_hoshikage_gateway::direct_models::{DirectModel, DirectReasoningEffort};
use codex_hoshikage_gateway::json::Json;

fn json(text: &str) -> Json {
    parse(text).unwrap()
}

fn identity() -> TurnIdentity {
    TurnIdentity { thread_id: "thread-one".into(), turn_id: "turn-one".into() }
}

fn limits() -> Limits {
    Limits {
        attachments: 4,
        attachment_bytes: 8 * 1024 * 1024,
        input_bytes: 16 * 1024 * 1024,
        text_bytes: 256 * 1024,
        image_pixels: 20_000_000,
        artifact_bytes: 8 * 1024 * 1024,
        temp_bytes: 32 * 1024 * 1024,
        output_bytes: 1024 * 1024,
        output_total_bytes: 8 * 1024 * 1024,
        delivery_retention_secs: 60,
        queue_conversation: 5,
        queue_global: 20,
        validation_secs: 120,
    }
}

#[test]
fn model_menu_exposes_selectable_catalog_and_reports_overflow() {
    let models = (0..27)
        .map(|index| DirectModel {
            id: format!("model-{index}"),
            display_name: format!("Model {index}"),
            default_reasoning_effort: "medium".into(),
            supported_reasoning_efforts: vec![DirectReasoningEffort {
                id: "high".into(),
                description: "Deep reasoning".into(),
            }],
        })
        .collect::<Vec<_>>();
    let (text, components) = model_menu(&models, "model-0", "123");
    assert!(text.contains("残り2件"));
    let select = components.item(0).at("components").item(0);
    assert_eq!(select.at("type"), &Json::Unsigned(3));
    assert_eq!(select.at("custom_id").as_str(), Some("direct:model:123"));
    assert_eq!(select.at("options").as_array().unwrap().len(), 25);
    assert_eq!(select.at("options").item(0).at("value").as_str(), Some("model-0"));
    assert_eq!(select.at("options").item(0).at("default"), &Json::Bool(true));
}

#[test]
fn effort_menu_uses_the_selected_models_catalog() {
    let efforts = vec![
        DirectReasoningEffort { id: "medium".into(), description: "Balanced reasoning".into() },
        DirectReasoningEffort { id: "high".into(), description: "Deep reasoning".into() },
    ];
    let (_, components) = effort_menu(&efforts, "high", "456");
    let select = components.item(0).at("components").item(0);
    assert_eq!(select.at("custom_id").as_str(), Some("direct:effort:456"));
    assert_eq!(select.at("options").item(1).at("value").as_str(), Some("high"));
    assert_eq!(select.at("options").item(1).at("default"), &Json::Bool(true));
}

#[test]
fn a_menu_without_choices_names_the_command() {
    let (text, components) = model_menu(&Vec::new(), "m", "1");
    assert!(text.contains("候補はありません"));
    assert_eq!(components, Json::Array(vec![]));
    let (text, components) = effort_menu(&Vec::new(), "m", "1");
    assert!(text.contains("取得できませんでした"));
    assert_eq!(components, Json::Array(vec![]));
}

#[test]
fn admission_errors_tell_the_user_what_to_do_next() {
    let limits = limits();
    let too_large = input_rejection_message("attachment too large", &limits);
    assert!(too_large.contains("8.0 MiB"));
    assert!(too_large.contains("小さくするか分割"));
    assert!(too_large.contains("AIへは送信していません"));

    let unavailable = input_rejection_message("attachment fetch failed", &limits);
    assert!(unavailable.contains("添付し直し"));
    assert!(unavailable.contains("AIへは送信していません"));
}

#[test]
fn each_admission_error_has_its_own_advice() {
    let limits = limits();
    assert!(input_rejection_message("too many attachments", &limits).contains("4件まで"));
    assert!(input_rejection_message("total input limit", &limits).contains("16.0 MiB"));
    assert!(input_rejection_message("text too large", &limits).contains("256 KiB"));
    assert!(input_rejection_message("unsupported image", &limits).contains("PNG・JPEG・WebP"));
    assert!(input_rejection_message("anything else", &limits).starts_with("受付できませんでした。"));
}

#[test]
fn approval_buttons_follow_the_upstream_decisions() {
    let active = identity();
    let request = Event::ServerRequest {
        id: json("\"approval\""),
        method: "item/commandExecution/requestApproval".into(),
        params: json(
            r#"{"threadId":"thread-one","turnId":"turn-one","itemId":"item-one","availableDecisions":["decline"]}"#,
        ),
    };
    let operation = DirectInteraction::from_event(&request, &active).unwrap().unwrap();
    assert!(!DirectCoordinator::answerable(&operation));
    assert_eq!(
        DirectCoordinator::rejection_button(&operation, "card").at("label").as_str(),
        Some("拒否")
    );
    let unsupported = Event::ServerRequest {
        id: json("\"unsupported\""),
        method: "item/permissions/requestApproval".into(),
        params: json(r#"{"threadId":"thread-one","turnId":"turn-one","itemId":"item-one"}"#),
    };
    let operation = DirectInteraction::from_event(&unsupported, &active).unwrap().unwrap();
    assert_eq!(
        DirectCoordinator::rejection_button(&operation, "card").at("label").as_str(),
        Some("未対応の確認を終了")
    );
}

#[test]
fn approval_detail_pages_are_utf16_bounded_and_retain_emoji_content() {
    let active = identity();
    let command = format!("EMOJI_START {} EMOJI_END", "😀".repeat(1200));
    let request = Event::ServerRequest {
        id: json("\"approval\""),
        method: "item/commandExecution/requestApproval".into(),
        params: json(&format!(
            r#"{{"threadId":"thread-one","turnId":"turn-one","itemId":"item-one","command":"{command}","availableDecisions":["accept","cancel"]}}"#,
        )),
    };
    let operation = DirectInteraction::from_event(&request, &active).unwrap().unwrap();
    let pages = approval_detail(&operation).unwrap();
    assert!(pages.len() > 1);
    assert!(pages.iter().all(|page| page.encode_utf16().count() <= 1900));
    let combined = pages.join("\n");
    assert!(combined.contains("EMOJI\\_START"));
    assert!(combined.contains("EMOJI\\_END"));
    assert_eq!(combined.matches('😀').count(), 1200);
}

#[test]
fn a_card_in_the_channel_hides_the_arguments() {
    let request = Event::ServerRequest {
        id: Json::Unsigned(7),
        method: "item/commandExecution/requestApproval".into(),
        params: json(
            r#"{"threadId":"thread-one","turnId":"turn-one","itemId":"i","command":"rm -rf secret-name"}"#,
        ),
    };
    let operation = DirectInteraction::from_event(&request, &identity()).unwrap().unwrap();
    let (text, components) = DirectCoordinator::show_approval(&operation, "card");
    assert_eq!(text, "Codexがコマンド実行の確認を求めています。内容を確認して選んでください。");
    assert!(!format!("{text}{components:?}").contains("secret-name"));
    assert_eq!(
        components.item(0).at("components").item(0).at("custom_id").as_str(),
        Some("direct:detail:card")
    );
}
