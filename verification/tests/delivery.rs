use codex_hoshikage_gateway::codec::parse;
use codex_hoshikage_gateway::delivery::{canonical_components, chunks, nonce};

#[test]
fn menu_receipt_defaults_preserve_identity_and_detect_changed_options() {
    let sent = parse(
        r#"[{"type":1,"components":[{"type":3,"custom_id":"choose","options":[{"label":"report","value":"artifact-a"}]}]}]"#,
    )
    .unwrap();
    let received = parse(
        r#"[{"type":1,"id":1,"components":[{"type":3,"id":2,"min_values":1,"max_values":1,"disabled":false,"custom_id":"choose","options":[{"label":"report","value":"artifact-a"}]}]}]"#,
    )
    .unwrap();
    assert_eq!(canonical_components(&sent), canonical_components(&received));
    let received = parse(
        r#"[{"type":1,"id":1,"components":[{"type":3,"id":2,"min_values":1,"max_values":1,"disabled":false,"custom_id":"choose","options":[{"label":"report","value":"artifact-b"}]}]}]"#,
    )
    .unwrap();
    assert_ne!(canonical_components(&sent), canonical_components(&received));
}

#[test]
fn a_nonce_is_short_and_repeatable() {
    assert_eq!(nonce("delivery-1"), nonce("delivery-1"));
    assert_ne!(nonce("delivery-1"), nonce("delivery-2"));
    assert!(nonce("delivery-1").len() <= 25);
}

#[test]
fn parts_hold_the_whole_answer() {
    let text = "長い回答😀".repeat(1000);
    let parts = chunks(&text);
    assert!(parts.len() > 1);
    assert!(parts.iter().all(|part| part.encode_utf16().count() <= 2000));
    assert_eq!(parts.concat(), text);
}
