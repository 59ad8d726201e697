use codex_hoshikage_gateway::codec::parse;
use codex_hoshikage_gateway::json::Json;
use codex_hoshikage_gateway::mcp_form::{display, help, parse_value, supported, validate_answers, validate_scalar, validate_schema};

fn json(text: &str) -> Json {
    parse(text).unwrap()
}

fn form(properties: &str) -> Json {
    json(&format!(r#"{{"type":"object","properties":{properties}}}"#))
}

#[test]
fn a_form_profile_is_supported_within_its_limits() {
    let caps = |count: u64| {
        json(&format!(
            r#"{{"features":{{"interaction_relay":true}},"interaction_kinds":["mcp_form"],"interaction_limits":{{"schema_profile":"flat-primitives-v1","max_count":{count},"max_bytes":65536}}}}"#
        ))
    };
    assert!(supported(&caps(16)));
    assert!(!supported(&caps(17)));
    assert!(!supported(&json("{}")));
}

#[test]
fn unsupported_forms_are_refused() {
    let cases = [
        ("[]", "object required"),
        (r#"{"type":"object","allOf":[]}"#, "未対応の入力条件です"),
        (r#"{"type":"array","properties":{}}"#, "未対応のフォームです"),
        (r#"{"type":"object","additionalProperties":true,"properties":{}}"#, "未対応のフォームです"),
        (r#"{"type":"object"}"#, "properties required"),
        (r#"{"type":"object","properties":{},"required":["a"]}"#, "required invalid"),
        (
            r#"{"type":"object","properties":{"a":{"type":"string"}},"required":["a","a"]}"#,
            "required invalid",
        ),
        (r#"{"type":"object","properties":{"a":{"type":"array"}}}"#, "未対応の入力型です"),
        (
            r#"{"type":"object","properties":{"a":{"type":"string","minimum":1}}}"#,
            "数値条件が不正です",
        ),
        (
            r#"{"type":"object","properties":{"a":{"type":"integer","maximum":9007199254740992}}}"#,
            "数値条件が不正です",
        ),
        (
            r#"{"type":"object","properties":{"a":{"type":"string","maxLength":8193}}}"#,
            "文字数条件が不正です",
        ),
        (
            r#"{"type":"object","properties":{"a":{"type":"number","minimum":1.5,"maximum":1}}}"#,
            "上下限が不正です",
        ),
        (
            r#"{"type":"object","properties":{"a":{"type":"string","enum":1}}}"#,
            "enum invalid",
        ),
        (
            r#"{"type":"object","properties":{"a":{"type":"string","enum":[1]}}}"#,
            "選択肢が不正です",
        ),
        (
            r#"{"type":"object","properties":{"a":{"type":"string","enum":["x"],"enumNames":[]}}}"#,
            "選択肢の表示名が不正です",
        ),
    ];
    for (schema, error) in cases {
        assert_eq!(validate_schema(&json(schema)), Err(error), "{schema}");
    }
    let many: Vec<String> = (0..33).map(|n| format!(r#""k{n}":{{"type":"string"}}"#)).collect();
    assert_eq!(
        validate_schema(&form(&format!("{{{}}}", many.join(",")))),
        Err("項目数が上限を超えています")
    );
    assert_eq!(validate_schema(&form(r#"{"a":{"type":"number","minimum":1,"maximum":1.5}}"#)), Ok(()));
}

#[test]
fn whole_numbers_and_fractions_are_compared_by_value() {
    let field = json(r#"{"type":"number","minimum":-2,"maximum":2.5}"#);
    for good in ["-2", "-1.5", "0", "-0.0", "2", "2.5"] {
        assert!(parse_value(&field, good).is_ok(), "{good}");
    }
    for bad in ["-2.0001", "3", "2.50001", "-3"] {
        assert_eq!(parse_value(&field, bad).err(), Some("数値が範囲外です"), "{bad}");
    }
    let whole = json(r#"{"type":"integer"}"#);
    assert!(parse_value(&whole, "9007199254740991").is_ok());
    assert_eq!(parse_value(&whole, "9007199254740992").err(), Some("入力の型が違います"));
    assert!(parse_value(&whole, "-9007199254740991").is_ok());
    assert_eq!(parse_value(&whole, "1.0").err(), Some("入力の型が違います"));
    assert_eq!(parse_value(&whole, "x").err(), Some("数値を入力してください"));
    let choices = json(r#"{"type":"number","enum":[0.0,1]}"#);
    assert_eq!(validate_scalar(&choices, &json("-0.0")), Ok(()));
    assert_eq!(validate_scalar(&choices, &json("1.0")), Err("選択肢から選んでください"));
}

#[test]
fn a_choice_is_named_by_its_number() {
    let field = json(r#"{"type":"string","enum":["red","blue"]}"#);
    assert_eq!(parse_value(&field, " 2 ").unwrap(), json("\"blue\""));
    assert_eq!(parse_value(&field, "0").err(), Some("選択肢の番号が範囲外です"));
    assert_eq!(parse_value(&field, "3").err(), Some("選択肢の番号が範囲外です"));
    assert_eq!(parse_value(&field, "red").err(), Some("選択肢の番号を入力してください"));
    let yes = json(r#"{"type":"boolean"}"#);
    assert_eq!(parse_value(&yes, " はい").unwrap(), Json::Bool(true));
    assert_eq!(parse_value(&yes, "false").unwrap(), Json::Bool(false));
    assert_eq!(parse_value(&yes, "maybe").err(), Some("はい/いいえを入力してください"));
    let text = json(r#"{"type":"string","minLength":2,"maxLength":3}"#);
    assert_eq!(parse_value(&text, "日本").unwrap(), json("\"日本\""));
    assert_eq!(parse_value(&text, "日").err(), Some("文字数または容量が範囲外です"));
    assert_eq!(parse_value(&text, "日本語だ").err(), Some("文字数または容量が範囲外です"));
}

#[test]
fn answers_fill_the_form() {
    let schema = json(
        r#"{"type":"object","properties":{"a":{"type":"string"},"n":{"type":"integer"}},"required":["a"]}"#,
    );
    assert_eq!(validate_answers(&schema, &json(r#"{"a":"x","n":1}"#)), Ok(()));
    assert_eq!(validate_answers(&schema, &json(r#"{"n":1}"#)), Err("必須項目が未入力です"));
    assert_eq!(validate_answers(&schema, &json(r#"{"a":"x","z":1}"#)), Err("不明な項目です"));
    assert_eq!(validate_answers(&schema, &json(r#"{"a":1}"#)), Err("入力の型が違います"));
    let many: Vec<String> = (0..10).map(|n| format!(r#""k{n}":{{"type":"string"}}"#)).collect();
    let wide = form(&format!("{{{}}}", many.join(",")));
    let filled: Vec<String> = (0..10).map(|n| format!(r#""k{n}":"{}""#, "x".repeat(8000))).collect();
    assert_eq!(
        validate_answers(&wide, &json(&format!("{{{}}}", filled.join(",")))),
        Err("回答全体が大きすぎます")
    );
}

#[test]
fn a_field_is_explained() {
    let field = json(r#"{"type":"string","title":"色","enum":["r","b"],"enumNames":["赤","青"]}"#);
    assert_eq!(
        help("color", &field),
        "項目: color\n型: string\n名称: 色\n選択肢の番号を入力してください。\n1. r — 赤\n2. b — 青\n"
    );
    assert_eq!(
        help("ok", &json(r#"{"type":"boolean","default":true}"#)),
        "項目: ok\n型: boolean\n参考の既定値（自動採用しません）: true\nはい / いいえ を入力してください。\n"
    );
    assert_eq!(display(&json(r#"{"a":1.5}"#)), r#"{"a":1.5}"#);
}
