use codex_hoshikage_gateway::mcp_grants::{code_block, safe};

#[test]
fn code_pages_preserve_symbols_and_stay_within_discord_limit() {
    for text in [
        "`".repeat(500),
        "😀".repeat(500),
        "const value = `hello @name`;".into(),
    ] {
        let rendered = code_block(&text);
        assert!(rendered.contains(&text));
        assert!(rendered.encode_utf16().count() + 80 < 2000);
    }
}

#[test]
fn a_fence_is_longer_than_any_row_in_it() {
    assert_eq!(code_block("a"), "```\na\n```");
    assert_eq!(code_block("a```b"), "````\na```b\n````");
    assert_eq!(safe("@you `x`"), "＠you ｀x｀");
}
