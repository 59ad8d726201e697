use codex_hoshikage_gateway::application::App;
use codex_hoshikage_gateway::codec::{compact_form, encode, parse, pretty, quote, read, read_bytes};
use codex_hoshikage_gateway::domain::{digest, id, now_ms, Redactor, RequestState};
use codex_hoshikage_gateway::json::{fraction, member, object, text, Json};
use codex_hoshikage_gateway::numbers::{decimal_text, hexadecimal_text, parse_unsigned, signed_number, signed_text};
use codex_hoshikage_gateway::paths::{has_parent_step, is_within, join_path, same_path, sibling};
use codex_hoshikage_gateway::program::{error_category, hold_line, pending_restore, recovery_marker};
use codex_hoshikage_gateway::tables::Table;
use codex_hoshikage_gateway::text::{fold, is_blank, replace, split, split_words, take_chars, trim, utf16_count};

#[test]
fn a_document_is_written_and_read_back() {
    let source = r#"{"a":[1,-2,1.5,true,null],"b":{"c":"日本\"語"}}"#;
    let value = parse(source).unwrap();
    assert_eq!(compact_form(&value), source);
    assert_eq!(encode(&value), source.as_bytes());
    assert_eq!(parse(&pretty(&value)), Some(value));
    assert!(parse("{").is_none());
}

#[test]
fn numbers_keep_their_kind() {
    assert_eq!(parse("18446744073709551615"), Some(Json::Unsigned(u64::MAX)));
    assert_eq!(parse("-1"), Some(Json::Negative(-1)));
    assert_eq!(parse("1.5"), Some(fraction(1.5f64.to_bits(), "1.5".into())));
    assert_eq!(compact_form(&fraction(1.5f64.to_bits(), "1.50".into())), "1.5");
}

#[test]
fn a_quoted_text_is_escaped() {
    assert_eq!(quote("a\"b\n"), "\"a\\\"b\\n\"");
}

#[test]
fn a_digest_is_sha256() {
    assert_eq!(
        digest(b"abc"),
        "ba7816bf8f01cfea414140de5dae2223b00361a396177a9cb410ff61f20015ad"
    );
}

#[test]
fn identities_differ() {
    let (a, b) = (id(), id());
    assert_ne!(a, b);
    assert_eq!(a.len(), 36);
    assert!(now_ms() > 1_600_000_000_000);
}

#[test]
fn a_secret_is_masked_across_pieces() {
    let mut redactor = Redactor::new(vec!["topsecret".into()]);
    let mut out = redactor.push("before top");
    out.push_str(&redactor.push("secret after"));
    out.push_str(&redactor.finish());
    assert_eq!(out, "before [非公開] after");
}

#[test]
fn an_unfinished_beginning_of_a_secret_is_masked_at_the_end() {
    let mut redactor = Redactor::new(vec!["topsecret".into()]);
    let mut out = redactor.push("x tops");
    out.push_str(&redactor.finish());
    assert_eq!(out, "x [非公開]");
    assert_eq!(App::redact(vec!["abc".into()], "no secret"), "no secret");
}

#[test]
fn every_state_has_a_name_that_is_read_back() {
    for state in [
        RequestState::Received,
        RequestState::Queued,
        RequestState::Sending,
        RequestState::Running,
        RequestState::ApprovalRequired,
        RequestState::CancelRequested,
        RequestState::Completed,
        RequestState::Failed,
        RequestState::Cancelled,
        RequestState::Unknown,
    ] {
        assert_eq!(RequestState::parse(state.as_str()), Ok(state));
    }
    assert!(RequestState::parse("NOPE").is_err());
}

#[test]
fn an_ended_request_stays_ended() {
    for ended in [RequestState::Completed, RequestState::Failed, RequestState::Cancelled] {
        assert!(ended.terminal());
        assert!(!ended.allows(RequestState::Queued));
        assert!(!ended.allows(RequestState::Sending));
    }
    assert!(RequestState::Queued.allows(RequestState::Sending));
    assert!(!RequestState::Running.allows(RequestState::Queued));
}

#[test]
fn texts_are_cut_by_characters() {
    assert_eq!(trim("\u{3000} a b \n"), "a b");
    assert_eq!(split("a::b", ':'), vec!["a", "", "b"]);
    assert_eq!(split_words("  /model  x "), vec!["/model", "x"]);
    assert_eq!(take_chars("日本語", 2), "日本");
    assert_eq!(utf16_count("a😀"), 3);
    assert_eq!(fold("AbC"), "abc");
    assert_eq!(replace("a@b", '@', '＠'), "a＠b");
    assert!(is_blank(" \u{3000}\t"));
}

#[test]
fn numbers_are_written_and_read_back() {
    assert_eq!(decimal_text(u64::MAX), u64::MAX.to_string());
    assert_eq!(signed_text(i64::MIN), i64::MIN.to_string());
    assert_eq!(signed_number("-9223372036854775808").ok(), Some(i64::MIN));
    assert_eq!(signed_number("9223372036854775808").ok(), None);
    assert_eq!(signed_number("+7").ok(), Some(7));
    assert_eq!(parse_unsigned("20", 19), None);
    assert_eq!(parse_unsigned("", 19), None);
    assert_eq!(hexadecimal_text(0x202e), "202e");
}

#[test]
fn paths_are_compared_by_components() {
    assert!(is_within("/a/b//c", "/a/b/"));
    assert!(!is_within("/a/bc", "/a/b"));
    assert!(same_path("/a/./b", "/a/b"));
    assert!(has_parent_step("a/../b"));
    assert_eq!(join_path("/a/", "b"), "/a/b");
    assert_eq!(sibling("/etc/gateway/config.toml", "x.json").unwrap(), "/etc/gateway/x.json");
    assert!(sibling("/", "x.json").is_none());
}

#[test]
fn a_table_holds_each_key_once() {
    let mut table: Table<u32> = Table::new();
    table.insert("a", 1);
    table.insert("b", 2);
    table.insert("a", 3);
    assert_eq!(table.len(), 2);
    assert_eq!(table.get("a"), Some(&3));
    assert_eq!(table.remove("a"), Some(3));
    assert!(!table.holds("a"));
    assert_eq!(table.remove("a"), None);
}

#[test]
fn an_error_shows_its_category_alone() {
    assert_eq!(error_category("attachment fetch: https://secret"), "attachment fetch");
    assert_eq!(error_category(&"x".repeat(200)).len(), 120);
    assert_eq!(
        hold_line("r", "t", 2, 0),
        "request_id=r conversation=t generation=2 waiting=0"
    );
}

#[test]
fn a_recovery_marker_names_its_instance() {
    let marker = encode(&recovery_marker("restore", "instance", "/state"));
    assert_eq!(pending_restore(&marker, "instance", "/state").unwrap(), "restore");
    assert_eq!(
        pending_restore(&marker, "other", "/state").unwrap_err(),
        "復元マーカーが一致しません"
    );
    let bare = br#"{"instance_uuid":"instance","state_dir":"/state"}"#;
    assert_eq!(pending_restore(bare, "instance", "/state").unwrap_err(), "復元IDがありません");
}

#[test]
fn no_secret_is_left_in_what_is_shown() {
    let mut redactor = Redactor::new(vec!["abab".into(), "bc".into()]);
    let mut out = String::new();
    for piece in ["xab", "abab", "cbc", "aba"] {
        out.push_str(&redactor.push(piece));
    }
    out.push_str(&redactor.finish());
    assert!(!out.contains("abab") && !out.contains("bc"));
    assert_eq!(out, "x[非公開]a[非公開][非公開][非公開]");
}

#[test]
fn the_first_of_two_members_with_one_key_counts() {
    let twice = Json::Object(vec![member("k", Json::Unsigned(1)), member("k", Json::Unsigned(2))]);
    assert_eq!(twice.at("k").as_u64(), Some(1));
    assert_eq!(compact_form(&twice), r#"{"k":1}"#);
}

#[test]
fn bytes_are_read_as_they_are() {
    assert_eq!(read_bytes(br#"{"a":1}"#).unwrap(), parse(r#"{"a":1}"#).unwrap());
    assert!(read_bytes(b"\"\xff\"").is_err());
    assert_eq!(read("nul").unwrap_err(), "EOF while parsing a value at line 1 column 3");
}
