use codex_hoshikage_gateway::config::Limits;
use codex_hoshikage_gateway::files::{
    append_attachment_content, artifact_parts, attachment_parts, attachment_relative_path,
    is_inline_text, Attachment, Budget, InputMessage, Preparation, Reservation,
};

fn attachment(filename: &str) -> Attachment {
    Attachment {
        id: "456".into(),
        filename: filename.into(),
        url: "https://cdn.discordapp.com/attachments/example".into(),
        size: 4,
        content_type: Some("video/mp4".into()),
    }
}

fn small_limits() -> Limits {
    Limits {
        attachments: 4,
        attachment_bytes: 1024,
        input_bytes: 4096,
        text_bytes: 1024,
        image_pixels: 1000,
        artifact_bytes: 1024,
        temp_bytes: 4096,
        output_bytes: 1024,
        output_total_bytes: 4096,
        delivery_retention_secs: 60,
        queue_conversation: 5,
        queue_global: 20,
        validation_secs: 120,
    }
}

#[test]
fn binary_attachment_path_is_deterministic_and_cannot_traverse() {
    assert_eq!(
        attachment_relative_path("123", &attachment("../movie 1.mp4")).unwrap(),
        ".hoshikage-inputs/123/456-.._movie_1.mp4"
    );
    assert!(attachment_relative_path("../123", &attachment("movie.mp4")).is_err());
}

#[test]
fn a_small_pdf_is_a_workspace_file_not_inline_text() {
    let mut file = attachment("report.pdf");
    file.content_type = Some("application/pdf".into());
    let limits = small_limits();
    let mut content = Vec::new();
    let (kind, relative) = append_attachment_content(
        &mut content,
        "123",
        &file,
        b"%PDF-1.7 text-looking header",
        &limits,
    )
    .unwrap();
    assert_eq!(kind, "file");
    assert_eq!(relative.unwrap(), ".hoshikage-inputs/123/456-report.pdf");
}

#[test]
fn a_film_is_referenced_by_its_relative_path() {
    let file = attachment("holiday.mp4");
    let mut bytes = vec![0; 3_744_464];
    bytes[4..12].copy_from_slice(b"ftypmp42");
    let mut limits = small_limits();
    limits.text_bytes = 4;
    let mut content = Vec::new();
    let (kind, relative) =
        append_attachment_content(&mut content, "123", &file, &bytes, &limits).unwrap();
    assert_eq!(kind, "file");
    assert_eq!(relative.unwrap(), ".hoshikage-inputs/123/456-holiday.mp4");
    let prompt = content[0].at("text").as_str().unwrap();
    assert!(prompt.contains("holiday.mp4"));
    assert!(prompt.contains(".hoshikage-inputs/123/456-holiday.mp4"));
}

#[test]
fn a_text_file_stands_in_the_input() {
    let mut file = attachment("notes.txt");
    file.content_type = Some("text/plain; charset=utf-8".into());
    assert!(is_inline_text(&file, "こんにちは".as_bytes(), 1024));
    assert!(!is_inline_text(&file, &[0xff, 0xfe], 1024));
    assert!(!is_inline_text(&file, b"12345", 4));
    let mut content = Vec::new();
    let (kind, relative) =
        append_attachment_content(&mut content, "123", &file, b"hello", &small_limits()).unwrap();
    assert_eq!(kind, "text");
    assert!(relative.is_none());
    assert!(content[0].at("text").as_str().unwrap().contains("hello"));
}

/// A PNG of one pixel.
const PIXEL: [u8; 70] = [
    0x89, 0x50, 0x4e, 0x47, 0x0d, 0x0a, 0x1a, 0x0a, 0, 0, 0, 0x0d, 0x49, 0x48, 0x44, 0x52, 0, 0, 0, 1,
    0, 0, 0, 1, 8, 6, 0, 0, 0, 0x1f, 0x15, 0xc4, 0x89, 0, 0, 0, 0x0d, 0x49, 0x44, 0x41, 0x54, 0x78,
    0x9c, 0x63, 0xf8, 0xff, 0xff, 0xff, 0x7f, 0, 9, 0xfb, 3, 0xfd, 5, 0x43, 0x45, 0xca, 0, 0, 0, 0,
    0x49, 0x45, 0x4e, 0x44, 0xae, 0x42, 0x60, 0x82,
];

#[test]
fn an_image_is_measured_and_sent_as_data() {
    let mut file = attachment("dot.png");
    file.content_type = Some("image/png".into());
    let mut content = Vec::new();
    let (kind, _) =
        append_attachment_content(&mut content, "123", &file, &PIXEL, &small_limits()).unwrap();
    assert_eq!(kind, "image");
    let mut limits = small_limits();
    limits.image_pixels = 0;
    let refused = append_attachment_content(&mut Vec::new(), "123", &file, &PIXEL, &limits);
    assert_eq!(refused.unwrap_err(), "image pixel limit");
}

#[test]
fn paths_into_the_workspace_do_not_climb() {
    assert_eq!(
        attachment_parts(".hoshikage-inputs/123/456-movie.mp4").unwrap(),
        vec![".hoshikage-inputs", "123", "456-movie.mp4"]
    );
    assert_eq!(attachment_parts("a/../b").unwrap_err(), "invalid attachment path");
    assert_eq!(attachment_parts("a/b").unwrap_err(), "invalid attachment path depth");
    assert!(artifact_parts("out/report.txt").is_ok());
    assert!(artifact_parts("/etc/passwd").is_err());
    assert!(artifact_parts("../x").is_err());
}

#[test]
fn attachments_come_from_discord_and_fit() {
    let limits = small_limits();
    assert!(Preparation::may_fetch(&attachment("a.txt"), &limits).is_ok());
    let mut elsewhere = attachment("a.txt");
    elsewhere.url = "https://example.com/a.txt".into();
    assert!(Preparation::may_fetch(&elsewhere, &limits).is_err());
    elsewhere.url = "not a url".into();
    assert!(Preparation::may_fetch(&elsewhere, &limits).is_err());
    let mut large = attachment("a.txt");
    large.size = 2000;
    assert_eq!(Preparation::may_fetch(&large, &limits).unwrap_err(), "attachment too large");
}

#[test]
fn a_prepared_input_holds_its_digests() {
    let limits = small_limits();
    let message = InputMessage {
        id: "123".into(),
        thread_id: "9".into(),
        user_id: "2".into(),
        guild_id: "1".into(),
        content: "hello".into(),
        edited_at: None,
        attachments: vec![],
    };
    let prepared = Preparation::start(&message, &limits).unwrap().finish(&message, &limits).unwrap();
    assert_eq!(prepared.metadata_digest, message.metadata_digest());
    assert_eq!(prepared.digest.len(), 64);
    assert_ne!(prepared.digest, prepared.metadata_digest);
    let mut other = message;
    other.content = "hello!".into();
    assert_ne!(prepared.metadata_digest, other.metadata_digest());
}

#[test]
fn the_temporary_budget_is_never_exceeded() {
    let mut budget = Budget { used: 0 };
    assert!(matches!(budget.reserve(6, 10).unwrap(), Reservation::Granted));
    assert!(matches!(budget.reserve(5, 10).unwrap(), Reservation::Wait));
    assert_eq!(budget.used, 6);
    budget.release(6);
    assert_eq!(budget.used, 0);
}
