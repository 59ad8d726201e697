use codex_hoshikage_gateway::direct_application::DirectApplication;
use codex_hoshikage_gateway::application::{
    check_stream, delivery_loop, failure_message, interruption_with_evidence, monitor_loop, watch_events, DeliveryStage,
    Output, WatchStep,
};
use codex_hoshikage_gateway::codec::parse;
use codex_hoshikage_gateway::codex_execution::{TurnIdentity, TurnSnapshot};
use codex_hoshikage_gateway::config::Limits;
use codex_hoshikage_gateway::delivery::{message_digest, nonce, Delivery, Receipt, Record, TextPlan};
use codex_hoshikage_gateway::direct_artifacts::{artifact_id, capture, name, Artifact, Capture, CaptureTarget};
use codex_hoshikage_gateway::direct_content::{DirectContent, StoredAnswer, StoredArtifact, StoredImage};
use codex_hoshikage_gateway::direct_delivery::{
    check_images, direct_answer, direct_artifact, direct_image_part, direct_images, reconcile_direct_image, uploaded_message,
    ExistingDelivery, ImageOutcome, UploadPlan, Uploaded,
};
use codex_hoshikage_gateway::direct_images::{inventory, GeneratedImageStatus};
use codex_hoshikage_gateway::domain::RequestState;
use codex_hoshikage_gateway::generated_images::{
    after_failure, after_snapshot, apply_image_snapshot, claim_artifact, generated_images_loop, image_progress,
    settle_deadline, tightened, validate_png, ImageItem, ImageNotice, LookupError, Progress, Snapshot, Watched,
};
use codex_hoshikage_gateway::json::{empty_array, Json};

fn json(text: &str) -> Json {
    parse(text).unwrap()
}

#[test]
fn a_kept_answer_is_read_back_and_checked() {
    let request = "00000000-0000-4000-8000-000000000001";
    let saved = DirectContent::save_answer(request, "こんにちは", 100).unwrap();
    assert_eq!(saved.bytes, 15);
    assert_eq!(DirectContent::read_answer(&saved, &"こんにちは".as_bytes().to_vec()).unwrap(), "こんにちは");
    assert_eq!(
        DirectContent::read_answer(&saved, &b"other".to_vec()).unwrap_err(),
        "answer content changed"
    );
    assert!(DirectContent::answer_name(&saved).is_ok());
    assert_eq!(DirectContent::save_answer("x", "a", 100).unwrap_err(), "invalid request ID");
    assert_eq!(DirectContent::save_answer(request, "ab", 1).unwrap_err(), "answer exceeds storage limit");
    assert!(DirectContent::check_kept("a", "b").is_err());
    let outside = StoredAnswer { relative_path: "../x".into(), sha256: saved.sha256.clone(), bytes: 1 };
    assert_eq!(DirectContent::answer_name(&outside).unwrap_err(), "invalid answer path");
}

fn record(state: &str, message: Option<&str>, confirmed: Option<&str>, pending: Option<&str>) -> Option<Record> {
    Some(Record {
        id: "d".into(),
        message: message.map(Into::into),
        state: state.into(),
        confirmed: confirmed.map(Into::into),
        pending: pending.map(Into::into),
    })
}

#[test]
fn a_message_is_posted_once() {
    let none = Json::Array(vec![]);
    assert!(matches!(Delivery::text("hi", &none, true, None), Ok(TextPlan::Post)));
    let hash = message_digest("hi", &none);
    let settled = record("CONFIRMED", Some("m"), Some(&hash), None);
    assert!(matches!(Delivery::text("hi", &none, true, settled), Ok(TextPlan::Settled(true))));
    let changed = record("CONFIRMED", Some("m"), Some("other"), None);
    assert!(matches!(Delivery::text("hi", &none, true, changed), Ok(TextPlan::Patch(m)) if m == "m"));
    let uncertain = record("POST_PENDING", None, None, Some(&hash));
    assert!(matches!(
        Delivery::text("hi", &none, true, uncertain),
        Ok(TextPlan::Reconcile { current: true })
    ));
    assert!(matches!(Delivery::text("hi", &none, false, None), Ok(TextPlan::Settled(false))));
    assert!(Delivery::text(&"x".repeat(2001), &none, true, None).is_err());
}

#[test]
fn a_receipt_confirms_its_channel() {
    let good = json(r#"{"id":"m","channel_id":"t"}"#);
    assert!(matches!(Delivery::receipt(Some(&good), "t"), Ok(Receipt::Confirm(id)) if id == "m"));
    assert!(matches!(Delivery::receipt(None, "t"), Ok(Receipt::Uncertain)));
    assert!(Delivery::receipt(Some(&good), "u").is_err());
    let list = json(&format!(r#"[{{"id":"1"}},{{"id":"2","nonce":"{}"}}]"#, nonce("d")));
    assert_eq!(Delivery::find(&list, "d").unwrap().at("id").as_str(), Some("2"));
}

fn artifact() -> Artifact {
    Artifact {
        id: "a".into(),
        request_id: None,
        thread_id: "t".into(),
        source_path: "out.txt".into(),
        display_name: "out.txt".into(),
        saved: StoredArtifact { relative_path: "x".into(), sha256: "h".into(), bytes: 3 },
    }
}

fn existing(thread: &str, state: &str, confirmed: Option<&str>, pending: Option<&str>) -> ExistingDelivery {
    ExistingDelivery {
        id: "d".into(),
        thread: thread.into(),
        state: state.into(),
        message: None,
        confirmed: confirmed.map(Into::into),
        pending: pending.map(Into::into),
    }
}

#[test]
fn an_artifact_is_uploaded_once() {
    let (plan, hash) = direct_artifact(&artifact(), "t", None).unwrap();
    assert_eq!(plan, UploadPlan::Upload);
    let plan = |e: &ExistingDelivery| direct_artifact(&artifact(), "t", Some(e)).map(|p| p.0);
    assert_eq!(plan(&existing("t", "CONFIRMED", Some(&hash), None)), Ok(UploadPlan::Delivered));
    assert_eq!(plan(&existing("t", "POST_PENDING", None, Some(&hash))), Ok(UploadPlan::Reconcile));
    assert_eq!(
        plan(&existing("u", "CONFIRMED", Some(&hash), None)),
        Err("artifact delivery destination changed")
    );
    assert_eq!(
        plan(&existing("t", "CONFIRMED", Some("x"), None)),
        Err("delivered artifact identity changed")
    );
    assert_eq!(
        plan(&existing("t", "POST_PENDING", None, Some("x"))),
        Err("pending artifact delivery identity changed")
    );
    assert_eq!(direct_artifact(&artifact(), "u", None).err(), Some("artifact destination mismatch"));
}

#[test]
fn an_image_is_uploaded_once() {
    let saved = StoredImage { relative_path: "x".into(), sha256: "h".into(), bytes: 9 };
    let first = direct_image_part("m", 0, &saved, "t", None).unwrap();
    assert_eq!(first.plan, UploadPlan::Upload);
    assert_eq!(first.filename, "generated-image-1.png");
    assert_eq!(first.caption, "生成画像 1");
    let second = direct_image_part("m", 1, &saved, "t", None).unwrap();
    assert_ne!(first.digest, second.digest);
    let again = existing("t", "POST_PENDING", None, Some(&first.digest));
    assert_eq!(direct_image_part("m", 0, &saved, "t", Some(&again)).unwrap().plan, UploadPlan::Reconcile);
    let wrong = existing("t", "CONFIRMED", None, None);
    assert_eq!(
        direct_image_part("m", 0, &saved, "t", Some(&wrong)).err(),
        Some("delivered image identity changed")
    );
}

#[test]
fn an_upload_is_confirmed_by_its_file() {
    let receipt = json(r#"{"id":"m","channel_id":"t","attachments":[{"filename":"f","size":3}]}"#);
    assert_eq!(uploaded_message(Uploaded::Image, &receipt, "t", "f", 3).unwrap(), "m");
    assert_eq!(
        uploaded_message(Uploaded::Image, &receipt, "t", "f", 4).unwrap_err(),
        "Discord image receipt does not match saved content"
    );
    assert_eq!(
        uploaded_message(Uploaded::Artifact, &json("{}"), "t", "f", 3).unwrap_err(),
        "Discord artifact receipt missing message ID"
    );
    let found = json(&format!(
        r#"{{"id":"m","author":{{"id":"42"}},"channel_id":"t","nonce":"{}","content":"c","attachments":[{{"filename":"f","size":3}}]}}"#,
        nonce("d")
    ));
    let confirm = |bot| reconcile_direct_image(Some(&found), bot, "t", "d", "c", "f", 3);
    assert_eq!(confirm(Some("42")).as_deref(), Some("m"));
    assert_eq!(confirm(Some("43")), None);
    assert_eq!(reconcile_direct_image(None, Some("42"), "t", "d", "c", "f", 3), None);
}

#[test]
fn the_outcomes_of_images_are_counted() {
    let tally = direct_images(
        "COMPLETE",
        &vec![ImageOutcome::Delivered, ImageOutcome::Failed, ImageOutcome::Delivered, ImageOutcome::Pending],
    );
    assert_eq!((tally.delivered, tally.pending, tally.failed), (2, 1, 1));
    assert!(!tally.inventory_unknown);
    assert!(direct_images("UNKNOWN", &vec![]).inventory_unknown);
    assert_eq!(direct_answer("t", "t", RequestState::Completed, true), Ok(()));
    assert_eq!(direct_answer("t", "u", RequestState::Completed, true), Err("answer destination mismatch"));
    assert_eq!(
        direct_answer("t", "t", RequestState::Running, true),
        Err("Codex answer is not confirmed complete")
    );
    assert_eq!(
        direct_answer("t", "t", RequestState::Completed, false),
        Err("confirmed answer has no saved content")
    );
    assert_eq!(check_images("t", "t", RequestState::Completed, Some("COMPLETE")), Ok("COMPLETE"));
    assert_eq!(
        check_images("t", "t", RequestState::Completed, None),
        Err("Codex image inventory not recorded")
    );
    assert_eq!(
        check_images("t", "t", RequestState::Running, Some("COMPLETE")),
        Err("image destination or execution state mismatch")
    );
}

#[test]
fn a_file_is_captured_once_per_call() {
    let target = CaptureTarget {
        thread_id: "t",
        request_id: None,
        call_id: "call",
        relative: "dir/out.txt",
        display_name: None,
    };
    assert!(matches!(capture(&target, None, false), Ok(Capture::Read(n)) if n == "out.txt"));
    assert_eq!(
        capture(&target, None, true).err(),
        Some("previous artifact delivery is still unconfirmed")
    );
    assert_eq!(artifact_id("t", None, "call"), artifact_id("t", None, "call"));
    assert_ne!(artifact_id("t", None, "call"), artifact_id("u", None, "call"));
    assert_eq!(name(" a.txt ").unwrap(), "a.txt");
    assert_eq!(name("a/b").unwrap_err(), "artifact display name is invalid");
}

/// A PNG of one pixel, in base64.
const PIXEL: &str = "iVBORw0KGgoAAAANSUhEUgAAAAEAAAABCAYAAAAfFcSJAAAADUlEQVR42mP8z8BQDwAEhQGAhKmMIQAAAABJRU5ErkJggg==";

#[test]
fn the_images_of_a_turn_are_decoded() {
    let snapshot = TurnSnapshot {
        identity: TurnIdentity { thread_id: "thread".into(), turn_id: "turn".into() },
        status: "completed".into(),
        final_text: None,
        items_view_full: true,
        items: vec![
            json(&format!(r#"{{"type":"imageGeneration","id":"i","status":"completed","result":"{PIXEL}"}}"#)),
            json(r#"{"type":"imageGeneration","id":"j","status":"failed"}"#),
        ],
    };
    let images = inventory(&snapshot, 16, 1000).unwrap();
    assert_eq!(images.len(), 2);
    assert!(matches!(&images[0].status, GeneratedImageStatus::Ready(bytes) if bytes[1..4] == *b"PNG"));
    assert!(matches!(images[1].status, GeneratedImageStatus::Failed));
    if let GeneratedImageStatus::Ready(bytes) = &images[0].status {
        assert_eq!(validate_png(bytes, 1), Ok(()));
        assert_eq!(validate_png(bytes, 0).unwrap_err(), "image dimensions exceeded");
        assert!(validate_png(&bytes[..40], 1).is_err());
    }
    assert_eq!(validate_png(&[0xff, 0xd8, 0xff, 0xe0], 1).unwrap_err(), "PNG required");
    assert_eq!(validate_png(b"text", 1).unwrap_err(), "The image format could not be determined");
}

fn item(id: &str, ordinal: u64, state: &str, artifact: Option<&str>) -> ImageItem {
    ImageItem {
        image_id: id.into(),
        ordinal,
        state: state.into(),
        artifact_id: artifact.map(Into::into),
        error: None,
    }
}

fn snapshot(revision: u64, state: &str, items: Vec<ImageItem>) -> Snapshot {
    Snapshot {
        response_id: "r".into(),
        conversation_id: "c".into(),
        workspace_id: "w".into(),
        revision,
        state: state.into(),
        items,
        error: None,
        expires_at: None,
    }
}

#[test]
fn each_fault_of_an_announcement_is_named() {
    let check = |s: Snapshot| s.validate(None, true);
    assert_eq!(check(snapshot(1, "pending", vec![item("a", 0, "creating", None)])), Ok(()));
    assert_eq!(check(snapshot(1, "odd", vec![])).unwrap_err(), "invalid image inventory state");
    assert_eq!(check(snapshot(u64::MAX, "pending", vec![])).unwrap_err(), "image inventory limit");
    let twice = vec![item("a", 0, "creating", None), item("a", 1, "creating", None)];
    assert_eq!(check(snapshot(1, "pending", twice)).unwrap_err(), "duplicate image identity");
    assert_eq!(
        check(snapshot(1, "pending", vec![item("a", 64, "creating", None)])).unwrap_err(),
        "duplicate image identity"
    );
    assert_eq!(
        check(snapshot(1, "pending", vec![item("a", 0, "odd", None)])).unwrap_err(),
        "invalid image item state"
    );
    assert_eq!(
        check(snapshot(1, "complete", vec![item("a", 0, "creating", None)])).unwrap_err(),
        "incomplete final image inventory"
    );
    assert_eq!(
        check(snapshot(1, "pending", vec![item("a", 0, "ready", None)])).unwrap_err(),
        "image artifact missing"
    );
    let mut dated = snapshot(1, "pending", vec![]);
    dated.expires_at = Some("soon".into());
    assert_eq!(check(dated).unwrap_err(), "the 'year' component could not be parsed");
    assert_eq!(snapshot(1, "pending", vec![]).validate(None, false).unwrap_err(), "unusable image identity");
}

#[test]
fn an_announced_image_stays() {
    let first = snapshot(1, "pending", vec![item("a", 0, "ready", Some("x"))]);
    let follow = |s: Snapshot| s.validate(Some(&first), true);
    assert_eq!(
        follow(snapshot(2, "complete", vec![item("b", 1, "failed", None), item("a", 0, "ready", Some("x"))])),
        Ok(())
    );
    assert_eq!(follow(snapshot(2, "pending", vec![])).unwrap_err(), "image disappeared");
    assert_eq!(
        follow(snapshot(2, "pending", vec![item("a", 1, "ready", Some("x"))])).unwrap_err(),
        "image ordinal changed"
    );
    assert_eq!(
        follow(snapshot(2, "pending", vec![item("a", 0, "failed", Some("x"))])).unwrap_err(),
        "ready image changed"
    );
    assert_eq!(follow(snapshot(1, "complete", vec![])).unwrap_err(), "image revision reused");
    assert_eq!(follow(snapshot(0, "pending", vec![])).unwrap_err(), "image inventory identity changed");
    let named = snapshot(1, "pending", vec![item("a", 0, "creating", Some("x"))]);
    assert_eq!(
        snapshot(2, "pending", vec![item("a", 0, "creating", Some("y"))]).validate(Some(&named), true).unwrap_err(),
        "image artifact changed"
    );
    let last = snapshot(1, "complete", vec![]);
    assert_eq!(
        snapshot(2, "pending", vec![]).validate(Some(&last), true).unwrap_err(),
        "final image inventory changed"
    );
}

#[test]
fn images_are_taken_by_their_places() {
    let s = snapshot(1, "pending", vec![item("a", 9, "creating", None), item("b", 2, "creating", Some("z"))]);
    assert_eq!(s.in_order(), vec![1, 0]);
    assert_eq!(s.identities(), vec!["r", "c", "w", "a", "b", "z"]);
    let watched = Watched {
        instance: "i".into(),
        generation: "g".into(),
        response: "r".into(),
        conversation: "c".into(),
        workspace: "w".into(),
    };
    assert_eq!(apply_image_snapshot(&s, &watched, None, "i", "g", false, true), Ok(()));
    assert_eq!(
        apply_image_snapshot(&s, &watched, None, "i", "h", false, true).unwrap_err(),
        "image watch identity mismatch"
    );
    assert_eq!(apply_image_snapshot(&s, &watched, None, "i", "g", true, true).unwrap_err(), "recovery pending");
    assert_eq!(claim_artifact(Some("x"), None, "n"), ("x".to_string(), false, false));
    assert_eq!(claim_artifact(None, Some("e"), "n"), ("e".to_string(), false, true));
    assert_eq!(claim_artifact(None, None, "n"), ("n".to_string(), true, true));
}

#[test]
fn a_watch_waits_longer_and_ends() {
    assert_eq!(after_failure(None, 0, None, 1000).next_poll, 6000);
    assert_eq!(after_failure(None, 9, None, 0).next_poll, 60000);
    assert_eq!(after_failure(None, 9, None, 0).attempts, 6);
    assert_eq!(after_failure(None, 0, Some(5), 5).state, "TIMED_OUT");
    let gone = LookupError { code: "x".into(), status: 410 };
    assert_eq!(after_failure(Some(&gone), 0, None, 0).state, "EXPIRED");
    let untracked = LookupError { code: "generated_images_not_tracked".into(), status: 404 };
    assert_eq!(after_failure(Some(&untracked), 0, None, 0).state, "UNSUPPORTED");
    assert_eq!(after_snapshot(true, 3, 0), (4, 45000));
    assert_eq!(after_snapshot(false, 3, 0), (0, 5000));
    assert_eq!(settle_deadline(600, 0), 600_000);
    assert_eq!(tightened(Some(5), Some(3)), Some(3));
    assert_eq!(tightened(None, Some(3)), Some(3));
    let caps = json(
        r#"{"features":{"generated_image_artifacts":true,"response_generated_images":true},"instance_id":"i","recovery_generation":"g"}"#,
    );
    assert_eq!(generated_images_loop(&caps, "i", "g"), Some(600));
    assert_eq!(generated_images_loop(&caps, "i", "h"), None);
}

fn progress(state: &str, inventory: &str, total: i64, ready: i64, delivered: i64) -> Progress {
    Progress {
        state: state.into(),
        inventory: Some(inventory.into()),
        total,
        ready,
        delivered,
        waiting_long: false,
        failed_delivery: false,
    }
}

#[test]
fn the_progress_of_images_is_told() {
    assert!(matches!(
        image_progress(&progress("WATCHING", "complete", 2, 2, 2), vec![]),
        Some(ImageNotice::Done(t)) if t == "画像2件の配信を確認できました。"
    ));
    match image_progress(&progress("WATCHING", "pending", 2, 1, 1), vec![]) {
        Some(ImageNotice::Show { waiting, trouble }) => {
            assert!(waiting.unwrap().contains("2件中1件配信済み"));
            assert!(trouble.is_none());
        }
        _ => panic!("a notice was expected"),
    }
    match image_progress(&progress("TIMED_OUT", "unknown", 2, 1, 1), vec!["e".into()]) {
        Some(ImageNotice::Show { waiting, trouble }) => {
            assert!(waiting.is_none());
            assert!(trouble.unwrap().ends_with("AIは再実行していません。\ne"));
        }
        _ => panic!("a notice was expected"),
    }
    assert!(image_progress(&progress("UNSUPPORTED", "pending", 0, 0, 0), vec![]).is_none());
}

fn limits() -> Limits {
    Limits {
        attachments: 4,
        attachment_bytes: 1024,
        input_bytes: 4096,
        text_bytes: 1024,
        image_pixels: 1000,
        artifact_bytes: 1024,
        temp_bytes: 4096,
        output_bytes: 6,
        output_total_bytes: 10,
        delivery_retention_secs: 60,
        queue_conversation: 5,
        queue_global: 20,
        validation_secs: 120,
    }
}

#[test]
fn an_answer_grows_within_its_limits() {
    let mut output = Output {
        thread: "t".into(),
        text: String::new(),
        done: false,
        lost: false,
        created: 0,
        last_progress: 0,
        retention: 60,
    };
    output.receive("abc", 0, &limits(), 7);
    output.receive("defg", 3, &limits(), 8);
    assert_eq!((output.text.as_str(), output.last_progress), ("abc", 7));
    output.receive("def", 8, &limits(), 9);
    assert_eq!(output.text, "abc");
    assert!(output.silent(120_008));
    assert!(!output.silent(120_007));
    output.done = true;
    assert!(output.expired(60) && !output.expired(59));
}

#[test]
fn an_answer_is_let_go_only_when_delivered() {
    let mut stage = DeliveryStage::Parts;
    let mut seen = vec![];
    while stage != DeliveryStage::Delivered {
        seen.push(stage);
        stage = delivery_loop(stage, true, true, true);
    }
    assert_eq!(
        seen,
        vec![DeliveryStage::Parts, DeliveryStage::Trim, DeliveryStage::ClearDraft, DeliveryStage::Loss]
    );
    assert_eq!(delivery_loop(DeliveryStage::Loss, false, true, true), DeliveryStage::Later);
    assert_eq!(delivery_loop(DeliveryStage::Parts, true, false, false), DeliveryStage::Later);
}

#[test]
fn the_events_of_a_response_are_followed() {
    let hear = |event: &str, data: &str| watch_events(event, data, Some("r"), Some("t"), Some("u"));
    assert!(matches!(hear("gap", ""), Ok(WatchStep::Reconcile)));
    assert!(matches!(hear("response.generated_images_changed", ""), Ok(WatchStep::PollImages)));
    assert!(matches!(
        hear("response.delta", r#"{"response_id":"r","delta":"x"}"#),
        Ok(WatchStep::Delta(d)) if d == "x"
    ));
    assert_eq!(
        hear("response.delta", r#"{"response_id":"q","delta":"x"}"#).err(),
        Some("delta target mismatch".to_string())
    );
    assert_eq!(hear("response.delta", "{").unwrap_err(), "EOF while parsing an object at line 1 column 1");
    assert_eq!(
        hear("approval_requested", r#"{"threadId":"t","turnId":"z"}"#).err(),
        Some("event target mismatch".to_string())
    );
    assert!(matches!(
        hear("approval_requested", r#"{"threadId":"t","turnId":"u"}"#),
        Ok(WatchStep::DiscoverApprovals)
    ));
    assert!(matches!(hear("other", ""), Ok(WatchStep::Skip)));
    assert_eq!(check_stream(90_000), Err("Turn monitor silent"));
    assert_eq!(monitor_loop(RequestState::Running, true, true), (true, true));
    assert_eq!(monitor_loop(RequestState::Completed, true, true), (false, false));
}

#[test]
fn an_end_is_explained() {
    assert_eq!(failure_message(None), "作業を完了できませんでした。/status で確認してください。");
    assert!(failure_message(Some("proxy_busy")).contains("混み合って"));
    assert_ne!(
        interruption_with_evidence(None, true, false),
        interruption_with_evidence(None, false, true)
    );
}

#[test]
fn a_confirmed_part_is_not_sent_again() {
    let none = empty_array();
    let hash = message_digest("text", &none);
    let other = message_digest("other", &none);
    let mut record = Record::first("id", &hash);
    assert!(!record.confirm("m", &other));
    assert!(record.confirm("m", &hash));
    assert_eq!((record.state.as_str(), record.message.as_deref()), ("CONFIRMED", Some("m")));
    assert_eq!(record.confirmed.as_deref(), Some(hash.as_str()));
    record.change(&other);
    assert_eq!((record.state.as_str(), record.pending.as_deref()), ("PATCH_PENDING", Some(other.as_str())));
    assert_eq!(record.confirm_direct_image("m", &other), Err("image delivery acknowledgement changed"));
    assert!(matches!(Delivery::text("text", &none, true, Some(record)), Ok(TextPlan::Reconcile { current: false })));
    let mut sent = Record::first("id", &hash);
    assert_eq!(sent.confirm_direct_image("m", &hash), Ok(()));
    assert!(matches!(Delivery::text("text", &none, true, Some(sent)), Ok(TextPlan::Settled(true))));
}

#[test]
fn images_are_delivered_although_the_answer_is_not() {
    let tally = || direct_images("COMPLETE", &vec![ImageOutcome::Delivered]);
    let done = DirectApplication::finish_and_deliver(Some(Ok(true)), Ok(tally())).unwrap();
    assert!(done.answer_delivered && done.images.delivered == 1);
    assert!(!DirectApplication::finish_and_deliver(None, Ok(tally())).unwrap().answer_delivered);
    let failed = DirectApplication::finish_and_deliver(Some(Err("answer".into())), Ok(tally()));
    assert_eq!(failed.unwrap_err(), "answer");
    let both = DirectApplication::finish_and_deliver(Some(Err("answer".into())), Err("images".into()));
    assert_eq!(both.unwrap_err(), "images");
}
