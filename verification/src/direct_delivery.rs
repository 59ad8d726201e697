//! Delivery of saved answers, images and artifacts after a failure or a restart: each is sent once,
//! and what is uncertain is only looked up.
use crate::codec::{compact, document, encode, sha256_hex};
use crate::delivery::{nonce, nonce_of};
use crate::direct_artifacts::Artifact;
use crate::direct_content::StoredImage;
use crate::discord::{owned_by, owns_message};
use crate::domain::{digest, RequestState};
use crate::json::{array, text, trees, Json, JsonView};
use crate::numbers::{decimal, decimal_text};
use crate::text::{borrowed, opt_str, opt_view, same, some_same};
use vstd::prelude::*;
use vstd::string::*;

verus! {

/// How many images of a request were delivered.
#[derive(Clone, Copy, Debug, PartialEq, Eq, Structural)]
pub struct DirectImageDelivery {
    pub delivered: usize,
    pub pending: usize,
    pub failed: usize,
    pub inventory_unknown: bool,
}

impl Default for DirectImageDelivery {
    fn default() -> (r: DirectImageDelivery)
        ensures
            r.delivered == 0,
            r.pending == 0,
            r.failed == 0,
            !r.inventory_unknown,
    {
        DirectImageDelivery { delivered: 0, pending: 0, failed: 0, inventory_unknown: false }
    }
}

/// What became of an image.
#[derive(Clone, Copy, Debug, PartialEq, Eq, Structural)]
pub enum ImageOutcome {
    Delivered,
    Pending,
    Failed,
    Unknown,
}

/// How many of some images had an outcome.
pub open spec fn count_of(outcomes: Seq<ImageOutcome>, o: ImageOutcome, n: nat) -> nat
    decreases n,
{
    if n == 0 || n > outcomes.len() {
        0
    } else {
        count_of(outcomes, o, (n - 1) as nat) + if outcomes[n - 1] == o {
            1nat
        } else {
            0nat
        }
    }
}

proof fn lemma_count(outcomes: Seq<ImageOutcome>, o: ImageOutcome, n: nat)
    ensures
        count_of(outcomes, o, n) <= n,
    decreases n,
{
    if n > 0 && n <= outcomes.len() {
        lemma_count(outcomes, o, (n - 1) as nat);
    }
}

/// The sum of the outcomes of the images of a request.
pub fn direct_images(inventory_state: &str, outcomes: &Vec<ImageOutcome>) -> (r: DirectImageDelivery)
    ensures
        r.delivered == count_of(outcomes@, ImageOutcome::Delivered, outcomes@.len()),
        r.pending == count_of(outcomes@, ImageOutcome::Pending, outcomes@.len()),
        r.failed == count_of(outcomes@, ImageOutcome::Failed, outcomes@.len()),
        r.inventory_unknown == (inventory_state@ == "UNKNOWN"@ || count_of(
            outcomes@,
            ImageOutcome::Unknown,
            outcomes@.len(),
        ) > 0),
{
    let mut r = DirectImageDelivery::default();
    r.inventory_unknown = same(inventory_state, "UNKNOWN");
    let mut i: usize = 0;
    while i < outcomes.len()
        invariant
            i <= outcomes@.len(),
            r.delivered == count_of(outcomes@, ImageOutcome::Delivered, i as nat),
            r.pending == count_of(outcomes@, ImageOutcome::Pending, i as nat),
            r.failed == count_of(outcomes@, ImageOutcome::Failed, i as nat),
            r.inventory_unknown == (inventory_state@ == "UNKNOWN"@ || count_of(
                outcomes@,
                ImageOutcome::Unknown,
                i as nat,
            ) > 0),
        decreases outcomes@.len() - i,
    {
        proof {
            lemma_count(outcomes@, ImageOutcome::Delivered, i as nat);
            lemma_count(outcomes@, ImageOutcome::Pending, i as nat);
            lemma_count(outcomes@, ImageOutcome::Failed, i as nat);
        }
        match outcomes[i] {
            ImageOutcome::Delivered => {
                r.delivered = r.delivered + 1;
            },
            ImageOutcome::Pending => {
                r.pending = r.pending + 1;
            },
            ImageOutcome::Failed => {
                r.failed = r.failed + 1;
            },
            ImageOutcome::Unknown => {
                r.inventory_unknown = true;
            },
        }
        i += 1;
    }
    r
}

/// Whether the images of a request are delivered to this conversation now. `inventory` is the state
/// of the record of its images.
pub fn check_images<'a>(
    request_thread: &str,
    thread: &str,
    state: RequestState,
    inventory: Option<&'a str>,
) -> (r: Result<&'a str, &'static str>)
    ensures
        !(request_thread@ == thread@ && state.ended()) ==> r is Err && r->Err_0@
            == "image destination or execution state mismatch"@,
        request_thread@ == thread@ && state.ended() && inventory is None ==> r is Err && r->Err_0@
            == "Codex image inventory not recorded"@,
        request_thread@ == thread@ && state.ended() && inventory is Some ==> r is Ok && r->Ok_0@
            == inventory->0@,
{
    if !(same(request_thread, thread) && state.terminal()) {
        return Err("image destination or execution state mismatch");
    }
    match inventory {
        Some(s) => Ok(s),
        None => Err("Codex image inventory not recorded"),
    }
}

/// What is stored of an upload, with the conversation that it went to.
#[derive(Debug)]
pub struct ExistingDelivery {
    pub id: String,
    pub thread: String,
    pub state: String,
    pub message: Option<String>,
    pub confirmed: Option<String>,
    pub pending: Option<String>,
}

/// What to do with an upload.
#[derive(Clone, Copy, Debug, PartialEq, Eq, Structural)]
pub enum UploadPlan {
    /// It is there.
    Delivered,
    /// An earlier upload is uncertain: look it up.
    Reconcile,
    /// It was never sent: store the intent and send it.
    Upload,
}

/// Why an upload is refused.
#[derive(Clone, Copy, Debug, PartialEq, Eq, Structural)]
pub enum UploadFault {
    Destination,
    Delivered,
    Pending,
}

/// What to do with an upload of content with a digest.
pub open spec fn upload_plan(existing: Option<ExistingDelivery>, thread: Seq<char>, hash: Seq<char>) -> Result<
    UploadPlan,
    UploadFault,
> {
    match existing {
        None => Ok(UploadPlan::Upload),
        Some(e) => if e.thread@ != thread {
            Err(UploadFault::Destination)
        } else if e.state@ == "CONFIRMED"@ {
            if opt_view(e.confirmed) == Some(hash) {
                Ok(UploadPlan::Delivered)
            } else {
                Err(UploadFault::Delivered)
            }
        } else if e.state@ == "POST_PENDING"@ && opt_view(e.pending) == Some(hash) {
            Ok(UploadPlan::Reconcile)
        } else {
            Err(UploadFault::Pending)
        },
    }
}

fn plan_upload(existing: Option<&ExistingDelivery>, thread: &str, hash: &str) -> (r: Result<
    UploadPlan,
    UploadFault,
>)
    ensures
        r == upload_plan(
            match existing {
                Some(e) => Some(*e),
                None => None,
            },
            thread@,
            hash@,
        ),
{
    match existing {
        None => Ok(UploadPlan::Upload),
        Some(e) => {
            if !same(e.thread.as_str(), thread) {
                Err(UploadFault::Destination)
            } else if same(e.state.as_str(), "CONFIRMED") {
                if some_same(borrowed(&e.confirmed), hash) {
                    Ok(UploadPlan::Delivered)
                } else {
                    Err(UploadFault::Delivered)
                }
            } else if same(e.state.as_str(), "POST_PENDING") && some_same(
                borrowed(&e.pending),
                hash,
            ) {
                Ok(UploadPlan::Reconcile)
            } else {
                Err(UploadFault::Pending)
            }
        },
    }
}

/// Once the intent of an upload is stored, nothing is uploaded again: a lost answer can only be
/// looked up.
pub proof fn uploads_are_not_repeated(e: ExistingDelivery, thread: Seq<char>, hash: Seq<char>)
    ensures
        upload_plan(Some(e), thread, hash) != Ok::<UploadPlan, UploadFault>(UploadPlan::Upload),
{
}

/// The digest of what an artifact is sent as.
pub open spec fn artifact_digest(a: Artifact, thread: Seq<char>) -> Seq<char> {
    sha256_hex(
        compact(
            document(
                JsonView::Array(
                    seq![
                        JsonView::Text(a.id@),
                        JsonView::Text(thread),
                        JsonView::Text(a.display_name@),
                        JsonView::Text(a.saved.sha256@),
                        JsonView::Unsigned(a.saved.bytes as u64),
                    ],
                ),
            ),
        ),
    )
}

fn digest_of_five(a: &str, b: &str, c: &str, d: &str, n: usize) -> (r: String)
    ensures
        r@ == sha256_hex(
            compact(
                document(
                    JsonView::Array(
                        seq![
                            JsonView::Text(a@),
                            JsonView::Text(b@),
                            JsonView::Text(c@),
                            JsonView::Text(d@),
                            JsonView::Unsigned(n as u64),
                        ],
                    ),
                ),
            ),
        ),
{
    let mut v: Vec<Json> = Vec::new();
    v.push(text(a));
    v.push(text(b));
    v.push(text(c));
    v.push(text(d));
    v.push(Json::Unsigned(n as u64));
    assert(trees(v@) =~= seq![
        JsonView::Text(a@),
        JsonView::Text(b@),
        JsonView::Text(c@),
        JsonView::Text(d@),
        JsonView::Unsigned(n as u64),
    ]);
    digest(encode(&array(v)).as_slice())
}

/// The message of a refused upload of an artifact.
pub open spec fn artifact_fault(f: UploadFault) -> Seq<char> {
    match f {
        UploadFault::Destination => "artifact delivery destination changed"@,
        UploadFault::Delivered => "delivered artifact identity changed"@,
        UploadFault::Pending => "pending artifact delivery identity changed"@,
    }
}

/// What to do with an artifact, and the digest of what it is sent as.
pub fn direct_artifact(artifact: &Artifact, thread: &str, existing: Option<&ExistingDelivery>) -> (r: Result<
    (UploadPlan, String),
    &'static str,
>)
    ensures
        artifact.thread_id@ != thread@ ==> r is Err && r->Err_0@ == "artifact destination mismatch"@,
        artifact.thread_id@ == thread@ ==> match upload_plan(
            match existing {
                Some(e) => Some(*e),
                None => None,
            },
            thread@,
            artifact_digest(*artifact, thread@),
        ) {
            Ok(plan) => r is Ok && (r->Ok_0).0 == plan && (r->Ok_0).1@ == artifact_digest(
                *artifact,
                thread@,
            ),
            Err(f) => r is Err && r->Err_0@ == artifact_fault(f),
        },
{
    if !same(artifact.thread_id.as_str(), thread) {
        return Err("artifact destination mismatch");
    }
    let hash = digest_of_five(
        artifact.id.as_str(),
        thread,
        artifact.display_name.as_str(),
        artifact.saved.sha256.as_str(),
        artifact.saved.bytes,
    );
    match plan_upload(existing, thread, hash.as_str()) {
        Ok(plan) => Ok((plan, hash)),
        Err(UploadFault::Destination) => Err("artifact delivery destination changed"),
        Err(UploadFault::Delivered) => Err("delivered artifact identity changed"),
        Err(UploadFault::Pending) => Err("pending artifact delivery identity changed"),
    }
}

/// The file name of a generated image.
pub open spec fn image_filename(ordinal: nat) -> Seq<char> {
    "generated-image-"@ + decimal(ordinal + 1) + ".png"@
}

/// The caption of a generated image.
pub open spec fn image_caption(ordinal: nat) -> Seq<char> {
    "生成画像 "@ + decimal(ordinal + 1)
}

/// The digest of what an image is sent as.
pub open spec fn image_digest(message: Seq<char>, ordinal: nat, saved: StoredImage) -> Seq<char> {
    sha256_hex(
        compact(
            document(
                JsonView::Array(
                    seq![
                        JsonView::Text(message),
                        JsonView::Text(image_filename(ordinal)),
                        JsonView::Text(image_caption(ordinal)),
                        JsonView::Text(saved.sha256@),
                        JsonView::Unsigned(saved.bytes as u64),
                    ],
                ),
            ),
        ),
    )
}

/// The message of a refused upload of an image.
pub open spec fn image_fault(f: UploadFault) -> Seq<char> {
    match f {
        UploadFault::Destination => "image delivery destination changed"@,
        UploadFault::Delivered => "delivered image identity changed"@,
        UploadFault::Pending => "pending image delivery identity changed"@,
    }
}

/// How an image is sent.
pub struct ImageUpload {
    pub plan: UploadPlan,
    pub filename: String,
    pub caption: String,
    pub digest: String,
}

/// What to do with a generated image that answers a message.
pub fn direct_image_part(
    source_message: &str,
    ordinal: usize,
    saved: &StoredImage,
    thread: &str,
    existing: Option<&ExistingDelivery>,
) -> (r: Result<ImageUpload, &'static str>)
    requires
        ordinal < usize::MAX,
    ensures
        match upload_plan(
            match existing {
                Some(e) => Some(*e),
                None => None,
            },
            thread@,
            image_digest(source_message@, ordinal as nat, *saved),
        ) {
            Ok(plan) => {
                &&& r is Ok
                &&& r->Ok_0.plan == plan
                &&& r->Ok_0.filename@ == image_filename(ordinal as nat)
                &&& r->Ok_0.caption@ == image_caption(ordinal as nat)
                &&& r->Ok_0.digest@ == image_digest(source_message@, ordinal as nat, *saved)
            },
            Err(f) => r is Err && r->Err_0@ == image_fault(f),
        },
{
    let number = decimal_text((ordinal + 1) as u64);
    let filename = String::from_str("generated-image-").concat(number.as_str()).concat(".png");
    let caption = String::from_str("生成画像 ").concat(number.as_str());
    let hash = digest_of_five(
        source_message,
        filename.as_str(),
        caption.as_str(),
        saved.sha256.as_str(),
        saved.bytes,
    );
    match plan_upload(existing, thread, hash.as_str()) {
        Ok(plan) => Ok(ImageUpload { plan, filename, caption, digest: hash }),
        Err(UploadFault::Destination) => Err("image delivery destination changed"),
        Err(UploadFault::Delivered) => Err("delivered image identity changed"),
        Err(UploadFault::Pending) => Err("pending image delivery identity changed"),
    }
}

/// Whether a message carries exactly one file, with this name and size.
pub open spec fn carries(message: JsonView, filename: Seq<char>, bytes: nat) -> bool {
    let list = message.at("attachments"@).array();
    list is Some && list->0.len() == 1 && list->0[0].at("filename"@).says(filename) && list->0[0].at(
        "size"@,
    ) == JsonView::Unsigned(bytes as u64)
}

fn does_carry(message: &Json, filename: &str, bytes: usize) -> (r: bool)
    ensures
        r == carries(message@, filename@, bytes as nat),
{
    match message.at("attachments").as_array() {
        None => false,
        Some(list) => list.len() == 1 && list[0].at("filename").is_text(filename) && list[0].at(
            "size",
        ).is_number(bytes as u64),
    }
}

/// What is being uploaded.
#[derive(Clone, Copy, Debug, PartialEq, Eq, Structural)]
pub enum Uploaded {
    Artifact,
    Image,
}

/// The message that an upload created.
pub fn uploaded_message(kind: Uploaded, receipt: &Json, thread: &str, filename: &str, bytes: usize) -> (r:
    Result<String, &'static str>)
    ensures
        ({
            let id = receipt@.at("id"@).text();
            if id is None {
                r is Err && r->Err_0@ == if kind == Uploaded::Artifact {
                    "Discord artifact receipt missing message ID"@
                } else {
                    "Discord image receipt missing message ID"@
                }
            } else if !(receipt@.at("channel_id"@).says(thread@) && carries(
                receipt@,
                filename@,
                bytes as nat,
            )) {
                r is Err && r->Err_0@ == if kind == Uploaded::Artifact {
                    "Discord artifact receipt does not match saved content"@
                } else {
                    "Discord image receipt does not match saved content"@
                }
            } else {
                r is Ok && r->Ok_0@ == id->0
            }
        }),
{
    let id = match receipt.at("id").as_str() {
        Some(s) => s,
        None => {
            return if kind == Uploaded::Artifact {
                Err("Discord artifact receipt missing message ID")
            } else {
                Err("Discord image receipt missing message ID")
            };
        },
    };
    if !(receipt.at("channel_id").is_text(thread) && does_carry(receipt, filename, bytes)) {
        return if kind == Uploaded::Artifact {
            Err("Discord artifact receipt does not match saved content")
        } else {
            Err("Discord image receipt does not match saved content")
        };
    }
    Ok(id.to_owned())
}

/// The identity of a message that confirms an uncertain upload.
pub open spec fn confirms_upload(
    v: JsonView,
    bot: Option<Seq<char>>,
    thread: Seq<char>,
    delivery: Seq<char>,
    caption: Seq<char>,
    filename: Seq<char>,
    bytes: nat,
) -> Option<Seq<char>> {
    if owned_by(v, bot) && v.at("channel_id"@).says(thread) && v.at("nonce"@).says(
        nonce_of(delivery),
    ) && v.at("content"@).says(caption) && carries(v, filename, bytes) {
        v.at("id"@).text()
    } else {
        None
    }
}

/// The message that confirms an uncertain upload: the bot's own, in the channel, with the nonce,
/// caption and file that were sent.
pub fn reconcile_direct_image(
    found: Option<&Json>,
    bot: Option<&str>,
    thread: &str,
    delivery: &str,
    caption: &str,
    filename: &str,
    bytes: usize,
) -> (r: Option<String>)
    ensures
        opt_view(r) == match found {
            None => None,
            Some(v) => confirms_upload(
                v@,
                opt_str(bot),
                thread@,
                delivery@,
                caption@,
                filename@,
                bytes as nat,
            ),
        },
{
    match found {
        None => None,
        Some(v) => {
            let key = nonce(delivery);
            if owns_message(bot, v) && v.at("channel_id").is_text(thread) && v.at("nonce").is_text(
                key.as_str(),
            ) && v.at("content").is_text(caption) && does_carry(v, filename, bytes) {
                match v.at("id").as_str() {
                    Some(s) => Some(s.to_owned()),
                    None => None,
                }
            } else {
                None
            }
        },
    }
}

/// Whether the answer of a request is delivered to this conversation.
pub fn direct_answer(request_thread: &str, thread: &str, state: RequestState, saved: bool) -> (r:
    Result<(), &'static str>)
    ensures
        request_thread@ != thread@ ==> r is Err && r->Err_0@ == "answer destination mismatch"@,
        request_thread@ == thread@ && state != RequestState::Completed ==> r is Err && r->Err_0@
            == "Codex answer is not confirmed complete"@,
        request_thread@ == thread@ && state == RequestState::Completed && !saved ==> r is Err
            && r->Err_0@ == "confirmed answer has no saved content"@,
        request_thread@ == thread@ && state == RequestState::Completed && saved ==> r is Ok,
{
    if !same(request_thread, thread) {
        return Err("answer destination mismatch");
    }
    if state != RequestState::Completed {
        return Err("Codex answer is not confirmed complete");
    }
    if !saved {
        return Err("confirmed answer has no saved content");
    }
    Ok(())
}

} // verus!
