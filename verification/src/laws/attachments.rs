//! Pictures and files reach the conversation that they belong to, as they were made, and once.
use crate::codec::base64_bytes;
use crate::codex_execution::{TurnIdentity, TurnSnapshot};
use crate::delivery::nonce;
use crate::direct_artifacts::{
    capture, check_existing, check_live, name, Artifact, Capture, CaptureTarget,
};
use crate::direct_content::StoredImage;
use crate::direct_delivery::{
    check_images, count_of, direct_artifact, direct_image_part, direct_images,
    reconcile_direct_image, uploaded_message, DirectImageDelivery, ExistingDelivery, ImageOutcome,
    ImageUpload, UploadPlan, Uploaded,
};
use crate::direct_image_store::{
    check_count, mark_direct_image_unknown, record_direct_images, record_image, ImageRecord,
    RowChange, StoredRow,
};
use crate::direct_images::{inventory, inventory_of, validate_png, GeneratedImage};
use crate::direct_run::DirectRunService;
use crate::direct_store::SendState;
use crate::discord::{check_parent, permission_parent, upload_attachment};
use crate::domain::RequestState;
use crate::files::{
    artifact, artifact_parts, artifact_readable, artifact_root, artifact_step, Budget, FileFacts,
    Reservation,
};
use crate::json::{lookup, trees, Json, JsonView};
use crate::numbers::decimal;
use crate::text::{opt_view, utf8_len, views};
use vstd::prelude::*;

verus! {

/// An upload carries the file under its name and the mark of its delivery, and mentions nobody; a
/// picture answers the message that asked for it.
pub proof fn uploads_carry_the_file(
    filename: &str,
    mark: &str,
    image: Option<(&str, &str)>,
    r: Result<(Json, &'static str), &'static str>,
)
    requires
        call_ensures(upload_attachment, (filename, mark, image), r),
        r is Ok,
    ensures
        ({
            let sent = (r->Ok_0).0@;
            &&& sent.at("attachments"@).item(0).at("filename"@) == JsonView::Text(filename@)
            &&& sent.at("attachments"@).item(0).at("id"@) == JsonView::Unsigned(0)
            &&& sent.at("nonce"@) == JsonView::Text(mark@)
            &&& sent.at("enforce_nonce"@) == JsonView::Bool(true)
            &&& sent.at("allowed_mentions"@).at("parse"@) == JsonView::Array(Seq::empty())
            &&& image is Some ==> sent.at("content"@) == JsonView::Text((image->0).1@) && sent.at(
                "message_reference"@,
            ).at("message_id"@) == JsonView::Text((image->0).0@) && (r->Ok_0).1@ == "image/png"@
            &&& image is None ==> sent.at("message_reference"@) == JsonView::Null && (r->Ok_0).1@
                == "application/octet-stream"@
        }),
{
    reveal_strlit("allowed_mentions");
    reveal_strlit("attachments");
    reveal_strlit("content");
    reveal_strlit("enforce_nonce");
    reveal_strlit("message_reference");
    reveal_strlit("nonce");
    assert("allowed_mentions"@.len() == 16 && "attachments"@.len() == 11 && "content"@.len() == 7 && "enforce_nonce"@.len() == 13 && "message_reference"@.len() == 17 && "nonce"@.len() == 5);
    reveal_strlit("filename");
    reveal_strlit("id");
    assert("filename"@.len() == 8 && "id"@.len() == 2);
    reveal_strlit("fail_if_not_exists");
    reveal_strlit("message_id");
    assert("fail_if_not_exists"@.len() == 18 && "message_id"@.len() == 10);
    let m = (r->Ok_0).0@->Object_0;
    assert(m[0].0 == "allowed_mentions"@ && m[1].0 == "attachments"@ && m[2].0 == "content"@
        && m[3].0 == "enforce_nonce"@);
    assert(m[4].0 == "message_reference"@ || m[4].0 == "nonce"@);
    let a = m[1].1->Array_0[0]->Object_0;
    assert(a[0].0 == "filename"@ && a[1].0 == "id"@);
    let w = m[0].1->Object_0;
    assert(w[0].0 == "parse"@);
    if image is Some {
        assert(m[5].0 == "nonce"@);
        let p = m[4].1->Object_0;
        assert(p[0].0 == "fail_if_not_exists"@ && p[1].0 == "message_id"@);
    }
    reveal_with_fuel(lookup, 7);
}

/// A file is uploaded only where it was never sent, into the conversation that it belongs to. One
/// that may have been sent is looked up, and one that was confirmed is left.
pub proof fn files_are_uploaded_once(
    a: &Artifact,
    thread: &str,
    existing: Option<&ExistingDelivery>,
    r: Result<(UploadPlan, String), &'static str>,
)
    requires
        call_ensures(direct_artifact, (a, thread, existing), r),
    ensures
        r is Ok ==> a.thread_id@ == thread@,
        r is Ok && (r->Ok_0).0 == UploadPlan::Upload <==> a.thread_id@ == thread@ && existing
            is None,
        r is Ok && existing is Some ==> existing->0.thread@ == thread@,
        r is Ok && (r->Ok_0).0 == UploadPlan::Delivered ==> existing is Some && existing->0.state@
            == "CONFIRMED"@ && opt_view(existing->0.confirmed) == Some((r->Ok_0).1@),
        r is Ok && (r->Ok_0).0 == UploadPlan::Reconcile ==> existing is Some && existing->0.state@
            == "POST_PENDING"@ && opt_view(existing->0.pending) == Some((r->Ok_0).1@),
        r is Ok && existing is Some && existing->0.state@ == "CONFIRMED"@ ==> (r->Ok_0).0
            == UploadPlan::Delivered,
        r is Ok && existing is Some && existing->0.state@ == "POST_PENDING"@ ==> (r->Ok_0).0
            == UploadPlan::Reconcile,
{
    reveal_strlit("CONFIRMED");
    reveal_strlit("POST_PENDING");
    assert("CONFIRMED"@.len() == 9 && "POST_PENDING"@.len() == 12);
}

/// A picture is uploaded only where it was never sent, under the number of its place.
pub proof fn pictures_are_uploaded_once(
    message: &str,
    ordinal: usize,
    saved: &StoredImage,
    thread: &str,
    existing: Option<&ExistingDelivery>,
    r: Result<ImageUpload, &'static str>,
)
    requires
        call_ensures(direct_image_part, (message, ordinal, saved, thread, existing), r),
        ordinal < usize::MAX,
    ensures
        r is Ok && r->Ok_0.plan == UploadPlan::Upload <==> existing is None,
        r is Ok && existing is Some ==> existing->0.thread@ == thread@,
        r is Ok && r->Ok_0.plan == UploadPlan::Delivered ==> existing is Some && existing->0.state@
            == "CONFIRMED"@ && opt_view(existing->0.confirmed) == Some(r->Ok_0.digest@),
        r is Ok && r->Ok_0.plan == UploadPlan::Reconcile ==> existing is Some && existing->0.state@
            == "POST_PENDING"@ && opt_view(existing->0.pending) == Some(r->Ok_0.digest@),
        r is Ok ==> r->Ok_0.filename@ == "generated-image-"@ + decimal((ordinal + 1) as nat)
            + ".png"@,
{
    reveal_strlit("CONFIRMED");
    reveal_strlit("POST_PENDING");
    assert("CONFIRMED"@.len() == 9 && "POST_PENDING"@.len() == 12);
}

/// An upload counts as done only where the receipt is of the conversation and shows the very file:
/// alone, with its name and its size.
pub proof fn receipts_show_the_file(
    kind: Uploaded,
    receipt: &Json,
    thread: &str,
    filename: &str,
    bytes: usize,
    r: Result<String, &'static str>,
)
    requires
        call_ensures(uploaded_message, (kind, receipt, thread, filename, bytes), r),
    ensures
        r is Ok <==> {
            let list = receipt@.at("attachments"@);
            &&& receipt@.at("id"@) is Text
            &&& receipt@.at("channel_id"@) == JsonView::Text(thread@)
            &&& list is Array
            &&& list->Array_0.len() == 1
            &&& list->Array_0[0].at("filename"@) == JsonView::Text(filename@)
            &&& list->Array_0[0].at("size"@) == JsonView::Unsigned(bytes as u64)
        },
        r is Ok ==> receipt@.at("id"@) == JsonView::Text(r->Ok_0@),
{
}

/// An upload that is looked up is confirmed only by a message of the bot in that conversation that
/// bears its mark and shows the very file.
pub proof fn found_uploads_show_the_file(
    found: Option<&Json>,
    bot: Option<&str>,
    thread: &str,
    delivery: &str,
    caption: &str,
    filename: &str,
    bytes: usize,
    r: Option<String>,
    mark: String,
)
    requires
        call_ensures(
            reconcile_direct_image,
            (found, bot, thread, delivery, caption, filename, bytes),
            r,
        ),
        call_ensures(nonce, (delivery,), mark),
    ensures
        r is Some ==> {
            let v = found->0@;
            let list = v.at("attachments"@);
            &&& found is Some
            &&& bot is Some
            &&& v.at("author"@).at("id"@) == JsonView::Text(bot->0@)
            &&& v.at("channel_id"@) == JsonView::Text(thread@)
            &&& v.at("nonce"@) == JsonView::Text(mark@)
            &&& v.at("content"@) == JsonView::Text(caption@)
            &&& v.at("id"@) == JsonView::Text(r->0@)
            &&& list is Array && list->Array_0.len() == 1
            &&& list->Array_0[0].at("filename"@) == JsonView::Text(filename@)
            &&& list->Array_0[0].at("size"@) == JsonView::Unsigned(bytes as u64)
        },
        found is None ==> r is None,
{
}

/// A file is kept for a live request of the conversation only, and a call that was answered before is
/// answered with the same version.
pub proof fn files_are_kept_for_their_call(
    t: &CaptureTarget,
    previous: Option<Artifact>,
    unresolved: bool,
    r: Result<Capture, &'static str>,
    shown_as: &str,
    shown: Result<String, &'static str>,
)
    requires
        call_ensures(capture, (t, previous, unresolved), r),
        call_ensures(name, (shown_as,), shown),
    ensures
        r is Ok ==> (r->Ok_0 is Again <==> previous is Some),
        r is Ok && previous is Some ==> r->Ok_0->Again_0 == previous->0 && previous->0.source_path@
            == t.relative@,
        r is Ok && previous is None && t.request_id is None ==> !unresolved,
        r is Ok ==> 0 < t.call_id@.len() && utf8_len(t.call_id@) <= 256 && 0 < t.relative@.len()
            && utf8_len(t.relative@) <= 1024,
        0 < t.call_id@.len() && utf8_len(t.call_id@) <= 256 && 0 < t.relative@.len() && utf8_len(
            t.relative@,
        ) <= 1024 && t.display_name is Some && shown is Ok && shown_as@ == t.display_name->0@
            && previous is None && !unresolved ==> r is Ok && r->Ok_0->Read_0@ == shown->Ok_0@,
{
}

/// A name under which a file is shown is not empty and holds no path.
pub proof fn shown_names_hold_no_path(input: &str, r: Result<String, &'static str>, i: int)
    requires
        call_ensures(name, (input,), r),
        r is Ok,
    ensures
        r->Ok_0@.len() > 0,
        utf8_len(r->Ok_0@) <= 120,
        0 <= i < r->Ok_0@.len() ==> r->Ok_0@[i] != '/' && r->Ok_0@[i] != '\\',
{
}

/// A file belongs to a run only while the run goes on in that conversation.
pub proof fn files_are_of_live_runs(
    bound: &str,
    thread: &str,
    state: &str,
    r: Result<(), &'static str>,
)
    requires
        call_ensures(check_live, (bound, thread, state), r),
    ensures
        r is Ok <==> bound@ == thread@ && (state@ == "RUNNING"@ || state@ == "APPROVAL_REQUIRED"@
            || state@ == "CANCEL_REQUESTED"@),
{
}

/// A version that is kept under an identity never changes its content, its name or its request.
pub proof fn kept_versions_do_not_change(a: &Artifact, b: &Artifact, r: Result<(), &'static str>)
    requires
        call_ensures(check_existing, (a, b), r),
    ensures
        r is Ok <==> a.id@ == b.id@ && opt_view(a.request_id) == opt_view(b.request_id)
            && a.source_path@ == b.source_path@ && a.display_name@ == b.display_name@
            && a.saved.relative_path@ == b.saved.relative_path@ && a.saved.sha256@
            == b.saved.sha256@ && a.saved.bytes == b.saved.bytes,
{
}

/// A file is read below its folder only: by a relative path without steps up, on the same device,
/// through no link.
pub proof fn files_are_read_below_their_folder(
    relative: &str,
    r: Result<Vec<String>, &'static str>,
    found: &FileFacts,
    dev: u64,
    step: Result<(), &'static str>,
    limit: usize,
    readable: Result<(), &'static str>,
    k: int,
)
    requires
        call_ensures(artifact_parts, (relative,), r),
        call_ensures(artifact_step, (found, dev), step),
        call_ensures(artifact_readable, (found, limit), readable),
    ensures
        r is Ok ==> relative@.len() > 0 ==> relative@[0] != '/',
        r is Ok ==> r->Ok_0@.len() > 0,
        r is Ok && 0 <= k < r->Ok_0@.len() ==> r->Ok_0@[k]@ != ".."@ && r->Ok_0@[k]@ != "."@
            && r->Ok_0@[k]@ != "/"@,
        step is Ok <==> found.dev == dev && !found.is_symlink,
        readable is Ok <==> found.is_file && found.links == 1 && found.len <= limit,
{
    if r is Ok && 0 <= k < r->Ok_0@.len() {
        assert(views(r->Ok_0@)[k] == r->Ok_0@[k]@);
    }
    if r is Ok {
        assert(views(r->Ok_0@).len() == r->Ok_0@.len());
    }
}

/// The folder that is read is the one that was stored.
pub proof fn the_folder_read_is_the_stored_one(
    dev: u64,
    ino: u64,
    wdev: u64,
    wino: u64,
    r: Result<(), &'static str>,
)
    requires
        call_ensures(artifact_root, (dev, ino, wdev, wino), r),
    ensures
        r is Ok <==> dev == wdev && ino == wino,
{
}

/// What is read of a file counts only where it is all of it and the file did not change meanwhile.
pub proof fn files_are_read_whole(
    before: &FileFacts,
    after: &FileFacts,
    bytes: Vec<u8>,
    limit: usize,
    r: Result<Vec<u8>, &'static str>,
)
    requires
        call_ensures(artifact, (before, after, bytes, limit), r),
    ensures
        r is Ok ==> r->Ok_0 == bytes,
        r is Ok <==> bytes@.len() <= limit && bytes@.len() == before.len && before.len == after.len
            && after.links == 1 && before.mtime == after.mtime && before.mtime_nsec
            == after.mtime_nsec && before.ctime == after.ctime && before.ctime_nsec
            == after.ctime_nsec,
{
}

/// Transfers share their room: none is granted beyond it, and what is given back is free again.
pub proof fn transfers_stay_within_their_room(
    b: &mut Budget,
    amount: u64,
    limit: u64,
    r: Result<Reservation, &'static str>,
)
    requires
        call_ensures(Budget::reserve, (b, amount, limit), r),
    ensures
        r == Ok::<Reservation, &'static str>(Reservation::Granted) ==> final(b).used == old(b).used
            + amount && final(b).used <= limit,
        r != Ok::<Reservation, &'static str>(Reservation::Granted) ==> final(b).used == old(b).used,
        old(b).used + amount <= limit ==> r == Ok::<Reservation, &'static str>(
            Reservation::Granted,
        ),
        r is Err <==> amount > limit,
{
}

/// Room that is given back is free again.
pub proof fn room_is_given_back(b: &mut Budget, amount: u64)
    requires
        call_ensures(Budget::release, (b, amount), ()),
    ensures
        amount <= old(b).used ==> final(b).used == old(b).used - amount,
{
}

/// The permissions of a thread are those of the channel above it, in the guild.
pub proof fn threads_have_the_permissions_of_their_channel(
    channel: &Json,
    thread: &str,
    guild: &str,
    r: Result<Option<String>, &'static str>,
    parent: &Json,
    id: &str,
    checked: Result<(), &'static str>,
)
    requires
        call_ensures(permission_parent, (channel, thread, guild), r),
        call_ensures(check_parent, (parent, id, guild), checked),
    ensures
        r is Ok ==> channel@.at("id"@) == JsonView::Text(thread@) && channel@.at("guild_id"@)
            == JsonView::Text(guild@),
        r is Ok && r->Ok_0 is Some ==> channel@.at("parent_id"@) == JsonView::Text(r->Ok_0->0@) && (
        channel@.at("type"@) == JsonView::Unsigned(10) || channel@.at("type"@) == JsonView::Unsigned(
            11,
        ) || channel@.at("type"@) == JsonView::Unsigned(12)),
        r is Ok && r->Ok_0 is None ==> channel@.at("type"@) != JsonView::Unsigned(10) && channel@.at(
            "type"@,
        ) != JsonView::Unsigned(11) && channel@.at("type"@) != JsonView::Unsigned(12),
        checked is Ok <==> parent@.at("id"@) == JsonView::Text(id@) && parent@.at("guild_id"@)
            == JsonView::Text(guild@),
{
}

proof fn pictures_are_counted(items: Seq<JsonView>, max_count: nat, max_bytes: nat, n: nat)
    requires
        n <= items.len(),
        inventory_of(items, max_count, max_bytes, n) is Ok,
    ensures
        ({
            let found = inventory_of(items, max_count, max_bytes, n)->Ok_0;
            &&& found.len() <= max_count || found.len() == 0
            &&& forall|k: int| 0 <= k < found.len() ==> (#[trigger] found[k]).ordinal == k
            &&& forall|k: int, l: int|
                0 <= k < l < found.len() ==> (#[trigger] found[k]).item_id != (
                #[trigger] found[l]).item_id
            &&& forall|i: int|
                0 <= i < n && (#[trigger] items[i]).at("type"@) == JsonView::Text(
                    "imageGeneration"@,
                ) ==> exists|k: int|
                    0 <= k < found.len() && items[i].at("id"@) == JsonView::Text(
                        (#[trigger] found[k]).item_id,
                    )
            &&& forall|k: int|
                0 <= k < found.len() ==> exists|i: int|
                    0 <= i < n && (#[trigger] items[i]).at("type"@) == JsonView::Text(
                        "imageGeneration"@,
                    ) && items[i].at("id"@) == JsonView::Text((#[trigger] found[k]).item_id) && (
                    found[k].status is Ready <==> items[i].at("status"@) == JsonView::Text(
                        "completed"@,
                    )) && (found[k].status is Failed <==> items[i].at("status"@) == JsonView::Text(
                        "failed"@,
                    ) || items[i].at("status"@) == JsonView::Text("cancelled"@)) && (
                    found[k].status is Ready ==> items[i].at("result"@) is Text && base64_bytes(
                        items[i].at("result"@)->Text_0,
                    ) == Some(found[k].status->Ready_0) && found[k].status->Ready_0.len()
                        <= max_bytes)
        }),
    decreases n,
{
    reveal_strlit("completed");
    reveal_strlit("failed");
    reveal_strlit("cancelled");
    assert("completed"@.len() == 9 && "failed"@.len() == 6 && "cancelled"@.len() == 9);
    assert("completed"@[1] != "cancelled"@[1]);
    if n > 0 {
        let m = (n - 1) as nat;
        pictures_are_counted(items, max_count, max_bytes, m);
        let before = inventory_of(items, max_count, max_bytes, m)->Ok_0;
        let found = inventory_of(items, max_count, max_bytes, n)->Ok_0;
        let item = items[m as int];
        if item.at("type"@) == JsonView::Text("imageGeneration"@) {
            assert(found.len() == before.len() + 1);
            assert(forall|k: int| 0 <= k < before.len() ==> found[k] == before[k]);
            assert forall|i: int|
                0 <= i < n && (#[trigger] items[i]).at("type"@) == JsonView::Text(
                    "imageGeneration"@,
                ) implies exists|k: int|
                0 <= k < found.len() && items[i].at("id"@) == JsonView::Text(
                    (#[trigger] found[k]).item_id,
                ) by {
                if i < m {
                    let k = choose|k: int|
                        0 <= k < before.len() && items[i].at("id"@) == JsonView::Text(
                            (#[trigger] before[k]).item_id,
                        );
                    assert(items[i].at("id"@) == JsonView::Text(found[k].item_id));
                } else {
                    assert(items[i].at("id"@) == JsonView::Text(
                        found[before.len() as int].item_id,
                    ));
                }
            }
            assert forall|k: int| 0 <= k < found.len() implies exists|i: int|
                0 <= i < n && (#[trigger] items[i]).at("type"@) == JsonView::Text(
                    "imageGeneration"@,
                ) && items[i].at("id"@) == JsonView::Text((#[trigger] found[k]).item_id) && (
                found[k].status is Ready <==> items[i].at("status"@) == JsonView::Text(
                    "completed"@,
                )) && (found[k].status is Failed <==> items[i].at("status"@) == JsonView::Text(
                    "failed"@,
                ) || items[i].at("status"@) == JsonView::Text("cancelled"@)) && (
                found[k].status is Ready ==> items[i].at("result"@) is Text && base64_bytes(
                    items[i].at("result"@)->Text_0,
                ) == Some(found[k].status->Ready_0) && found[k].status->Ready_0.len()
                    <= max_bytes) by {
                if k < before.len() {
                    assert(found[k] == before[k]);
                    let i = choose|i: int|
                        0 <= i < m && (#[trigger] items[i]).at("type"@) == JsonView::Text(
                            "imageGeneration"@,
                        ) && items[i].at("id"@) == JsonView::Text(before[k].item_id) && (
                        before[k].status is Ready <==> items[i].at("status"@) == JsonView::Text(
                            "completed"@,
                        )) && (before[k].status is Failed <==> items[i].at("status"@)
                            == JsonView::Text("failed"@) || items[i].at("status"@)
                            == JsonView::Text("cancelled"@)) && (before[k].status is Ready
                            ==> items[i].at("result"@) is Text && base64_bytes(
                            items[i].at("result"@)->Text_0,
                        ) == Some(before[k].status->Ready_0) && before[k].status->Ready_0.len()
                            <= max_bytes);
                    assert(items[i].at("type"@) == JsonView::Text("imageGeneration"@));
                } else {
                    assert(items[m as int].at("type"@) == JsonView::Text("imageGeneration"@));
                }
            }
        }
    }
}

/// Every picture that a turn made is found, once, in its place: ready with its bytes where it is
/// completed, failed where it failed or was cancelled, unknown else. Nothing else counts as a
/// picture.
pub proof fn every_picture_is_found(
    snapshot: &TurnSnapshot,
    max_count: usize,
    max_bytes: usize,
    r: Result<Vec<GeneratedImage>, &'static str>,
    i: int,
    k: int,
)
    requires
        call_ensures(inventory, (snapshot, max_count, max_bytes), r),
        r is Ok,
    ensures
        snapshot.items_view_full,
        r->Ok_0@.len() <= max_count,
        0 <= i < snapshot.items@.len() && snapshot.items@[i]@.at("type"@) == JsonView::Text(
            "imageGeneration"@,
        ) ==> exists|j: int|
            0 <= j < r->Ok_0@.len() && snapshot.items@[i]@.at("id"@) == JsonView::Text(
                (#[trigger] r->Ok_0@[j]).item_id@,
            ),
        0 <= k < r->Ok_0@.len() ==> r->Ok_0@[k].ordinal == k,
        0 <= k < i < r->Ok_0@.len() ==> r->Ok_0@[k].item_id@ != r->Ok_0@[i].item_id@,
        0 <= k < r->Ok_0@.len() ==> exists|j: int|
            0 <= j < snapshot.items@.len() && (#[trigger] snapshot.items@[j])@.at("type"@)
                == JsonView::Text("imageGeneration"@) && snapshot.items@[j]@.at("id"@)
                == JsonView::Text(r->Ok_0@[k].item_id@) && (r->Ok_0@[k].status is Ready
                <==> snapshot.items@[j]@.at("status"@) == JsonView::Text("completed"@)) && (
            r->Ok_0@[k].status is Failed <==> snapshot.items@[j]@.at("status"@) == JsonView::Text(
                "failed"@,
            ) || snapshot.items@[j]@.at("status"@) == JsonView::Text("cancelled"@)) && (
            r->Ok_0@[k].status is Ready ==> snapshot.items@[j]@.at("result"@) is Text
                && base64_bytes(snapshot.items@[j]@.at("result"@)->Text_0) == Some(
                r->Ok_0@[k].status->Ready_0@,
            ) && r->Ok_0@[k].status->Ready_0@.len() <= max_bytes),
{
    let items = trees(snapshot.items@);
    assert(items.len() == snapshot.items@.len());
    pictures_are_counted(items, max_count as nat, max_bytes as nat, items.len());
    let found = inventory_of(items, max_count as nat, max_bytes as nat, items.len())->Ok_0;
    assert(found == crate::direct_images::image_views(r->Ok_0@));
    assert(found.len() == r->Ok_0@.len());
    if 0 <= i < items.len() && items[i].at("type"@) == JsonView::Text("imageGeneration"@) {
        let j = choose|j: int|
            0 <= j < found.len() && items[i].at("id"@) == JsonView::Text(
                (#[trigger] found[j]).item_id,
            );
        assert(found[j] == r->Ok_0@[j]@);
        assert(snapshot.items@[i]@.at("id"@) == JsonView::Text(r->Ok_0@[j].item_id@));
    }
    if 0 <= k < found.len() {
        assert(found[k] == r->Ok_0@[k]@);
        let j = choose|j: int|
            0 <= j < items.len() && (#[trigger] items[j]).at("type"@) == JsonView::Text(
                "imageGeneration"@,
            ) && items[j].at("id"@) == JsonView::Text(found[k].item_id) && (found[k].status is Ready
                <==> items[j].at("status"@) == JsonView::Text("completed"@)) && (
            found[k].status is Failed <==> items[j].at("status"@) == JsonView::Text("failed"@)
                || items[j].at("status"@) == JsonView::Text("cancelled"@)) && (
            found[k].status is Ready ==> items[j].at("result"@) is Text && base64_bytes(
                items[j].at("result"@)->Text_0,
            ) == Some(found[k].status->Ready_0) && found[k].status->Ready_0.len()
                <= max_bytes as nat);
        assert(snapshot.items@[j]@ == items[j]);
    }
    if 0 <= k < i < found.len() {
        assert(found[i] == r->Ok_0@[i]@);
    }
}

/// A picture that is ready is recorded as ready with what was saved of it, and as unknown where
/// nothing was; a failed one is recorded as failed.
pub proof fn pictures_are_recorded_as_found(
    image: &GeneratedImage,
    saved: Option<StoredImage>,
    r: ImageRecord,
)
    requires
        call_ensures(DirectRunService::image_record, (image, saved), r),
    ensures
        r.item_id@ == image.item_id@,
        r.ordinal == image.ordinal,
        r.state is Ready <==> image.status is Ready && saved is Some,
        r.state is Ready ==> r.state->Ready_0 == saved->0,
        r.state is Failed <==> image.status is Failed,
{
}

/// The pictures of a turn are recorded for the request that ran it, and a list that was complete does
/// not change any more.
pub proof fn pictures_are_recorded_for_their_turn(
    thread: Option<&str>,
    turn: Option<&str>,
    send: SendState,
    identity: &TurnIdentity,
    images: &Vec<ImageRecord>,
    recorded: Option<i64>,
    r: Result<bool, &'static str>,
    unknown: Result<(), &'static str>,
    k: int,
)
    requires
        call_ensures(record_direct_images, (thread, turn, send, identity, images, recorded), r),
        call_ensures(mark_direct_image_unknown, (thread, turn, identity), unknown),
    ensures
        r is Ok ==> thread is Some && turn is Some && thread->0@ == identity.thread_id@
            && turn->0@ == identity.turn_id@,
        r is Ok ==> send == SendState::Acked || send == SendState::Unknown || send
            == SendState::Terminal,
        thread is Some && turn is Some && thread->0@ == identity.thread_id@ && turn->0@
            == identity.turn_id@ && (send == SendState::Acked || send == SendState::Unknown || send
            == SendState::Terminal) && recorded is None ==> r is Ok,
        r is Ok && recorded is Some ==> recorded->0 == images@.len() && r->Ok_0,
        r is Ok && r->Ok_0 && 0 <= k < images@.len() ==> !(images@[k].state is Unknown),
        r is Ok && 0 <= k < images@.len() && images@[k].state is Unknown ==> !r->Ok_0,
        unknown is Ok <==> thread is Some && turn is Some && thread->0@ == identity.thread_id@
            && turn->0@ == identity.turn_id@,
{
}

/// A picture that was recorded as ready or failed stays so, with the same content and in the same
/// place; only an unknown one is settled later.
pub proof fn recorded_pictures_stay(
    image: &ImageRecord,
    prior: Option<&StoredRow>,
    r: Result<RowChange, &'static str>,
)
    requires
        call_ensures(record_image, (image, prior), r),
    ensures
        r is Ok ==> 0 < image.item_id@.len() && utf8_len(image.item_id@) <= 256,
        r is Ok ==> (r->Ok_0 == RowChange::Insert <==> prior is None),
        r is Ok && prior is Some ==> prior->0.ordinal == image.ordinal,
        r is Ok && r->Ok_0 == RowChange::Settle ==> prior->0.state@ == "UNKNOWN"@ && !(image.state
            is Unknown),
        r is Ok && r->Ok_0 == RowChange::Keep && image.state is Ready ==> prior->0.state@
            == "READY"@ && opt_view(prior->0.path) == Some(image.state->Ready_0.relative_path@)
            && opt_view(prior->0.sha256) == Some(image.state->Ready_0.sha256@) && prior->0.bytes
            is Some && prior->0.bytes->0 == image.state->Ready_0.bytes,
        r is Ok && prior is Some && prior->0.state@ == "READY"@ ==> image.state is Ready,
        r is Ok && prior is Some && prior->0.state@ == "FAILED"@ ==> image.state is Failed,
{
    reveal_strlit("UNKNOWN");
    reveal_strlit("READY");
    reveal_strlit("FAILED");
    assert("UNKNOWN"@.len() == 7 && "READY"@.len() == 5 && "FAILED"@.len() == 6);
}

/// A complete list of pictures holds as many as are stored.
pub proof fn complete_lists_are_stored_whole(
    complete: bool,
    stored: i64,
    images: usize,
    r: Result<(), &'static str>,
)
    requires
        call_ensures(check_count, (complete, stored, images), r),
    ensures
        r is Ok <==> (complete ==> stored == images),
{
}

/// Pictures are delivered for a request that ended, into its own conversation, from its recorded
/// list.
pub proof fn pictures_go_to_their_conversation(
    request_thread: &str,
    thread: &str,
    state: RequestState,
    inventory: Option<&'static str>,
    r: Result<&'static str, &'static str>,
)
    requires
        call_ensures(check_images, (request_thread, thread, state, inventory), r),
    ensures
        r is Ok <==> request_thread@ == thread@ && (state == RequestState::Completed || state
            == RequestState::Failed || state == RequestState::Cancelled) && inventory is Some,
        r is Ok ==> r->Ok_0@ == inventory->0@,
{
}

proof fn outcomes_are_counted(outcomes: Seq<ImageOutcome>, n: nat)
    requires
        n <= outcomes.len(),
    ensures
        count_of(outcomes, ImageOutcome::Delivered, n) + count_of(outcomes, ImageOutcome::Pending, n)
            + count_of(outcomes, ImageOutcome::Failed, n) + count_of(
            outcomes,
            ImageOutcome::Unknown,
            n,
        ) == n,
        forall|k: int|
            0 <= k < n ==> count_of(outcomes, #[trigger] outcomes[k], n) > 0,
    decreases n,
{
    if n > 0 {
        outcomes_are_counted(outcomes, (n - 1) as nat);
    }
}

/// Every picture is counted once, as delivered, pending or failed; one whose outcome is unknown is
/// never counted as one of these, and makes the list unknown.
pub proof fn every_picture_is_counted(
    state: &str,
    outcomes: &Vec<ImageOutcome>,
    r: DirectImageDelivery,
    k: int,
)
    requires
        call_ensures(direct_images, (state, outcomes), r),
    ensures
        r.delivered + r.pending + r.failed <= outcomes@.len(),
        !r.inventory_unknown ==> r.delivered + r.pending + r.failed == outcomes@.len() && state@
            != "UNKNOWN"@,
        0 <= k < outcomes@.len() && outcomes@[k] == ImageOutcome::Delivered ==> r.delivered > 0,
        0 <= k < outcomes@.len() && outcomes@[k] == ImageOutcome::Pending ==> r.pending > 0,
        0 <= k < outcomes@.len() && outcomes@[k] == ImageOutcome::Failed ==> r.failed > 0,
        0 <= k < outcomes@.len() && outcomes@[k] == ImageOutcome::Unknown ==> r.inventory_unknown,
        state@ == "UNKNOWN"@ ==> r.inventory_unknown,
{
    outcomes_are_counted(outcomes@, outcomes@.len());
}

/// Bytes that begin as a PNG file does are taken as a picture.
pub proof fn png_files_are_pictures(bytes: &Vec<u8>, r: Result<(), &'static str>)
    requires
        call_ensures(validate_png, (bytes,), r),
        bytes@.len() >= 33,
        bytes@[0] == 0x89 && bytes@[1] == 0x50 && bytes@[2] == 0x4e && bytes@[3] == 0x47 && bytes@[4]
            == 0x0d && bytes@[5] == 0x0a && bytes@[6] == 0x1a && bytes@[7] == 0x0a,
        bytes@[8] == 0 && bytes@[9] == 0 && bytes@[10] == 0 && bytes@[11] == 0x0d,
        bytes@[12] == 0x49 && bytes@[13] == 0x48 && bytes@[14] == 0x44 && bytes@[15] == 0x52,
        bytes@[16] != 0 || bytes@[17] != 0 || bytes@[18] != 0 || bytes@[19] != 0,
        bytes@[20] != 0 || bytes@[21] != 0 || bytes@[22] != 0 || bytes@[23] != 0,
    ensures
        r is Ok,
{
    assert(bytes@.take(16) =~= seq![
        0x89u8,
        0x50u8,
        0x4eu8,
        0x47u8,
        0x0du8,
        0x0au8,
        0x1au8,
        0x0au8,
        0u8,
        0u8,
        0u8,
        0x0du8,
        0x49u8,
        0x48u8,
        0x44u8,
        0x52u8,
    ]);
}

/// A picture is one whose bytes begin as a PNG file does, with a width and a height.
pub proof fn pictures_begin_as_png(bytes: &Vec<u8>, r: Result<(), &'static str>)
    requires
        call_ensures(validate_png, (bytes,), r),
        r is Ok,
    ensures
        bytes@.len() >= 33,
        bytes@[0] == 0x89 && bytes@[1] == 0x50 && bytes@[2] == 0x4e && bytes@[3] == 0x47 && bytes@[4]
            == 0x0d && bytes@[5] == 0x0a && bytes@[6] == 0x1a && bytes@[7] == 0x0a,
        bytes@[12] == 0x49 && bytes@[13] == 0x48 && bytes@[14] == 0x44 && bytes@[15] == 0x52,
        bytes@[16] != 0 || bytes@[17] != 0 || bytes@[18] != 0 || bytes@[19] != 0,
        bytes@[20] != 0 || bytes@[21] != 0 || bytes@[22] != 0 || bytes@[23] != 0,
{
    let t = bytes@.take(16);
    assert(t[0] == bytes@[0] && t[1] == bytes@[1] && t[2] == bytes@[2] && t[3] == bytes@[3] && t[4]
        == bytes@[4] && t[5] == bytes@[5] && t[6] == bytes@[6] && t[7] == bytes@[7] && t[12]
        == bytes@[12] && t[13] == bytes@[13] && t[14] == bytes@[14] && t[15] == bytes@[15]);
}

} // verus!
