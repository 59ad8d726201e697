//! The stored inventory of the images of a turn.
use crate::codex_execution::TurnIdentity;
use crate::direct_content::StoredImage;
use crate::direct_store::SendState;
use crate::text::{borrowed, byte_len, opt_str, opt_view, same, some_same, utf8_len};
use vstd::prelude::*;

verus! {

#[derive(Debug, PartialEq, Eq)]
pub enum ImageRecordState {
    Ready(StoredImage),
    Failed,
    Unknown,
}

#[derive(Debug, PartialEq, Eq)]
pub struct ImageRecord {
    pub item_id: String,
    pub ordinal: usize,
    pub state: ImageRecordState,
}

/// Whether the number of requests to recover at once is sensible.
pub fn direct_images_to_deliver(limit: usize) -> (r: Result<(), &'static str>)
    ensures
        r is Ok <==> 1 <= limit <= 100,
        r is Err ==> r->Err_0@ == "invalid image recovery page size"@,
{
    if 1 <= limit && limit <= 100 {
        Ok(())
    } else {
        Err("invalid image recovery page size")
    }
}

/// Whether an inventory belongs to the turn of a request.
pub open spec fn belongs(
    thread: Option<Seq<char>>,
    turn: Option<Seq<char>>,
    identity: TurnIdentity,
) -> bool {
    thread == Some(identity.thread_id@) && turn == Some(identity.turn_id@)
}

/// Whether the inventory of a turn may be recorded as unknown.
pub fn mark_direct_image_unknown(thread: Option<&str>, turn: Option<&str>, identity: &TurnIdentity) -> (r:
    Result<(), &'static str>)
    ensures
        r is Ok <==> belongs(opt_str(thread), opt_str(turn), *identity),
        r is Err ==> r->Err_0@ == "image inventory belongs to another Turn"@,
{
    if some_same(thread, identity.thread_id.as_str()) && some_same(turn, identity.turn_id.as_str()) {
        Ok(())
    } else {
        Err("image inventory belongs to another Turn")
    }
}

/// Whether the state of every image is known.
pub open spec fn all_known(images: Seq<ImageRecord>) -> bool {
    forall|i: int| 0 <= i < images.len() ==> !((#[trigger] images[i]).state is Unknown)
}

/// What forbids recording an inventory. `recorded` is the number of images of an inventory that was
/// complete before.
pub open spec fn inventory_change_objection(
    thread: Option<Seq<char>>,
    turn: Option<Seq<char>>,
    send: SendState,
    identity: TurnIdentity,
    images: Seq<ImageRecord>,
    recorded: Option<i64>,
) -> Option<Seq<char>> {
    if !belongs(thread, turn, identity) || (send != SendState::Acked && send != SendState::Unknown
        && send != SendState::Terminal) {
        Some("image inventory belongs to another Turn"@)
    } else if recorded is Some && !(all_known(images) && recorded->0 == images.len()) {
        Some("completed image inventory changed"@)
    } else {
        None
    }
}

fn every_known(images: &Vec<ImageRecord>) -> (r: bool)
    ensures
        r == all_known(images@),
{
    let mut i: usize = 0;
    while i < images.len()
        invariant
            i <= images@.len(),
            forall|j: int| 0 <= j < i ==> !((#[trigger] images@[j]).state is Unknown),
        decreases images@.len() - i,
    {
        match &images[i].state {
            ImageRecordState::Unknown => {
                assert(images@[i as int].state is Unknown);
                return false;
            },
            _ => {},
        }
        i += 1;
    }
    true
}

/// Whether an inventory may be recorded, and whether it is complete. A complete inventory does not
/// change.
pub fn record_direct_images(
    thread: Option<&str>,
    turn: Option<&str>,
    send: SendState,
    identity: &TurnIdentity,
    images: &Vec<ImageRecord>,
    recorded: Option<i64>,
) -> (r: Result<bool, &'static str>)
    ensures
        match inventory_change_objection(
            opt_str(thread),
            opt_str(turn),
            send,
            *identity,
            images@,
            recorded,
        ) {
            Some(e) => r is Err && r->Err_0@ == e,
            None => r == Ok::<bool, &'static str>(all_known(images@)),
        },
{
    if !some_same(thread, identity.thread_id.as_str()) || !some_same(
        turn,
        identity.turn_id.as_str(),
    ) || (send != SendState::Acked && send != SendState::Unknown && send != SendState::Terminal) {
        return Err("image inventory belongs to another Turn");
    }
    let complete = every_known(images);
    if let Some(n) = recorded {
        if !(complete && n >= 0 && n as u64 == images.len() as u64) {
            return Err("completed image inventory changed");
        }
    }
    Ok(complete)
}

/// What is stored of an image.
#[derive(Debug)]
pub struct StoredRow {
    pub ordinal: i64,
    pub state: String,
    pub path: Option<String>,
    pub sha256: Option<String>,
    pub bytes: Option<i64>,
}

/// How an image changes what is stored.
#[derive(Clone, Copy, Debug, PartialEq, Eq, Structural)]
pub enum RowChange {
    Insert,
    /// What was unknown is known now.
    Settle,
    Keep,
}

/// The stored name of the state of an image.
pub open spec fn state_name(s: ImageRecordState) -> Seq<char> {
    match s {
        ImageRecordState::Ready(_) => "READY"@,
        ImageRecordState::Failed => "FAILED"@,
        ImageRecordState::Unknown => "UNKNOWN"@,
    }
}

pub fn state_text(s: &ImageRecordState) -> (r: &'static str)
    ensures
        r@ == state_name(*s),
{
    match s {
        ImageRecordState::Ready(_) => "READY",
        ImageRecordState::Failed => "FAILED",
        ImageRecordState::Unknown => "UNKNOWN",
    }
}

/// Whether a stored image is the same.
pub open spec fn same_image(row: StoredRow, s: ImageRecordState) -> bool {
    &&& row.state@ == state_name(s)
    &&& opt_view(row.path) == match s {
        ImageRecordState::Ready(i) => Some(i.relative_path@),
        _ => None,
    }
    &&& opt_view(row.sha256) == match s {
        ImageRecordState::Ready(i) => Some(i.sha256@),
        _ => None,
    }
    &&& match s {
        ImageRecordState::Ready(i) => row.bytes is Some && row.bytes->0 == i.bytes,
        _ => row.bytes is None,
    }
}

/// What forbids an image of an inventory: its identity, place and content do not change once known.
pub open spec fn image_objection(image: ImageRecord, prior: Option<StoredRow>) -> Option<Seq<char>> {
    if image.item_id@.len() == 0 || utf8_len(image.item_id@) > 256 {
        Some("invalid image item identity"@)
    } else if prior is Some && prior->0.ordinal != image.ordinal {
        Some("image order changed"@)
    } else if prior is Some && !(prior->0.state@ == "UNKNOWN"@ && state_name(image.state)
        != "UNKNOWN"@) && !same_image(prior->0, image.state) {
        Some("saved image identity changed"@)
    } else {
        None
    }
}

fn is_same_image(row: &StoredRow, s: &ImageRecordState) -> (r: bool)
    ensures
        r == same_image(*row, *s),
{
    if !same(row.state.as_str(), state_text(s)) {
        return false;
    }
    match s {
        ImageRecordState::Ready(i) => {
            let size = match row.bytes {
                Some(n) => n >= 0 && n as u64 == i.bytes as u64,
                None => false,
            };
            size && some_same(borrowed(&row.path), i.relative_path.as_str()) && some_same(
                borrowed(&row.sha256),
                i.sha256.as_str(),
            )
        },
        _ => row.path.is_none() && row.sha256.is_none() && row.bytes.is_none(),
    }
}

/// How an image of an inventory changes what is stored.
pub fn record_image(image: &ImageRecord, prior: Option<&StoredRow>) -> (r: Result<
    RowChange,
    &'static str,
>)
    ensures
        match image_objection(
            *image,
            match prior {
                Some(p) => Some(*p),
                None => None,
            },
        ) {
            Some(e) => r is Err && r->Err_0@ == e,
            None => r == Ok::<RowChange, &'static str>(
                match prior {
                    None => RowChange::Insert,
                    Some(p) => if p.state@ == "UNKNOWN"@ && state_name(image.state) != "UNKNOWN"@ {
                        RowChange::Settle
                    } else {
                        RowChange::Keep
                    },
                },
            ),
        },
{
    if image.item_id.as_str().is_empty() || byte_len(image.item_id.as_str()) > 256 {
        return Err("invalid image item identity");
    }
    match prior {
        None => Ok(RowChange::Insert),
        Some(p) => {
            if p.ordinal < 0 || p.ordinal as u64 != image.ordinal as u64 {
                return Err("image order changed");
            }
            if same(p.state.as_str(), "UNKNOWN") && !same(state_text(&image.state), "UNKNOWN") {
                return Ok(RowChange::Settle);
            }
            if is_same_image(p, &image.state) {
                Ok(RowChange::Keep)
            } else {
                Err("saved image identity changed")
            }
        },
    }
}

/// A complete inventory must hold exactly its images.
pub fn check_count(complete: bool, stored: i64, images: usize) -> (r: Result<(), &'static str>)
    ensures
        r is Ok <==> !complete || stored == images,
        r is Err ==> r->Err_0@ == "image inventory item count changed"@,
{
    if !complete || (stored >= 0 && stored as u64 == images as u64) {
        Ok(())
    } else {
        Err("image inventory item count changed")
    }
}

/// A ready image is never replaced by another: what was saved stays what it is.
pub proof fn ready_images_do_not_change(image: ImageRecord, prior: StoredRow)
    requires
        prior.state@ == "READY"@,
        image_objection(image, Some(prior)) is None,
    ensures
        same_image(prior, image.state),
        image.state is Ready,
        prior.ordinal == image.ordinal,
{
    reveal_strlit("READY");
    reveal_strlit("UNKNOWN");
    reveal_strlit("FAILED");
    assert("READY"@.len() == 5 && "UNKNOWN"@.len() == 7 && "FAILED"@.len() == 6);
}

} // verus!
