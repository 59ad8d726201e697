//! Images that a turn generated: what the turn itself lists, never what its text mentions.
use crate::codec::{base64_bytes, base64_decode};
use crate::codex_execution::{listed, TurnSnapshot};
use crate::direct_approval::short_text;
use crate::json::{trees, Json, JsonView};
use crate::text::{byte_len, some_same, utf8_len, views};
use vstd::prelude::*;

verus! {

#[derive(Debug, PartialEq, Eq)]
pub enum GeneratedImageStatus {
    Ready(Vec<u8>),
    Failed,
    Unknown,
}

#[derive(Debug, PartialEq, Eq)]
pub struct GeneratedImage {
    pub item_id: String,
    pub ordinal: usize,
    pub status: GeneratedImageStatus,
}

/// The mathematical form of a `GeneratedImageStatus`.
pub enum ImageStatusView {
    Ready(Seq<u8>),
    Failed,
    Unknown,
}

/// The mathematical form of a `GeneratedImage`.
pub struct ImageView {
    pub item_id: Seq<char>,
    pub ordinal: int,
    pub status: ImageStatusView,
}

impl View for GeneratedImage {
    type V = ImageView;

    open spec fn view(&self) -> ImageView {
        ImageView {
            item_id: self.item_id@,
            ordinal: self.ordinal as int,
            status: match self.status {
                GeneratedImageStatus::Ready(v) => ImageStatusView::Ready(v@),
                GeneratedImageStatus::Failed => ImageStatusView::Failed,
                GeneratedImageStatus::Unknown => ImageStatusView::Unknown,
            },
        }
    }
}

pub open spec fn image_views(v: Seq<GeneratedImage>) -> Seq<ImageView> {
    v.map_values(|i: GeneratedImage| i@)
}

/// Whether bytes begin as a PNG file with a width and a height.
pub open spec fn png_header(b: Seq<u8>) -> bool {
    &&& b.len() >= 33
    &&& b.take(16) == seq![
        0x89u8,
        0x50u8,
        0x4eu8,
        0x47u8,
        0x0du8,
        0x0au8,
        0x1au8,
        0x0au8,
        0u8,
        0u8,
        0u8,
        0x0du8,
        0x49u8,
        0x48u8,
        0x44u8,
        0x52u8,
    ]
    &&& !(b[16] == 0 && b[17] == 0 && b[18] == 0 && b[19] == 0)
    &&& !(b[20] == 0 && b[21] == 0 && b[22] == 0 && b[23] == 0)
}

pub fn validate_png(bytes: &Vec<u8>) -> (r: Result<(), &'static str>)
    ensures
        r is Ok <==> png_header(bytes@),
        r is Err ==> r->Err_0@ == "generated image is not a valid PNG header"@,
{
    let b = bytes;
    if b.len() < 33 {
        return Err("generated image is not a valid PNG header");
    }
    let ghost magic = seq![
        0x89u8,
        0x50u8,
        0x4eu8,
        0x47u8,
        0x0du8,
        0x0au8,
        0x1au8,
        0x0au8,
        0u8,
        0u8,
        0u8,
        0x0du8,
        0x49u8,
        0x48u8,
        0x44u8,
        0x52u8,
    ];
    let begins = b[0] == 0x89 && b[1] == 0x50 && b[2] == 0x4e && b[3] == 0x47 && b[4] == 0x0d
        && b[5] == 0x0a && b[6] == 0x1a && b[7] == 0x0a && b[8] == 0 && b[9] == 0 && b[10] == 0
        && b[11] == 0x0d && b[12] == 0x49 && b[13] == 0x48 && b[14] == 0x44 && b[15] == 0x52;
    proof {
        let head = bytes@.take(16);
        if begins {
            assert(head =~= magic);
        }
        if head == magic {
            assert(head[0] == magic[0] && head[1] == magic[1] && head[2] == magic[2] && head[3]
                == magic[3]);
            assert(head[4] == magic[4] && head[5] == magic[5] && head[6] == magic[6] && head[7]
                == magic[7]);
            assert(head[8] == magic[8] && head[9] == magic[9] && head[10] == magic[10] && head[11]
                == magic[11]);
            assert(head[12] == magic[12] && head[13] == magic[13] && head[14] == magic[14]
                && head[15] == magic[15]);
        }
        assert(begins == (head == magic));
    }
    if begins && !(b[16] == 0 && b[17] == 0 && b[18] == 0 && b[19] == 0) && !(b[20] == 0 && b[21] == 0
        && b[22] == 0 && b[23] == 0) {
        Ok(())
    } else {
        Err("generated image is not a valid PNG header")
    }
}

/// Whether an item of a turn is a generated image.
pub open spec fn image_item(j: JsonView) -> bool {
    j.at("type"@).says("imageGeneration"@)
}

/// Most bytes of base64 text for so many bytes.
pub open spec fn encoded_limit(max: nat) -> nat {
    let n = ((max + 2) / 3) * 4;
    if n > usize::MAX {
        usize::MAX as nat
    } else {
        n
    }
}

/// The status of a generated image.
pub open spec fn status_of(j: JsonView, max: nat) -> Result<ImageStatusView, Seq<char>> {
    let status = j.at("status"@).text();
    let encoded = j.at("result"@).text();
    if status == Some("completed"@) {
        if encoded is None {
            Err("generated image content missing"@)
        } else if utf8_len(encoded->0) > encoded_limit(max) {
            Err("generated image is too large"@)
        } else if base64_bytes(encoded->0) is None {
            Err("generated image is not base64"@)
        } else if base64_bytes(encoded->0)->0.len() > max {
            Err("generated image is too large"@)
        } else if !png_header(base64_bytes(encoded->0)->0) {
            Err("generated image is not a valid PNG header"@)
        } else {
            Ok(ImageStatusView::Ready(base64_bytes(encoded->0)->0))
        }
    } else if status == Some("failed"@) || status == Some("cancelled"@) {
        Ok(ImageStatusView::Failed)
    } else {
        Ok(ImageStatusView::Unknown)
    }
}

/// The images among the first `n` items of a turn, or what is wrong with the first faulty one.
pub open spec fn inventory_of(items: Seq<JsonView>, max_count: nat, max_bytes: nat, n: nat) -> Result<
    Seq<ImageView>,
    Seq<char>,
>
    decreases n,
{
    if n == 0 || n > items.len() {
        Ok(Seq::empty())
    } else {
        match inventory_of(items, max_count, max_bytes, (n - 1) as nat) {
            Err(e) => Err(e),
            Ok(found) => {
                let item = items[n - 1];
                let id = item.at("id"@).text();
                if !image_item(item) {
                    Ok(found)
                } else if found.len() >= max_count {
                    Err("generated image count limit exceeded"@)
                } else if id is None {
                    Err("generated image ID missing"@)
                } else if !short_text(item.at("id"@), 256) || exists|k: int|
                    0 <= k < found.len() && (#[trigger] found[k]).item_id == id->0 {
                    Err("generated image identity invalid"@)
                } else {
                    match status_of(item, max_bytes) {
                        Err(e) => Err(e),
                        Ok(status) => Ok(
                            found.push(
                                ImageView { item_id: id->0, ordinal: found.len() as int, status },
                            ),
                        ),
                    }
                }
            },
        }
    }
}

fn read_status(item: &Json, max_bytes: usize) -> (r: Result<GeneratedImageStatus, &'static str>)
    ensures
        match status_of(item@, max_bytes as nat) {
            Err(e) => r is Err && r->Err_0@ == e,
            Ok(ImageStatusView::Ready(b)) => r is Ok && r->Ok_0 is Ready && r->Ok_0->Ready_0@ == b,
            Ok(ImageStatusView::Failed) => r is Ok && r->Ok_0 is Failed,
            Ok(ImageStatusView::Unknown) => r is Ok && r->Ok_0 is Unknown,
        },
{
    let status = item.at("status").as_str();
    if some_same(status, "completed") {
        let encoded = match item.at("result").as_str() {
            Some(s) => s,
            None => return Err("generated image content missing"),
        };
        let groups: u128 = (max_bytes as u128 + 2) / 3;
        if byte_len(encoded) as u128 > groups * 4 {
            return Err("generated image is too large");
        }
        let bytes = match base64_decode(encoded) {
            Some(b) => b,
            None => return Err("generated image is not base64"),
        };
        if bytes.len() > max_bytes {
            return Err("generated image is too large");
        }
        match validate_png(&bytes) {
            Ok(()) => Ok(GeneratedImageStatus::Ready(bytes)),
            Err(e) => Err(e),
        }
    } else if some_same(status, "failed") || some_same(status, "cancelled") {
        Ok(GeneratedImageStatus::Failed)
    } else {
        Ok(GeneratedImageStatus::Unknown)
    }
}

/// What is wrong with asking for the images of a turn.
pub open spec fn inventory_objection(full: bool, max_count: nat, max_bytes: nat) -> Option<Seq<char>> {
    if !full {
        Some("Codex image inventory is incomplete"@)
    } else if max_count == 0 || max_bytes == 0 {
        Some("generated image limits are invalid"@)
    } else {
        None
    }
}

/// The images that a turn generated, in its order.
pub fn inventory(snapshot: &TurnSnapshot, max_count: usize, max_bytes: usize) -> (r: Result<
    Vec<GeneratedImage>,
    &'static str,
>)
    ensures
        match inventory_objection(snapshot.items_view_full, max_count as nat, max_bytes as nat) {
            Some(e) => r is Err && r->Err_0@ == e,
            None => match inventory_of(
                trees(snapshot.items@),
                max_count as nat,
                max_bytes as nat,
                snapshot.items@.len(),
            ) {
                Err(e) => r is Err && r->Err_0@ == e,
                Ok(found) => r is Ok && image_views(r->Ok_0@) == found,
            },
        },
{
    if !snapshot.items_view_full {
        return Err("Codex image inventory is incomplete");
    }
    if max_count == 0 || max_bytes == 0 {
        return Err("generated image limits are invalid");
    }
    let ghost items = trees(snapshot.items@);
    let mut out: Vec<GeneratedImage> = Vec::new();
    let mut ids: Vec<String> = Vec::new();
    let mut i: usize = 0;
    assert(image_views(out@) =~= Seq::<ImageView>::empty());
    while i < snapshot.items.len()
        invariant
            i <= snapshot.items@.len(),
            items == trees(snapshot.items@),
            items.len() == snapshot.items@.len(),
            inventory_objection(snapshot.items_view_full, max_count as nat, max_bytes as nat) is None,
            inventory_of(items, max_count as nat, max_bytes as nat, i as nat) == Ok::<
                Seq<ImageView>,
                Seq<char>,
            >(image_views(out@)),
            ids@.len() == out@.len(),
            forall|k: int| 0 <= k < out@.len() ==> views(ids@)[k] == (#[trigger] image_views(out@)[k]).item_id,
        decreases snapshot.items@.len() - i,
    {
        let item = &snapshot.items[i];
        assert(items[i as int] == item@);
        let ghost found = image_views(out@);
        if item.at("type").is_text("imageGeneration") {
            if out.len() >= max_count {
                proof {
                    lemma_inventory_error(items, max_count as nat, max_bytes as nat, (i + 1) as nat);
                }
                return Err("generated image count limit exceeded");
            }
            let id = match item.at("id").as_str() {
                Some(s) => s,
                None => {
                    proof {
                        lemma_inventory_error(
                            items,
                            max_count as nat,
                            max_bytes as nat,
                            (i + 1) as nat,
                        );
                    }
                    return Err("generated image ID missing");
                },
            };
            let again = listed(&ids, id);
            proof {
                let dup = exists|k: int| 0 <= k < found.len() && (#[trigger] found[k]).item_id == id@;
                if again {
                    let k = choose|k: int| 0 <= k < views(ids@).len() && views(ids@)[k] == id@;
                    assert(found[k].item_id == id@);
                }
                if dup {
                    let k = choose|k: int| 0 <= k < found.len() && (#[trigger] found[k]).item_id == id@;
                    assert(views(ids@)[k] == id@);
                }
                assert(again == dup);
            }
            if id.is_empty() || byte_len(id) > 256 || again {
                proof {
                    lemma_inventory_error(items, max_count as nat, max_bytes as nat, (i + 1) as nat);
                }
                return Err("generated image identity invalid");
            }
            let status = match read_status(item, max_bytes) {
                Ok(s) => s,
                Err(e) => {
                    proof {
                        lemma_inventory_error(
                            items,
                            max_count as nat,
                            max_bytes as nat,
                            (i + 1) as nat,
                        );
                    }
                    return Err(e);
                },
            };
            let ordinal: usize = out.len();
            let image = GeneratedImage { item_id: id.to_owned(), ordinal, status };
            let ghost seen = views(ids@);
            let ghost shown = image@;
            out.push(image);
            ids.push(id.to_owned());
            assert(image_views(out@) =~= found.push(shown));
            assert(views(ids@) =~= seen.push(id@));
        }
        i += 1;
    }
    Ok(out)
}

proof fn lemma_inventory_error(items: Seq<JsonView>, max_count: nat, max_bytes: nat, n: nat)
    requires
        n <= items.len(),
        inventory_of(items, max_count, max_bytes, n) is Err,
    ensures
        inventory_of(items, max_count, max_bytes, items.len()) == inventory_of(
            items,
            max_count,
            max_bytes,
            n,
        ),
    decreases items.len() - n,
{
    if n < items.len() {
        lemma_inventory_error(items, max_count, max_bytes, n + 1);
    }
}

/// Whether a turn generated images.
pub fn has_images(items: &Vec<Json>) -> (r: bool)
    ensures
        r == exists|i: int| 0 <= i < items@.len() && image_item(#[trigger] items@[i]@),
{
    let mut i: usize = 0;
    while i < items.len()
        invariant
            i <= items@.len(),
            forall|j: int| 0 <= j < i ==> !image_item(#[trigger] items@[j]@),
        decreases items@.len() - i,
    {
        if items[i].at("type").is_text("imageGeneration") {
            assert(image_item(items@[i as int]@));
            return true;
        }
        i += 1;
    }
    false
}

} // verus!
