//! What the program prints and checks at its start.
use crate::admin::names_instance;
use crate::codec::{parsed_bytes, read_bytes};
use crate::json::{object3, text, Json, JsonView};
use crate::numbers::{signed_decimal, signed_text};
use crate::text::{first_chars, lemma_pieces_nonempty, pieces, split, take_chars, views};
use vstd::prelude::*;
use vstd::string::*;

verus! {

/// The category of an error: what stands before its first colon, and no more than 120 characters of
/// it. The rest may hold a secret.
pub open spec fn category(error: Seq<char>) -> Seq<char> {
    first_chars(pieces(error, ':')[0], 120)
}

/// The category of an error.
pub fn error_category(error: &str) -> (r: String)
    ensures
        r@ == category(error@),
{
    let parts = split(error, ':');
    proof {
        lemma_pieces_nonempty(error@, ':');
        assert(views(parts@).len() == parts@.len());
        assert(views(parts@)[0] == parts@[0]@);
    }
    take_chars(parts[0].as_str(), 120)
}

/// What is told of a conversation that an uncertain request holds.
pub fn hold_line(request: &str, thread: &str, generation: i64, queued: i64) -> (r: String)
    ensures
        r@ == "request_id="@ + request@ + " conversation="@ + thread@ + " generation="@
            + signed_decimal(generation as int) + " waiting="@ + signed_decimal(queued as int),
{
    let g = signed_text(generation);
    let q = signed_text(queued);
    String::from_str("request_id=").concat(request).concat(" conversation=").concat(thread).concat(
        " generation=",
    ).concat(g.as_str()).concat(" waiting=").concat(q.as_str())
}

/// What the marker of a recovery that the operator asked for says.
pub fn recovery_marker(restore_id: &str, instance: &str, state_dir: &str) -> (r: Json)
    ensures
        r@ == JsonView::Object(
            seq![
                ("instance_uuid"@, JsonView::Text(instance@)),
                ("restore_id"@, JsonView::Text(restore_id@)),
                ("state_dir"@, JsonView::Text(state_dir@)),
            ],
        ),
{
    object3(
        "instance_uuid",
        text(instance),
        "restore_id",
        text(restore_id),
        "state_dir",
        text(state_dir),
    )
}

/// The restore that the bytes of a marker file name, where it is one of this instance.
pub fn pending_restore(file: &[u8], instance: &str, state_dir: &str) -> (r: Result<String, String>)
    ensures
        match parsed_bytes(file@) {
            Err(e) => r is Err && r->Err_0@ == e,
            Ok(v) => if !names_instance(v, instance@, state_dir@) {
                r is Err && r->Err_0@ == "復元マーカーが一致しません"@
            } else {
                match v.at("restore_id"@).text() {
                    Some(id) => r is Ok && r->Ok_0@ == id,
                    None => r is Err && r->Err_0@ == "復元IDがありません"@,
                }
            },
        },
{
    match read_bytes(file) {
        Err(e) => Err(e),
        Ok(marker) => match judge_marker(&marker, instance, state_dir) {
            Ok(id) => Ok(id),
            Err(e) => Err(String::from_str(e)),
        },
    }
}

/// The restore that a marker names, where it is one of this instance.
pub fn judge_marker(marker: &Json, instance: &str, state_dir: &str) -> (r: Result<
    String,
    &'static str,
>)
    ensures
        !names_instance(marker@, instance@, state_dir@) ==> r is Err && r->Err_0@
            == "復元マーカーが一致しません"@,
        names_instance(marker@, instance@, state_dir@) ==> match marker@.at("restore_id"@).text() {
            Some(id) => r is Ok && r->Ok_0@ == id,
            None => r is Err && r->Err_0@ == "復元IDがありません"@,
        },
{
    if !(marker.at("instance_uuid").is_text(instance) && marker.at("state_dir").is_text(state_dir)) {
        return Err("復元マーカーが一致しません");
    }
    match marker.at("restore_id").as_str() {
        Some(id) => Ok(id.to_owned()),
        None => Err("復元IDがありません"),
    }
}

} // verus!
