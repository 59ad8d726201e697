//! What of a message reaches Codex, and what is kept of an answer.
use crate::codec::{base64_text, picture_format, picture_size, Picture};
use crate::config::Limits;
use crate::direct_commands::models_reply;
use crate::direct_content::{DirectContent, StoredAnswer};
use crate::direct_models::{model_views, DirectModel};
use crate::files::{
    append_attachment_content, attachment_parts, is_inline_text, Attachment, InputMessage,
    Preparation, PreparedInput,
};
use crate::json::{lookup, trees, Json, JsonView};
use crate::paths::components;
use crate::text::{holds, views};
use vstd::prelude::*;
use vstd::utf8::{decode_utf8, valid_utf8};

verus! {

proof fn the_middle_is_held(a: Seq<char>, b: Seq<char>, c: Seq<char>)
    ensures
        holds(a + b + c, b),
{
    assert((a + b + c).subrange(a.len() as int, a.len() as int + b.len()) =~= b);
}

/// A picture reaches Codex as a picture with its own bytes, a text as its own text, and any other file
/// by the path under which it is saved; what came before in the input stays.
pub proof fn attachments_reach_codex_as_they_are(
    content: &mut Vec<Json>,
    message: &str,
    a: &Attachment,
    bytes: &[u8],
    limits: &Limits,
    r: Result<(&'static str, Option<String>), String>,
)
    requires
        call_ensures(append_attachment_content, (content, message, a, bytes, limits), r),
        r is Ok,
    ensures
        ({
            let before = trees(old(content)@);
            let after = trees(final(content)@);
            let item = after.last();
            let kind = (r->Ok_0).0@;
            &&& after.len() == before.len() + 1
            &&& after.drop_last() == before
            &&& kind == "image"@ <==> picture_format(bytes@) is Ok
            &&& kind == "image"@ ==> item.at("type"@) == JsonView::Text("input_image"@) && item.at(
                "detail"@,
            ) == JsonView::Text("high"@) && item.at("image_url"@) is Text && picture_size(
                bytes@,
                picture_format(bytes@)->Ok_0,
            ) is Ok && (picture_size(bytes@, picture_format(bytes@)->Ok_0)->Ok_0).0 * (
            picture_size(bytes@, picture_format(bytes@)->Ok_0)->Ok_0).1 <= limits.image_pixels
            &&& kind == "image"@ && picture_format(bytes@)->Ok_0 == Picture::Png ==> item.at(
                "image_url"@,
            )->Text_0 == "data:"@ + "image/png"@ + ";base64,"@ + base64_text(bytes@)
            &&& kind == "image"@ && picture_format(bytes@)->Ok_0 == Picture::Jpeg ==> item.at(
                "image_url"@,
            )->Text_0 == "data:"@ + "image/jpeg"@ + ";base64,"@ + base64_text(bytes@)
            &&& kind == "text"@ || kind == "file"@ ==> item.at("type"@) == JsonView::Text(
                "input_text"@,
            ) && item.at("text"@) is Text
            &&& kind == "text"@ ==> holds(item.at("text"@)->Text_0, decode_utf8(bytes@))
                && valid_utf8(bytes@) && bytes@.len() <= limits.text_bytes
            &&& kind == "file"@ <==> (r->Ok_0).1 is Some
            &&& kind == "image"@ || kind == "text"@ || kind == "file"@
        }),
{
    reveal_strlit("image");
    reveal_strlit("text");
    reveal_strlit("file");
    assert("image"@.len() == 5 && "text"@.len() == 4 && "file"@.len() == 4);
    assert("text"@[0] != "file"@[0]);
    reveal_strlit("detail");
    reveal_strlit("image_url");
    reveal_strlit("type");
    reveal_strlit("text");
    assert("detail"@.len() == 6 && "image_url"@.len() == 9 && "type"@.len() == 4 && "text"@.len() == 4);
    assert("type"@[1] != "text"@[1]);
    reveal_with_fuel(lookup, 4);
    let before = trees(old(content)@);
    let after = trees(final(content)@);
    assert(after.drop_last() =~= before);
    let m = after.last()->Object_0;
    assert(m[0].0 == "detail"@ || m[0].0 == "text"@);
    assert(m[1].0 == "image_url"@ || m[1].0 == "type"@);
    if (r->Ok_0).0@ == "image"@ {
        assert(m[2].0 == "type"@);
    }
    if (r->Ok_0).0@ == "text"@ {
        the_middle_is_held(
            "\n--- 添付 "@ + crate::codec::debug_text(a.filename@) + " ---\n"@,
            decode_utf8(bytes@),
            "\n--- 添付終了 ---"@,
        );
    }
}

/// A file is read into the input only where it is text within the limit.
pub proof fn only_text_is_read_in(a: &Attachment, bytes: &[u8], limit: usize, r: bool)
    requires
        call_ensures(is_inline_text, (a, bytes, limit), r),
    ensures
        r ==> bytes@.len() <= limit && valid_utf8(bytes@) && !bytes@.contains(0u8),
{
}

/// The input that is sent holds all that was prepared, as one message of the user, and is bound to the
/// message that it was made of.
pub proof fn all_that_was_prepared_is_sent(
    p: Preparation,
    m: &InputMessage,
    limits: &Limits,
    r: Result<PreparedInput, &'static str>,
    digest: String,
)
    requires
        call_ensures(Preparation::finish, (p, m, limits), r),
        call_ensures(InputMessage::metadata_digest, (m,), digest),
        r is Ok,
    ensures
        r->Ok_0.input@ is Array,
        r->Ok_0.input@->Array_0.len() == 1,
        r->Ok_0.input@.item(0).at("role"@) == JsonView::Text("user"@),
        r->Ok_0.input@.item(0).at("content"@) == JsonView::Array(trees(p.content@)),
        r->Ok_0.metadata_digest@ == digest@,
        r->Ok_0.attachments@ == p.records@,
        r->Ok_0.workspace_files@ == p.files@,
{
    reveal_strlit("content");
    reveal_strlit("role");
    assert("content"@.len() == 7 && "role"@.len() == 4);
    reveal_with_fuel(lookup, 3);
    let o = r->Ok_0.input@->Array_0[0]->Object_0;
    assert(o[0].0 == "content"@ && o[1].0 == "role"@);
}

/// A saved attachment lies three steps deep, without any step up.
pub proof fn saved_attachments_lie_below(
    relative: &str,
    r: Result<Vec<String>, &'static str>,
    k: int,
)
    requires
        call_ensures(attachment_parts, (relative,), r),
        r is Ok,
    ensures
        r->Ok_0@.len() == 3,
        0 <= k < 3 ==> r->Ok_0@[k]@ != ".."@ && r->Ok_0@[k]@ != "."@ && r->Ok_0@[k]@ != "/"@,
{
    assert(views(r->Ok_0@).len() == r->Ok_0@.len());
    if 0 <= k < 3 {
        assert(views(r->Ok_0@)[k] == r->Ok_0@[k]@);
    }
}

/// Answers are kept in their own folder, and read from nowhere else.
pub proof fn answers_are_kept_in_their_folder(
    state_dir: &str,
    canonical: &str,
    r: Result<DirectContent, &'static str>,
    saved: &StoredAnswer,
    name: Result<String, &'static str>,
)
    requires
        call_ensures(DirectContent::new, (state_dir, canonical), r),
        call_ensures(DirectContent::answer_name, (saved,), name),
    ensures
        r is Ok ==> components(canonical@) == components(r->Ok_0.root@),
        r is Ok && state_dir@.len() > 0 && state_dir@.last() != '/' ==> r->Ok_0.root@ == state_dir@
            + "/direct-answers"@,
        name is Ok ==> components(saved.relative_path@).len() == 2 && components(
            saved.relative_path@,
        )[0] == "direct-answers"@ && name->Ok_0@ == components(saved.relative_path@)[1]
            && name->Ok_0@ != ".."@,
{
    reveal_strlit("/");
    reveal_strlit("direct-answers");
    reveal_strlit("/direct-answers");
    if r is Ok && state_dir@.len() > 0 && state_dir@.last() != '/' {
        assert(r->Ok_0.root@ =~= state_dir@ + "/direct-answers"@);
    }
}

/// The list of models shows eight to a page, each page from where the one before ends.
pub proof fn pages_of_the_list_follow_each_other(
    models: &Vec<DirectModel>,
    page: u64,
    r: Result<String, &'static str>,
)
    requires
        call_ensures(models_reply, (models, page), r),
    ensures
        page >= 1 && (page - 1) * 8 < models@.len() ==> r is Ok,
        page >= 1 && (page - 1) * 8 >= models@.len() && models@.len() > 0 ==> r is Err,
        r is Ok && page >= 1 && page * 8 < models@.len() ==> crate::text::ends(
            r->Ok_0@,
            "\n続き: /models page:"@ + crate::numbers::decimal((page + 1) as nat),
        ),
{
    assert(model_views(models@).len() == models@.len());
    if r is Ok && page >= 1 && page * 8 < models@.len() {
        let tail = "\n続き: /models page:"@ + crate::numbers::decimal((page + 1) as nat);
        let s = r->Ok_0@;
        assert(s.skip(s.len() - tail.len()) =~= tail);
    }
}

} // verus!
