//! Attachments: what is put into a prompt, what is saved as a file, and where.
use crate::codec::{
    base64_encode, base64_text, compact, debug_quoted, debug_text, document, encode, guess_picture,
    measure_picture, parse_url, picture_format, picture_size, sha256_hex, url_parts, utf8_text,
    Picture, UrlView,
};
use crate::config::Limits;
use crate::domain::digest;
use crate::json::{array, array1, array3, object2, object3, text, trees, Json, JsonView};
use crate::numbers::{all_digits, digits_value, parse_unsigned, without_plus};
use crate::paths::{absolute, components, is_absolute, path_components};
use crate::text::{
    ascii_alphanumeric, ascii_digit, begins, blank, borrowed, byte_len, chars_of, first_chars, fold,
    folded, is_ascii_alphanumeric, is_ascii_digit, is_blank, opt_view, pieces, same, some_same,
    split, starts_with, take_chars, text_of, trim, trimmed, utf8_len, views,
};
use vstd::prelude::*;
use vstd::string::*;
use vstd::utf8::*;

verus! {

#[derive(Debug)]
pub struct Attachment {
    pub id: String,
    pub filename: String,
    pub url: String,
    pub size: u64,
    pub content_type: Option<String>,
}

#[derive(Debug)]
pub struct InputMessage {
    pub id: String,
    pub thread_id: String,
    pub user_id: String,
    pub guild_id: String,
    pub content: String,
    pub edited_at: Option<i64>,
    pub attachments: Vec<Attachment>,
}

/// A whole number as a document.
pub open spec fn integer_view(n: int) -> JsonView {
    if n < 0 {
        JsonView::Negative(n as i64)
    } else {
        JsonView::Unsigned(n as u64)
    }
}

pub fn integer(n: i64) -> (r: Json)
    ensures
        r@ == integer_view(n as int),
{
    if n < 0 {
        Json::Negative(n)
    } else {
        Json::Unsigned(n as u64)
    }
}

/// What identifies an attachment.
pub open spec fn attachment_identity(a: Attachment) -> JsonView {
    JsonView::Array(
        seq![JsonView::Text(a.id@), JsonView::Text(a.filename@), JsonView::Unsigned(a.size)],
    )
}

/// What identifies a message: its origin, content, time of change and attachments.
pub open spec fn message_identity(m: InputMessage) -> JsonView {
    JsonView::Array(
        seq![
            JsonView::Text(m.id@),
            JsonView::Text(m.thread_id@),
            JsonView::Text(m.user_id@),
            JsonView::Text(m.guild_id@),
            JsonView::Text(m.content@),
            match m.edited_at {
                Some(t) => integer_view(t as int),
                None => JsonView::Null,
            },
            JsonView::Array(m.attachments@.map_values(|a: Attachment| attachment_identity(a))),
        ],
    )
}

impl InputMessage {
    /// The digest of what identifies the message.
    pub fn metadata_digest(&self) -> (r: String)
        ensures
            r@ == sha256_hex(compact(document(message_identity(*self)))),
    {
        let mut list: Vec<Json> = Vec::new();
        let mut i: usize = 0;
        while i < self.attachments.len()
            invariant
                i <= self.attachments@.len(),
                trees(list@) == self.attachments@.take(i as int).map_values(
                    |a: Attachment| attachment_identity(a),
                ),
            decreases self.attachments@.len() - i,
        {
            let a = &self.attachments[i];
            let j = array3(text(a.id.as_str()), text(a.filename.as_str()), Json::Unsigned(a.size));
            let ghost before = trees(list@);
            let ghost added = j@;
            list.push(j);
            i += 1;
            assert(trees(list@) =~= before.push(added));
            assert(trees(list@) =~= self.attachments@.take(i as int).map_values(
                |a: Attachment| attachment_identity(a),
            ));
        }
        assert(self.attachments@.take(self.attachments@.len() as int) =~= self.attachments@);
        let edited = match self.edited_at {
            Some(t) => integer(t),
            None => Json::Null,
        };
        let mut v: Vec<Json> = Vec::new();
        v.push(text(self.id.as_str()));
        v.push(text(self.thread_id.as_str()));
        v.push(text(self.user_id.as_str()));
        v.push(text(self.guild_id.as_str()));
        v.push(text(self.content.as_str()));
        v.push(edited);
        v.push(array(list));
        assert(trees(v@) =~= message_identity(*self)->Array_0);
        digest(encode(&array(v)).as_slice())
    }
}

/// Whether a text is the number of a Discord object: one to twenty digits for a nonzero 64-bit
/// number.
pub open spec fn object_number(s: Seq<char>) -> bool {
    1 <= utf8_len(s) <= 20 && all_digits(s) && 0 < digits_value(s) <= u64::MAX
}

fn every_digit(s: &str) -> (r: bool)
    ensures
        r == (forall|i: int| 0 <= i < s@.len() ==> ascii_digit(#[trigger] s@[i])),
{
    let v = chars_of(s);
    let mut i: usize = 0;
    while i < v.len()
        invariant
            i <= v@.len(),
            v@ == s@,
            forall|j: int| 0 <= j < i ==> ascii_digit(#[trigger] s@[j]),
        decreases v@.len() - i,
    {
        if !is_ascii_digit(v[i]) {
            assert(!ascii_digit(s@[i as int]));
            return false;
        }
        i += 1;
    }
    true
}

/// The value of a text of one or more digits, where it fits 64 bits.
fn digits_number(s: &str) -> (r: Option<u64>)
    requires
        all_digits(s@),
    ensures
        r is Some <==> digits_value(s@) <= u64::MAX,
        r is Some ==> r->0 == digits_value(s@),
{
    assert(without_plus(s@) == s@) by {
        assert(ascii_digit(s@[0]));
    }
    parse_unsigned(s, 0xffff_ffff_ffff_ffff)
}

pub fn is_object_number(s: &str) -> (r: bool)
    ensures
        r == object_number(s@),
{
    let n: usize = byte_len(s);
    proof {
        if s@.len() == 0 {
            assert(s@ =~= Seq::<char>::empty());
            assert(utf8_len(s@) == 0);
        }
    }
    if n < 1 || n > 20 || s.is_empty() || !every_digit(s) {
        return false;
    }
    match digits_number(s) {
        Some(v) => v != 0,
        None => false,
    }
}

/// Why a text is not the number of a Discord object.
pub open spec fn number_objection(s: Seq<char>) -> Option<Seq<char>> {
    if s.len() == 0 || utf8_len(s) > 20 || !all_digits(s) {
        Some("invalid Discord ID"@)
    } else if digits_value(s) > u64::MAX {
        Some("number too large to fit in target type"@)
    } else if digits_value(s) == 0 {
        Some("invalid Discord ID"@)
    } else {
        None
    }
}

pub fn check_number(s: &str) -> (r: Result<(), &'static str>)
    ensures
        match number_objection(s@) {
            None => r is Ok,
            Some(e) => r is Err && r->Err_0@ == e,
        },
{
    if s.is_empty() || byte_len(s) > 20 || !every_digit(s) {
        return Err("invalid Discord ID");
    }
    match digits_number(s) {
        None => Err("number too large to fit in target type"),
        Some(n) => {
            if n > 0 {
                Ok(())
            } else {
                Err("invalid Discord ID")
            }
        },
    }
}

/// A character that may stand in the name of a saved file.
pub open spec fn safe_char(c: char) -> char {
    if ascii_alphanumeric(c) || c == '.' || c == '_' || c == '-' {
        c
    } else {
        '_'
    }
}

/// The name under which an attachment is saved: at most 96 characters, none of them special.
pub open spec fn safe_name(filename: Seq<char>) -> Seq<char> {
    if filename.len() == 0 {
        "attachment"@
    } else {
        first_chars(filename, 96).map_values(|c: char| safe_char(c))
    }
}

/// Where an attachment is saved below the working folder of its conversation.
pub open spec fn saved_path(message: Seq<char>, id: Seq<char>, filename: Seq<char>) -> Seq<char> {
    ".hoshikage-inputs"@ + "/"@ + message + "/"@ + id + "-"@ + safe_name(filename)
}

fn make_safe_name(filename: &str) -> (r: String)
    ensures
        r@ == safe_name(filename@),
{
    if filename.is_empty() {
        return "attachment".to_owned();
    }
    let head = take_chars(filename, 96);
    let v = chars_of(head.as_str());
    let mut out: String = String::new();
    let mut i: usize = 0;
    while i < v.len()
        invariant
            i <= v@.len(),
            v@ == head@,
            out@ == head@.take(i as int).map_values(|c: char| safe_char(c)),
        decreases v@.len() - i,
    {
        let c = v[i];
        if is_ascii_alphanumeric(c) || c == '.' || c == '_' || c == '-' {
            out.push(c);
        } else {
            out.push('_');
        }
        i += 1;
        assert(out@ =~= head@.take(i as int).map_values(|c: char| safe_char(c)));
    }
    assert(head@.take(head@.len() as int) =~= head@);
    out
}

/// Where an attachment is saved below the working folder of its conversation.
pub fn attachment_relative_path(message_id: &str, attachment: &Attachment) -> (r: Result<
    String,
    &'static str,
>)
    ensures
        object_number(message_id@) && object_number(attachment.id@) ==> r is Ok && r->Ok_0@
            == saved_path(message_id@, attachment.id@, attachment.filename@),
        !(object_number(message_id@) && object_number(attachment.id@)) ==> r is Err && r->Err_0@
            == "invalid attachment identity"@,
{
    if !is_object_number(message_id) || !is_object_number(attachment.id.as_str()) {
        return Err("invalid attachment identity");
    }
    let name = make_safe_name(attachment.filename.as_str());
    Ok(
        String::from_str(".hoshikage-inputs").concat("/").concat(message_id).concat("/").concat(
            attachment.id.as_str(),
        ).concat("-").concat(name.as_str()),
    )
}

/// Whether a character does not occur.
pub open spec fn without(s: Seq<char>, c: char) -> bool {
    forall|i: int| 0 <= i < s.len() ==> #[trigger] s[i] != c
}

proof fn lemma_pieces_of_one(s: Seq<char>, c: char)
    requires
        without(s, c),
    ensures
        pieces(s, c) == seq![s],
    decreases s.len(),
{
    if s.len() > 0 {
        assert(without(s.drop_last(), c)) by {
            assert forall|i: int| 0 <= i < s.len() - 1 implies #[trigger] s.drop_last()[i] != c by {
                assert(s[i] != c);
            }
        }
        lemma_pieces_of_one(s.drop_last(), c);
        assert(s.last() != c);
        assert(s.drop_last().push(s.last()) =~= s);
        assert(pieces(s, c) =~= seq![s]);
    } else {
        assert(s =~= Seq::<char>::empty());
        assert(pieces(s, c) =~= seq![s]);
    }
}

proof fn lemma_pieces_append(s: Seq<char>, t: Seq<char>, c: char)
    requires
        without(t, c),
    ensures
        pieces(s.push(c) + t, c) == pieces(s, c).push(t),
    decreases t.len(),
{
    let w = s.push(c) + t;
    if t.len() == 0 {
        assert(w =~= s.push(c));
        assert(w.drop_last() =~= s);
        assert(t =~= Seq::<char>::empty());
    } else {
        assert(w.drop_last() =~= s.push(c) + t.drop_last());
        assert(without(t.drop_last(), c)) by {
            assert forall|i: int| 0 <= i < t.len() - 1 implies #[trigger] t.drop_last()[i] != c by {
                assert(t[i] != c);
            }
        }
        lemma_pieces_append(s, t.drop_last(), c);
        assert(w.last() == t.last());
        assert(t.last() != c);
        let head = pieces(w.drop_last(), c);
        assert(head.drop_last() =~= pieces(s, c));
        assert(t.drop_last().push(t.last()) =~= t);
    }
}

/// An attachment is always saved three levels deep below the working folder: no part of its path is
/// `.` or `..` or holds a slash, whatever the file is called.
pub proof fn saved_path_stays_inside(message: Seq<char>, id: Seq<char>, filename: Seq<char>)
    requires
        object_number(message),
        object_number(id),
    ensures
        components(saved_path(message, id, filename)) == seq![
            ".hoshikage-inputs"@,
            message,
            id + "-"@ + safe_name(filename),
        ],
        message != ".."@,
        id + "-"@ + safe_name(filename) != ".."@,
        !absolute(saved_path(message, id, filename)),
{
    reveal_strlit(".hoshikage-inputs");
    reveal_strlit("/");
    reveal_strlit("-");
    reveal_strlit(".");
    reveal_strlit("..");
    reveal_strlit("attachment");
    let root = ".hoshikage-inputs"@;
    let last = id + "-"@ + safe_name(filename);
    assert(without(root, '/'));
    assert(without(message, '/')) by {
        assert forall|i: int| 0 <= i < message.len() implies #[trigger] message[i] != '/' by {
            assert(ascii_digit(message[i]));
        }
    }
    assert(without(last, '/')) by {
        assert forall|i: int| 0 <= i < last.len() implies #[trigger] last[i] != '/' by {
            if i < id.len() {
                assert(ascii_digit(id[i]));
            } else if i > id.len() {
                let k = i - id.len() - 1;
                assert(last[i] == safe_name(filename)[k]);
                if filename.len() > 0 {
                    assert(safe_name(filename)[k] == safe_char(first_chars(filename, 96)[k]));
                }
            }
        }
    }
    assert(ascii_digit(message[0]));
    assert(ascii_digit(id[0]));
    assert(last[0] == id[0]);
    let s = saved_path(message, id, filename);
    assert(s =~= (root.push('/') + message).push('/') + last);
    lemma_pieces_of_one(root, '/');
    lemma_pieces_append(root, message, '/');
    lemma_pieces_append(root.push('/') + message, last, '/');
    let all = pieces(s, '/');
    assert(all =~= seq![root, message, last]);
    assert(message != "."@ && last != "."@ && root != "."@);
    reveal_with_fuel(crate::paths::names, 4);
    assert(crate::paths::names(all, 3) =~= seq![root, message, last]);
    assert(components(s) =~= seq![root, message, last]);
    assert(s[0] == '.');
}

/// Position behind the last `c` among the first `n` characters, or zero.
pub open spec fn behind_last(s: Seq<char>, c: char, n: nat) -> nat
    decreases n,
{
    if n == 0 || n > s.len() {
        0
    } else if s[n - 1] == c {
        n
    } else {
        behind_last(s, c, (n - 1) as nat)
    }
}

/// What stands behind the last dot of a file name, unless the name begins with that dot.
pub open spec fn extension_of(name: Seq<char>) -> Option<Seq<char>> {
    let at = behind_last(name, '.', name.len());
    if name == ".."@ || at <= 1 {
        None
    } else {
        Some(name.skip(at as int))
    }
}

/// The extension of the file that a path names.
pub open spec fn path_extension(path: Seq<char>) -> Option<Seq<char>> {
    let c = components(path);
    if c.len() == 0 || c.last() == "/"@ || c.last() == "."@ || c.last() == ".."@ {
        None
    } else {
        extension_of(c.last())
    }
}

fn find_extension(path: &str) -> (r: Option<String>)
    ensures
        opt_view(r) == path_extension(path@),
{
    let c = path_components(path);
    let ghost list = components(path@);
    assert(views(c@).len() == c@.len());
    if c.len() == 0 {
        return None;
    }
    let last = c[c.len() - 1].as_str();
    assert(list.last() == last@);
    if same(last, "/") || same(last, ".") || same(last, "..") {
        return None;
    }
    let v = chars_of(last);
    let mut n: usize = v.len();
    while n > 0 && v[n - 1] != '.'
        invariant
            n <= v@.len(),
            v@ == last@,
            behind_last(v@, '.', v@.len()) == behind_last(v@, '.', n as nat),
        decreases n,
    {
        n -= 1;
    }
    if n <= 1 {
        return None;
    }
    let r = text_of(&v, n, v.len());
    assert(r@ =~= last@.skip(n as int));
    Some(r)
}

/// Whether an extension is one of text files.
pub open spec fn text_extension(e: Seq<char>) -> bool {
    e == "txt"@ || e == "md"@ || e == "csv"@ || e == "json"@ || e == "jsonl"@ || e == "xml"@ || e
        == "toml"@ || e == "yaml"@ || e == "yml"@ || e == "html"@ || e == "css"@ || e == "js"@ || e
        == "ts"@ || e == "rs"@ || e == "py"@ || e == "sh"@
}

/// Whether a media type is one of text.
pub open spec fn text_media(t: Seq<char>) -> bool {
    begins(t, "text/"@) || t == "application/json"@ || t == "application/ld+json"@ || t
        == "application/xml"@ || t == "application/javascript"@ || t == "application/toml"@ || t
        == "application/yaml"@
}

/// The media type of a header, without its parameters.
pub open spec fn media_type(header: Seq<char>) -> Seq<char> {
    trimmed(pieces(header, ';')[0])
}

/// Whether an attachment is put into the prompt as text: short, valid UTF-8 without zero bytes, and
/// of a textual type.
pub open spec fn inline_text(a: Attachment, bytes: Seq<u8>, limit: nat) -> bool {
    bytes.len() <= limit && valid_utf8(bytes) && !bytes.contains(0) && match a.content_type {
        Some(header) => text_media(media_type(header@)),
        None => path_extension(a.filename@) is Some && text_extension(
            folded(path_extension(a.filename@)->0),
        ),
    }
}

fn has_zero(bytes: &[u8]) -> (r: bool)
    ensures
        r == bytes@.contains(0),
{
    let mut i: usize = 0;
    while i < bytes.len()
        invariant
            i <= bytes@.len(),
            forall|j: int| 0 <= j < i ==> bytes@[j] != 0,
        decreases bytes@.len() - i,
    {
        if bytes[i] == 0 {
            assert(bytes@[i as int] == 0);
            return true;
        }
        i += 1;
    }
    false
}

pub fn is_inline_text(attachment: &Attachment, bytes: &[u8], limit: usize) -> (r: bool)
    ensures
        r == inline_text(*attachment, bytes@, limit as nat),
{
    if bytes.len() > limit || utf8_text(bytes).is_err() || has_zero(bytes) {
        return false;
    }
    match &attachment.content_type {
        Some(header) => {
            let parts = split(header.as_str(), ';');
            proof {
                crate::text::lemma_pieces_nonempty(header@, ';');
                assert(views(parts@).len() == parts@.len());
                assert(views(parts@)[0] == parts@[0]@);
            }
            let media = trim(parts[0].as_str());
            let t = media.as_str();
            starts_with(t, "text/") || same(t, "application/json") || same(t, "application/ld+json")
                || same(t, "application/xml") || same(t, "application/javascript") || same(
                t,
                "application/toml",
            ) || same(t, "application/yaml")
        },
        None => match find_extension(attachment.filename.as_str()) {
            None => false,
            Some(found) => {
                let lower = fold(found.as_str());
                let e = lower.as_str();
                same(e, "txt") || same(e, "md") || same(e, "csv") || same(e, "json") || same(
                    e,
                    "jsonl",
                ) || same(e, "xml") || same(e, "toml") || same(e, "yaml") || same(e, "yml") || same(
                    e,
                    "html",
                ) || same(e, "css") || same(e, "js") || same(e, "ts") || same(e, "rs") || same(
                    e,
                    "py",
                ) || same(e, "sh")
            },
        },
    }
}

/// Whether four bytes stand somewhere.
pub open spec fn has_four(bytes: Seq<u8>, a: u8, b: u8, c: u8, d: u8) -> bool {
    exists|i: int|
        0 <= i && i + 4 <= bytes.len() && #[trigger] bytes[i] == a && bytes[i + 1] == b && bytes[i
            + 2] == c && bytes[i + 3] == d
}

/// Whether an image carries a mark of animation: `acTL` or `ANIM`.
pub open spec fn animated(bytes: Seq<u8>) -> bool {
    has_four(bytes, 0x61, 0x63, 0x54, 0x4c) || has_four(bytes, 0x41, 0x4e, 0x49, 0x4d)
}

fn find_four(bytes: &[u8], a: u8, b: u8, c: u8, d: u8) -> (r: bool)
    ensures
        r == has_four(bytes@, a, b, c, d),
{
    if bytes.len() < 4 {
        return false;
    }
    let last: usize = bytes.len() - 4;
    let mut i: usize = 0;
    while i <= last
        invariant
            last + 4 == bytes@.len(),
            i <= last + 1,
            forall|j: int|
                0 <= j < i ==> !(#[trigger] bytes@[j] == a && bytes@[j + 1] == b && bytes@[j + 2] == c
                    && bytes@[j + 3] == d),
        decreases last + 1 - i,
    {
        if bytes[i] == a && bytes[i + 1] == b && bytes[i + 2] == c && bytes[i + 3] == d {
            assert(bytes@[i as int] == a);
            return true;
        }
        i += 1;
    }
    false
}

/// The media type of an image.
pub open spec fn picture_media(p: Picture) -> Seq<char> {
    match p {
        Picture::Png => "image/png"@,
        Picture::Jpeg => "image/jpeg"@,
        _ => "image/webp"@,
    }
}

/// What an attachment becomes.
pub enum ContentView {
    Image(JsonView),
    Text(JsonView),
    File(JsonView, Seq<char>),
}

/// A piece of text in a prompt.
pub open spec fn text_item(s: Seq<char>) -> JsonView {
    JsonView::Object(seq![("text"@, JsonView::Text(s)), ("type"@, JsonView::Text("input_text"@))])
}

/// The decoded text of valid UTF-8.
pub open spec fn decoded(bytes: Seq<u8>) -> Seq<char> {
    decode_utf8(bytes)
}

/// What an attachment becomes in the prompt: an image, text, or a reference to a saved file.
pub open spec fn attachment_content(
    message: Seq<char>,
    a: Attachment,
    bytes: Seq<u8>,
    limits: Limits,
) -> Result<ContentView, Seq<char>> {
    match picture_format(bytes) {
        Ok(format) => {
            let size = picture_size(bytes, format);
            if format == Picture::Other {
                Err("unsupported image format"@)
            } else if animated(bytes) {
                Err("animated image unsupported"@)
            } else if size is Err {
                Err(size->Err_0)
            } else if (size->Ok_0).0 * (size->Ok_0).1 > limits.image_pixels {
                Err("image pixel limit"@)
            } else {
                Ok(
                    ContentView::Image(
                        JsonView::Object(
                            seq![
                                ("detail"@, JsonView::Text("high"@)),
                                (
                                    "image_url"@,
                                    JsonView::Text(
                                        "data:"@ + picture_media(format) + ";base64,"@
                                            + base64_text(bytes),
                                    ),
                                ),
                                ("type"@, JsonView::Text("input_image"@)),
                            ],
                        ),
                    ),
                )
            }
        },
        Err(_) => if inline_text(a, bytes, limits.text_bytes as nat) {
            Ok(
                ContentView::Text(
                    text_item(
                        "\n--- 添付 "@ + debug_text(a.filename@) + " ---\n"@ + decoded(bytes)
                            + "\n--- 添付終了 ---"@,
                    ),
                ),
            )
        } else if !(object_number(message) && object_number(a.id@)) {
            Err("invalid attachment identity"@)
        } else {
            let path = saved_path(message, a.id@, a.filename@);
            Ok(
                ContentView::File(
                    text_item(
                        "\n添付ファイル "@ + debug_text(a.filename@) + " は作業フォルダー内の "@
                            + debug_text(path)
                            + " に保存されています。必要なツールでこのファイルを処理してください。"@,
                    ),
                    path,
                ),
            )
        },
    }
}

fn text_content(s: String) -> (r: Json)
    ensures
        r@ == text_item(s@),
{
    object2("text", Json::Text(s), "type", text("input_text"))
}

/// Adds what an attachment becomes to the content of a prompt. Returns its kind, and where it is to
/// be saved.
pub fn append_attachment_content(
    content: &mut Vec<Json>,
    message_id: &str,
    attachment: &Attachment,
    bytes: &[u8],
    limits: &Limits,
) -> (r: Result<(&'static str, Option<String>), String>)
    requires
        bytes@.len() <= usize::MAX / 4,
    ensures
        match attachment_content(message_id@, *attachment, bytes@, *limits) {
            Err(e) => r is Err && r->Err_0@ == e && final(content)@ == old(content)@,
            Ok(c) => {
                let item = match c {
                    ContentView::Image(j) => j,
                    ContentView::Text(j) => j,
                    ContentView::File(j, _) => j,
                };
                let kind = match c {
                    ContentView::Image(_) => "image"@,
                    ContentView::Text(_) => "text"@,
                    ContentView::File(_, _) => "file"@,
                };
                let path = match c {
                    ContentView::File(_, p) => Some(p),
                    _ => None,
                };
                &&& r is Ok
                &&& (r->Ok_0).0@ == kind
                &&& opt_view((r->Ok_0).1) == path
                &&& trees(final(content)@) == trees(old(content)@).push(item)
            },
        },
{
    let ghost before = trees(content@);
    if let Ok(format) = guess_picture(bytes) {
        if format == Picture::Other {
            return Err(String::from_str("unsupported image format"));
        }
        if find_four(bytes, 0x61, 0x63, 0x54, 0x4c) || find_four(bytes, 0x41, 0x4e, 0x49, 0x4d) {
            return Err(String::from_str("animated image unsupported"));
        }
        let (width, height): (u32, u32) = match measure_picture(bytes, format) {
            Ok(size) => size,
            Err(e) => return Err(e),
        };
        assert(width * height <= 0xffff_ffff * 0xffff_ffff) by (nonlinear_arith)
            requires
                width <= 0xffff_ffff,
                height <= 0xffff_ffff,
        ;
        if width as u64 * height as u64 > limits.image_pixels {
            return Err(String::from_str("image pixel limit"));
        }
        let media = match format {
            Picture::Png => "image/png",
            Picture::Jpeg => "image/jpeg",
            _ => "image/webp",
        };
        let body = base64_encode(bytes);
        let url = String::from_str("data:").concat(media).concat(";base64,").concat(body.as_str());
        let item = object3(
            "detail",
            text("high"),
            "image_url",
            Json::Text(url),
            "type",
            text("input_image"),
        );
        let ghost shown = item@;
        content.push(item);
        assert(trees(content@) =~= before.push(shown));
        return Ok(("image", None));
    }
    if is_inline_text(attachment, bytes, limits.text_bytes) {
        if let Ok(body) = utf8_text(bytes) {
            assert(body@ == decoded(bytes@)) by {
                encode_utf8_decode_utf8(body@);
            }
            let name = debug_quoted(attachment.filename.as_str());
            let s = String::from_str("\n--- 添付 ").concat(name.as_str()).concat(" ---\n").concat(
                body.as_str(),
            ).concat("\n--- 添付終了 ---");
            let item = text_content(s);
            let ghost shown = item@;
            content.push(item);
            assert(trees(content@) =~= before.push(shown));
            return Ok(("text", None));
        }
    }
    let relative = match attachment_relative_path(message_id, attachment) {
        Ok(p) => p,
        Err(e) => return Err(String::from_str(e)),
    };
    let name = debug_quoted(attachment.filename.as_str());
    let place = debug_quoted(relative.as_str());
    let s = String::from_str("\n添付ファイル ").concat(name.as_str()).concat(" は作業フォルダー内の ").concat(
        place.as_str(),
    ).concat(" に保存されています。必要なツールでこのファイルを処理してください。");
    let item = text_content(s);
    let ghost shown = item@;
    content.push(item);
    assert(trees(content@) =~= before.push(shown));
    Ok(("file", Some(relative)))
}

/// What is recorded of a received attachment.
#[derive(Debug)]
pub struct Received {
    pub id: String,
    pub bytes: usize,
    pub sha256: String,
    pub kind: String,
}

/// The mathematical form of a `Received`.
pub open spec fn received_view(r: Received) -> JsonView {
    JsonView::Array(
        seq![
            JsonView::Text(r.id@),
            JsonView::Unsigned(r.bytes as u64),
            JsonView::Text(r.sha256@),
            JsonView::Text(r.kind@),
        ],
    )
}

/// An input that was checked and is ready to be sent.
#[derive(Debug)]
pub struct PreparedInput {
    pub input: Json,
    pub digest: String,
    pub metadata_digest: String,
    pub attachments: Vec<Received>,
    /// Files to be saved, each with its path below the working folder.
    pub workspace_files: Vec<(String, Vec<u8>)>,
}

/// An input in preparation: the attachments are received one after the other.
#[derive(Debug)]
pub struct Preparation {
    pub content: Vec<Json>,
    pub records: Vec<Received>,
    pub files: Vec<(String, Vec<u8>)>,
    pub total: usize,
}

/// What is wrong with a message before any attachment is fetched.
pub open spec fn message_objection(m: InputMessage, limits: Limits) -> Option<Seq<char>> {
    if m.attachments@.len() > limits.attachments {
        Some("too many attachments"@)
    } else if blank(m.content@) && m.attachments@.len() == 0 {
        Some("empty input"@)
    } else if utf8_len(m.content@) > limits.text_bytes {
        Some("text too large"@)
    } else {
        None
    }
}

/// Whether a URL is one of Discord's own files.
pub open spec fn discord_origin(u: UrlView) -> bool {
    u.scheme == "https"@ && (u.host == Some("cdn.discordapp.com"@) || u.host == Some(
        "media.discordapp.net"@,
    )) && u.username.len() == 0 && u.password is None
}

/// What forbids fetching an attachment.
pub open spec fn fetch_objection(a: Attachment, limits: Limits) -> Option<Seq<char>> {
    let url = url_parts(a.url@);
    if a.size > limits.attachment_bytes {
        Some("attachment too large"@)
    } else if url is Err {
        Some(url->Err_0)
    } else if !discord_origin(url->Ok_0) {
        Some("attachment origin not allowed"@)
    } else {
        None
    }
}

/// What forbids taking the bytes of an attachment.
pub open spec fn total_objection(total: nat, more: nat, limits: Limits) -> Option<Seq<char>> {
    if total + more > usize::MAX {
        Some("input overflow"@)
    } else if total + more > limits.input_bytes || total + more > limits.temp_bytes {
        Some("total input limit"@)
    } else {
        None
    }
}

impl Preparation {
    /// Begins with the text of a message.
    pub fn start(m: &InputMessage, limits: &Limits) -> (r: Result<Preparation, &'static str>)
        ensures
            match message_objection(*m, *limits) {
                Some(e) => r is Err && r->Err_0@ == e,
                None => {
                    &&& r is Ok
                    &&& trees(r->Ok_0.content@) == seq![text_item(m.content@)]
                    &&& r->Ok_0.records@.len() == 0
                    &&& r->Ok_0.files@.len() == 0
                    &&& r->Ok_0.total == utf8_len(m.content@)
                },
            },
    {
        if m.attachments.len() > limits.attachments {
            return Err("too many attachments");
        }
        if is_blank(m.content.as_str()) && m.attachments.len() == 0 {
            return Err("empty input");
        }
        let total: usize = byte_len(m.content.as_str());
        if total > limits.text_bytes {
            return Err("text too large");
        }
        let mut content: Vec<Json> = Vec::new();
        content.push(text_content(m.content.clone()));
        assert(trees(content@) =~= seq![text_item(m.content@)]);
        Ok(Preparation { content, records: Vec::new(), files: Vec::new(), total })
    }

    /// Whether an attachment may be fetched.
    pub fn may_fetch(a: &Attachment, limits: &Limits) -> (r: Result<(), String>)
        ensures
            match fetch_objection(*a, *limits) {
                Some(e) => r is Err && r->Err_0@ == e,
                None => r is Ok,
            },
    {
        if a.size > limits.attachment_bytes as u64 {
            return Err(String::from_str("attachment too large"));
        }
        let url = match parse_url(a.url.as_str()) {
            Ok(u) => u,
            Err(e) => return Err(e),
        };
        let host = borrowed(&url.host);
        if same(url.scheme.as_str(), "https") && (some_same(host, "cdn.discordapp.com") || some_same(
            host,
            "media.discordapp.net",
        )) && url.username.as_str().is_empty() && url.password.is_none() {
            Ok(())
        } else {
            Err(String::from_str("attachment origin not allowed"))
        }
    }

    /// Whether the next piece of an attachment still fits.
    pub fn fits(have: usize, more: usize, limits: &Limits) -> (r: Result<(), &'static str>)
        ensures
            r is Ok <==> have + more <= limits.attachment_bytes,
            r is Err ==> r->Err_0@ == "attachment byte limit"@,
    {
        if have <= limits.attachment_bytes && more <= limits.attachment_bytes - have {
            Ok(())
        } else {
            Err("attachment byte limit")
        }
    }

    /// Takes the bytes of the next attachment.
    pub fn receive(&mut self, m: &InputMessage, a: &Attachment, bytes: Vec<u8>, limits: &Limits) -> (r:
        Result<(), String>)
        requires
            bytes@.len() <= usize::MAX / 4,
        ensures
            match total_objection(old(self).total as nat, bytes@.len(), *limits) {
                Some(e) => r is Err && r->Err_0@ == e,
                None => match attachment_content(m.id@, *a, bytes@, *limits) {
                    Err(e) => r is Err && r->Err_0@ == e,
                    Ok(c) => {
                        let (item, kind) = match c {
                            ContentView::Image(j) => (j, "image"@),
                            ContentView::Text(j) => (j, "text"@),
                            ContentView::File(j, _) => (j, "file"@),
                        };
                        &&& r is Ok
                        &&& final(self).total == old(self).total + bytes@.len()
                        &&& trees(final(self).content@) == trees(old(self).content@).push(item)
                        &&& final(self).records@.len() == old(self).records@.len() + 1
                        &&& final(self).records@.drop_last() == old(self).records@
                        &&& received_view(final(self).records@.last()) == JsonView::Array(
                            seq![
                                JsonView::Text(a.id@),
                                JsonView::Unsigned(bytes@.len() as u64),
                                JsonView::Text(sha256_hex(bytes@)),
                                JsonView::Text(kind),
                            ],
                        )
                        &&& match c {
                            ContentView::File(_, path) => {
                                &&& final(self).files@.len() == old(self).files@.len() + 1
                                &&& final(self).files@.drop_last() == old(self).files@
                                &&& final(self).files@.last().0@ == path
                                &&& final(self).files@.last().1@ == bytes@
                            },
                            _ => final(self).files@ == old(self).files@,
                        }
                    },
                },
            },
            r is Err ==> final(self).total == old(self).total && final(self).records
                == old(self).records && final(self).files == old(self).files,
    {
        let size: usize = bytes.len();
        if size > usize::MAX - self.total {
            return Err(String::from_str("input overflow"));
        }
        let total: usize = self.total + size;
        if total > limits.input_bytes || total as u64 > limits.temp_bytes {
            return Err(String::from_str("total input limit"));
        }
        let hash = digest(bytes.as_slice());
        match append_attachment_content(
            &mut self.content,
            m.id.as_str(),
            a,
            bytes.as_slice(),
            limits,
        ) {
            Err(e) => Err(e),
            Ok((kind, relative)) => {
                self.total = total;
                let ghost records = self.records@;
                self.records.push(
                    Received {
                        id: a.id.clone(),
                        bytes: size,
                        sha256: hash,
                        kind: kind.to_owned(),
                    },
                );
                assert(self.records@.drop_last() =~= records);
                let ghost files = self.files@;
                match relative {
                    Some(path) => {
                        self.files.push((path, bytes));
                        assert(self.files@.drop_last() =~= files);
                    },
                    None => {},
                }
                Ok(())
            },
        }
    }

    /// Completes the input. Its digest covers the message and every byte that was received.
    pub fn finish(self, m: &InputMessage, limits: &Limits) -> (r: Result<
        PreparedInput,
        &'static str,
    >)
        ensures
            ({
                let input = prompt(trees(self.content@));
                let metadata = sha256_hex(compact(document(message_identity(*m))));
                let records = JsonView::Array(
                    self.records@.map_values(|x: Received| received_view(x)),
                );
                if compact(document(input)).len() > limits.input_bytes {
                    r is Err && r->Err_0@ == "encoded request size exceeded"@
                } else {
                    &&& r is Ok
                    &&& r->Ok_0.input@ == input
                    &&& r->Ok_0.metadata_digest@ == metadata
                    &&& r->Ok_0.digest@ == sha256_hex(
                        encode_utf8(metadata) + compact(document(records)),
                    )
                    &&& r->Ok_0.attachments@ == self.records@
                    &&& r->Ok_0.workspace_files@ == self.files@
                }
            }),
    {
        let mut list: Vec<Json> = Vec::new();
        let mut i: usize = 0;
        while i < self.records.len()
            invariant
                i <= self.records@.len(),
                trees(list@) == self.records@.take(i as int).map_values(
                    |x: Received| received_view(x),
                ),
            decreases self.records@.len() - i,
        {
            let x = &self.records[i];
            let mut row: Vec<Json> = Vec::new();
            row.push(text(x.id.as_str()));
            row.push(Json::Unsigned(x.bytes as u64));
            row.push(text(x.sha256.as_str()));
            row.push(text(x.kind.as_str()));
            assert(trees(row@) =~= received_view(*x)->Array_0);
            let ghost before = trees(list@);
            list.push(array(row));
            i += 1;
            assert(trees(list@) =~= before.push(received_view(*x)));
            assert(trees(list@) =~= self.records@.take(i as int).map_values(
                |x: Received| received_view(x),
            ));
        }
        assert(self.records@.take(self.records@.len() as int) =~= self.records@);
        let input = array1(object2("content", array(self.content), "role", text("user")));
        if encode(&input).len() > limits.input_bytes {
            return Err("encoded request size exceeded");
        }
        let metadata_digest = m.metadata_digest();
        let mut material: Vec<u8> = metadata_digest.as_str().as_bytes_vec();
        let mut more = encode(&array(list));
        material.append(&mut more);
        Ok(
            PreparedInput {
                input,
                digest: digest(material.as_slice()),
                metadata_digest,
                attachments: self.records,
                workspace_files: self.files,
            },
        )
    }
}

/// A prompt with the given content.
pub open spec fn prompt(content: Seq<JsonView>) -> JsonView {
    JsonView::Array(
        seq![
            JsonView::Object(
                seq![("content"@, JsonView::Array(content)), ("role"@, JsonView::Text("user"@))],
            ),
        ],
    )
}

/// Whether a component of a path is a plain name.
pub open spec fn plain_name(c: Seq<char>) -> bool {
    c != "/"@ && c != "."@ && c != ".."@
}

/// Whether every component of a path is a plain name.
pub open spec fn plain_path(path: Seq<char>) -> bool {
    forall|i: int| 0 <= i < components(path).len() ==> plain_name(#[trigger] components(path)[i])
}

fn plain_parts(path: &str) -> (r: Option<Vec<String>>)
    ensures
        r is Some <==> plain_path(path@),
        r is Some ==> views(r->0@) == components(path@),
{
    let parts = path_components(path);
    let ghost list = components(path@);
    let mut i: usize = 0;
    while i < parts.len()
        invariant
            i <= parts@.len(),
            views(parts@) == list,
            list == components(path@),
            forall|j: int| 0 <= j < i ==> plain_name(#[trigger] list[j]),
        decreases parts@.len() - i,
    {
        let c = parts[i].as_str();
        assert(list[i as int] == c@);
        if same(c, "/") || same(c, ".") || same(c, "..") {
            assert(!plain_name(list[i as int]));
            return None;
        }
        i += 1;
    }
    Some(parts)
}

/// The three names of the path of a saved attachment.
pub fn attachment_parts(relative: &str) -> (r: Result<Vec<String>, &'static str>)
    ensures
        !plain_path(relative@) ==> r is Err && r->Err_0@ == "invalid attachment path"@,
        plain_path(relative@) && components(relative@).len() != 3 ==> r is Err && r->Err_0@
            == "invalid attachment path depth"@,
        plain_path(relative@) && components(relative@).len() == 3 ==> r is Ok && views(r->Ok_0@)
            == components(relative@),
{
    match plain_parts(relative) {
        None => Err("invalid attachment path"),
        Some(parts) => {
            assert(views(parts@).len() == parts@.len());
            if parts.len() == 3 {
                Ok(parts)
            } else {
                Err("invalid attachment path depth")
            }
        },
    }
}

/// The names of the path of an artifact below its workspace.
pub fn artifact_parts(relative: &str) -> (r: Result<Vec<String>, &'static str>)
    ensures
        absolute(relative@) ==> r is Err && r->Err_0@ == "absolute paths prohibited"@,
        !absolute(relative@) && !plain_path(relative@) ==> r is Err && r->Err_0@
            == "invalid relative path"@,
        !absolute(relative@) && plain_path(relative@) && components(relative@).len() == 0 ==> r is Err
            && r->Err_0@ == "missing path"@,
        !absolute(relative@) && plain_path(relative@) && components(relative@).len() > 0 ==> r is Ok
            && views(r->Ok_0@) == components(relative@),
{
    if is_absolute(relative) {
        return Err("absolute paths prohibited");
    }
    match plain_parts(relative) {
        None => Err("invalid relative path"),
        Some(parts) => {
            assert(views(parts@).len() == parts@.len());
            if parts.len() == 0 {
                Err("missing path")
            } else {
                Ok(parts)
            }
        },
    }
}

/// What the file system says of an open file.
#[derive(Clone, Copy, Debug, PartialEq, Eq, Structural)]
pub struct FileFacts {
    pub is_file: bool,
    pub is_symlink: bool,
    pub dev: u64,
    pub links: u64,
    pub len: u64,
    pub mtime: i64,
    pub mtime_nsec: i64,
    pub ctime: i64,
    pub ctime_nsec: i64,
}

/// Whether the folder that was opened is the workspace, by its device and its number on it.
pub fn artifact_root(dev: u64, ino: u64, workspace_dev: u64, workspace_ino: u64) -> (r: Result<
    (),
    &'static str,
>)
    ensures
        r is Ok <==> dev == workspace_dev && ino == workspace_ino,
        r is Err ==> r->Err_0@ == "workspace changed"@,
{
    if dev == workspace_dev && ino == workspace_ino {
        Ok(())
    } else {
        Err("workspace changed")
    }
}

/// Whether a step on the way to an artifact stays in the workspace.
pub fn artifact_step(found: &FileFacts, workspace_dev: u64) -> (r: Result<(), &'static str>)
    ensures
        r is Ok <==> found.dev == workspace_dev && !found.is_symlink,
        r is Err ==> r->Err_0@ == "symlink or mount traversal prohibited"@,
{
    if found.dev == workspace_dev && !found.is_symlink {
        Ok(())
    } else {
        Err("symlink or mount traversal prohibited")
    }
}

/// Whether an artifact may be read.
pub fn artifact_readable(found: &FileFacts, limit: usize) -> (r: Result<(), &'static str>)
    ensures
        r is Ok <==> found.is_file && found.links == 1 && found.len <= limit,
        r is Err ==> r->Err_0@ == "artifact must be a bounded regular non-hardlinked file"@,
{
    if found.is_file && found.links == 1 && found.len <= limit as u64 {
        Ok(())
    } else {
        Err("artifact must be a bounded regular non-hardlinked file")
    }
}

/// Whether a file stayed the same while it was read.
pub open spec fn unchanged(before: FileFacts, after: FileFacts) -> bool {
    before.len == after.len && after.links == 1 && before.mtime == after.mtime && before.mtime_nsec
        == after.mtime_nsec && before.ctime == after.ctime && before.ctime_nsec == after.ctime_nsec
}

/// The bytes of an artifact, where the file stayed the same while it was read and was read whole.
pub fn artifact(before: &FileFacts, after: &FileFacts, bytes: Vec<u8>, limit: usize) -> (r: Result<
    Vec<u8>,
    &'static str,
>)
    ensures
        !(bytes@.len() <= limit && unchanged(*before, *after)) ==> r is Err && r->Err_0@
            == "artifact changed during read"@,
        bytes@.len() <= limit && unchanged(*before, *after) && bytes@.len() != before.len ==> r is Err
            && r->Err_0@ == "artifact incomplete"@,
        bytes@.len() <= limit && unchanged(*before, *after) && bytes@.len() == before.len ==> r
            == Ok::<Vec<u8>, &'static str>(bytes),
{
    if !(bytes.len() <= limit && before.len == after.len && after.links == 1 && before.mtime
        == after.mtime && before.mtime_nsec == after.mtime_nsec && before.ctime == after.ctime
        && before.ctime_nsec == after.ctime_nsec) {
        return Err("artifact changed during read");
    }
    if bytes.len() as u64 != before.len {
        return Err("artifact incomplete");
    }
    Ok(bytes)
}

/// Memory that transfers in progress have reserved.
#[derive(Debug)]
pub struct Budget {
    pub used: u64,
}

/// What became of a reservation.
#[derive(Clone, Copy, Debug, PartialEq, Eq, Structural)]
pub enum Reservation {
    Granted,
    /// Wait until another transfer gives its part back.
    Wait,
}

impl Budget {
    /// Reserves an amount, so that all reservations together stay within the limit.
    pub fn reserve(&mut self, amount: u64, limit: u64) -> (r: Result<Reservation, &'static str>)
        ensures
            amount > limit ==> r is Err && r->Err_0@
                == "temporary capacity smaller than transfer reservation"@ && final(self).used
                == old(self).used,
            amount <= limit && old(self).used + amount <= limit ==> r == Ok::<
                Reservation,
                &'static str,
            >(Reservation::Granted) && final(self).used == old(self).used + amount,
            amount <= limit && old(self).used + amount > limit ==> r == Ok::<
                Reservation,
                &'static str,
            >(Reservation::Wait) && final(self).used == old(self).used,
    {
        if amount > limit {
            return Err("temporary capacity smaller than transfer reservation");
        }
        if self.used <= limit - amount {
            self.used = self.used + amount;
            Ok(Reservation::Granted)
        } else {
            Ok(Reservation::Wait)
        }
    }

    /// Gives a reservation back.
    pub fn release(&mut self, amount: u64)
        requires
            amount <= old(self).used,
        ensures
            final(self).used == old(self).used - amount,
    {
        self.used = self.used - amount;
    }
}

} // verus!
