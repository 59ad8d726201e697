//! Encodings that other crates compute: JSON text, SHA-256, base64, timestamps, URLs, images.
use crate::json::{fraction, lookup, member, text, Json, JsonView};
use crate::text::opt_view;
use base64::Engine;
use serde_json::Value;
use sha2::Digest;
use vstd::prelude::*;
use vstd::utf8::*;

verus! {

#[verifier::external_type_specification]
#[verifier::external_body]
pub struct ExValue(serde_json::Value);

/// A JSON document without an order of members.
pub enum Document {
    Null,
    Bool(bool),
    Unsigned(u64),
    Negative(i64),
    /// A number with a fraction or an exponent, in its shortest notation.
    Fraction(Seq<char>),
    Text(Seq<char>),
    Array(Seq<Document>),
    Object(Map<Seq<char>, Document>),
}

/// The document that a tree of values writes down; of members with one key the first counts, as in
/// `lookup`.
pub open spec fn document(j: JsonView) -> Document
    decreases j, 0nat,
{
    match j {
        JsonView::Null => Document::Null,
        JsonView::Bool(b) => Document::Bool(b),
        JsonView::Unsigned(n) => Document::Unsigned(n),
        JsonView::Negative(n) => if n < 0 {
            Document::Negative(n)
        } else {
            Document::Unsigned(n as u64)
        },
        JsonView::Fraction(_, t) => notation(t),
        JsonView::Text(s) => Document::Text(s),
        JsonView::Array(v) => Document::Array(
            Seq::new(
                v.len(),
                |i: int| if 0 <= i < v.len() { document(v[i]) } else { Document::Null },
            ),
        ),
        JsonView::Object(m) => Document::Object(members(m, 0)),
    }
}

/// The members of a list from a position on.
pub open spec fn members(m: Seq<(Seq<char>, JsonView)>, from: nat) -> Map<Seq<char>, Document>
    decreases m, m.len() - from,
{
    if from >= m.len() {
        Map::empty()
    } else {
        members(m, from + 1).insert(m[from as int].0, document(m[from as int].1))
    }
}

/// What a document holds under a key is what is found under it in the tree.
pub proof fn documents_hold_what_is_found(m: Seq<(Seq<char>, JsonView)>, key: Seq<char>)
    ensures
        match lookup(m, key) {
            Some(v) => members(m, 0).contains_key(key) && members(m, 0)[key] == document(v),
            None => !members(m, 0).contains_key(key),
        },
{
    assert(m.skip(0) =~= m);
    lemma_found_from(m, key, 0);
}

proof fn lemma_found_from(m: Seq<(Seq<char>, JsonView)>, key: Seq<char>, from: nat)
    requires
        from <= m.len(),
    ensures
        match lookup(m.skip(from as int), key) {
            Some(v) => members(m, from).contains_key(key) && members(m, from)[key] == document(v),
            None => !members(m, from).contains_key(key),
        },
    decreases m.len() - from,
{
    let rest = m.skip(from as int);
    if from < m.len() {
        lemma_found_from(m, key, from + 1);
        assert(rest.drop_first() =~= m.skip((from + 1) as int));
        assert(rest[0] == m[from as int]);
    }
}

/// What the notation of a number stands for: the number, or the text itself where it denotes none.
pub uninterp spec fn notation(t: Seq<char>) -> Document;

/// The document that a `serde_json::Value` holds.
pub uninterp spec fn value_document(v: serde_json::Value) -> Document;

/// The compact JSON text of a document, as bytes.
pub uninterp spec fn compact(d: Document) -> Seq<u8>;

/// The compact JSON text of a document.
pub uninterp spec fn compact_text(d: Document) -> Seq<char>;

/// The indented JSON text of a document.
pub uninterp spec fn indented(d: Document) -> Seq<char>;

/// Builds the `serde_json::Value` of the same shape, one node for one node, with
/// `serde_json::from_str` for the notation of a fraction. An object is collected from its end, so
/// that of members with one key the first stays. Claims that the value holds the document that the
/// argument writes down, and that a notation alone decides what it stands for.
#[verifier::external_body]
fn value_of(j: &Json) -> (v: serde_json::Value)
    ensures
        value_document(v) == document(j@),
        j@ is Fraction ==> value_document(v) == notation(j@->Fraction_1),
{
    match j {
        Json::Null => Value::Null,
        Json::Bool(b) => Value::from(*b),
        Json::Unsigned(n) => Value::from(*n),
        Json::Negative(n) => Value::from(*n),
        Json::Fraction(f) => serde_json::from_str::<serde_json::Number>(&f.text).map_or_else(
            |_| Value::from(f.text.as_str()), Value::Number),
        Json::Text(s) => Value::from(s.as_str()),
        Json::Array(v) => v.iter().map(value_of).collect(),
        Json::Object(v) => v.iter().rev().map(|m| (m.key.clone(), value_of(&m.value))).collect(),
    }
}

/// `serde_json::to_vec` of a value, which cannot fail: every key is a text. Claims that the bytes
/// depend on the document alone.
#[verifier::external_body]
fn value_bytes(v: &serde_json::Value) -> (b: Vec<u8>)
    ensures
        b@ == compact(value_document(*v)),
{
    serde_json::to_vec(v).unwrap()
}

/// `serde_json::to_string` of a value, which cannot fail: every key is a text. Claims that the text
/// depends on the document alone, and that of a text it stands between quotation marks.
#[verifier::external_body]
fn value_text(v: &serde_json::Value) -> (s: String)
    ensures
        s@ == compact_text(value_document(*v)),
        value_document(*v) is Text ==> s@.len() >= 2 && s@[0] == '"' && s@.last() == '"',
{
    serde_json::to_string(v).unwrap()
}

/// `serde_json::to_string_pretty` of a value, which cannot fail: every key is a text. Claims that
/// the text depends on the document alone.
#[verifier::external_body]
fn value_pretty(v: &serde_json::Value) -> (s: String)
    ensures
        s@ == indented(value_document(*v)),
{
    serde_json::to_string_pretty(v).unwrap()
}

/// The compact JSON text of a document, as bytes.
pub fn encode(j: &Json) -> (b: Vec<u8>)
    ensures
        b@ == compact(document(j@)),
{
    let v = value_of(j);
    value_bytes(&v)
}

/// The compact JSON text of a document.
pub fn compact_form(j: &Json) -> (s: String)
    ensures
        s@ == compact_text(document(j@)),
{
    let v = value_of(j);
    value_text(&v)
}

/// The indented JSON text of a document.
pub fn pretty(j: &Json) -> (s: String)
    ensures
        s@ == indented(document(j@)),
{
    let v = value_of(j);
    value_pretty(&v)
}

/// The tree of a `serde_json::Value`, with the members of an object in the order of their keys.
pub uninterp spec fn value_tree(v: serde_json::Value) -> JsonView;

/// The tree that a JSON text writes down, or what is wrong with the text.
pub uninterp spec fn parsed_tree(s: Seq<char>) -> Result<JsonView, Seq<char>>;

/// The tree that bytes write down as JSON, or what is wrong with them.
pub uninterp spec fn parsed_bytes(b: Seq<u8>) -> Result<JsonView, Seq<char>>;

/// Reads a `serde_json::Value` into a tree, one node for one node; a number is told by
/// `as_u64`, `as_i64` and `as_f64`. Claims that the tree depends on the value alone.
#[verifier::external_body]
fn tree_of(v: &serde_json::Value) -> (j: Json)
    ensures
        j@ == value_tree(*v),
{
    match v {
        Value::Null => Json::Null,
        Value::Bool(b) => Json::Bool(*b),
        Value::Number(n) => match (n.as_u64(), n.as_i64()) {
            (Some(u), _) => Json::Unsigned(u),
            (_, Some(i)) => Json::Negative(i),
            _ => fraction(n.as_f64().unwrap_or_default().to_bits(), n.to_string()),
        },
        Value::String(s) => Json::Text(s.clone()),
        Value::Array(a) => Json::Array(a.iter().map(tree_of).collect()),
        Value::Object(m) => Json::Object(m.iter().map(|(k, x)| member(k, tree_of(x))).collect()),
    }
}

/// `serde_json::from_str` into a `serde_json::Value`, with the text of its error. Claims that the text
/// alone decides whether it is read, which tree the value has, and what the error says.
#[verifier::external_body]
fn parse_value_text(s: &str) -> (r: Result<serde_json::Value, String>)
    ensures
        match r {
            Ok(v) => parsed_tree(s@) == Ok::<JsonView, Seq<char>>(value_tree(v)),
            Err(e) => parsed_tree(s@) == Err::<JsonView, Seq<char>>(e@),
        },
{
    serde_json::from_str(s).map_err(|e| e.to_string())
}

/// `serde_json::from_slice` into a `serde_json::Value`, with the text of its error. Claims that the
/// bytes alone decide whether they are read, which tree the value has, and what the error says.
#[verifier::external_body]
fn parse_value_bytes(b: &[u8]) -> (r: Result<serde_json::Value, String>)
    ensures
        match r {
            Ok(v) => parsed_bytes(b@) == Ok::<JsonView, Seq<char>>(value_tree(v)),
            Err(e) => parsed_bytes(b@) == Err::<JsonView, Seq<char>>(e@),
        },
{
    serde_json::from_slice(b).map_err(|e| e.to_string())
}

/// What is wrong with a JSON text as a list of texts; nothing where it is one.
pub uninterp spec fn list_fault(s: Seq<char>) -> Seq<char>;

/// `serde_json::from_str` into a list of texts, of which only the text of the error is handed out.
/// Claims that the text alone decides what the error says.
#[verifier::external_body]
fn fault_of_list(s: &str) -> (r: String)
    ensures
        r@ == list_fault(s@),
{
    serde_json::from_str::<Vec<String>>(s).err().map(|e| e.to_string()).unwrap_or_default()
}

/// What is wrong with a document as a list of texts.
pub fn not_a_list(j: &Json) -> (r: String)
    ensures
        r@ == list_fault(compact_text(document(j@))),
{
    fault_of_list(compact_form(j).as_str())
}

/// Reads a JSON text.
pub fn read(s: &str) -> (r: Result<Json, String>)
    ensures
        match parsed_tree(s@) {
            Ok(v) => r is Ok && r->Ok_0@ == v,
            Err(e) => r is Err && r->Err_0@ == e,
        },
{
    match parse_value_text(s) {
        Ok(v) => Ok(tree_of(&v)),
        Err(e) => Err(e),
    }
}

/// Reads bytes as JSON.
pub fn read_bytes(b: &[u8]) -> (r: Result<Json, String>)
    ensures
        match parsed_bytes(b@) {
            Ok(v) => r is Ok && r->Ok_0@ == v,
            Err(e) => r is Err && r->Err_0@ == e,
        },
{
    match parse_value_bytes(b) {
        Ok(v) => Ok(tree_of(&v)),
        Err(e) => Err(e),
    }
}

/// Reads a JSON text, where it is one.
pub fn parse(s: &str) -> (r: Option<Json>)
    ensures
        match parsed_tree(s@) {
            Ok(v) => r is Some && r->0@ == v,
            Err(_) => r is None,
        },
{
    match read(s) {
        Ok(j) => Some(j),
        Err(_) => None,
    }
}

/// The JSON text of a string, quotation marks and escapes included.
pub open spec fn quoted(s: Seq<char>) -> Seq<char> {
    compact_text(Document::Text(s))
}

/// The JSON text of a string, quotation marks and escapes included.
pub fn quote(s: &str) -> (r: String)
    ensures
        r@ == quoted(s@),
        r@.len() >= 2,
        r@[0] == '"',
        r@.last() == '"',
{
    let v = value_of(&text(s));
    value_text(&v)
}

/// Whether a character is a lower-case hexadecimal digit.
pub open spec fn hex_digit(c: char) -> bool {
    '0' <= c <= '9' || 'a' <= c <= 'f'
}

/// The SHA-256 digest of bytes in lower-case hexadecimal.
pub uninterp spec fn sha256_hex(bytes: Seq<u8>) -> Seq<char>;

/// `sha2::Sha256::digest`, written in lower-case hexadecimal. Claims that the text depends on the
/// bytes alone and that the 32 bytes of the digest make 64 hexadecimal digits.
#[verifier::external_body]
pub(crate) fn sha256(bytes: &[u8]) -> (s: String)
    ensures
        s@ == sha256_hex(bytes@),
        s@.len() == 64,
        forall|i: int| 0 <= i < 64 ==> hex_digit(#[trigger] s@[i]),
{
    format!("{:x}", sha2::Sha256::digest(bytes))
}

/// The base64 text of bytes, in the standard alphabet with padding.
pub uninterp spec fn base64_text(bytes: Seq<u8>) -> Seq<char>;

/// The bytes that a base64 text denotes, where it denotes any.
pub uninterp spec fn base64_bytes(text: Seq<char>) -> Option<Seq<u8>>;

/// `base64`'s standard engine, `encode`. Claims that the text depends on the bytes alone. The
/// engine panics where the length of the text overflows, so longer inputs are left out.
#[verifier::external_body]
pub(crate) fn base64_encode(bytes: &[u8]) -> (s: String)
    requires
        bytes@.len() <= usize::MAX / 4,
    ensures
        s@ == base64_text(bytes@),
{
    base64::engine::general_purpose::STANDARD.encode(bytes)
}

/// `base64`'s standard engine, `decode`. Claims that success and the bytes depend on the text
/// alone.
#[verifier::external_body]
pub(crate) fn base64_decode(text: &str) -> (r: Option<Vec<u8>>)
    ensures
        r is Some <==> base64_bytes(text@) is Some,
        r is Some ==> r->0@ == base64_bytes(text@)->0,
{
    base64::engine::general_purpose::STANDARD.decode(text).ok()
}

/// What std says of bytes that are not UTF-8.
pub uninterp spec fn utf8_fault(bytes: Seq<u8>) -> Seq<char>;

/// `std::str::from_utf8`, with the text of its error: succeeds exactly on valid UTF-8, and the text
/// has those bytes. Claims that the bytes alone decide what the error says.
#[verifier::external_body]
pub(crate) fn utf8_text(bytes: &[u8]) -> (r: Result<String, String>)
    ensures
        r is Ok <==> valid_utf8(bytes@),
        r is Ok ==> encode_utf8(r->Ok_0@) == bytes@,
        r is Err ==> r->Err_0@ == utf8_fault(bytes@),
{
    std::str::from_utf8(bytes).map(str::to_owned).map_err(|e| e.to_string())
}

/// The quoted notation that std gives a text for debugging.
pub uninterp spec fn debug_text(s: Seq<char>) -> Seq<char>;

/// The `Debug` notation of a text. Claims that it depends on the text alone.
#[verifier::external_body]
pub(crate) fn debug_quoted(s: &str) -> (r: String)
    ensures
        r@ == debug_text(s@),
{
    format!("{s:?}")
}

/// The moment that an RFC 3339 timestamp denotes, in nanoseconds since 1970, or what is wrong with it.
pub uninterp spec fn timestamp_nanos(text: Seq<char>) -> Result<int, Seq<char>>;

/// `time::OffsetDateTime::parse` with the RFC 3339 format, then `unix_timestamp_nanos`, with the text
/// of its error. Claims that success, the moment and the error depend on the text alone, and that the
/// moment lies within the years that the crate represents (here: less than 2^63 milliseconds from
/// 1970).
#[verifier::external_body]
pub(crate) fn parse_timestamp(text: &str) -> (r: Result<i128, String>)
    ensures
        match timestamp_nanos(text@) {
            Ok(n) => r is Ok && r->Ok_0 == n,
            Err(e) => r is Err && r->Err_0@ == e,
        },
        r is Ok ==> -9_223_372_036_854_775_000_000_000 < r->Ok_0 < 9_223_372_036_854_775_000_000_000,
{
    let format = time::format_description::well_known::Rfc3339;
    let moment = time::OffsetDateTime::parse(text, &format);
    moment.map(|t| t.unix_timestamp_nanos()).map_err(|e| e.to_string())
}

/// The parts of a URL that decide whether it may be fetched.
pub struct UrlParts {
    pub scheme: String,
    pub host: Option<String>,
    pub username: String,
    pub password: Option<String>,
    pub query: Option<String>,
    pub fragment: Option<String>,
}

pub struct UrlView {
    pub scheme: Seq<char>,
    pub host: Option<Seq<char>>,
    pub username: Seq<char>,
    pub password: Option<Seq<char>>,
    pub query: Option<Seq<char>>,
    pub fragment: Option<Seq<char>>,
}

impl View for UrlParts {
    type V = UrlView;

    open spec fn view(&self) -> UrlView {
        UrlView {
            scheme: self.scheme@,
            host: opt_view(self.host),
            username: self.username@,
            password: opt_view(self.password),
            query: opt_view(self.query),
            fragment: opt_view(self.fragment),
        }
    }
}

/// The parts of the URL that a text denotes, or what is wrong with it.
pub uninterp spec fn url_parts(text: Seq<char>) -> Result<UrlView, Seq<char>>;

/// `reqwest::Url::parse`, with the scheme, host, user name, password, query and fragment of the
/// result, or the text of its error. Claims that success, the parts and the error depend on the text
/// alone.
#[verifier::external_body]
pub(crate) fn parse_url(text: &str) -> (r: Result<UrlParts, String>)
    ensures
        match url_parts(text@) {
            Ok(u) => r is Ok && r->Ok_0@ == u,
            Err(e) => r is Err && r->Err_0@ == e,
        },
{
    let url = reqwest::Url::parse(text).map_err(|e| e.to_string())?;
    Ok(UrlParts {
        scheme: url.scheme().to_owned(),
        host: url.host_str().map(str::to_owned),
        username: url.username().to_owned(),
        password: url.password().map(str::to_owned),
        query: url.query().map(str::to_owned),
        fragment: url.fragment().map(str::to_owned),
    })
}

/// The image formats that the gateway tells apart.
#[derive(Clone, Copy, Debug, PartialEq, Eq, Structural)]
pub enum Picture {
    Png,
    Jpeg,
    WebP,
    Other,
}

/// The format that the first bytes of a file announce, or what is said where they announce none.
pub uninterp spec fn picture_format(bytes: Seq<u8>) -> Result<Picture, Seq<char>>;

/// Whether a file begins with some bytes.
pub open spec fn leads(bytes: Seq<u8>, first: Seq<u8>) -> bool {
    first.len() <= bytes.len() && bytes.take(first.len() as int) == first
}

/// The first bytes of a PNG file.
pub open spec fn png_signature() -> Seq<u8> {
    seq![0x89u8, 0x50u8, 0x4eu8, 0x47u8, 0x0du8, 0x0au8, 0x1au8, 0x0au8]
}

/// The first bytes of a JPEG file.
pub open spec fn jpeg_signature() -> Seq<u8> {
    seq![0xffu8, 0xd8u8, 0xffu8]
}

/// Whether a file begins as a WebP file: `RIFF`, a length, `WEBP`.
pub open spec fn webp_signature(bytes: Seq<u8>) -> bool {
    bytes.len() >= 12 && leads(bytes, seq![0x52u8, 0x49u8, 0x46u8, 0x46u8]) && leads(
        bytes.skip(8),
        seq![0x57u8, 0x45u8, 0x42u8, 0x50u8],
    )
}

/// `image::guess_format`, with every format but three taken together, and the text of its error.
/// Claims that the format and the error depend on the bytes alone, and by which first bytes the three
/// are told: the PNG signature, the JPEG start of image, and `RIFF` with `WEBP` behind the length.
#[verifier::external_body]
pub(crate) fn guess_picture(bytes: &[u8]) -> (r: Result<Picture, String>)
    ensures
        match picture_format(bytes@) {
            Ok(p) => r is Ok && r->Ok_0 == p,
            Err(e) => r is Err && r->Err_0@ == e,
        },
        (r is Ok && r->Ok_0 == Picture::Png) == leads(bytes@, png_signature()),
        (r is Ok && r->Ok_0 == Picture::Jpeg) == leads(bytes@, jpeg_signature()),
        (r is Ok && r->Ok_0 == Picture::WebP) == webp_signature(bytes@),
{
    match image::guess_format(bytes) {
        Ok(image::ImageFormat::Png) => Ok(Picture::Png),
        Ok(image::ImageFormat::Jpeg) => Ok(Picture::Jpeg),
        Ok(image::ImageFormat::WebP) => Ok(Picture::WebP),
        Ok(_) => Ok(Picture::Other),
        Err(e) => Err(e.to_string()),
    }
}

/// Width and height that the header of a PNG, JPEG or WebP file declares, or what is wrong with it.
pub uninterp spec fn picture_size(bytes: Seq<u8>, format: Picture) -> Result<(u32, u32), Seq<char>>;

/// `image::ImageReader::with_format(..).into_dimensions()`, with the text of its error. Claims that
/// success, the size and the error depend on the bytes and the format alone.
#[verifier::external_body]
pub(crate) fn measure_picture(bytes: &[u8], format: Picture) -> (r: Result<(u32, u32), String>)
    requires
        format != Picture::Other,
    ensures
        match picture_size(bytes@, format) {
            Ok(size) => r is Ok && r->Ok_0 == size,
            Err(e) => r is Err && r->Err_0@ == e,
        },
{
    let format = match format {
        Picture::Png => image::ImageFormat::Png,
        Picture::Jpeg => image::ImageFormat::Jpeg,
        _ => image::ImageFormat::WebP,
    };
    let reader = image::ImageReader::with_format(std::io::Cursor::new(bytes), format);
    reader.into_dimensions().map_err(|e| e.to_string())
}

/// What is wrong with a PNG file that is decoded with at most so many bytes of memory.
pub uninterp spec fn png_fault(bytes: Seq<u8>, memory: u64) -> Option<Seq<char>>;

/// `image::ImageReader::decode` of a PNG under `image::Limits` with that `max_alloc`, with the text of
/// its error. Claims that success and the error depend on the bytes and the limit alone.
#[verifier::external_body]
pub(crate) fn decode_png(bytes: &[u8], memory: u64) -> (r: Option<String>)
    ensures
        opt_view(r) == png_fault(bytes@, memory),
{
    let cursor = std::io::Cursor::new(bytes);
    let mut reader = image::ImageReader::with_format(cursor, image::ImageFormat::Png);
    let mut limits = image::Limits::default();
    limits.max_alloc = Some(memory);
    reader.limits(limits);
    reader.decode().err().map(|e| e.to_string())
}

/// Whether a text has the form of a hyphenated UUID.
pub open spec fn uuid_form(s: Seq<char>) -> bool {
    s.len() == 36 && forall|i: int|
        0 <= i < 36 ==> if i == 8 || i == 13 || i == 18 || i == 23 {
            #[trigger] s[i] == '-'
        } else {
            hex_digit(s[i])
        }
}

/// The hyphenated form of the UUID that a text denotes in one of the notations in use.
pub uninterp spec fn canonical_uuid(s: Seq<char>) -> Option<Seq<char>>;

/// `uuid::Uuid::parse_str`, written out again. Claims that success and the result depend on the text
/// alone, and that the result is the hyphenated lower-case form.
#[verifier::external_body]
pub(crate) fn parse_uuid(s: &str) -> (r: Option<String>)
    ensures
        opt_view(r) == canonical_uuid(s@),
        r is Some ==> uuid_form(r->0@),
{
    uuid::Uuid::parse_str(s).ok().map(|id| id.to_string())
}

/// `uuid::Uuid::new_v4`, written out. Claims the form alone: the value is random.
#[verifier::external_body]
pub(crate) fn random_uuid() -> (s: String)
    ensures
        uuid_form(s@),
{
    uuid::Uuid::new_v4().to_string()
}

/// Milliseconds since 1970 by `std::time::SystemTime`, or zero for a clock before 1970.
#[verifier::external_body]
pub(crate) fn clock_millis() -> u128 {
    std::time::SystemTime::now().duration_since(std::time::UNIX_EPOCH).unwrap_or_default().as_millis()
}

} // verus!
