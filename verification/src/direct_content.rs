//! Final answers as they are kept, independent of their delivery.
use crate::codec::{
    canonical_uuid, hex_digit, parse_uuid, sha256_hex, utf8_fault, utf8_text, uuid_form,
};
use crate::domain::digest;
use crate::paths::{components, join_path, path_components, path_joined, same_path};
use crate::text::{byte_len, chars_of, same, text_of, utf8_len, views};
use vstd::prelude::*;
use vstd::string::*;
use vstd::utf8::*;

verus! {

/// Where an answer is kept, and what it must be.
#[derive(Debug)]
pub struct StoredAnswer {
    pub relative_path: String,
    pub sha256: String,
    pub bytes: usize,
}

/// Where an image is kept, and what it must be.
#[derive(Debug, PartialEq, Eq)]
pub struct StoredImage {
    pub relative_path: String,
    pub sha256: String,
    pub bytes: usize,
}

/// Where an artifact is kept, and what it must be.
#[derive(Debug)]
pub struct StoredArtifact {
    pub relative_path: String,
    pub sha256: String,
    pub bytes: usize,
}

/// The directory of answers.
#[derive(Debug)]
pub struct DirectContent {
    pub root: String,
}

/// What forbids keeping an answer.
pub open spec fn save_objection(request: Seq<char>, text: Seq<char>, max: nat) -> Option<Seq<char>> {
    if canonical_uuid(request) is None {
        Some("invalid request ID"@)
    } else if utf8_len(text) > max {
        Some("answer exceeds storage limit"@)
    } else {
        None
    }
}

/// The file name of an answer.
pub open spec fn answer_file(request: Seq<char>) -> Seq<char> {
    canonical_uuid(request)->0 + ".txt"@
}

/// Whether a record is that of an answer.
pub open spec fn records(saved: StoredAnswer, request: Seq<char>, text: Seq<char>) -> bool {
    &&& saved.relative_path@ == "direct-answers/"@ + answer_file(request)
    &&& saved.sha256@ == sha256_hex(encode_utf8(text))
    &&& saved.bytes == utf8_len(text)
}

/// What is wrong with the path of an answer.
pub open spec fn answer_path_objection(path: Seq<char>) -> Option<Seq<char>> {
    let c = components(path);
    if c.len() != 2 || c[0] != "direct-answers"@ {
        Some("invalid answer path"@)
    } else if c[1] == ".."@ {
        Some("answer filename missing"@)
    } else {
        None
    }
}

/// What is wrong with the bytes of an answer.
pub open spec fn content_objection(saved: StoredAnswer, bytes: Seq<u8>) -> Option<Seq<char>> {
    if bytes.len() != saved.bytes || sha256_hex(bytes) != saved.sha256@ {
        Some("answer content changed"@)
    } else if !valid_utf8(bytes) {
        Some(utf8_fault(bytes))
    } else {
        None
    }
}

impl DirectContent {
    /// The directory of answers below the private state. `canonical` is its path without links.
    pub fn new(state_dir: &str, canonical: &str) -> (r: Result<DirectContent, &'static str>)
        ensures
            ({
                let root = path_joined(state_dir@, "direct-answers"@);
                if components(canonical@) == components(root) {
                    r is Ok && r->Ok_0.root@ == root
                } else {
                    r is Err && r->Err_0@ == "answer store path changed"@
                }
            }),
    {
        let root = join_path(state_dir, "direct-answers");
        if same_path(canonical, root.as_str()) {
            Ok(DirectContent { root })
        } else {
            Err("answer store path changed")
        }
    }

    /// The record of an answer that is to be kept.
    pub fn save_answer(request_id: &str, text: &str, max_bytes: usize) -> (r: Result<
        StoredAnswer,
        &'static str,
    >)
        ensures
            match save_objection(request_id@, text@, max_bytes as nat) {
                Some(e) => r is Err && r->Err_0@ == e,
                None => r is Ok && records(r->Ok_0, request_id@, text@),
            },
    {
        let id = match parse_uuid(request_id) {
            Some(id) => id,
            None => return Err("invalid request ID"),
        };
        if byte_len(text) > max_bytes {
            return Err("answer exceeds storage limit");
        }
        let name = id.concat(".txt");
        Ok(
            StoredAnswer {
                relative_path: String::from_str("direct-answers/").concat(name.as_str()),
                sha256: digest(text.as_bytes()),
                bytes: byte_len(text),
            },
        )
    }

    /// An answer that is kept already must be the same.
    pub fn check_kept(kept: &str, text: &str) -> (r: Result<(), &'static str>)
        ensures
            r is Ok <==> kept@ == text@,
            r is Err ==> r->Err_0@ == "stored answer differs from final Codex answer"@,
    {
        if same(kept, text) {
            Ok(())
        } else {
            Err("stored answer differs from final Codex answer")
        }
    }

    /// The name of the file that a record names.
    pub fn answer_name(saved: &StoredAnswer) -> (r: Result<String, &'static str>)
        ensures
            match answer_path_objection(saved.relative_path@) {
                Some(e) => r is Err && r->Err_0@ == e,
                None => r is Ok && r->Ok_0@ == components(saved.relative_path@)[1],
            },
    {
        let parts = path_components(saved.relative_path.as_str());
        let ghost c = components(saved.relative_path@);
        assert(views(parts@).len() == parts@.len());
        if parts.len() != 2 {
            return Err("invalid answer path");
        }
        assert(c[0] == parts@[0]@ && c[1] == parts@[1]@);
        if !same(parts[0].as_str(), "direct-answers") {
            return Err("invalid answer path");
        }
        if same(parts[1].as_str(), "..") {
            return Err("answer filename missing");
        }
        Ok(parts[1].clone())
    }

    /// Whether the file of an answer has its size.
    pub fn check_file(saved: &StoredAnswer, is_file: bool, len: u64, max_bytes: usize) -> (r: Result<
        (),
        &'static str,
    >)
        ensures
            r is Ok <==> is_file && len == saved.bytes && saved.bytes <= max_bytes,
            r is Err ==> r->Err_0@ == "answer size or type changed"@,
    {
        if is_file && len == saved.bytes as u64 && saved.bytes <= max_bytes {
            Ok(())
        } else {
            Err("answer size or type changed")
        }
    }

    /// The answer that the bytes of its file are.
    pub fn read_answer(saved: &StoredAnswer, bytes: &Vec<u8>) -> (r: Result<String, String>)
        ensures
            match content_objection(*saved, bytes@) {
                Some(e) => r is Err && r->Err_0@ == e,
                None => r is Ok && encode_utf8(r->Ok_0@) == bytes@,
            },
    {
        if bytes.len() != saved.bytes || !same(
            digest(bytes.as_slice()).as_str(),
            saved.sha256.as_str(),
        ) {
            return Err(String::from_str("answer content changed"));
        }
        match utf8_text(bytes.as_slice()) {
            Ok(s) => Ok(s),
            Err(e) => Err(e),
        }
    }
}

/// What was kept is read back: the bytes of a kept answer pass the check of its record and are that
/// answer again.
pub proof fn kept_answers_are_read_back(
    saved: StoredAnswer,
    request: Seq<char>,
    text: Seq<char>,
    again: Seq<char>,
)
    requires
        records(saved, request, text),
        encode_utf8(again) == encode_utf8(text),
    ensures
        content_objection(saved, encode_utf8(text)) is None,
        again == text,
{
    encode_utf8_valid_utf8(text);
    crate::text::lemma_utf8_injective(again, text);
}

/// The hyphenated form of 32 hexadecimal digits.
pub open spec fn hyphenated(hex: Seq<char>) -> Seq<char> {
    hex.subrange(0, 8).push('-') + hex.subrange(8, 12).push('-') + hex.subrange(12, 16).push('-')
        + hex.subrange(16, 20).push('-') + hex.subrange(20, 32)
}

/// The identity in the form of a UUID that the first 32 of some hexadecimal digits make.
pub fn uuid_from_hex(hex: &str) -> (r: String)
    requires
        hex@.len() >= 32,
        forall|i: int| 0 <= i < 32 ==> hex_digit(#[trigger] hex@[i]),
    ensures
        r@ == hyphenated(hex@.take(32)),
        uuid_form(r@),
{
    let v = chars_of(hex);
    let mut out = text_of(&v, 0, 8);
    out.push('-');
    let second = text_of(&v, 8, 12);
    out.append(second.as_str());
    out.push('-');
    let third = text_of(&v, 12, 16);
    out.append(third.as_str());
    out.push('-');
    let fourth = text_of(&v, 16, 20);
    out.append(fourth.as_str());
    out.push('-');
    let fifth = text_of(&v, 20, 32);
    out.append(fifth.as_str());
    assert(out@ =~= hyphenated(hex@.take(32)));
    assert(uuid_form(out@)) by {
        assert forall|i: int| 0 <= i < 36 implies if i == 8 || i == 13 || i == 18 || i == 23 {
            #[trigger] out@[i] == '-'
        } else {
            hex_digit(out@[i])
        } by {
            if i < 8 {
                assert(out@[i] == hex@[i]);
            } else if 8 < i < 13 {
                assert(out@[i] == hex@[i - 1]);
            } else if 13 < i < 18 {
                assert(out@[i] == hex@[i - 2]);
            } else if 18 < i < 23 {
                assert(out@[i] == hex@[i - 3]);
            } else if i > 23 {
                assert(out@[i] == hex@[i - 4]);
            }
        }
    }
    out
}

} // verus!
