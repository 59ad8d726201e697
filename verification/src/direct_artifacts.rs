//! Files of a conversation that are kept and sent: which file a call names, and which version.
use crate::codec::{compact, document, encode, sha256_hex};
use crate::codex_execution::text_or_null;
use crate::direct_content::{hyphenated, uuid_from_hex, StoredArtifact};
use crate::domain::digest;
use crate::json::{array3, text, Json, JsonView};
use crate::text::{
    borrowed, byte_len, chars_of, control, is_control, opt_str, opt_view, same, same_option,
    text_of, trim, trimmed, utf8_len,
};
use vstd::prelude::*;

verus! {

/// A file version that is kept for a conversation.
#[derive(Debug)]
pub struct Artifact {
    pub id: String,
    pub request_id: Option<String>,
    pub thread_id: String,
    pub source_path: String,
    pub display_name: String,
    pub saved: StoredArtifact,
}

/// The file that a call names.
pub struct CaptureTarget<'a> {
    pub thread_id: &'a str,
    pub request_id: Option<&'a str>,
    pub call_id: &'a str,
    pub relative: &'a str,
    pub display_name: Option<&'a str>,
}

/// Whether a text can be the shown name of a file.
pub open spec fn display_form(s: Seq<char>) -> bool {
    s.len() > 0 && utf8_len(s) <= 120 && forall|i: int|
        0 <= i < s.len() ==> #[trigger] s[i] != '/' && s[i] != '\\' && !control(s[i])
}

/// The shown name of a file, without the white space around it.
pub fn name(input: &str) -> (r: Result<String, &'static str>)
    ensures
        display_form(trimmed(input@)) ==> r is Ok && r->Ok_0@ == trimmed(input@),
        !display_form(trimmed(input@)) ==> r is Err && r->Err_0@
            == "artifact display name is invalid"@,
{
    let value = trim(input);
    if value.as_str().is_empty() || byte_len(value.as_str()) > 120 {
        return Err("artifact display name is invalid");
    }
    let v = chars_of(value.as_str());
    let mut i: usize = 0;
    while i < v.len()
        invariant
            i <= v@.len(),
            v@ == value@,
            value@ == trimmed(input@),
            forall|j: int|
                0 <= j < i ==> #[trigger] value@[j] != '/' && value@[j] != '\\' && !control(value@[j]),
        decreases v@.len() - i,
    {
        assert(value@[i as int] == v@[i as int]);
        if v[i] == '/' || v[i] == '\\' || is_control(v[i]) {
            return Err("artifact display name is invalid");
        }
        i += 1;
    }
    Ok(value)
}

/// What stands behind the last slash.
pub open spec fn last_segment(s: Seq<char>) -> Seq<char> {
    s.skip(crate::files::behind_last(s, '/', s.len()) as int)
}

fn find_last_segment(s: &str) -> (r: String)
    ensures
        r@ == last_segment(s@),
{
    let v = chars_of(s);
    let mut n: usize = v.len();
    while n > 0 && v[n - 1] != '/'
        invariant
            n <= v@.len(),
            v@ == s@,
            crate::files::behind_last(s@, '/', s@.len()) == crate::files::behind_last(
                s@,
                '/',
                n as nat,
            ),
        decreases n,
    {
        n -= 1;
    }
    let r = text_of(&v, n, v.len());
    assert(r@ =~= last_segment(s@));
    r
}

/// The name under which a file is to be shown: the one that is given, or that of the file.
pub open spec fn asked_name(t: CaptureTarget) -> Seq<char> {
    match t.display_name {
        Some(s) => s@,
        None => last_segment(t.relative@),
    }
}

/// What is wrong with a call that names a file.
pub open spec fn capture_objection(t: CaptureTarget) -> Option<Seq<char>> {
    if t.call_id@.len() == 0 || utf8_len(t.call_id@) > 256 {
        Some("artifact call ID is invalid"@)
    } else if t.relative@.len() == 0 || utf8_len(t.relative@) > 1024 {
        Some("artifact path is invalid"@)
    } else if !display_form(trimmed(asked_name(t))) {
        Some("artifact display name is invalid"@)
    } else {
        None
    }
}

/// What follows from a call that names a file.
pub enum Capture {
    /// The call was answered before, with this version.
    Again(Artifact),
    /// Read the file and keep it, under this shown name.
    Read(String),
}

/// What forbids taking a file, given what was kept for the same call before and whether an earlier
/// delivery of the same file is unconfirmed.
pub open spec fn keep_objection(
    t: CaptureTarget,
    previous: Option<Artifact>,
    unresolved: bool,
) -> Option<Seq<char>> {
    if capture_objection(t) is Some {
        capture_objection(t)
    } else if previous is Some {
        if opt_view(previous->0.request_id) == opt_str(t.request_id) && previous->0.source_path@
            == t.relative@ && previous->0.display_name@ == trimmed(asked_name(t)) {
            None
        } else {
            Some("artifact call ID changed its request or path"@)
        }
    } else if t.request_id is None && unresolved {
        Some("previous artifact delivery is still unconfirmed"@)
    } else {
        None
    }
}

/// What follows from a call that names a file. The same call always gives the same version.
pub fn capture(t: &CaptureTarget, previous: Option<Artifact>, unresolved: bool) -> (r: Result<
    Capture,
    &'static str,
>)
    ensures
        match keep_objection(*t, previous, unresolved) {
            Some(e) => r is Err && r->Err_0@ == e,
            None => match previous {
                Some(a) => r is Ok && r->Ok_0 is Again && r->Ok_0->Again_0 == a,
                None => r is Ok && r->Ok_0 is Read && r->Ok_0->Read_0@ == trimmed(asked_name(*t)),
            },
        },
{
    if t.call_id.is_empty() || byte_len(t.call_id) > 256 {
        return Err("artifact call ID is invalid");
    }
    if t.relative.is_empty() || byte_len(t.relative) > 1024 {
        return Err("artifact path is invalid");
    }
    let display = match t.display_name {
        Some(s) => name(s),
        None => {
            let last = find_last_segment(t.relative);
            name(last.as_str())
        },
    };
    let display = match display {
        Ok(s) => s,
        Err(e) => return Err(e),
    };
    match previous {
        Some(a) => {
            if same_option(borrowed(&a.request_id), t.request_id) && same(
                a.source_path.as_str(),
                t.relative,
            ) && same(a.display_name.as_str(), display.as_str()) {
                Ok(Capture::Again(a))
            } else {
                Err("artifact call ID changed its request or path")
            }
        },
        None => {
            if t.request_id.is_none() && unresolved {
                Err("previous artifact delivery is still unconfirmed")
            } else {
                Ok(Capture::Read(display))
            }
        },
    }
}

/// The digest of what identifies a call in a conversation.
pub open spec fn call_digest(thread: Seq<char>, request: Option<Seq<char>>, call: Seq<char>) -> Seq<char> {
    sha256_hex(
        compact(
            document(
                JsonView::Array(
                    seq![JsonView::Text(thread), text_or_null(request), JsonView::Text(call)],
                ),
            ),
        ),
    )
}

/// The identity of the file version that a call keeps.
pub fn artifact_id(thread: &str, request: Option<&str>, call: &str) -> (r: String)
    ensures
        r@ == hyphenated(call_digest(thread@, opt_str(request), call@).take(32)),
        crate::codec::uuid_form(r@),
{
    let request_json = match request {
        Some(s) => text(s),
        None => Json::Null,
    };
    assert(request_json@ == text_or_null(opt_str(request)));
    let key = digest(encode(&array3(text(thread), request_json, text(call))).as_slice());
    uuid_from_hex(key.as_str())
}

/// Whether a file belongs to a request that is executed in its conversation.
pub fn check_live(bound: &str, thread: &str, state: &str) -> (r: Result<(), &'static str>)
    ensures
        r is Ok <==> bound@ == thread@ && (state@ == "RUNNING"@ || state@ == "APPROVAL_REQUIRED"@
            || state@ == "CANCEL_REQUESTED"@),
        r is Err ==> r->Err_0@ == "artifact does not belong to the live request"@,
{
    if same(bound, thread) && (same(state, "RUNNING") || same(state, "APPROVAL_REQUIRED") || same(
        state,
        "CANCEL_REQUESTED",
    )) {
        Ok(())
    } else {
        Err("artifact does not belong to the live request")
    }
}

/// Whether two records are of the same file version.
pub open spec fn same_version(a: Artifact, b: Artifact) -> bool {
    a.id@ == b.id@ && opt_view(a.request_id) == opt_view(b.request_id) && a.source_path@
        == b.source_path@ && a.display_name@ == b.display_name@ && a.saved.relative_path@
        == b.saved.relative_path@ && a.saved.sha256@ == b.saved.sha256@ && a.saved.bytes
        == b.saved.bytes
}

/// Whether what is stored for a call already is what is to be stored now.
pub fn check_existing(existing: &Artifact, artifact: &Artifact) -> (r: Result<(), &'static str>)
    ensures
        r is Ok <==> same_version(*existing, *artifact),
        r is Err ==> r->Err_0@ == "artifact call ID changed content or destination"@,
{
    if same(existing.id.as_str(), artifact.id.as_str()) && same_option(
        borrowed(&existing.request_id),
        borrowed(&artifact.request_id),
    ) && same(existing.source_path.as_str(), artifact.source_path.as_str()) && same(
        existing.display_name.as_str(),
        artifact.display_name.as_str(),
    ) && same(
        existing.saved.relative_path.as_str(),
        artifact.saved.relative_path.as_str(),
    ) && same(existing.saved.sha256.as_str(), artifact.saved.sha256.as_str())
        && existing.saved.bytes == artifact.saved.bytes {
        Ok(())
    } else {
        Err("artifact call ID changed content or destination")
    }
}

} // verus!
