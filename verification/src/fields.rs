//! Checks of the fields of JSON objects by name.
use crate::json::{alike, Json, JsonView};
use crate::text::{byte_len, utf8_len};
use vstd::prelude::*;
use vstd::std_specs::vec::*;
use vstd::string::*;

verus! {

/// How many bytes a text from outside may have.
pub const MAX_FIELD_BYTES: usize = 8192;

/// The names in a list.
pub open spec fn names(v: Seq<&str>) -> Seq<Seq<char>> {
    v.map_values(|s: &str| s@)
}

/// Whether an object has every field of a list.
pub open spec fn has_all(v: JsonView, keys: Seq<Seq<char>>) -> bool {
    forall|i: int| 0 <= i < keys.len() ==> v.get(#[trigger] keys[i]) is Some
}

pub fn has_fields(v: &Json, keys: &Vec<&str>) -> (r: bool)
    ensures
        r == has_all(v@, names(keys@)),
{
    let ghost all = names(keys@);
    let mut i: usize = 0;
    while i < keys.len()
        invariant
            i <= keys@.len(),
            all == names(keys@),
            forall|j: int| 0 <= j < i ==> v@.get(#[trigger] all[j]) is Some,
        decreases keys@.len() - i,
    {
        assert(all[i as int] == keys@[i as int]@);
        if v.get(keys[i]).is_none() {
            return false;
        }
        i += 1;
    }
    true
}

/// Whether no field of a list has a value.
pub open spec fn all_null(v: JsonView, keys: Seq<Seq<char>>) -> bool {
    forall|i: int| 0 <= i < keys.len() ==> v.at(#[trigger] keys[i]) == JsonView::Null
}

pub fn are_null(v: &Json, keys: &Vec<&str>) -> (r: bool)
    ensures
        r == all_null(v@, names(keys@)),
{
    let ghost all = names(keys@);
    let mut i: usize = 0;
    while i < keys.len()
        invariant
            i <= keys@.len(),
            all == names(keys@),
            forall|j: int| 0 <= j < i ==> v@.at(#[trigger] all[j]) == JsonView::Null,
        decreases keys@.len() - i,
    {
        assert(all[i as int] == keys@[i as int]@);
        if !v.at(keys[i]).is_null() {
            return false;
        }
        i += 1;
    }
    true
}

/// Whether every field of a list is yes or no.
pub open spec fn all_boolean(v: JsonView, keys: Seq<Seq<char>>) -> bool {
    forall|i: int| 0 <= i < keys.len() ==> v.at(#[trigger] keys[i]) is Bool
}

pub fn are_boolean(v: &Json, keys: &Vec<&str>) -> (r: bool)
    ensures
        r == all_boolean(v@, names(keys@)),
{
    let ghost all = names(keys@);
    let mut i: usize = 0;
    while i < keys.len()
        invariant
            i <= keys@.len(),
            all == names(keys@),
            forall|j: int| 0 <= j < i ==> v@.at(#[trigger] all[j]) is Bool,
        decreases keys@.len() - i,
    {
        assert(all[i as int] == keys@[i as int]@);
        if v.at(keys[i]).as_bool().is_none() {
            return false;
        }
        i += 1;
    }
    true
}

/// Whether two objects agree in every field of a list.
pub open spec fn agree(v: JsonView, w: JsonView, keys: Seq<Seq<char>>) -> bool {
    forall|i: int| 0 <= i < keys.len() ==> alike(v.at(#[trigger] keys[i]), w.at(keys[i]))
}

pub fn do_agree(v: &Json, w: &Json, keys: &Vec<&str>) -> (r: bool)
    ensures
        r == agree(v@, w@, names(keys@)),
{
    let ghost all = names(keys@);
    let mut i: usize = 0;
    while i < keys.len()
        invariant
            i <= keys@.len(),
            all == names(keys@),
            forall|j: int| 0 <= j < i ==> alike(v@.at(#[trigger] all[j]), w@.at(all[j])),
        decreases keys@.len() - i,
    {
        assert(all[i as int] == keys@[i as int]@);
        if !v.at(keys[i]).same_as(w.at(keys[i])) {
            return false;
        }
        i += 1;
    }
    true
}

/// Whether every member of an object is in a list.
pub open spec fn only_known(v: JsonView, keys: Seq<Seq<char>>) -> bool {
    v is Object && forall|i: int|
        0 <= i < v->Object_0.len() ==> keys.contains((#[trigger] v->Object_0[i]).0)
}

fn is_listed(keys: &Vec<&str>, k: &str) -> (r: bool)
    ensures
        r == names(keys@).contains(k@),
{
    let ghost all = names(keys@);
    let mut i: usize = 0;
    while i < keys.len()
        invariant
            i <= keys@.len(),
            all == names(keys@),
            forall|j: int| 0 <= j < i ==> #[trigger] all[j] != k@,
        decreases keys@.len() - i,
    {
        assert(all[i as int] == keys@[i as int]@);
        if crate::text::same(keys[i], k) {
            return true;
        }
        i += 1;
    }
    false
}

pub fn knows_only(v: &Json, keys: &Vec<&str>) -> (r: bool)
    ensures
        r == only_known(v@, names(keys@)),
{
    match v.as_object() {
        None => false,
        Some(list) => {
            let ghost m = v@->Object_0;
            let ghost all = names(keys@);
            let mut i: usize = 0;
            while i < list.len()
                invariant
                    i <= list@.len(),
                    list@.len() == m.len(),
                    v@ == JsonView::Object(m),
                    all == names(keys@),
                    forall|j: int|
                        0 <= j < m.len() ==> m[j] == ((#[trigger] list@[j]).key@, list@[j].value@),
                    forall|j: int| 0 <= j < i ==> all.contains((#[trigger] m[j]).0),
                decreases list@.len() - i,
            {
                assert(m[i as int] == (list@[i as int].key@, list@[i as int].value@));
                if !is_listed(keys, list[i].key.as_str()) {
                    assert(!all.contains(v@->Object_0[i as int].0));
                    return false;
                }
                i += 1;
            }
            true
        },
    }
}

/// Why a field is not a text of moderate length, in the given words.
pub open spec fn text_objection(v: JsonView, missing: Seq<char>, limit: Seq<char>) -> Option<Seq<char>> {
    match v.text() {
        None => Some(missing),
        Some(s) => if s.len() == 0 || utf8_len(s) > MAX_FIELD_BYTES {
            Some(limit)
        } else {
            None
        },
    }
}

/// A text of moderate length.
pub fn moderate_text<'a>(v: &'a Json, missing: &'static str, limit: &'static str) -> (r: Result<
    &'a str,
    &'static str,
>)
    ensures
        match text_objection(v@, missing@, limit@) {
            None => r is Ok && Some(r->Ok_0@) == v@.text(),
            Some(e) => r is Err && r->Err_0@ == e,
        },
{
    match v.as_str() {
        None => Err(missing),
        Some(s) => {
            if s.is_empty() || byte_len(s) > MAX_FIELD_BYTES {
                Err(limit)
            } else {
                Ok(s)
            }
        },
    }
}

/// The first objection to one of the first `n` fields of a list.
pub open spec fn texts_objection(
    v: JsonView,
    keys: Seq<Seq<char>>,
    missing: Seq<char>,
    limit: Seq<char>,
    n: nat,
) -> Option<Seq<char>>
    decreases n,
{
    if n == 0 || n > keys.len() {
        None
    } else {
        let e = texts_objection(v, keys, missing, limit, (n - 1) as nat);
        if e is Some {
            e
        } else {
            text_objection(v.at(keys[n - 1]), missing, limit)
        }
    }
}

proof fn lemma_texts_objection(
    v: JsonView,
    keys: Seq<Seq<char>>,
    missing: Seq<char>,
    limit: Seq<char>,
    i: nat,
    n: nat,
)
    requires
        i <= n <= keys.len(),
        texts_objection(v, keys, missing, limit, i) is Some,
    ensures
        texts_objection(v, keys, missing, limit, n) == texts_objection(v, keys, missing, limit, i),
    decreases n,
{
    if i < n {
        lemma_texts_objection(v, keys, missing, limit, i, (n - 1) as nat);
    }
}

/// Whether every field of a list is a text of moderate length.
pub fn check_texts(v: &Json, keys: &Vec<&str>, missing: &'static str, limit: &'static str) -> (r: Result<
    (),
    &'static str,
>)
    ensures
        match texts_objection(v@, names(keys@), missing@, limit@, keys@.len()) {
            None => r is Ok,
            Some(e) => r is Err && r->Err_0@ == e,
        },
{
    let ghost all = names(keys@);
    let mut i: usize = 0;
    while i < keys.len()
        invariant
            i <= keys@.len(),
            all == names(keys@),
            texts_objection(v@, all, missing@, limit@, i as nat) is None,
        decreases keys@.len() - i,
    {
        assert(all[i as int] == keys@[i as int]@);
        match moderate_text(v.at(keys[i]), missing, limit) {
            Ok(_) => {},
            Err(e) => {
                proof {
                    lemma_texts_objection(v@, all, missing@, limit@, (i + 1) as nat, all.len());
                }
                return Err(e);
            },
        }
        i += 1;
    }
    Ok(())
}

/// Whether a value is one of some texts.
pub open spec fn says_one(v: JsonView, words: Seq<Seq<char>>) -> bool {
    v.text() is Some && words.contains(v.text()->0)
}

pub fn is_one(v: &Json, words: &Vec<&str>) -> (r: bool)
    ensures
        r == says_one(v@, names(words@)),
{
    match v.as_str() {
        Some(s) => is_listed(words, s),
        None => false,
    }
}

} // verus!
