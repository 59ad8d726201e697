//! JSON documents as plain values.
use crate::text::same;
use vstd::prelude::*;
use vstd::std_specs::vec::*;

verus! {

/// A number with a fraction or an exponent: the bits of its double-precision value, and its
/// notation.
#[derive(Debug, PartialEq)]
pub struct Fraction {
    pub bits: u64,
    pub text: String,
}

/// A member of an object.
#[derive(Debug, PartialEq)]
pub struct Member {
    pub key: String,
    pub value: Json,
}

/// A JSON document. The members of an object stand in the order of their keys, each key once.
#[derive(Debug, PartialEq)]
pub enum Json {
    Null,
    Bool(bool),
    Unsigned(u64),
    /// A whole number below zero.
    Negative(i64),
    Fraction(Fraction),
    Text(String),
    Array(Vec<Json>),
    Object(Vec<Member>),
}

/// The mathematical form of a document.
pub enum JsonView {
    Null,
    Bool(bool),
    Unsigned(u64),
    Negative(i64),
    Fraction(u64, Seq<char>),
    Text(Seq<char>),
    Array(Seq<JsonView>),
    Object(Seq<(Seq<char>, JsonView)>),
}

impl View for Json {
    type V = JsonView;

    open spec fn view(&self) -> JsonView {
        tree(*self)
    }
}

pub open spec fn tree(j: Json) -> JsonView
    decreases j,
{
    match j {
        Json::Null => JsonView::Null,
        Json::Bool(b) => JsonView::Bool(b),
        Json::Unsigned(n) => JsonView::Unsigned(n),
        Json::Negative(n) => JsonView::Negative(n),
        Json::Fraction(f) => JsonView::Fraction(f.bits, f.text@),
        Json::Text(s) => JsonView::Text(s@),
        Json::Array(v) => JsonView::Array(
            Seq::new(
                v@.len(),
                |i: int| if 0 <= i < v@.len() { tree(v@[i]) } else { JsonView::Null },
            ),
        ),
        Json::Object(v) => JsonView::Object(
            Seq::new(
                v@.len(),
                |i: int|
                    if 0 <= i < v@.len() {
                        (v@[i].key@, tree(v@[i].value))
                    } else {
                        (Seq::<char>::empty(), JsonView::Null)
                    },
            ),
        ),
    }
}

/// The value of the first member with a key.
pub open spec fn lookup(m: Seq<(Seq<char>, JsonView)>, key: Seq<char>) -> Option<JsonView>
    decreases m.len(),
{
    if m.len() == 0 {
        None
    } else if m[0].0 == key {
        Some(m[0].1)
    } else {
        lookup(m.drop_first(), key)
    }
}

/// Whether the bits of a double-precision number are those of zero, with either sign.
pub open spec fn zero_bits(bits: u64) -> bool {
    bits == 0 || bits == 0x8000_0000_0000_0000
}

/// Whether two double-precision numbers are equal. A number of a document is never undefined, so
/// two are equal that have the same bits, and the two zeros.
pub open spec fn equal_numbers(a: u64, b: u64) -> bool {
    a == b || (zero_bits(a) && zero_bits(b))
}

/// Whether two documents are equal. Numbers with a fraction are compared by their values, whatever
/// their notation; a whole number and one with a fraction are never equal.
pub open spec fn alike(a: JsonView, b: JsonView) -> bool
    decreases a,
{
    match a {
        JsonView::Fraction(x, _) => b is Fraction && equal_numbers(x, b->Fraction_0),
        JsonView::Array(v) => b is Array && v.len() == b->Array_0.len() && forall|i: int|
            0 <= i < v.len() ==> alike(#[trigger] v[i], b->Array_0[i]),
        JsonView::Object(m) => b is Object && m.len() == b->Object_0.len() && forall|i: int|
            0 <= i < m.len() ==> (#[trigger] m[i]).0 == b->Object_0[i].0 && alike(
                m[i].1,
                b->Object_0[i].1,
            ),
        _ => a == b,
    }
}

/// Every document is equal to itself.
pub proof fn documents_are_alike(a: JsonView)
    ensures
        alike(a, a),
    decreases a,
{
    match a {
        JsonView::Array(v) => {
            assert forall|i: int| 0 <= i < v.len() implies alike(#[trigger] v[i], v[i]) by {
                documents_are_alike(v[i]);
            }
        },
        JsonView::Object(m) => {
            assert forall|i: int| 0 <= i < m.len() implies alike((#[trigger] m[i]).1, m[i].1) by {
                documents_are_alike(m[i].1);
            }
        },
        _ => {},
    }
}

/// The order in which two documents are compared makes no difference.
pub proof fn likeness_is_mutual(a: JsonView, b: JsonView)
    requires
        alike(a, b),
    ensures
        alike(b, a),
    decreases a,
{
    match a {
        JsonView::Array(v) => {
            let w = b->Array_0;
            assert forall|i: int| 0 <= i < w.len() implies alike(#[trigger] w[i], v[i]) by {
                assert(alike(v[i], w[i]));
                likeness_is_mutual(v[i], w[i]);
            }
        },
        JsonView::Object(m) => {
            let n = b->Object_0;
            assert forall|i: int| 0 <= i < n.len() implies (#[trigger] n[i]).0 == m[i].0 && alike(
                n[i].1,
                m[i].1,
            ) by {
                assert(m[i].0 == n[i].0);
                likeness_is_mutual(m[i].1, n[i].1);
            }
        },
        _ => {},
    }
}

impl JsonView {
    /// The member with a key, where this is an object that has it.
    pub open spec fn get(self, key: Seq<char>) -> Option<JsonView> {
        match self {
            JsonView::Object(m) => lookup(m, key),
            _ => None,
        }
    }

    /// The member with a key, or null.
    pub open spec fn at(self, key: Seq<char>) -> JsonView {
        match self.get(key) {
            Some(v) => v,
            None => JsonView::Null,
        }
    }

    /// The element at a position of an array, or null.
    pub open spec fn item(self, i: int) -> JsonView {
        match self {
            JsonView::Array(v) => if 0 <= i < v.len() {
                v[i]
            } else {
                JsonView::Null
            },
            _ => JsonView::Null,
        }
    }

    pub open spec fn text(self) -> Option<Seq<char>> {
        match self {
            JsonView::Text(s) => Some(s),
            _ => None,
        }
    }

    pub open spec fn array(self) -> Option<Seq<JsonView>> {
        match self {
            JsonView::Array(v) => Some(v),
            _ => None,
        }
    }

    pub open spec fn unsigned(self) -> Option<u64> {
        match self {
            JsonView::Unsigned(n) => Some(n),
            _ => None,
        }
    }

    /// The number as a signed 64-bit integer.
    pub open spec fn signed(self) -> Option<i64> {
        match self {
            JsonView::Unsigned(n) => if n <= i64::MAX {
                Some(n as i64)
            } else {
                None
            },
            JsonView::Negative(n) => Some(n),
            _ => None,
        }
    }

    pub open spec fn boolean(self) -> Option<bool> {
        match self {
            JsonView::Bool(b) => Some(b),
            _ => None,
        }
    }

    /// Whether this is the given text.
    pub open spec fn says(self, s: Seq<char>) -> bool {
        self == JsonView::Text(s)
    }

    pub open spec fn is_true(self) -> bool {
        self == JsonView::Bool(true)
    }

    pub open spec fn is_false(self) -> bool {
        self == JsonView::Bool(false)
    }

    /// Whether the text `s` is among the elements of this array.
    pub open spec fn lists(self, s: Seq<char>) -> bool {
        match self {
            JsonView::Array(v) => exists|i: int| 0 <= i < v.len() && #[trigger] v[i] == JsonView::Text(s),
            _ => false,
        }
    }
}

impl Json {
    pub fn get(&self, key: &str) -> (r: Option<&Json>)
        ensures
            r is Some <==> self@.get(key@) is Some,
            r is Some ==> r->0@ == self@.get(key@)->0,
    {
        match self {
            Json::Object(v) => {
                let ghost m = self@->Object_0;
                let mut i: usize = 0;
                assert(m.skip(0) =~= m);
                while i < v.len()
                    invariant
                        i <= v@.len(),
                        *self == Json::Object(*v),
                        self@ == JsonView::Object(m),
                        lookup(m, key@) == lookup(m.skip(i as int), key@),
                    decreases v@.len() - i,
                {
                    assert(m[i as int] == (v@[i as int].key@, v@[i as int].value@));
                    if same(v[i].key.as_str(), key) {
                        return Some(&v[i].value);
                    }
                    assert(m.skip(i as int).drop_first() =~= m.skip(i + 1));
                    i += 1;
                }
                None
            },
            _ => None,
        }
    }

    /// The member with a key, or null.
    pub fn at(&self, key: &str) -> (r: &Json)
        ensures
            r@ == self@.at(key@),
    {
        match self.get(key) {
            Some(v) => v,
            None => &Json::Null,
        }
    }

    /// The element at a position, or null.
    pub fn item(&self, i: usize) -> (r: &Json)
        ensures
            r@ == self@.item(i as int),
    {
        match self {
            Json::Array(v) => {
                if i < v.len() {
                    &v[i]
                } else {
                    &Json::Null
                }
            },
            _ => &Json::Null,
        }
    }

    pub fn as_str(&self) -> (r: Option<&str>)
        ensures
            r is Some <==> self@.text() is Some,
            r is Some ==> r->0@ == self@.text()->0,
    {
        match self {
            Json::Text(s) => Some(s.as_str()),
            _ => None,
        }
    }

    /// The elements of an array.
    pub fn as_array(&self) -> (r: Option<&Vec<Json>>)
        ensures
            r is Some <==> self@.array() is Some,
            r is Some ==> r->0@.len() == self@.array()->0.len() && forall|i: int|
                0 <= i < r->0@.len() ==> #[trigger] r->0@[i]@ == self@.array()->0[i],
    {
        match self {
            Json::Array(v) => Some(v),
            _ => None,
        }
    }

    /// The members of an object.
    pub fn as_object(&self) -> (r: Option<&Vec<Member>>)
        ensures
            r is Some <==> self@ is Object,
            r is Some ==> r->0@.len() == self@->Object_0.len() && forall|i: int|
                0 <= i < r->0@.len() ==> self@->Object_0[i] == (
                    (#[trigger] r->0@[i]).key@,
                    r->0@[i].value@,
                ),
    {
        match self {
            Json::Object(v) => Some(v),
            _ => None,
        }
    }

    pub fn as_u64(&self) -> (r: Option<u64>)
        ensures
            r == self@.unsigned(),
    {
        match self {
            Json::Unsigned(n) => Some(*n),
            _ => None,
        }
    }

    pub fn as_i64(&self) -> (r: Option<i64>)
        ensures
            r == self@.signed(),
    {
        match self {
            Json::Unsigned(n) => {
                if *n <= 0x7fff_ffff_ffff_ffff {
                    Some(*n as i64)
                } else {
                    None
                }
            },
            Json::Negative(n) => Some(*n),
            _ => None,
        }
    }

    pub fn as_bool(&self) -> (r: Option<bool>)
        ensures
            r == self@.boolean(),
    {
        match self {
            Json::Bool(b) => Some(*b),
            _ => None,
        }
    }

    pub fn is_null(&self) -> (r: bool)
        ensures
            r == (self@ == JsonView::Null),
    {
        matches!(self, Json::Null)
    }

    pub fn is_object(&self) -> (r: bool)
        ensures
            r == (self@ is Object),
    {
        matches!(self, Json::Object(_))
    }

    /// Whether this is the given text.
    pub fn is_text(&self, s: &str) -> (r: bool)
        ensures
            r == self@.says(s@),
    {
        match self {
            Json::Text(t) => same(t.as_str(), s),
            _ => false,
        }
    }

    pub fn is_bool(&self, b: bool) -> (r: bool)
        ensures
            r == (self@ == JsonView::Bool(b)),
    {
        match self {
            Json::Bool(x) => *x == b,
            _ => false,
        }
    }

    /// Whether this is the whole number `n`.
    pub fn is_number(&self, n: u64) -> (r: bool)
        ensures
            r == (self@ == JsonView::Unsigned(n)),
    {
        match self {
            Json::Unsigned(x) => *x == n,
            _ => false,
        }
    }

    /// Whether the text `s` is among the elements.
    pub fn lists(&self, s: &str) -> (r: bool)
        ensures
            r == self@.lists(s@),
    {
        match self {
            Json::Array(v) => {
                let ghost m = self@->Array_0;
                let mut i: usize = 0;
                while i < v.len()
                    invariant
                        i <= v@.len(),
                        *self == Json::Array(*v),
                        self@ == JsonView::Array(m),
                        forall|j: int| 0 <= j < i ==> #[trigger] m[j] != JsonView::Text(s@),
                    decreases v@.len() - i,
                {
                    assert(m[i as int] == v@[i as int]@);
                    if v[i].is_text(s) {
                        return true;
                    }
                    i += 1;
                }
                false
            },
            _ => false,
        }
    }

    /// A copy of the document.
    pub fn copy(&self) -> (r: Json)
        ensures
            r@ == self@,
        decreases self,
    {
        match self {
            Json::Null => Json::Null,
            Json::Bool(b) => Json::Bool(*b),
            Json::Unsigned(n) => Json::Unsigned(*n),
            Json::Negative(n) => Json::Negative(*n),
            Json::Fraction(f) => Json::Fraction(Fraction { bits: f.bits, text: f.text.clone() }),
            Json::Text(s) => Json::Text(s.clone()),
            Json::Array(v) => {
                let mut out: Vec<Json> = Vec::new();
                let mut i: usize = 0;
                while i < v.len()
                    invariant
                        i <= v@.len(),
                        *self == Json::Array(*v),
                        out@.len() == i,
                        forall|j: int| 0 <= j < i ==> (#[trigger] out@[j])@ == v@[j]@,
                    decreases v@.len() - i,
                {
                    assert(decreases_to!(self->Array_0 => v[i as int]));
                    let c = v[i].copy();
                    out.push(c);
                    i += 1;
                }
                let r = Json::Array(out);
                assert(r@->Array_0 =~= self@->Array_0);
                r
            },
            Json::Object(v) => {
                let mut out: Vec<Member> = Vec::new();
                let mut i: usize = 0;
                while i < v.len()
                    invariant
                        i <= v@.len(),
                        *self == Json::Object(*v),
                        out@.len() == i,
                        forall|j: int|
                            0 <= j < i ==> (#[trigger] out@[j]).key@ == v@[j].key@
                                && out@[j].value@ == v@[j].value@,
                    decreases v@.len() - i,
                {
                    assert(decreases_to!(self->Object_0 => v[i as int]));
                    let c = v[i].value.copy();
                    out.push(Member { key: v[i].key.clone(), value: c });
                    i += 1;
                }
                let r = Json::Object(out);
                assert(r@->Object_0 =~= self@->Object_0);
                r
            },
        }
    }

    /// Whether two documents are equal.
    pub fn same_as(&self, other: &Json) -> (r: bool)
        ensures
            r == alike(self@, other@),
        decreases self,
    {
        match (self, other) {
            (Json::Null, Json::Null) => true,
            (Json::Bool(a), Json::Bool(b)) => *a == *b,
            (Json::Unsigned(a), Json::Unsigned(b)) => *a == *b,
            (Json::Negative(a), Json::Negative(b)) => *a == *b,
            (Json::Fraction(a), Json::Fraction(b)) => a.bits == b.bits || ((a.bits == 0 || a.bits
                == 0x8000_0000_0000_0000) && (b.bits == 0 || b.bits == 0x8000_0000_0000_0000)),
            (Json::Text(a), Json::Text(b)) => same(a.as_str(), b.as_str()),
            (Json::Array(a), Json::Array(b)) => {
                let ghost v = self@->Array_0;
                let ghost w = other@->Array_0;
                if a.len() != b.len() {
                    assert(v.len() != w.len());
                    return false;
                }
                let mut i: usize = 0;
                while i < a.len()
                    invariant
                        i <= a@.len(),
                        a@.len() == b@.len(),
                        *self == Json::Array(*a),
                        *other == Json::Array(*b),
                        self@ == JsonView::Array(v),
                        other@ == JsonView::Array(w),
                        forall|j: int| 0 <= j < i ==> alike(#[trigger] v[j], w[j]),
                    decreases a@.len() - i,
                {
                    assert(v[i as int] == a@[i as int]@ && w[i as int] == b@[i as int]@);
                    if !a[i].same_as(&b[i]) {
                        return false;
                    }
                    i += 1;
                }
                true
            },
            (Json::Object(a), Json::Object(b)) => {
                let ghost v = self@->Object_0;
                let ghost w = other@->Object_0;
                if a.len() != b.len() {
                    assert(v.len() != w.len());
                    return false;
                }
                let mut i: usize = 0;
                while i < a.len()
                    invariant
                        i <= a@.len(),
                        a@.len() == b@.len(),
                        *self == Json::Object(*a),
                        *other == Json::Object(*b),
                        self@ == JsonView::Object(v),
                        other@ == JsonView::Object(w),
                        forall|j: int|
                            0 <= j < i ==> (#[trigger] v[j]).0 == w[j].0 && alike(v[j].1, w[j].1),
                    decreases a@.len() - i,
                {
                    assert(v[i as int] == (a@[i as int].key@, a@[i as int].value@));
                    assert(w[i as int] == (b@[i as int].key@, b@[i as int].value@));
                    if !same(a[i].key.as_str(), b[i].key.as_str()) || !a[i].value.same_as(
                        &b[i].value,
                    ) {
                        return false;
                    }
                    i += 1;
                }
                true
            },
            _ => false,
        }
    }
}

/// The keys and values of a list of members.
pub open spec fn member_views(v: Seq<Member>) -> Seq<(Seq<char>, JsonView)> {
    v.map_values(|m: Member| (m.key@, m.value@))
}

/// The documents of a list.
pub open spec fn trees(v: Seq<Json>) -> Seq<JsonView> {
    v.map_values(|j: Json| j@)
}

/// The object with the given members.
pub fn object(members: Vec<Member>) -> (r: Json)
    ensures
        r@ == JsonView::Object(member_views(members@)),
{
    let r = Json::Object(members);
    assert(r@->Object_0 =~= member_views(members@));
    r
}

/// The array with the given elements.
pub fn array(items: Vec<Json>) -> (r: Json)
    ensures
        r@ == JsonView::Array(trees(items@)),
{
    let r = Json::Array(items);
    assert(r@->Array_0 =~= trees(items@));
    r
}

pub fn text(s: &str) -> (r: Json)
    ensures
        r@ == JsonView::Text(s@),
{
    Json::Text(s.to_owned())
}

/// A number with a fraction or an exponent.
pub fn fraction(bits: u64, text: String) -> (r: Json)
    ensures
        r@ == JsonView::Fraction(bits, text@),
{
    Json::Fraction(Fraction { bits, text })
}

pub fn member(key: &str, value: Json) -> (r: Member)
    ensures
        r.key@ == key@,
        r.value@ == value@,
{
    Member { key: key.to_owned(), value }
}

pub fn empty_array() -> (r: Json)
    ensures
        r@ == JsonView::Array(Seq::empty()),
{
    let v: Vec<Json> = Vec::new();
    assert(trees(v@) =~= Seq::<JsonView>::empty());
    array(v)
}

pub fn empty_object() -> (r: Json)
    ensures
        r@ == JsonView::Object(Seq::empty()),
{
    let v: Vec<Member> = Vec::new();
    assert(member_views(v@) =~= Seq::<(Seq<char>, JsonView)>::empty());
    object(v)
}

pub fn array1(v0: Json) -> (r: Json)
    ensures
        r@ == JsonView::Array(seq![v0@]),
{
    let mut v: Vec<Json> = Vec::new();
    v.push(v0);
    assert(trees(v@) =~= seq![v0@]);
    array(v)
}

pub fn array2(v0: Json, v1: Json) -> (r: Json)
    ensures
        r@ == JsonView::Array(seq![v0@, v1@]),
{
    let mut v: Vec<Json> = Vec::new();
    v.push(v0);
    v.push(v1);
    assert(trees(v@) =~= seq![v0@, v1@]);
    array(v)
}

pub fn array3(v0: Json, v1: Json, v2: Json) -> (r: Json)
    ensures
        r@ == JsonView::Array(seq![v0@, v1@, v2@]),
{
    let mut v: Vec<Json> = Vec::new();
    v.push(v0);
    v.push(v1);
    v.push(v2);
    assert(trees(v@) =~= seq![v0@, v1@, v2@]);
    array(v)
}

pub fn object1(k0: &str, v0: Json) -> (r: Json)
    ensures
        r@ == JsonView::Object(seq![(k0@, v0@)]),
{
    let mut v: Vec<Member> = Vec::new();
    v.push(member(k0, v0));
    assert(member_views(v@) =~= seq![(k0@, v0@)]);
    object(v)
}

pub fn object2(k0: &str, v0: Json, k1: &str, v1: Json) -> (r: Json)
    ensures
        r@ == JsonView::Object(seq![(k0@, v0@), (k1@, v1@)]),
{
    let mut v: Vec<Member> = Vec::new();
    v.push(member(k0, v0));
    v.push(member(k1, v1));
    assert(member_views(v@) =~= seq![(k0@, v0@), (k1@, v1@)]);
    object(v)
}

pub fn object3(k0: &str, v0: Json, k1: &str, v1: Json, k2: &str, v2: Json) -> (r: Json)
    ensures
        r@ == JsonView::Object(seq![(k0@, v0@), (k1@, v1@), (k2@, v2@)]),
{
    let mut v: Vec<Member> = Vec::new();
    v.push(member(k0, v0));
    v.push(member(k1, v1));
    v.push(member(k2, v2));
    assert(member_views(v@) =~= seq![(k0@, v0@), (k1@, v1@), (k2@, v2@)]);
    object(v)
}

pub fn object4(k0: &str, v0: Json, k1: &str, v1: Json, k2: &str, v2: Json, k3: &str, v3: Json) -> (r: Json)
    ensures
        r@ == JsonView::Object(seq![(k0@, v0@), (k1@, v1@), (k2@, v2@), (k3@, v3@)]),
{
    let mut v: Vec<Member> = Vec::new();
    v.push(member(k0, v0));
    v.push(member(k1, v1));
    v.push(member(k2, v2));
    v.push(member(k3, v3));
    assert(member_views(v@) =~= seq![(k0@, v0@), (k1@, v1@), (k2@, v2@), (k3@, v3@)]);
    object(v)
}

pub fn object5(k0: &str, v0: Json, k1: &str, v1: Json, k2: &str, v2: Json, k3: &str, v3: Json, k4: &str, v4: Json) -> (r: Json)
    ensures
        r@ == JsonView::Object(seq![(k0@, v0@), (k1@, v1@), (k2@, v2@), (k3@, v3@), (k4@, v4@)]),
{
    let mut v: Vec<Member> = Vec::new();
    v.push(member(k0, v0));
    v.push(member(k1, v1));
    v.push(member(k2, v2));
    v.push(member(k3, v3));
    v.push(member(k4, v4));
    assert(member_views(v@) =~= seq![(k0@, v0@), (k1@, v1@), (k2@, v2@), (k3@, v3@), (k4@, v4@)]);
    object(v)
}

pub fn object6(k0: &str, v0: Json, k1: &str, v1: Json, k2: &str, v2: Json, k3: &str, v3: Json, k4: &str, v4: Json, k5: &str, v5: Json) -> (r: Json)
    ensures
        r@ == JsonView::Object(seq![(k0@, v0@), (k1@, v1@), (k2@, v2@), (k3@, v3@), (k4@, v4@), (k5@, v5@)]),
{
    let mut v: Vec<Member> = Vec::new();
    v.push(member(k0, v0));
    v.push(member(k1, v1));
    v.push(member(k2, v2));
    v.push(member(k3, v3));
    v.push(member(k4, v4));
    v.push(member(k5, v5));
    assert(member_views(v@) =~= seq![(k0@, v0@), (k1@, v1@), (k2@, v2@), (k3@, v3@), (k4@, v4@), (k5@, v5@)]);
    object(v)
}

/// Copies of the documents of a list.
pub fn copies(v: &Vec<Json>) -> (r: Vec<Json>)
    ensures
        trees(r@) == trees(v@),
{
    let mut out: Vec<Json> = Vec::new();
    let mut i: usize = 0;
    while i < v.len()
        invariant
            i <= v@.len(),
            trees(out@) == trees(v@).take(i as int),
        decreases v@.len() - i,
    {
        let c = v[i].copy();
        let ghost before = trees(out@);
        out.push(c);
        i += 1;
        assert(trees(out@) =~= before.push(c@));
        assert(trees(out@) =~= trees(v@).take(i as int));
    }
    assert(trees(out@) =~= trees(v@));
    out
}

} // verus!
