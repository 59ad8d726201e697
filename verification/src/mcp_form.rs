//! Forms with flat fields: which are supported, what an answer may be, how a field is explained.
use crate::codec::{compact, compact_form, compact_text, document, encode, parse, parsed_tree};
use crate::json::{alike, text as json_text, trees, Json, JsonView};
use crate::numbers::{decimal, decimal_text, parse_unsigned, unsigned_of};
use crate::text::{byte_len, chars_of, same, some_same, trim, trimmed, utf8_len};
use vstd::prelude::*;
use vstd::string::*;

verus! {

/// How many fields a form may have.
pub const MAX_FIELDS: usize = 32;

/// How many choices a field may have.
pub const MAX_CHOICES: usize = 64;

/// How many bytes a text may have.
pub const MAX_TEXT_BYTES: usize = 8192;

/// How many bytes all answers together may have.
pub const MAX_ANSWER_BYTES: usize = 65536;

/// Two to the power 52.
pub const TWO_52: u64 = 4503599627370496;

/// Two to the power 53: up to here a double holds every whole number.
pub const TWO_53: u64 = 9007199254740992;

/// Whether the proxy can relay forms of this profile.
pub open spec fn relays_forms(c: JsonView) -> bool {
    let limits = c.at("interaction_limits"@);
    &&& c.at("features"@).at("interaction_relay"@).is_true()
    &&& c.at("interaction_kinds"@).lists("mcp_form"@)
    &&& limits.at("schema_profile"@).says("flat-primitives-v1"@)
    &&& limits.at("max_count"@).unsigned() is Some && limits.at("max_count"@).unsigned()->0 <= 16
    &&& limits.at("max_bytes"@).unsigned() is Some && limits.at("max_bytes"@).unsigned()->0 <= 65536
}

fn at_most(j: &Json, n: u64) -> (r: bool)
    ensures
        r == (j@.unsigned() is Some && j@.unsigned()->0 <= n),
{
    match j.as_u64() {
        Some(x) => x <= n,
        None => false,
    }
}

/// Whether the proxy can relay forms of this profile.
pub fn supported(c: &Json) -> (r: bool)
    ensures
        r == relays_forms(c@),
{
    let limits = c.at("interaction_limits");
    c.at("features").at("interaction_relay").is_bool(true) && c.at("interaction_kinds").lists(
        "mcp_form",
    ) && limits.at("schema_profile").is_text("flat-primitives-v1") && at_most(
        limits.at("max_count"),
        16,
    ) && at_most(limits.at("max_bytes"), 65536)
}

/// The bits of the double that is `m` times two to the power `e - 52`, for `m` below two to the
/// power 53.
pub open spec fn scaled(m: nat, e: nat) -> nat
    decreases e,
{
    if m >= TWO_52 || e == 0 {
        (1022 + e) * TWO_52 as nat + m
    } else {
        scaled(2 * m, (e - 1) as nat)
    }
}

/// The place of a whole number among the doubles, by the bits of its double. From two to the power
/// 53 on all numbers share one place, beyond every number that a form accepts.
pub open spec fn whole_place(n: nat) -> nat {
    if n == 0 {
        0
    } else if n >= TWO_53 {
        scaled(TWO_53 as nat, 52)
    } else {
        scaled(n, 52)
    }
}

proof fn lemma_scaled_bound(m: nat, e: nat)
    requires
        m <= TWO_53,
    ensures
        scaled(m, e) <= (1024 + e) * TWO_52 as nat,
        m < TWO_53 ==> scaled(m, e) < (1024 + e) * TWO_52 as nat,
    decreases e,
{
    assert((1024 + e) * TWO_52 as nat == (1022 + e) * TWO_52 as nat + 2 * TWO_52 as nat) by (nonlinear_arith);
    if !(m >= TWO_52 || e == 0) {
        lemma_scaled_bound(2 * m, (e - 1) as nat);
        assert((1024 + (e - 1)) * TWO_52 as nat + TWO_52 as nat == (1024 + e) * TWO_52 as nat) by (nonlinear_arith);
    }
}

proof fn lemma_scaled_order(a: nat, b: nat, e: nat)
    requires
        a < b <= TWO_53,
    ensures
        scaled(a, e) < scaled(b, e),
    decreases e,
{
    if a >= TWO_52 || e == 0 {
    } else if b >= TWO_52 {
        let f = (e - 1) as nat;
        lemma_scaled_bound(2 * a, f);
        assert((1024 + f) * TWO_52 as nat == (1022 + e) * TWO_52 as nat + TWO_52 as nat) by (nonlinear_arith)
            requires
                f + 1 == e,
        ;
    } else {
        lemma_scaled_order(2 * a, 2 * b, (e - 1) as nat);
    }
}

/// A larger whole number has a later place, as far as forms accept whole numbers.
pub proof fn whole_numbers_are_ordered(a: nat, b: nat)
    requires
        a < b <= TWO_53,
    ensures
        whole_place(a) < whole_place(b),
{
    if a > 0 {
        lemma_scaled_order(a, b, 52);
    } else if b >= TWO_52 {
    } else {
        lemma_scaled_positive(b, 52);
    }
}

proof fn lemma_scaled_positive(m: nat, e: nat)
    ensures
        scaled(m, e) > 0,
    decreases e,
{
    assert((1022 + e) * TWO_52 as nat > 0) by (nonlinear_arith);
    if !(m >= TWO_52 || e == 0) {
        lemma_scaled_positive(2 * m, (e - 1) as nat);
    }
}

/// The place of a double among the doubles, by its bits: the sign bit turns the order round, and the
/// two zeros share a place.
pub open spec fn bits_place(bits: u64) -> int {
    if bits < 0x8000_0000_0000_0000 {
        bits as int
    } else {
        0x8000_0000_0000_0000 - bits
    }
}

/// The place of a number among the doubles.
pub open spec fn number_place(j: JsonView) -> Option<int> {
    match j {
        JsonView::Unsigned(n) => Some(whole_place(n as nat) as int),
        JsonView::Negative(n) => Some(
            if n < 0 {
                -(whole_place((-n) as nat) as int)
            } else {
                whole_place(n as nat) as int
            },
        ),
        JsonView::Fraction(bits, _) => Some(bits_place(bits)),
        _ => None,
    }
}

fn place_of_whole(n: u64) -> (r: i64)
    ensures
        r == whole_place(n as nat),
        0 <= r <= 0x4340_0000_0000_0000,
{
    if n == 0 {
        return 0;
    }
    let mut m: u64 = if n >= TWO_53 { TWO_53 } else { n };
    let mut e: i64 = 52;
    let ghost first = m as nat;
    proof {
        lemma_scaled_bound(first, 52);
    }
    while m < TWO_52 && e > 0
        invariant
            0 <= e <= 52,
            m <= TWO_53,
            scaled(m as nat, e as nat) == scaled(first, 52),
            scaled(first, 52) <= 1076 * TWO_52,
        decreases e,
    {
        m = m * 2;
        e = e - 1;
    }
    assert(scaled(m as nat, e as nat) == (1022 + e) * TWO_52 + m);
    (1022 + e) * (TWO_52 as i64) + (m as i64)
}

fn place_of(j: &Json) -> (r: Option<i64>)
    ensures
        match number_place(j@) {
            Some(p) => r is Some && r->0 == p,
            None => r is None,
        },
{
    match j {
        Json::Unsigned(n) => Some(place_of_whole(*n)),
        Json::Negative(n) => {
            if *n == i64::MIN {
                Some(0 - place_of_whole(TWO_53))
            } else if *n < 0 {
                Some(0 - place_of_whole((0 - *n) as u64))
            } else {
                Some(place_of_whole(*n as u64))
            }
        },
        Json::Fraction(f) => {
            if f.bits < 0x8000_0000_0000_0000 {
                Some(f.bits as i64)
            } else {
                Some(0 - ((f.bits - 0x8000_0000_0000_0000) as i64))
            }
        },
        _ => None,
    }
}

/// The place of the largest number that a form accepts, two to the power 53 less one.
pub const LARGEST_PLACE: i64 = 0x433f_ffff_ffff_ffff;

/// Whether this is a number that a form accepts.
pub open spec fn acceptable_number(j: JsonView) -> bool {
    number_place(j) is Some && -LARGEST_PLACE <= number_place(j)->0 <= LARGEST_PLACE
}

fn is_acceptable_number(j: &Json) -> (r: bool)
    ensures
        r == acceptable_number(j@),
{
    match place_of(j) {
        Some(p) => 0 - LARGEST_PLACE <= p && p <= LARGEST_PLACE,
        None => false,
    }
}

/// Whether a number comes before another.
pub open spec fn before(a: JsonView, b: JsonView) -> bool {
    number_place(a) is Some && number_place(b) is Some && number_place(a)->0 < number_place(b)->0
}

fn is_before(a: &Json, b: &Json) -> (r: bool)
    ensures
        r == before(a@, b@),
{
    match (place_of(a), place_of(b)) {
        (Some(x), Some(y)) => x < y,
        _ => false,
    }
}

/// A whole number is accepted exactly up to two to the power 53 less one, either way.
pub proof fn accepted_whole_numbers(n: u64)
    ensures
        acceptable_number(JsonView::Unsigned(n)) <==> n < TWO_53,
{
    reveal_with_fuel(scaled, 2);
    assert(whole_place((TWO_53 - 1) as nat) == LARGEST_PLACE) by {
        assert((1022 + 52) * TWO_52 as nat + (TWO_53 - 1) as nat == 0x433f_ffff_ffff_ffff);
    }
    if n < TWO_53 - 1 {
        whole_numbers_are_ordered(n as nat, (TWO_53 - 1) as nat);
    }
}

/// A field of a form.
pub open spec fn form_field(k: Seq<char>) -> bool {
    k == "type"@ || k == "properties"@ || k == "required"@ || k == "additionalProperties"@ || k
        == "title"@ || k == "description"@
}

/// A field of the description of an input.
pub open spec fn input_field(k: Seq<char>) -> bool {
    k == "type"@ || k == "title"@ || k == "description"@ || k == "default"@ || k == "enum"@ || k
        == "enumNames"@ || k == "minimum"@ || k == "maximum"@ || k == "minLength"@ || k
        == "maxLength"@
}

/// Whether a field is supported.
pub open spec fn known_field(k: Seq<char>, inner: bool) -> bool {
    if inner {
        input_field(k)
    } else {
        form_field(k)
    }
}

/// Whether every field of an object is supported.
pub open spec fn known_fields(m: Seq<(Seq<char>, JsonView)>, inner: bool) -> bool {
    forall|i: int| 0 <= i < m.len() ==> known_field((#[trigger] m[i]).0, inner)
}

/// Why the fields of an object are not those that are supported.
pub open spec fn fields_objection(v: JsonView, inner: bool) -> Option<Seq<char>> {
    match v {
        JsonView::Object(m) => if known_fields(m, inner) {
            None
        } else {
            Some("未対応の入力条件です"@)
        },
        _ => Some("object required"@),
    }
}

fn is_field(k: &str, inner: bool) -> (r: bool)
    ensures
        r == known_field(k@, inner),
{
    if inner {
        same(k, "type") || same(k, "title") || same(k, "description") || same(k, "default") || same(
            k,
            "enum",
        ) || same(k, "enumNames") || same(k, "minimum") || same(k, "maximum") || same(k, "minLength")
            || same(k, "maxLength")
    } else {
        same(k, "type") || same(k, "properties") || same(k, "required") || same(
            k,
            "additionalProperties",
        ) || same(k, "title") || same(k, "description")
    }
}

fn fields(v: &Json, inner: bool) -> (r: Result<(), &'static str>)
    ensures
        match fields_objection(v@, inner) {
            None => r is Ok,
            Some(e) => r is Err && r->Err_0@ == e,
        },
{
    match v.as_object() {
        None => Err("object required"),
        Some(list) => {
            let ghost m = v@->Object_0;
            let mut i: usize = 0;
            while i < list.len()
                invariant
                    i <= list@.len(),
                    list@.len() == m.len(),
                    v@ == JsonView::Object(m),
                    forall|j: int|
                        0 <= j < m.len() ==> m[j] == ((#[trigger] list@[j]).key@, list@[j].value@),
                    forall|j: int|
                        0 <= j < i ==> known_field((#[trigger] m[j]).0, inner),
                decreases list@.len() - i,
            {
                assert(m[i as int] == (list@[i as int].key@, list@[i as int].value@));
                if !is_field(list[i].key.as_str(), inner) {
                    assert(!known_field(m[i as int].0, inner));
                    assert(!known_fields(m, inner));
                    return Err("未対応の入力条件です");
                }
                i += 1;
            }
            Ok(())
        },
    }
}

/// Whether the required fields are texts, each a field of the form, none twice.
pub open spec fn required_valid(list: Seq<JsonView>, p: JsonView) -> bool {
    &&& forall|i: int|
        0 <= i < list.len() ==> (#[trigger] list[i]).text() is Some && p.get(list[i].text()->0) is Some
    &&& forall|i: int, j: int| 0 <= i < j < list.len() ==> #[trigger] list[i] != #[trigger] list[j]
}

fn is_required_valid(list: &Vec<Json>, p: &Json) -> (r: bool)
    ensures
        r == required_valid(trees(list@), p@),
{
    let ghost all = trees(list@);
    let mut i: usize = 0;
    while i < list.len()
        invariant
            i <= list@.len(),
            all == trees(list@),
            forall|j: int|
                0 <= j < i ==> (#[trigger] all[j]).text() is Some && p@.get(all[j].text()->0) is Some,
            forall|j: int, k: int| 0 <= j < k < i ==> #[trigger] all[j] != #[trigger] all[k],
        decreases list@.len() - i,
    {
        assert(all[i as int] == list@[i as int]@);
        let known = match list[i].as_str() {
            Some(k) => p.get(k).is_some(),
            None => false,
        };
        if !known {
            return false;
        }
        let mut j: usize = 0;
        while j < i
            invariant
                j <= i < list@.len(),
                all == trees(list@),
                all[i as int] == list@[i as int]@,
                forall|k: int| 0 <= k <= i ==> (#[trigger] all[k]).text() is Some,
                forall|k: int| 0 <= k < j ==> #[trigger] all[k] != all[i as int],
            decreases i - j,
        {
            assert(all[j as int] == list@[j as int]@);
            assert(alike(all[j as int], all[i as int]) == (all[j as int] == all[i as int]));
            if list[j].same_as(&list[i]) {
                return false;
            }
            j += 1;
        }
        i += 1;
    }
    true
}

/// Whether a value has the type that an input asks for.
pub open spec fn right_type(s: JsonView, v: JsonView) -> bool {
    let t = s.at("type"@).text();
    if number_place(v) is Some && !acceptable_number(v) {
        false
    } else if t == Some("string"@) {
        v is Text
    } else if t == Some("integer"@) {
        v is Unsigned || v is Negative
    } else if t == Some("number"@) {
        number_place(v) is Some
    } else if t == Some("boolean"@) {
        v is Bool
    } else {
        false
    }
}

fn scalar_type(s: &Json, v: &Json) -> (r: bool)
    ensures
        r == right_type(s@, v@),
{
    let t = s.at("type").as_str();
    let numeric = place_of(v).is_some();
    if numeric && !is_acceptable_number(v) {
        return false;
    }
    if some_same(t, "string") {
        v.as_str().is_some()
    } else if some_same(t, "integer") {
        match v {
            Json::Unsigned(_) => true,
            Json::Negative(_) => true,
            _ => false,
        }
    } else if some_same(t, "number") {
        numeric
    } else if some_same(t, "boolean") {
        v.as_bool().is_some()
    } else {
        false
    }
}

/// Whether a limit of a number is one.
pub open spec fn number_limit_valid(v: JsonView, k: Seq<char>) -> bool {
    v.get(k) is Some ==> {
        &&& (v.at("type"@).says("integer"@) || v.at("type"@).says("number"@))
        &&& acceptable_number(v.get(k)->0)
    }
}

/// Whether a limit of a length is one.
pub open spec fn length_limit_valid(v: JsonView, k: Seq<char>) -> bool {
    v.get(k) is Some ==> {
        &&& v.at("type"@).says("string"@)
        &&& v.get(k)->0.unsigned() is Some && v.get(k)->0.unsigned()->0 <= MAX_TEXT_BYTES
    }
}

/// Whether the lower limits lie above the upper ones.
pub open spec fn limits_crossed(v: JsonView) -> bool {
    before(v.at("maximum"@), v.at("minimum"@)) || (v.at("minLength"@).unsigned() is Some && v.at(
        "maxLength"@,
    ).unsigned() is Some && v.at("minLength"@).unsigned()->0 > v.at("maxLength"@).unsigned()->0)
}

/// Whether the choices of an input are choices.
pub open spec fn choices_valid(v: JsonView, a: Seq<JsonView>) -> bool {
    0 < a.len() <= MAX_CHOICES && forall|i: int| 0 <= i < a.len() ==> right_type(v, #[trigger] a[i])
}

/// How many choices an input has.
pub open spec fn choice_count(v: JsonView) -> nat {
    match v.at("enum"@).array() {
        Some(a) => a.len(),
        None => 0,
    }
}

/// Whether the names of the choices are names.
pub open spec fn names_valid(v: JsonView, names: JsonView) -> bool {
    match names.array() {
        Some(a) => a.len() == choice_count(v) && forall|i: int|
            0 <= i < a.len() ==> (#[trigger] a[i]) is Text,
        None => false,
    }
}

/// Why the description of an input is not supported.
pub open spec fn input_objection(v: JsonView) -> Option<Seq<char>> {
    let t = v.at("type"@);
    if fields_objection(v, true) is Some {
        fields_objection(v, true)
    } else if !(t.says("string"@) || t.says("integer"@) || t.says("number"@) || t.says("boolean"@)) {
        Some("未対応の入力型です"@)
    } else if !number_limit_valid(v, "minimum"@) || !number_limit_valid(v, "maximum"@) {
        Some("数値条件が不正です"@)
    } else if !length_limit_valid(v, "minLength"@) || !length_limit_valid(v, "maxLength"@) {
        Some("文字数条件が不正です"@)
    } else if limits_crossed(v) {
        Some("上下限が不正です"@)
    } else if v.get("enum"@) is Some && v.get("enum"@)->0.array() is None {
        Some("enum invalid"@)
    } else if v.get("enum"@) is Some && !choices_valid(v, v.get("enum"@)->0.array()->0) {
        Some("選択肢が不正です"@)
    } else if v.get("enumNames"@) is Some && !names_valid(v, v.get("enumNames"@)->0) {
        Some("選択肢の表示名が不正です"@)
    } else {
        None
    }
}

fn check_number_limit(v: &Json, k: &str) -> (r: bool)
    ensures
        r == number_limit_valid(v@, k@),
{
    match v.get(k) {
        None => true,
        Some(n) => (v.at("type").is_text("integer") || v.at("type").is_text("number"))
            && is_acceptable_number(n),
    }
}

fn check_length_limit(v: &Json, k: &str) -> (r: bool)
    ensures
        r == length_limit_valid(v@, k@),
{
    match v.get(k) {
        None => true,
        Some(n) => v.at("type").is_text("string") && at_most(n, MAX_TEXT_BYTES as u64),
    }
}

fn check_limits(v: &Json) -> (r: bool)
    ensures
        r == limits_crossed(v@),
{
    let lengths = match (v.at("minLength").as_u64(), v.at("maxLength").as_u64()) {
        (Some(a), Some(b)) => a > b,
        _ => false,
    };
    is_before(v.at("maximum"), v.at("minimum")) || lengths
}

fn check_choices(v: &Json, a: &Vec<Json>) -> (r: bool)
    ensures
        r == choices_valid(v@, trees(a@)),
{
    let ghost all = trees(a@);
    assert(all.len() == a@.len());
    if a.len() == 0 || a.len() > MAX_CHOICES {
        return false;
    }
    let mut i: usize = 0;
    while i < a.len()
        invariant
            i <= a@.len(),
            all == trees(a@),
            forall|j: int| 0 <= j < i ==> right_type(v@, #[trigger] all[j]),
        decreases a@.len() - i,
    {
        assert(all[i as int] == a@[i as int]@);
        if !scalar_type(v, &a[i]) {
            return false;
        }
        i += 1;
    }
    true
}

fn check_names(v: &Json, names: &Json) -> (r: bool)
    ensures
        r == names_valid(v@, names@),
{
    let count: usize = match v.at("enum").as_array() {
        Some(a) => a.len(),
        None => 0,
    };
    match names.as_array() {
        None => false,
        Some(a) => {
            let ghost all = names@.array()->0;
            if a.len() != count {
                return false;
            }
            let mut i: usize = 0;
            while i < a.len()
                invariant
                    i <= a@.len(),
                    a@.len() == all.len(),
                    forall|j: int| 0 <= j < all.len() ==> #[trigger] a@[j]@ == all[j],
                    forall|j: int| 0 <= j < i ==> (#[trigger] all[j]) is Text,
                    names@.array() == Some(all),
                decreases a@.len() - i,
            {
                assert(a@[i as int]@ == all[i as int]);
                if a[i].as_str().is_none() {
                    return false;
                }
                i += 1;
            }
            true
        },
    }
}

fn validate_input(v: &Json) -> (r: Result<(), &'static str>)
    ensures
        match input_objection(v@) {
            None => r is Ok,
            Some(e) => r is Err && r->Err_0@ == e,
        },
{
    match fields(v, true) {
        Err(e) => {
            return Err(e);
        },
        Ok(()) => {},
    }
    let t = v.at("type");
    if !(t.is_text("string") || t.is_text("integer") || t.is_text("number") || t.is_text("boolean")) {
        return Err("未対応の入力型です");
    }
    if !check_number_limit(v, "minimum") || !check_number_limit(v, "maximum") {
        return Err("数値条件が不正です");
    }
    if !check_length_limit(v, "minLength") || !check_length_limit(v, "maxLength") {
        return Err("文字数条件が不正です");
    }
    if check_limits(v) {
        return Err("上下限が不正です");
    }
    if let Some(e) = v.get("enum") {
        match e.as_array() {
            None => {
                return Err("enum invalid");
            },
            Some(a) => {
                assert(trees(a@) =~= e@.array()->0);
                if !check_choices(v, a) {
                    return Err("選択肢が不正です");
                }
            },
        }
    }
    if let Some(names) = v.get("enumNames") {
        if !check_names(v, names) {
            return Err("選択肢の表示名が不正です");
        }
    }
    Ok(())
}

/// The first objection to an input among the first `n` of a form.
pub open spec fn inputs_objection(m: Seq<(Seq<char>, JsonView)>, n: nat) -> Option<Seq<char>>
    decreases n,
{
    if n == 0 || n > m.len() {
        None
    } else {
        let e = inputs_objection(m, (n - 1) as nat);
        if e is Some {
            e
        } else {
            input_objection(m[n - 1].1)
        }
    }
}

proof fn lemma_inputs_objection(m: Seq<(Seq<char>, JsonView)>, i: nat, n: nat)
    requires
        i <= n <= m.len(),
        inputs_objection(m, i) is Some,
    ensures
        inputs_objection(m, n) == inputs_objection(m, i),
    decreases n,
{
    if i < n {
        lemma_inputs_objection(m, i, (n - 1) as nat);
    }
}

/// Why a form is not supported.
pub open spec fn schema_objection(s: JsonView) -> Option<Seq<char>> {
    let p = s.at("properties"@);
    if fields_objection(s, false) is Some {
        fields_objection(s, false)
    } else if !s.at("type"@).says("object"@) || (s.get("additionalProperties"@) is Some && !s.get(
        "additionalProperties"@,
    )->0.is_false()) {
        Some("未対応のフォームです"@)
    } else if !(p is Object) {
        Some("properties required"@)
    } else if p->Object_0.len() > MAX_FIELDS {
        Some("項目数が上限を超えています"@)
    } else if s.get("required"@) is Some && (s.get("required"@)->0.array() is None || !required_valid(
        s.get("required"@)->0.array()->0,
        p,
    )) {
        Some("required invalid"@)
    } else {
        inputs_objection(p->Object_0, p->Object_0.len())
    }
}

/// Whether a form is supported.
pub fn validate_schema(s: &Json) -> (r: Result<(), &'static str>)
    ensures
        match schema_objection(s@) {
            None => r is Ok,
            Some(e) => r is Err && r->Err_0@ == e,
        },
{
    match fields(s, false) {
        Err(e) => {
            return Err(e);
        },
        Ok(()) => {},
    }
    let open = match s.get("additionalProperties") {
        None => false,
        Some(v) => !v.is_bool(false),
    };
    if !s.at("type").is_text("object") || open {
        return Err("未対応のフォームです");
    }
    let p = s.at("properties");
    let list = match p.as_object() {
        Some(m) => m,
        None => {
            return Err("properties required");
        },
    };
    let ghost m = p@->Object_0;
    if list.len() > MAX_FIELDS {
        return Err("項目数が上限を超えています");
    }
    if let Some(r) = s.get("required") {
        match r.as_array() {
            None => {
                return Err("required invalid");
            },
            Some(a) => {
                assert(trees(a@) =~= r@.array()->0);
                if !is_required_valid(a, p) {
                    return Err("required invalid");
                }
            },
        }
    }
    let ghost whole = inputs_objection(m, m.len());
    assert(schema_objection(s@) == whole);
    let mut i: usize = 0;
    while i < list.len()
        invariant
            i <= list@.len(),
            list@.len() == m.len(),
            forall|j: int| 0 <= j < m.len() ==> m[j] == ((#[trigger] list@[j]).key@, list@[j].value@),
            inputs_objection(m, i as nat) is None,
            whole == inputs_objection(m, m.len()),
            schema_objection(s@) == whole,
        decreases list@.len() - i,
    {
        assert(m[i as int] == (list@[i as int].key@, list@[i as int].value@));
        match validate_input(&list[i].value) {
            Err(e) => {
                proof {
                    lemma_inputs_objection(m, (i + 1) as nat, m.len());
                }
                return Err(e);
            },
            Ok(()) => {},
        }
        i += 1;
    }
    Ok(())
}

/// Whether a value is among the choices.
pub open spec fn among(a: Seq<JsonView>, v: JsonView) -> bool {
    exists|i: int| 0 <= i < a.len() && alike(#[trigger] a[i], v)
}

fn is_among(a: &Vec<Json>, v: &Json) -> (r: bool)
    ensures
        r == among(trees(a@), v@),
{
    let ghost all = trees(a@);
    let mut i: usize = 0;
    while i < a.len()
        invariant
            i <= a@.len(),
            all == trees(a@),
            forall|j: int| 0 <= j < i ==> !alike(#[trigger] all[j], v@),
        decreases a@.len() - i,
    {
        assert(all[i as int] == a@[i as int]@);
        if a[i].same_as(v) {
            assert(alike(all[i as int], v@));
            return true;
        }
        i += 1;
    }
    false
}

/// Why a value is no answer to an input.
pub open spec fn scalar_objection(s: JsonView, v: JsonView) -> Option<Seq<char>> {
    if !right_type(s, v) {
        Some("入力の型が違います"@)
    } else if s.at("enum"@).array() is Some && !among(s.at("enum"@).array()->0, v) {
        Some("選択肢から選んでください"@)
    } else if before(v, s.at("minimum"@)) || before(s.at("maximum"@), v) {
        Some("数値が範囲外です"@)
    } else if v is Text && !(utf8_len(v.text()->0) <= MAX_TEXT_BYTES && !(s.at(
        "minLength"@,
    ).unsigned() is Some && v.text()->0.len() < s.at("minLength"@).unsigned()->0) && !(s.at(
        "maxLength"@,
    ).unsigned() is Some && v.text()->0.len() > s.at("maxLength"@).unsigned()->0)) {
        Some("文字数または容量が範囲外です"@)
    } else {
        None
    }
}

/// Whether a value is an answer to an input.
pub fn validate_scalar(s: &Json, v: &Json) -> (r: Result<(), &'static str>)
    ensures
        match scalar_objection(s@, v@) {
            None => r is Ok,
            Some(e) => r is Err && r->Err_0@ == e,
        },
{
    if !scalar_type(s, v) {
        return Err("入力の型が違います");
    }
    if let Some(a) = s.at("enum").as_array() {
        assert(trees(a@) =~= s@.at("enum"@).array()->0);
        if !is_among(a, v) {
            return Err("選択肢から選んでください");
        }
    }
    if is_before(v, s.at("minimum")) || is_before(s.at("maximum"), v) {
        return Err("数値が範囲外です");
    }
    if let Some(t) = v.as_str() {
        let n: u64 = chars_of(t).len() as u64;
        let short = match s.at("minLength").as_u64() {
            Some(m) => n < m,
            None => false,
        };
        let long = match s.at("maxLength").as_u64() {
            Some(m) => n > m,
            None => false,
        };
        if byte_len(t) > MAX_TEXT_BYTES || short || long {
            return Err("文字数または容量が範囲外です");
        }
    }
    Ok(())
}

/// What a user's text means for an input, before it is checked.
pub open spec fn meant(s: JsonView, t: Seq<char>) -> Result<JsonView, Seq<char>> {
    match s.at("enum"@).array() {
        Some(a) => match unsigned_of(trimmed(t), usize::MAX as nat) {
            None => Err("選択肢の番号を入力してください"@),
            Some(n) => if 1 <= n <= a.len() {
                Ok(a[n - 1])
            } else {
                Err("選択肢の番号が範囲外です"@)
            },
        },
        None => if s.at("type"@).says("string"@) {
            Ok(JsonView::Text(t))
        } else if s.at("type"@).says("boolean"@) {
            if trimmed(t) == "true"@ || trimmed(t) == "はい"@ {
                Ok(JsonView::Bool(true))
            } else if trimmed(t) == "false"@ || trimmed(t) == "いいえ"@ {
                Ok(JsonView::Bool(false))
            } else {
                Err("はい/いいえを入力してください"@)
            }
        } else {
            match parsed_tree(trimmed(t)) {
                Ok(v) => Ok(v),
                Err(_) => Err("数値を入力してください"@),
            }
        },
    }
}

/// The answer that a user's text is for an input: the number of a choice, a text, yes or no, or a
/// number.
pub fn parse_value(s: &Json, text: &str) -> (r: Result<Json, &'static str>)
    ensures
        match meant(s@, text@) {
            Err(e) => r is Err && r->Err_0@ == e,
            Ok(v) => match scalar_objection(s@, v) {
                None => r is Ok && r->Ok_0@ == v,
                Some(e) => r is Err && r->Err_0@ == e,
            },
        },
{
    let short = trim(text);
    let v = match s.at("enum").as_array() {
        Some(a) => {
            assert(trees(a@) =~= s@.at("enum"@).array()->0);
            match parse_unsigned(short.as_str(), usize::MAX as u64) {
                None => {
                    return Err("選択肢の番号を入力してください");
                },
                Some(n) => {
                    if n < 1 || n > a.len() as u64 {
                        return Err("選択肢の番号が範囲外です");
                    }
                    assert(s@.at("enum"@).array()->0[n - 1] == a@[n - 1]@);
                    a[(n - 1) as usize].copy()
                },
            }
        },
        None => {
            if s.at("type").is_text("string") {
                json_text(text)
            } else if s.at("type").is_text("boolean") {
                if same(short.as_str(), "true") || same(short.as_str(), "はい") {
                    Json::Bool(true)
                } else if same(short.as_str(), "false") || same(short.as_str(), "いいえ") {
                    Json::Bool(false)
                } else {
                    return Err("はい/いいえを入力してください");
                }
            } else {
                match parse(short.as_str()) {
                    Some(v) => v,
                    None => {
                        return Err("数値を入力してください");
                    },
                }
            }
        },
    };
    match validate_scalar(s, &v) {
        Ok(()) => Ok(v),
        Err(e) => Err(e),
    }
}

/// The first objection to an answer among the first `n`.
pub open spec fn answers_objection(p: JsonView, a: Seq<(Seq<char>, JsonView)>, n: nat) -> Option<
    Seq<char>,
>
    decreases n,
{
    if n == 0 || n > a.len() {
        None
    } else {
        let e = answers_objection(p, a, (n - 1) as nat);
        if e is Some {
            e
        } else {
            match p.get(a[n - 1].0) {
                None => Some("不明な項目です"@),
                Some(s) => scalar_objection(s, a[n - 1].1),
            }
        }
    }
}

proof fn lemma_answers_objection(p: JsonView, a: Seq<(Seq<char>, JsonView)>, i: nat, n: nat)
    requires
        i <= n <= a.len(),
        answers_objection(p, a, i) is Some,
    ensures
        answers_objection(p, a, n) == answers_objection(p, a, i),
    decreases n,
{
    if i < n {
        lemma_answers_objection(p, a, i, (n - 1) as nat);
    }
}

/// Whether every required field has an answer.
pub open spec fn all_answered(s: JsonView, a: JsonView) -> bool {
    match s.at("required"@).array() {
        Some(list) => forall|i: int|
            0 <= i < list.len() ==> a.get((#[trigger] list[i]).text()->0) is Some,
        None => true,
    }
}

/// Why answers do not fill a form.
pub open spec fn filling_objection(s: JsonView, a: JsonView) -> Option<Seq<char>> {
    if schema_objection(s) is Some {
        schema_objection(s)
    } else if !all_answered(s, a) {
        Some("必須項目が未入力です"@)
    } else {
        let e = answers_objection(s.at("properties"@), a->Object_0, a->Object_0.len());
        if e is Some {
            e
        } else if compact(document(a)).len() > MAX_ANSWER_BYTES {
            Some("回答全体が大きすぎます"@)
        } else {
            None
        }
    }
}

fn is_all_answered(s: &Json, a: &Json) -> (r: bool)
    requires
        schema_objection(s@) is None,
    ensures
        r == all_answered(s@, a@),
{
    match s.at("required").as_array() {
        None => true,
        Some(list) => {
            let ghost all = s@.at("required"@).array()->0;
            let mut i: usize = 0;
            while i < list.len()
                invariant
                    i <= list@.len(),
                    list@.len() == all.len(),
                    schema_objection(s@) is None,
                    s@.at("required"@).array() == Some(all),
                    forall|j: int| 0 <= j < all.len() ==> #[trigger] list@[j]@ == all[j],
                    forall|j: int| 0 <= j < i ==> a@.get((#[trigger] all[j]).text()->0) is Some,
                decreases list@.len() - i,
            {
                assert(list@[i as int]@ == all[i as int]);
                assert(s@.get("required"@) is Some);
                assert(all[i as int].text() is Some);
                match list[i].as_str() {
                    Some(k) => {
                        if a.get(k).is_none() {
                            return false;
                        }
                    },
                    None => {},
                }
                i += 1;
            }
            true
        },
    }
}

/// Whether answers fill a form.
pub fn validate_answers(s: &Json, a: &Json) -> (r: Result<(), &'static str>)
    requires
        a@ is Object,
    ensures
        match filling_objection(s@, a@) {
            None => r is Ok,
            Some(e) => r is Err && r->Err_0@ == e,
        },
{
    match validate_schema(s) {
        Err(e) => {
            return Err(e);
        },
        Ok(()) => {},
    }
    if !is_all_answered(s, a) {
        return Err("必須項目が未入力です");
    }
    let p = s.at("properties");
    let ghost m = a@->Object_0;
    let ghost whole = answers_objection(p@, m, m.len());
    if let Some(list) = a.as_object() {
        let mut i: usize = 0;
        while i < list.len()
            invariant
                i <= list@.len(),
                list@.len() == m.len(),
                p@ == s@.at("properties"@),
                a@ == JsonView::Object(m),
                schema_objection(s@) is None,
                all_answered(s@, a@),
                forall|j: int|
                    0 <= j < m.len() ==> m[j] == ((#[trigger] list@[j]).key@, list@[j].value@),
                answers_objection(p@, m, i as nat) is None,
                whole == answers_objection(p@, m, m.len()),
            decreases list@.len() - i,
        {
            assert(m[i as int] == (list@[i as int].key@, list@[i as int].value@));
            let checked = match p.get(list[i].key.as_str()) {
                None => Err("不明な項目です"),
                Some(field) => validate_scalar(field, &list[i].value),
            };
            match checked {
                Err(e) => {
                    proof {
                        lemma_answers_objection(p@, m, (i + 1) as nat, m.len());
                    }
                    return Err(e);
                },
                Ok(()) => {},
            }
            i += 1;
        }
    }
    if encode(a).len() > MAX_ANSWER_BYTES {
        return Err("回答全体が大きすぎます");
    }
    Ok(())
}

/// How a value is shown: a text as it is, anything else as JSON.
pub open spec fn shown(v: JsonView) -> Seq<char> {
    match v {
        JsonView::Text(s) => s,
        _ => compact_text(document(v)),
    }
}

pub fn display(v: &Json) -> (r: String)
    ensures
        r@ == shown(v@),
{
    match v.as_str() {
        Some(s) => s.to_owned(),
        None => compact_form(v),
    }
}

/// The line of one property of an input, where it has it.
pub open spec fn property_line(s: JsonView, key: Seq<char>, label: Seq<char>) -> Seq<char> {
    match s.get(key) {
        Some(v) => label + ": "@ + shown(v) + "\n"@,
        None => Seq::empty(),
    }
}

fn add_property(t: String, s: &Json, key: &str, label: &str) -> (r: String)
    ensures
        r@ == t@ + property_line(s@, key@, label@),
{
    match s.get(key) {
        Some(v) => {
            let said = display(v);
            let r = t.concat(label).concat(": ").concat(said.as_str()).concat("\n");
            assert(r@ =~= t@ + property_line(s@, key@, label@));
            r
        },
        None => {
            assert(t@ =~= t@ + property_line(s@, key@, label@));
            t
        },
    }
}

/// The line of a choice.
pub open spec fn choice_line(n: nat, v: JsonView, name: JsonView) -> Seq<char> {
    decimal(n) + ". "@ + shown(v) + match name.text() {
        Some(x) => " — "@ + x,
        None => Seq::empty(),
    } + "\n"@
}

fn choice_text(n: u64, v: &Json, name: &Json) -> (r: String)
    ensures
        r@ == choice_line(n as nat, v@, name@),
{
    let number = decimal_text(n);
    let said = display(v);
    let line = String::from_str(number.as_str()).concat(". ").concat(said.as_str());
    match name.as_str() {
        Some(x) => {
            let r = line.concat(" — ").concat(x).concat("\n");
            assert(r@ =~= choice_line(n as nat, v@, name@));
            r
        },
        None => {
            let r = line.concat("\n");
            assert(r@ =~= choice_line(n as nat, v@, name@));
            r
        },
    }
}

/// The lines of the first `n` choices.
pub open spec fn choice_lines(s: JsonView, a: Seq<JsonView>, n: nat) -> Seq<char>
    decreases n,
{
    if n == 0 || n > a.len() {
        Seq::empty()
    } else {
        choice_lines(s, a, (n - 1) as nat) + choice_line(n, a[n - 1], s.at("enumNames"@).item(n - 1))
    }
}

/// What an input is, in words.
pub open spec fn help_properties(s: JsonView) -> Seq<char> {
    property_line(s, "title"@, "名称"@) + property_line(s, "description"@, "説明"@) + property_line(
        s,
        "minimum"@,
        "最小値"@,
    ) + property_line(s, "maximum"@, "最大値"@) + property_line(s, "minLength"@, "最小文字数"@)
        + property_line(s, "maxLength"@, "最大文字数"@) + property_line(
        s,
        "default"@,
        "参考の既定値（自動採用しません）"@,
    )
}

/// What to enter, in words.
pub open spec fn help_choices(s: JsonView) -> Seq<char> {
    match s.at("enum"@).array() {
        Some(a) => "選択肢の番号を入力してください。\n"@ + choice_lines(s, a, a.len()),
        None => if s.at("type"@).says("boolean"@) {
            "はい / いいえ を入力してください。\n"@
        } else {
            Seq::empty()
        },
    }
}

/// The type of an input, in words.
pub open spec fn kind_name(s: JsonView) -> Seq<char> {
    match s.at("type"@).text() {
        Some(t) => t,
        None => "不明"@,
    }
}

/// The explanation of an input.
pub open spec fn help_text(name: Seq<char>, s: JsonView) -> Seq<char> {
    "項目: "@ + name + "\n型: "@ + kind_name(s) + "\n"@ + help_properties(s) + help_choices(s)
}

fn properties_text(s: &Json) -> (r: String)
    ensures
        r@ == help_properties(s@),
{
    let t = String::new();
    assert(t@ =~= Seq::<char>::empty());
    let t = add_property(t, s, "title", "名称");
    assert(t@ =~= property_line(s@, "title"@, "名称"@));
    let t = add_property(t, s, "description", "説明");
    let t = add_property(t, s, "minimum", "最小値");
    let t = add_property(t, s, "maximum", "最大値");
    let t = add_property(t, s, "minLength", "最小文字数");
    let t = add_property(t, s, "maxLength", "最大文字数");
    add_property(t, s, "default", "参考の既定値（自動採用しません）")
}

fn choices_text(s: &Json) -> (r: String)
    ensures
        r@ == help_choices(s@),
{
    match s.at("enum").as_array() {
        Some(a) => {
            let ghost all = s@.at("enum"@).array()->0;
            let mut lines = String::new();
            let mut i: usize = 0;
            assert(lines@ =~= Seq::<char>::empty());
            while i < a.len()
                invariant
                    i <= a@.len(),
                    a@.len() == all.len(),
                    forall|j: int| 0 <= j < all.len() ==> #[trigger] a@[j]@ == all[j],
                    lines@ == choice_lines(s@, all, i as nat),
                decreases a@.len() - i,
            {
                assert(a@[i as int]@ == all[i as int]);
                let line = choice_text((i as u64) + 1, &a[i], s.at("enumNames").item(i));
                lines.append(line.as_str());
                i += 1;
            }
            String::from_str("選択肢の番号を入力してください。\n").concat(lines.as_str())
        },
        None => {
            if s.at("type").is_text("boolean") {
                String::from_str("はい / いいえ を入力してください。\n")
            } else {
                let r = String::new();
                assert(r@ =~= Seq::<char>::empty());
                r
            }
        },
    }
}

/// The explanation of an input.
pub fn help(name: &str, s: &Json) -> (r: String)
    ensures
        r@ == help_text(name@, s@),
{
    let kind = match s.at("type").as_str() {
        Some(t) => t,
        None => "不明",
    };
    let properties = properties_text(s);
    let choices = choices_text(s);
    String::from_str("項目: ").concat(name).concat("\n型: ").concat(kind).concat("\n").concat(
        properties.as_str(),
    ).concat(choices.as_str())
}

} // verus!
