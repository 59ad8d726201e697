//! Decimal and hexadecimal notation of integers.
use crate::text::{ascii_digit, chars_of, is_ascii_digit, unseparated};
use vstd::prelude::*;
use vstd::string::*;

verus! {

/// The character of a digit below ten.
pub open spec fn digit_char(d: nat) -> char {
    (d + 48) as char
}

/// The value of a decimal digit.
pub open spec fn digit_value(c: char) -> nat {
    (c as u32 - 48) as nat
}

/// The decimal notation of a number.
pub open spec fn decimal(n: nat) -> Seq<char>
    decreases n,
{
    if n < 10 {
        seq![digit_char(n)]
    } else {
        decimal(n / 10).push(digit_char(n % 10))
    }
}

/// The decimal notation of a signed number.
pub open spec fn signed_decimal(n: int) -> Seq<char> {
    if n < 0 {
        seq!['-'] + decimal((-n) as nat)
    } else {
        decimal(n as nat)
    }
}

/// Whether a text is one or more decimal digits.
pub open spec fn all_digits(s: Seq<char>) -> bool {
    s.len() > 0 && forall|i: int| 0 <= i < s.len() ==> ascii_digit(#[trigger] s[i])
}

/// The number that a text of decimal digits denotes.
pub open spec fn digits_value(s: Seq<char>) -> nat
    decreases s.len(),
{
    if s.len() == 0 {
        0
    } else {
        digits_value(s.drop_last()) * 10 + digit_value(s.last())
    }
}

/// A text without one leading plus sign.
pub open spec fn without_plus(s: Seq<char>) -> Seq<char> {
    if s.len() > 0 && s[0] == '+' {
        s.skip(1)
    } else {
        s
    }
}

/// The unsigned number up to `max` that a text denotes, with an optional plus sign.
pub open spec fn unsigned_of(s: Seq<char>, max: nat) -> Option<nat> {
    let d = without_plus(s);
    if all_digits(d) && digits_value(d) <= max {
        Some(digits_value(d))
    } else {
        None
    }
}

/// The 64-bit signed number that a text denotes, with an optional sign.
pub open spec fn signed_of(s: Seq<char>) -> Option<int> {
    if s.len() > 0 && s[0] == '-' {
        let d = s.skip(1);
        if all_digits(d) && digits_value(d) <= -(i64::MIN as int) {
            Some(-(digits_value(d) as int))
        } else {
            None
        }
    } else {
        let d = without_plus(s);
        if all_digits(d) && digits_value(d) <= i64::MAX as nat {
            Some(digits_value(d) as int)
        } else {
            None
        }
    }
}

/// Whether the value of some digits exceeds `max` before a character that is no digit, reading from
/// a position on.
pub open spec fn exceeds(d: Seq<char>, max: nat, from: nat) -> bool
    decreases d.len() - from,
{
    if from >= d.len() || !ascii_digit(d[from as int]) {
        false
    } else if digits_value(d.take((from + 1) as int)) > max {
        true
    } else {
        exceeds(d, max, from + 1)
    }
}

/// Why a text denotes no unsigned number up to `max`, in the words of std.
pub open spec fn unsigned_fault(s: Seq<char>, max: nat) -> Option<Seq<char>> {
    if unsigned_of(s, max) is Some {
        None
    } else if s.len() == 0 {
        Some("cannot parse integer from empty string"@)
    } else if exceeds(without_plus(s), max, 0) {
        Some("number too large to fit in target type"@)
    } else {
        Some("invalid digit found in string"@)
    }
}

/// Why a text denotes no signed 64-bit number, in the words of std.
pub open spec fn signed_fault(s: Seq<char>) -> Option<Seq<char>> {
    if signed_of(s) is Some {
        None
    } else if s.len() == 0 {
        Some("cannot parse integer from empty string"@)
    } else if s[0] == '-' {
        if exceeds(s.skip(1), (-(i64::MIN as int)) as nat, 0) {
            Some("number too small to fit in target type"@)
        } else {
            Some("invalid digit found in string"@)
        }
    } else if exceeds(without_plus(s), i64::MAX as nat, 0) {
        Some("number too large to fit in target type"@)
    } else {
        Some("invalid digit found in string"@)
    }
}

/// The notation of a number is made of digits and denotes that number.
pub proof fn lemma_decimal_round_trip(n: nat)
    ensures
        all_digits(decimal(n)),
        digits_value(decimal(n)) == n,
    decreases n,
{
    reveal_with_fuel(digits_value, 2);
    if n < 10 {
        let s = decimal(n);
        assert(s.drop_last() =~= Seq::<char>::empty());
        assert(ascii_digit(s[0]));
    } else {
        lemma_decimal_round_trip(n / 10);
        let s = decimal(n);
        let head = decimal(n / 10);
        assert(s.drop_last() =~= head);
        assert forall|i: int| 0 <= i < s.len() implies ascii_digit(#[trigger] s[i]) by {
            if i < head.len() {
                assert(s[i] == head[i]);
            }
        }
    }
}

/// The notation of a signed number is read as that number, and has no colon in it.
pub proof fn lemma_signed_round_trip(n: int)
    requires
        i64::MIN <= n <= i64::MAX,
    ensures
        signed_of(signed_decimal(n)) == Some(n),
        unseparated(signed_decimal(n), ':'),
{
    let m = if n < 0 {
        (-n) as nat
    } else {
        n as nat
    };
    lemma_decimal_round_trip(m);
    let s = signed_decimal(n);
    let d = decimal(m);
    assert forall|i: int| 0 <= i < d.len() implies #[trigger] d[i] != ':' by {
        assert(ascii_digit(d[i]));
    }
    assert(ascii_digit(d[0]));
    if n < 0 {
        assert(s.skip(1) =~= d);
        assert forall|i: int| 0 <= i < s.len() implies #[trigger] s[i] != ':' by {
            if i > 0 {
                assert(s[i] == d[i - 1]);
            }
        }
    }
}

/// The notation of a number is read as that number, and has no colon in it.
pub proof fn lemma_unsigned_round_trip(n: nat, max: nat)
    requires
        n <= max,
    ensures
        unsigned_of(decimal(n), max) == Some(n),
        unseparated(decimal(n), ':'),
{
    lemma_decimal_round_trip(n);
    let d = decimal(n);
    assert forall|i: int| 0 <= i < d.len() implies #[trigger] d[i] != ':' by {
        assert(ascii_digit(d[i]));
    }
    assert(ascii_digit(d[0]));
}

/// A number below ten to the power `k` takes at most `k` digits.
pub proof fn lemma_decimal_len(n: nat)
    ensures
        n < 10 ==> decimal(n).len() == 1,
        n < 1_000 ==> decimal(n).len() <= 3,
        n < 1_000_000_000 ==> decimal(n).len() <= 9,
        n <= u64::MAX ==> decimal(n).len() <= 20,
{
    reveal_with_fuel(decimal, 21);
}

fn digit(d: u64) -> (c: char)
    requires
        d < 10,
    ensures
        c == digit_char(d as nat),
{
    if d == 0 {
        '0'
    } else if d == 1 {
        '1'
    } else if d == 2 {
        '2'
    } else if d == 3 {
        '3'
    } else if d == 4 {
        '4'
    } else if d == 5 {
        '5'
    } else if d == 6 {
        '6'
    } else if d == 7 {
        '7'
    } else if d == 8 {
        '8'
    } else {
        '9'
    }
}

/// The decimal notation of a number.
pub fn decimal_text(n: u64) -> (s: String)
    ensures
        s@ == decimal(n as nat),
    decreases n,
{
    let mut s: String = if n < 10 { String::new() } else { decimal_text(n / 10) };
    s.push(digit(n % 10));
    assert(s@ =~= decimal(n as nat));
    s
}

/// The decimal notation of a signed number.
pub fn signed_text(n: i64) -> (s: String)
    ensures
        s@ == signed_decimal(n as int),
{
    if n >= 0 {
        decimal_text(n as u64)
    } else {
        let magnitude: u64 = (-(n + 1)) as u64 + 1;
        let digits = decimal_text(magnitude);
        let mut s: String = String::new();
        s.push('-');
        s.append(digits.as_str());
        assert(s@ =~= signed_decimal(n as int));
        s
    }
}

/// The value of the digits `from..`, or whether it is too great rather than no number.
fn digits_from(v: &Vec<char>, from: usize, max: u64) -> (r: Result<u64, bool>)
    requires
        from <= v@.len(),
    ensures
        r is Ok <==> all_digits(v@.skip(from as int)) && digits_value(v@.skip(from as int)) <= max,
        r is Ok ==> r->Ok_0 == digits_value(v@.skip(from as int)),
        r is Err ==> r->Err_0 == exceeds(v@.skip(from as int), max as nat, 0),
{
    let ghost d = v@.skip(from as int);
    if from == v.len() {
        return Err(false);
    }
    let mut total: u128 = 0;
    let mut i: usize = from;
    while i < v.len()
        invariant
            from <= i <= v@.len(),
            d == v@.skip(from as int),
            forall|j: int| 0 <= j < i - from ==> ascii_digit(#[trigger] d[j]),
            total == digits_value(d.take(i - from)),
            total <= max,
            exceeds(d, max as nat, 0) == exceeds(d, max as nat, (i - from) as nat),
        decreases v@.len() - i,
    {
        assert(d[i - from] == v@[i as int]);
        if !is_ascii_digit(v[i]) {
            return Err(false);
        }
        assert(d.take(i + 1 - from).drop_last() =~= d.take(i - from));
        total = total * 10 + (v[i] as u32 - 48) as u128;
        if total > max as u128 {
            proof {
                lemma_digits_grow(d, i + 1 - from);
            }
            return Err(true);
        }
        i += 1;
    }
    assert(d.take(d.len() as int) =~= d);
    Ok(total as u64)
}

proof fn lemma_digits_grow(s: Seq<char>, n: int)
    requires
        0 <= n <= s.len(),
    ensures
        digits_value(s.take(n)) <= digits_value(s),
    decreases s.len(),
{
    if n == s.len() {
        assert(s.take(n) =~= s);
    } else {
        lemma_digits_grow(s.drop_last(), n);
        assert(s.drop_last().take(n) =~= s.take(n));
    }
}

/// Reads an unsigned number of at most `max`.
pub fn unsigned_number(s: &str, max: u64) -> (r: Result<u64, &'static str>)
    ensures
        match unsigned_fault(s@, max as nat) {
            Some(e) => r is Err && r->Err_0@ == e,
            None => r is Ok && Some(r->Ok_0 as nat) == unsigned_of(s@, max as nat),
        },
{
    let v = chars_of(s);
    if v.len() == 0 {
        return Err("cannot parse integer from empty string");
    }
    let from: usize = if v[0] == '+' { 1 } else { 0 };
    assert(v@.skip(from as int) =~= without_plus(s@));
    match digits_from(&v, from, max) {
        Ok(n) => Ok(n),
        Err(true) => Err("number too large to fit in target type"),
        Err(false) => Err("invalid digit found in string"),
    }
}

/// Reads a signed 64-bit number.
pub fn signed_number(s: &str) -> (r: Result<i64, &'static str>)
    ensures
        match signed_fault(s@) {
            Some(e) => r is Err && r->Err_0@ == e,
            None => r is Ok && Some(r->Ok_0 as int) == signed_of(s@),
        },
{
    let v = chars_of(s);
    if v.len() == 0 {
        return Err("cannot parse integer from empty string");
    }
    if v[0] == '-' {
        match digits_from(&v, 1, 0x8000_0000_0000_0000) {
            Ok(n) => {
                if n == 0x8000_0000_0000_0000 {
                    Ok(i64::MIN)
                } else {
                    Ok(-(n as i64))
                }
            },
            Err(true) => Err("number too small to fit in target type"),
            Err(false) => Err("invalid digit found in string"),
        }
    } else {
        let from: usize = if v[0] == '+' { 1 } else { 0 };
        assert(v@.skip(from as int) =~= without_plus(s@));
        match digits_from(&v, from, 0x7fff_ffff_ffff_ffff) {
            Ok(n) => Ok(n as i64),
            Err(true) => Err("number too large to fit in target type"),
            Err(false) => Err("invalid digit found in string"),
        }
    }
}

/// Reads an unsigned number of at most `max`, where there is one.
pub fn parse_unsigned(s: &str, max: u64) -> (r: Option<u64>)
    ensures
        r is Some <==> unsigned_of(s@, max as nat) is Some,
        r is Some ==> r->0 == unsigned_of(s@, max as nat)->0,
{
    match unsigned_number(s, max) {
        Ok(n) => Some(n),
        Err(_) => None,
    }
}

/// The character of a hexadecimal digit.
pub open spec fn hex_char(d: nat) -> char {
    if d < 10 {
        (d + 48) as char
    } else {
        (d + 87) as char
    }
}

/// The lower-case hexadecimal notation of a number.
pub open spec fn hexadecimal(n: nat) -> Seq<char>
    decreases n,
{
    if n < 16 {
        seq![hex_char(n)]
    } else {
        hexadecimal(n / 16).push(hex_char(n % 16))
    }
}

/// A 32-bit number takes one to eight hexadecimal digits, each an ASCII character.
pub proof fn lemma_hexadecimal(n: nat)
    ensures
        n <= u32::MAX ==> 1 <= hexadecimal(n).len() <= 8,
        forall|i: int| 0 <= i < hexadecimal(n).len() ==> (#[trigger] hexadecimal(n)[i]) as u32 <= 102,
    decreases n,
{
    reveal_with_fuel(hexadecimal, 9);
    if n >= 16 {
        lemma_hexadecimal(n / 16);
        let s = hexadecimal(n);
        assert forall|i: int| 0 <= i < s.len() implies (#[trigger] s[i]) as u32 <= 102 by {
            if i < s.len() - 1 {
                assert(s[i] == hexadecimal(n / 16)[i]);
            }
        }
    }
}

fn hex_digit_char(d: u32) -> (c: char)
    requires
        d < 16,
    ensures
        c == hex_char(d as nat),
{
    if d < 10 {
        (48 + d as u8) as char
    } else {
        (87 + d as u8) as char
    }
}

/// The lower-case hexadecimal notation of a number.
pub fn hexadecimal_text(n: u32) -> (s: String)
    ensures
        s@ == hexadecimal(n as nat),
    decreases n,
{
    let mut s: String = if n < 16 { String::new() } else { hexadecimal_text(n / 16) };
    s.push(hex_digit_char(n % 16));
    assert(s@ =~= hexadecimal(n as nat));
    s
}

/// The value of a lower-case hexadecimal digit.
pub open spec fn hex_digit_value(c: char) -> nat {
    if c as u32 >= 97 {
        (c as u32 - 87) as nat
    } else {
        (c as u32 - 48) as nat
    }
}

/// The number that lower-case hexadecimal digits denote.
pub open spec fn hex_value(s: Seq<char>) -> nat
    decreases s.len(),
{
    if s.len() == 0 {
        0
    } else {
        hex_value(s.drop_last()) * 16 + hex_digit_value(s.last())
    }
}

/// The number that the first fifteen of some hexadecimal digits denote.
pub fn first_fifteen(s: &str) -> (r: i64)
    requires
        s@.len() >= 15,
        forall|i: int| 0 <= i < 15 ==> crate::codec::hex_digit(#[trigger] s@[i]),
    ensures
        r == hex_value(s@.take(15)),
{
    let v = chars_of(s);
    let mut total: i64 = 0;
    let mut bound: i64 = 1;
    let mut i: usize = 0;
    assert(s@.take(0) =~= Seq::<char>::empty());
    proof {
        reveal(vstd::arithmetic::power::pow);
    }
    while i < 15
        invariant
            i <= 15,
            v@ == s@,
            s@.len() >= 15,
            forall|k: int| 0 <= k < 15 ==> crate::codec::hex_digit(#[trigger] s@[k]),
            total == hex_value(s@.take(i as int)),
            0 <= total < bound,
            bound == vstd::arithmetic::power::pow(16, i as nat),
            bound <= 0x1000_0000_0000_0000,
            i < 15 ==> bound <= 0x100_0000_0000_0000,
        decreases 15 - i,
    {
        let c = v[i];
        assert(crate::codec::hex_digit(s@[i as int]));
        let d: i64 = if c as u32 >= 97 { (c as u32 - 87) as i64 } else { (c as u32 - 48) as i64 };
        assert(s@.take(i + 1).drop_last() =~= s@.take(i as int));
        proof {
            reveal_with_fuel(vstd::arithmetic::power::pow, 17);
        }
        total = total * 16 + d;
        bound = bound * 16;
        i += 1;
    }
    total
}

} // verus!
