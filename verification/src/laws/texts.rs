//! Texts, numbers and paths are taken apart and put together without loss.
use crate::numbers::{decimal_text, signed_number, signed_text};
use crate::paths::{is_absolute, join_path};
use crate::text::{
    blank, fold, is_blank, is_white, joined, pieces, replace, split, starts_with, strip_prefix,
    take_chars, trim, trim_back, trim_front, unseparated, views, white,
};
use vstd::prelude::*;

verus! {

proof fn pieces_make_the_text(s: Seq<char>, c: char)
    ensures
        pieces(s, c).len() >= 1,
        joined(pieces(s, c), seq![c]) == s,
        forall|i: int| 0 <= i < pieces(s, c).len() ==> unseparated(#[trigger] pieces(s, c)[i], c),
    decreases s.len(),
{
    let sep = seq![c];
    let p = pieces(s, c);
    if s.len() == 0 {
        assert(p =~= seq![Seq::<char>::empty()]);
        assert(joined(p, sep) =~= s);
    } else {
        let t = s.drop_last();
        let head = pieces(t, c);
        pieces_make_the_text(t, c);
        if s.last() == c {
            assert(p.drop_last() =~= head);
            assert(joined(p, sep) =~= t + sep);
            assert(t + sep =~= s);
        } else {
            let last = head.last().push(s.last());
            assert(p.drop_last() =~= head.drop_last());
            assert(p.last() == last);
            assert(unseparated(head[head.len() - 1], c));
            assert(unseparated(last, c));
            if p.len() == 1 {
                assert(head.len() == 1);
                assert(joined(head, sep) == head[0]);
                assert(p[0] =~= t.push(s.last()));
                assert(p[0] =~= s);
            } else {
                assert(joined(head, sep) == joined(head.drop_last(), sep) + sep + head.last());
                assert(joined(p, sep) == joined(head.drop_last(), sep) + sep + last);
                assert(joined(p, sep) =~= joined(head, sep).push(s.last()));
                assert(joined(p, sep) =~= s);
            }
        }
    }
}

/// The pieces of a text, put together again, are the text, and none of them holds the separator.
pub proof fn pieces_are_the_text(s: &str, c: char, r: Vec<String>, i: int)
    requires
        call_ensures(split, (s, c), r),
    ensures
        r@.len() >= 1,
        joined(views(r@), seq![c]) == s@,
        0 <= i < r@.len() ==> !r@[i]@.contains(c),
{
    pieces_make_the_text(s@, c);
    assert(views(r@).len() == r@.len());
    if 0 <= i < r@.len() {
        assert(views(r@)[i] == r@[i]@);
        assert(unseparated(pieces(s@, c)[i], c));
    }
}

proof fn front_is_trimmed(s: Seq<char>)
    ensures
        exists|k: int|
            0 <= k <= s.len() && trim_front(s) == #[trigger] s.skip(k) && blank(s.take(k)),
        trim_front(s).len() > 0 ==> !white(trim_front(s)[0]),
    decreases s.len(),
{
    if s.len() > 0 && white(s[0]) {
        let t = s.drop_first();
        front_is_trimmed(t);
        let k = choose|k: int|
            0 <= k <= t.len() && trim_front(t) == #[trigger] t.skip(k) && blank(t.take(k));
        assert(t.skip(k) =~= s.skip(k + 1));
        assert forall|i: int| 0 <= i < k + 1 implies white(#[trigger] s.take(k + 1)[i]) by {
            if i > 0 {
                assert(t.take(k)[i - 1] == s.take(k + 1)[i]);
            }
        }
        assert(blank(s.take(k + 1)));
    } else {
        assert(s.skip(0) =~= s);
        assert(blank(s.take(0)));
    }
}

proof fn back_is_trimmed(s: Seq<char>)
    ensures
        exists|k: int|
            0 <= k <= s.len() && trim_back(s) == #[trigger] s.take(k) && blank(s.skip(k)),
        trim_back(s).len() > 0 ==> !white(trim_back(s).last()),
    decreases s.len(),
{
    if s.len() > 0 && white(s.last()) {
        let t = s.drop_last();
        back_is_trimmed(t);
        let k = choose|k: int|
            0 <= k <= t.len() && trim_back(t) == #[trigger] t.take(k) && blank(t.skip(k));
        assert(t.take(k) =~= s.take(k));
        assert forall|i: int| 0 <= i < s.skip(k).len() implies white(#[trigger] s.skip(k)[i]) by {
            if i < t.skip(k).len() {
                assert(t.skip(k)[i] == s.skip(k)[i]);
            }
        }
        assert(blank(s.skip(k)));
    } else {
        assert(s.take(s.len() as int) =~= s);
        assert(blank(s.skip(s.len() as int)));
    }
}

/// Trimming takes blanks from both ends and nothing else.
pub proof fn only_blanks_are_trimmed(s: &str, r: String)
    requires
        call_ensures(trim, (s,), r),
    ensures
        exists|a: Seq<char>, b: Seq<char>|
            blank(a) && blank(b) && s@ == #[trigger] (a + r@ + b),
        r@.len() > 0 ==> !white(r@[0]) && !white(r@.last()),
{
    let f = trim_front(s@);
    front_is_trimmed(s@);
    back_is_trimmed(f);
    let k = choose|k: int|
        0 <= k <= s@.len() && f == #[trigger] s@.skip(k) && blank(s@.take(k));
    let n = choose|n: int| 0 <= n <= f.len() && r@ == #[trigger] f.take(n) && blank(f.skip(n));
    assert(s@ =~= s@.take(k) + r@ + f.skip(n));
    if r@.len() > 0 {
        assert(r@[0] == f[0]);
    }
}

/// A text is blank where it holds blanks only; spaces, tabs and line ends are blanks, and letters,
/// digits and signs are not.
pub proof fn blanks_are_blank(s: &str, r: bool, c: char, w: bool)
    requires
        call_ensures(is_blank, (s,), r),
        call_ensures(is_white, (c,), w),
    ensures
        r <==> forall|i: int| 0 <= i < s@.len() ==> white(#[trigger] s@[i]),
        s@.len() == 0 ==> r,
        w <==> white(c),
        c == ' ' || c == '\t' || c == '\n' || c == '\r' || c == '\u{3000}' ==> w,
        '!' <= c <= '~' ==> !w,
{
}

/// A text begins with another where the other is its first letters, and the rest is what follows.
pub proof fn beginnings_are_first_letters(
    s: &str,
    p: &str,
    r: bool,
    rest: Option<String>,
)
    requires
        call_ensures(starts_with, (s, p), r),
        call_ensures(strip_prefix, (s, p), rest),
    ensures
        r <==> exists|t: Seq<char>| s@ == #[trigger] (p@ + t),
        rest is Some <==> r,
        rest is Some ==> s@ == p@ + rest->0@,
{
    if r {
        let t = s@.skip(p@.len() as int);
        assert(s@ =~= p@ + t);
    }
    if exists|t: Seq<char>| s@ == #[trigger] (p@ + t) {
        let t = choose|t: Seq<char>| s@ == #[trigger] (p@ + t);
        assert(s@.subrange(0, p@.len() as int) =~= p@);
    }
}

/// The first letters of a text are as many as asked for, or all.
pub proof fn first_letters_are_taken(s: &str, n: usize, r: String)
    requires
        call_ensures(take_chars, (s, n), r),
    ensures
        s@.len() <= n ==> r@ == s@,
        s@.len() > n ==> r@.len() == n && forall|i: int| 0 <= i < n ==> #[trigger] r@[i] == s@[i],
{
}

/// Replacing changes the one letter and no other; folding makes capital letters small and changes no
/// other.
pub proof fn other_letters_stay(s: &str, from: char, to: char, r: String, f: String, i: int)
    requires
        call_ensures(replace, (s, from, to), r),
        call_ensures(fold, (s,), f),
        0 <= i < s@.len(),
    ensures
        r@.len() == s@.len(),
        f@.len() == s@.len(),
        s@[i] == from ==> r@[i] == to,
        s@[i] != from ==> r@[i] == s@[i],
        !('A' <= s@[i] <= 'Z') ==> f@[i] == s@[i],
        s@[i] == 'A' ==> f@[i] == 'a',
        s@[i] == 'Z' ==> f@[i] == 'z',
{
}

/// A number is read back from its notation.
pub proof fn numbers_are_read_back(
    n: u64,
    t: String,
    m: i64,
    st: String,
    ss: &str,
    signed: Result<i64, &'static str>,
)
    requires
        call_ensures(decimal_text, (n,), t),
        call_ensures(signed_text, (m,), st),
        ss@ == st@,
        call_ensures(signed_number, (ss,), signed),
    ensures
        signed == Ok::<i64, &'static str>(m),
        t@.len() > 0,
        forall|i: int| 0 <= i < t@.len() ==> '0' <= #[trigger] t@[i] <= '9',
        crate::numbers::digits_value(t@) == n,
{
    crate::numbers::lemma_decimal_round_trip(n as nat);
    crate::numbers::lemma_signed_round_trip(m as int);
}

/// A path below a folder is the folder, a slash where it has none, and the name.
pub proof fn names_are_put_below_folders(dir: &str, name: &str, r: String, p: &str, a: bool)
    requires
        call_ensures(join_path, (dir, name), r),
        call_ensures(is_absolute, (p,), a),
    ensures
        dir@.len() > 0 && dir@.last() != '/' ==> r@ == dir@ + seq!['/'] + name@,
        dir@.len() > 0 && dir@.last() == '/' ==> r@ == dir@ + name@,
        a <==> p@.len() > 0 && p@[0] == '/',
{
    reveal_strlit("/");
    assert("/"@ =~= seq!['/']);
}

} // verus!
