//! Cutting a text into pages that a Discord message can hold.
use crate::text::{chars_of, lemma_utf16_concat, utf16_count, utf16_len, utf16_width, views};
use vstd::prelude::*;
use vstd::string::*;

verus! {

/// The texts of a list one after the other.
pub open spec fn glued(v: Seq<Seq<char>>) -> Seq<char>
    decreases v.len(),
{
    if v.len() == 0 {
        Seq::empty()
    } else {
        glued(v.drop_last()) + v.last()
    }
}

/// Full pages and the page in progress once the first `n` pieces are placed: a piece that no longer
/// fits begins a new page.
pub open spec fn placed(pieces: Seq<Seq<char>>, limit: nat, n: nat) -> (Seq<Seq<char>>, Seq<char>)
    decreases n,
{
    if n == 0 || n > pieces.len() {
        (Seq::empty(), Seq::empty())
    } else {
        let (done, current) = placed(pieces, limit, (n - 1) as nat);
        let piece = pieces[n - 1];
        if utf16_len(current) + utf16_len(piece) > limit {
            (done.push(current), piece)
        } else {
            (done, current + piece)
        }
    }
}

/// The pages that hold the pieces in order, with at most `limit` UTF-16 units each as far as the
/// pieces allow.
pub open spec fn paged(pieces: Seq<Seq<char>>, limit: nat) -> Seq<Seq<char>> {
    let (done, current) = placed(pieces, limit, pieces.len());
    if current.len() == 0 {
        done
    } else {
        done.push(current)
    }
}

proof fn lemma_glued_push(v: Seq<Seq<char>>, s: Seq<char>)
    ensures
        glued(v.push(s)) == glued(v) + s,
{
    assert(v.push(s).drop_last() =~= v);
}

proof fn lemma_placed(pieces: Seq<Seq<char>>, limit: nat, n: nat)
    requires
        n <= pieces.len(),
    ensures
        glued(placed(pieces, limit, n).0) + placed(pieces, limit, n).1 == glued(pieces.take(n as int)),
        (forall|i: int| 0 <= i < pieces.len() ==> utf16_len(#[trigger] pieces[i]) <= limit) ==> {
            &&& utf16_len(placed(pieces, limit, n).1) <= limit
            &&& forall|k: int|
                0 <= k < placed(pieces, limit, n).0.len() ==> utf16_len(
                    #[trigger] placed(pieces, limit, n).0[k],
                ) <= limit
        },
    decreases n,
{
    if n == 0 {
        assert(pieces.take(0) =~= Seq::<Seq<char>>::empty());
        assert(glued(placed(pieces, limit, 0).0) + placed(pieces, limit, 0).1
            =~= Seq::<char>::empty());
    } else {
        let (done, current) = placed(pieces, limit, (n - 1) as nat);
        let piece = pieces[n - 1];
        lemma_placed(pieces, limit, (n - 1) as nat);
        assert(pieces.take(n as int).drop_last() =~= pieces.take(n - 1));
        lemma_utf16_concat(current, piece);
        if utf16_len(current) + utf16_len(piece) > limit {
            lemma_glued_push(done, current);
        } else {
            assert(glued(done) + (current + piece) =~= (glued(done) + current) + piece);
        }
    }
}

/// Nothing is lost: the pages one after the other are the pieces one after the other.
pub proof fn pages_keep_the_text(pieces: Seq<Seq<char>>, limit: nat)
    ensures
        glued(paged(pieces, limit)) == glued(pieces),
{
    lemma_placed(pieces, limit, pieces.len());
    assert(pieces.take(pieces.len() as int) =~= pieces);
    let (done, current) = placed(pieces, limit, pieces.len());
    if current.len() == 0 {
        assert(glued(done) + current =~= glued(done));
    } else {
        lemma_glued_push(done, current);
    }
}

/// No page exceeds the limit that no piece exceeds.
pub proof fn pages_keep_the_limit(pieces: Seq<Seq<char>>, limit: nat)
    requires
        forall|i: int| 0 <= i < pieces.len() ==> utf16_len(#[trigger] pieces[i]) <= limit,
    ensures
        forall|k: int| 0 <= k < paged(pieces, limit).len() ==> utf16_len(#[trigger] paged(pieces, limit)[k]) <= limit,
{
    lemma_placed(pieces, limit, pieces.len());
}

/// Each character of a text as a piece of its own.
pub open spec fn letters(s: Seq<char>) -> Seq<Seq<char>> {
    s.map_values(|c: char| seq![c])
}

/// A single character has the width of that character.
pub proof fn lemma_letter_width(c: char)
    ensures
        utf16_len(seq![c]) == utf16_width(c),
{
    reveal_with_fuel(utf16_len, 2);
    assert(seq![c].drop_last() =~= Seq::<char>::empty());
}

/// The characters of a text one after the other are the text.
pub proof fn lemma_glued_letters(s: Seq<char>)
    ensures
        glued(letters(s)) == s,
    decreases s.len(),
{
    if s.len() > 0 {
        lemma_glued_letters(s.drop_last());
        assert(letters(s).drop_last() =~= letters(s.drop_last()));
        assert(s.drop_last() + seq![s.last()] =~= s);
    } else {
        assert(glued(letters(s)) =~= s);
    }
}

/// Cuts pieces of text into pages.
pub fn paginate(pieces: &Vec<String>, limit: usize) -> (r: Vec<String>)
    ensures
        views(r@) == paged(views(pieces@), limit as nat),
{
    let ghost all = views(pieces@);
    let mut done: Vec<String> = Vec::new();
    let mut current: String = String::new();
    let mut units: usize = 0;
    let mut i: usize = 0;
    assert(views(done@) =~= Seq::<Seq<char>>::empty());
    while i < pieces.len()
        invariant
            i <= pieces@.len(),
            all == views(pieces@),
            placed(all, limit as nat, i as nat) == (views(done@), current@),
            units == utf16_len(current@),
        decreases pieces@.len() - i,
    {
        let piece = pieces[i].as_str();
        assert(piece@ == all[i as int]);
        let width: usize = utf16_count(piece);
        let ghost before = views(done@);
        let ghost open_page = current@;
        proof {
            lemma_utf16_concat(current@, piece@);
        }
        if units > limit || width > limit - units {
            done.push(current);
            assert(views(done@) =~= before.push(open_page));
            current = String::from_str(piece);
            units = width;
        } else {
            current.append(piece);
            units = units + width;
        }
        i += 1;
    }
    if !current.as_str().is_empty() {
        let ghost before = views(done@);
        let ghost open_page = current@;
        done.push(current);
        assert(views(done@) =~= before.push(open_page));
    }
    done
}

/// The characters of a text as pieces.
pub fn single_letters(s: &str) -> (r: Vec<String>)
    ensures
        views(r@) == letters(s@),
{
    let v = chars_of(s);
    let mut out: Vec<String> = Vec::new();
    let mut i: usize = 0;
    while i < v.len()
        invariant
            i <= v@.len(),
            v@ == s@,
            views(out@) == letters(s@.take(i as int)),
        decreases v@.len() - i,
    {
        let mut one: String = String::new();
        one.push(v[i]);
        let ghost before = views(out@);
        let ghost letter = one@;
        out.push(one);
        i += 1;
        assert(letter =~= seq![s@[i - 1]]);
        assert(views(out@) =~= before.push(letter));
        assert(views(out@) =~= letters(s@.take(i as int)));
    }
    assert(s@.take(s@.len() as int) =~= s@);
    out
}

} // verus!
