//! Unix paths as texts, compared by their components.
use crate::text::{chars_of, joined, lemma_pieces_nonempty, pieces, same, split, views};
use vstd::prelude::*;
use vstd::string::*;

verus! {

/// Whether a path begins at the root.
pub open spec fn absolute(s: Seq<char>) -> bool {
    s.len() > 0 && s[0] == '/'
}

/// The names among the first `n` pieces between slashes: repeated slashes and `.` do not count.
pub open spec fn names(all: Seq<Seq<char>>, n: nat) -> Seq<Seq<char>>
    decreases n,
{
    if n == 0 || n > all.len() {
        Seq::empty()
    } else if all[n - 1].len() == 0 || all[n - 1] == "."@ {
        names(all, (n - 1) as nat)
    } else {
        names(all, (n - 1) as nat).push(all[n - 1])
    }
}

/// The components of a path: the root as `/`, a leading `.`, and the names.
pub open spec fn components(s: Seq<char>) -> Seq<Seq<char>> {
    let all = pieces(s, '/');
    let head = if absolute(s) {
        seq!["/"@]
    } else if all[0] == "."@ {
        seq!["."@]
    } else {
        Seq::empty()
    };
    head + names(all, all.len())
}

/// Whether a path lies at or below another.
pub open spec fn path_within(path: Seq<char>, base: Seq<char>) -> bool {
    let (p, b) = (components(path), components(base));
    b.len() <= p.len() && p.take(b.len() as int) == b
}

/// Whether two paths overlap.
pub open spec fn paths_overlap(a: Seq<char>, b: Seq<char>) -> bool {
    path_within(a, b) || path_within(b, a)
}

pub fn is_absolute(s: &str) -> (r: bool)
    ensures
        r == absolute(s@),
{
    let v = chars_of(s);
    v.len() > 0 && v[0] == '/'
}

/// The components of a path.
pub fn path_components(s: &str) -> (r: Vec<String>)
    ensures
        views(r@) == components(s@),
{
    let all = split(s, '/');
    let ghost list = pieces(s@, '/');
    proof {
        lemma_pieces_nonempty(s@, '/');
        assert(views(all@).len() == all@.len());
        assert(list[0] == all@[0]@);
    }
    let mut out: Vec<String> = Vec::new();
    let ghost head = if absolute(s@) {
        seq!["/"@]
    } else if list[0] == "."@ {
        seq!["."@]
    } else {
        Seq::<Seq<char>>::empty()
    };
    if is_absolute(s) {
        out.push("/".to_owned());
    } else if same(all[0].as_str(), ".") {
        out.push(".".to_owned());
    }
    assert(views(out@) =~= head);
    let mut i: usize = 0;
    assert(head + names(list, 0) =~= head);
    while i < all.len()
        invariant
            i <= all@.len(),
            views(all@) == list,
            views(out@) == head + names(list, i as nat),
        decreases all@.len() - i,
    {
        let name = all[i].as_str();
        assert(list[i as int] == name@);
        let ghost before = views(out@);
        if !name.is_empty() && !same(name, ".") {
            out.push(name.to_owned());
            assert(views(out@) =~= before.push(name@));
            assert(head + names(list, i as nat).push(name@) =~= before.push(name@));
        }
        i += 1;
    }
    out
}

/// Whether `path` lies at or below `base`.
pub fn is_within(path: &str, base: &str) -> (r: bool)
    ensures
        r == path_within(path@, base@),
{
    let p = path_components(path);
    let b = path_components(base);
    let ghost x = components(path@);
    let ghost y = components(base@);
    assert(views(p@).len() == p@.len() && views(b@).len() == b@.len());
    if b.len() > p.len() {
        return false;
    }
    let mut i: usize = 0;
    while i < b.len()
        invariant
            i <= b@.len() <= p@.len(),
            views(p@) == x,
            views(b@) == y,
            x == components(path@),
            y == components(base@),
            x.len() == p@.len(),
            y.len() == b@.len(),
            forall|j: int| 0 <= j < i ==> x[j] == y[j],
        decreases b@.len() - i,
    {
        assert(x[i as int] == p@[i as int]@ && y[i as int] == b@[i as int]@);
        if !same(p[i].as_str(), b[i].as_str()) {
            assert(x.take(y.len() as int)[i as int] != y[i as int]);
            return false;
        }
        i += 1;
    }
    assert(x.take(y.len() as int) =~= y);
    true
}

/// Whether two texts name the same path.
pub fn same_path(a: &str, b: &str) -> (r: bool)
    ensures
        r == (components(a@) == components(b@)),
{
    let ab = is_within(a, b);
    let ba = is_within(b, a);
    proof {
        let (x, y) = (components(a@), components(b@));
        if ab && ba {
            assert(x.take(y.len() as int) =~= x);
        }
        if x == y {
            assert(x.take(y.len() as int) =~= y);
        }
    }
    ab && ba
}

/// Whether `..` is among the components of a path.
pub open spec fn climbs(s: Seq<char>) -> bool {
    components(s).contains(".."@)
}

pub fn has_parent_step(s: &str) -> (r: bool)
    ensures
        r == climbs(s@),
{
    let v = path_components(s);
    let ghost list = components(s@);
    let mut i: usize = 0;
    while i < v.len()
        invariant
            i <= v@.len(),
            views(v@) == list,
            list == components(s@),
            forall|j: int| 0 <= j < i ==> list[j] != ".."@,
        decreases v@.len() - i,
    {
        assert(list[i as int] == v@[i as int]@);
        if same(v[i].as_str(), "..") {
            return true;
        }
        i += 1;
    }
    false
}

/// A directory and a name below it.
pub open spec fn path_joined(dir: Seq<char>, name: Seq<char>) -> Seq<char> {
    if dir.len() == 0 {
        name
    } else if dir.last() == '/' {
        dir + name
    } else {
        dir + "/"@ + name
    }
}

/// The path of a relative name below a directory.
pub fn join_path(dir: &str, name: &str) -> (r: String)
    ensures
        r@ == path_joined(dir@, name@),
{
    let v = chars_of(dir);
    let mut out = String::from_str(dir);
    if v.len() > 0 && v[v.len() - 1] != '/' {
        out.append("/");
    }
    out.append(name);
    assert(v.len() == 0 ==> out@ =~= name@);
    out
}

/// The text of a path with the given components.
pub open spec fn path_text(c: Seq<Seq<char>>) -> Seq<char> {
    if c.len() > 0 && c[0] == "/"@ {
        "/"@ + joined(c.skip(1), "/"@)
    } else {
        joined(c, "/"@)
    }
}

/// The path of a name beside the file at `path`: in the directory that holds it.
pub open spec fn beside(path: Seq<char>, name: Seq<char>) -> Option<Seq<char>> {
    let c = components(path);
    if c.len() == 0 || c.last() == "/"@ {
        None
    } else {
        Some(path_text(c.drop_last().push(name)))
    }
}

pub fn sibling(path: &str, name: &str) -> (r: Option<String>)
    ensures
        match beside(path@, name@) {
            Some(s) => r is Some && r->0@ == s,
            None => r is None,
        },
{
    let mut v = path_components(path);
    let ghost c = components(path@);
    assert(views(v@).len() == v@.len());
    if v.len() == 0 {
        return None;
    }
    assert(c.last() == v@.last()@);
    if same(v[v.len() - 1].as_str(), "/") {
        return None;
    }
    let last = v.pop();
    assert(views(v@) =~= c.drop_last());
    v.push(name.to_owned());
    let ghost all = c.drop_last().push(name@);
    assert(views(v@) =~= all);
    assert(all[0] == v@[0]@);
    if same(v[0].as_str(), "/") {
        let mut rest: Vec<String> = Vec::new();
        let mut i: usize = 1;
        while i < v.len()
            invariant
                1 <= i <= v@.len(),
                views(v@) == all,
                views(rest@) == all.subrange(1, i as int),
            decreases v@.len() - i,
        {
            let ghost before = views(rest@);
            assert(all[i as int] == v@[i as int]@);
            rest.push(v[i].clone());
            i += 1;
            assert(views(rest@) =~= before.push(all[i - 1]));
            assert(views(rest@) =~= all.subrange(1, i as int));
        }
        assert(views(rest@) =~= all.skip(1));
        let tail = crate::text::join(&rest, "/");
        Some(String::from_str("/").concat(tail.as_str()))
    } else {
        Some(crate::text::join(&v, "/"))
    }
}

} // verus!
