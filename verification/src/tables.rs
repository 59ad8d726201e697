//! Small tables keyed by a text, in the order of insertion.
use crate::text::same;
use vstd::prelude::*;
use vstd::string::*;

verus! {

/// What a list of entries maps; each key stands once.
pub open spec fn mapping<V>(e: Seq<(String, V)>) -> Map<Seq<char>, V>
    decreases e.len(),
{
    if e.len() == 0 {
        Map::empty()
    } else {
        mapping(e.drop_last()).insert(e.last().0@, e.last().1)
    }
}

/// Whether no key stands twice.
pub open spec fn distinct<V>(e: Seq<(String, V)>) -> bool {
    forall|i: int, j: int| 0 <= i < j < e.len() ==> (#[trigger] e[i]).0@ != (#[trigger] e[j]).0@
}

/// Where a key stands.
pub open spec fn stands<V>(e: Seq<(String, V)>, k: Seq<char>) -> bool {
    exists|i: int| 0 <= i < e.len() && (#[trigger] e[i]).0@ == k
}

proof fn lemma_mapping<V>(e: Seq<(String, V)>)
    requires
        distinct(e),
    ensures
        forall|i: int|
            0 <= i < e.len() ==> mapping(e).contains_key((#[trigger] e[i]).0@) && mapping(e)[e[i].0@]
                == e[i].1,
        forall|k: Seq<char>| #[trigger] mapping(e).contains_key(k) <==> stands(e, k),
        mapping(e).dom().finite(),
        mapping(e).dom().len() == e.len(),
    decreases e.len(),
{
    if e.len() > 0 {
        let d = e.drop_last();
        assert(distinct(d)) by {
            assert forall|i: int, j: int| 0 <= i < j < d.len() implies (#[trigger] d[i]).0@ != (
            #[trigger] d[j]).0@ by {
                assert(d[i] == e[i] && d[j] == e[j]);
            }
        }
        lemma_mapping(d);
        let last = e.last().0@;
        assert(!mapping(d).contains_key(last)) by {
            if mapping(d).contains_key(last) {
                assert(stands(d, last));
                let i = choose|i: int| 0 <= i < d.len() && (#[trigger] d[i]).0@ == last;
                assert(d[i] == e[i]);
                assert(e[i].0@ != e[e.len() - 1].0@);
            }
        }
        assert forall|i: int| 0 <= i < e.len() implies mapping(e).contains_key((#[trigger] e[i]).0@)
            && mapping(e)[e[i].0@] == e[i].1 by {
            if i < d.len() {
                assert(d[i] == e[i]);
                assert(e[i].0@ != e[e.len() - 1].0@);
            }
        }
        assert forall|k: Seq<char>| #[trigger] mapping(e).contains_key(k) implies stands(e, k) by {
            if k == last {
                assert(e[e.len() - 1].0@ == k);
            } else {
                assert(mapping(d).contains_key(k));
                let i = choose|i: int| 0 <= i < d.len() && (#[trigger] d[i]).0@ == k;
                assert(d[i] == e[i]);
            }
        }
        assert(mapping(e).dom() =~= mapping(d).dom().insert(last));
    }
}

/// A table.
#[derive(Debug)]
pub struct Table<V> {
    pub entries: Vec<(String, V)>,
}

impl<V> Table<V> {
    /// What the table maps.
    pub open spec fn map(&self) -> Map<Seq<char>, V> {
        mapping(self.entries@)
    }

    /// The keys in the order in which they came.
    pub open spec fn keys(&self) -> Seq<Seq<char>> {
        self.entries@.map_values(|e: (String, V)| e.0@)
    }

    /// Whether each key stands once.
    pub open spec fn wf(&self) -> bool {
        distinct(self.entries@)
    }

    /// Each entry is what the table maps its key to, and there is nothing else in it.
    pub proof fn lemma_entries(&self)
        requires
            self.wf(),
        ensures
            forall|i: int|
                0 <= i < self.entries@.len() ==> self.map().contains_key(
                    (#[trigger] self.entries@[i]).0@,
                ) && self.map()[self.entries@[i].0@] == self.entries@[i].1,
            forall|k: Seq<char>| #[trigger] self.map().contains_key(k) <==> stands(self.entries@, k),
    {
        lemma_mapping(self.entries@);
    }

    pub fn new() -> (r: Table<V>)
        ensures
            r.wf(),
            r.map() == Map::<Seq<char>, V>::empty(),
            r.keys() == Seq::<Seq<char>>::empty(),
    {
        let r: Table<V> = Table { entries: Vec::new() };
        assert(r.keys() =~= Seq::<Seq<char>>::empty());
        r
    }

    pub fn len(&self) -> (n: usize)
        requires
            self.wf(),
        ensures
            n == self.map().dom().len(),
            self.map().dom().finite(),
    {
        proof {
            lemma_mapping(self.entries@);
        }
        self.entries.len()
    }

    fn find(&self, key: &str) -> (r: Option<usize>)
        requires
            self.wf(),
        ensures
            match r {
                Some(i) => i < self.entries@.len() && self.entries@[i as int].0@ == key@,
                None => !stands(self.entries@, key@),
            },
    {
        let mut i: usize = 0;
        while i < self.entries.len()
            invariant
                i <= self.entries@.len(),
                forall|j: int| 0 <= j < i ==> (#[trigger] self.entries@[j]).0@ != key@,
            decreases self.entries@.len() - i,
        {
            if same(self.entries[i].0.as_str(), key) {
                return Some(i);
            }
            i += 1;
        }
        None
    }

    pub fn holds(&self, key: &str) -> (r: bool)
        requires
            self.wf(),
        ensures
            r == self.map().contains_key(key@),
    {
        proof {
            lemma_mapping(self.entries@);
        }
        self.find(key).is_some()
    }

    pub fn get(&self, key: &str) -> (r: Option<&V>)
        requires
            self.wf(),
        ensures
            match r {
                Some(v) => self.map().contains_key(key@) && *v == self.map()[key@],
                None => !self.map().contains_key(key@),
            },
    {
        proof {
            lemma_mapping(self.entries@);
        }
        match self.find(key) {
            Some(i) => Some(&self.entries[i].1),
            None => None,
        }
    }

    /// Enters a value, in place of what the key had.
    pub fn insert(&mut self, key: &str, value: V)
        requires
            old(self).wf(),
        ensures
            final(self).wf(),
            final(self).map() == old(self).map().insert(key@, value),
            final(self).keys() == if old(self).map().contains_key(key@) {
                old(self).keys()
            } else {
                old(self).keys().push(key@)
            },
    {
        let ghost before = self.entries@;
        let ghost named = self.keys();
        proof {
            lemma_mapping(before);
        }
        match self.find(key) {
            Some(i) => {
                let name = key.to_owned();
                self.entries.set(i, (name, value));
                proof {
                    let after = self.entries@;
                    assert(distinct(after)) by {
                        assert forall|x: int, y: int| 0 <= x < y < after.len() implies (
                        #[trigger] after[x]).0@ != (#[trigger] after[y]).0@ by {
                            assert(before[x].0@ != before[y].0@);
                        }
                    }
                    lemma_mapping(after);
                    lemma_updated(before, after, i as int, key@, value);
                    assert(before[i as int].0@ == key@);
                    assert(self.keys() =~= named);
                }
            },
            None => {
                self.entries.push((key.to_owned(), value));
                proof {
                    let after = self.entries@;
                    assert(after.drop_last() =~= before);
                    assert(self.keys() =~= named.push(key@));
                }
            },
        }
    }

    /// Takes an entry out.
    pub fn remove(&mut self, key: &str) -> (r: Option<V>)
        requires
            old(self).wf(),
        ensures
            final(self).wf(),
            final(self).map() == old(self).map().remove(key@),
            match r {
                Some(v) => old(self).map().contains_key(key@) && v == old(self).map()[key@],
                None => !old(self).map().contains_key(key@),
            },
    {
        let ghost before = self.entries@;
        proof {
            lemma_mapping(before);
        }
        match self.find(key) {
            Some(i) => {
                let taken = self.entries.remove(i);
                proof {
                    let after = self.entries@;
                    assert(after =~= before.remove(i as int));
                    assert(distinct(after)) by {
                        assert forall|x: int, y: int| 0 <= x < y < after.len() implies (
                        #[trigger] after[x]).0@ != (#[trigger] after[y]).0@ by {
                            let x0 = if x < i { x } else { x + 1 };
                            let y0 = if y < i { y } else { y + 1 };
                            assert(before[x0].0@ != before[y0].0@);
                        }
                    }
                    lemma_mapping(after);
                    lemma_removed(before, after, i as int, key@);
                }
                Some(taken.1)
            },
            None => {
                assert(before.len() >= 0);
                assert(self.map().remove(key@) =~= self.map());
                None
            },
        }
    }
}

proof fn lemma_updated<V>(
    before: Seq<(String, V)>,
    after: Seq<(String, V)>,
    i: int,
    key: Seq<char>,
    value: V,
)
    requires
        0 <= i < before.len(),
        distinct(before),
        distinct(after),
        before[i].0@ == key,
        after.len() == before.len(),
        after[i].0@ == key,
        after[i].1 == value,
        forall|j: int| 0 <= j < before.len() && j != i ==> #[trigger] after[j] == before[j],
    ensures
        mapping(after) == mapping(before).insert(key, value),
{
    lemma_mapping(before);
    lemma_mapping(after);
    let m = mapping(before).insert(key, value);
    assert forall|k: Seq<char>| #[trigger] mapping(after).contains_key(k) <==> m.contains_key(k) by {
        if mapping(after).contains_key(k) {
            let j = choose|j: int| 0 <= j < after.len() && (#[trigger] after[j]).0@ == k;
            if j != i {
                assert(after[j] == before[j]);
                assert(before[j].0@ == k);
            }
        }
        if m.contains_key(k) {
            if k == key {
                assert(after[i].0@ == k);
            } else {
                assert(stands(before, k));
                let j = choose|j: int| 0 <= j < before.len() && (#[trigger] before[j]).0@ == k;
                assert(after[j] == before[j]);
            }
        }
    }
    assert forall|k: Seq<char>| mapping(after).contains_key(k) implies #[trigger] mapping(after)[k] == m[k] by {
        let j = choose|j: int| 0 <= j < after.len() && (#[trigger] after[j]).0@ == k;
        assert(mapping(after)[after[j].0@] == after[j].1);
        if j != i {
            assert(after[j] == before[j]);
            assert(mapping(before)[before[j].0@] == before[j].1);
            assert(k != key) by {
                if j < i {
                    assert(after[j].0@ != after[i].0@);
                } else {
                    assert(after[i].0@ != after[j].0@);
                }
            }
        }
    }
    assert(mapping(after) =~= m);
}

proof fn lemma_removed<V>(
    before: Seq<(String, V)>,
    after: Seq<(String, V)>,
    i: int,
    key: Seq<char>,
)
    requires
        0 <= i < before.len(),
        distinct(before),
        distinct(after),
        before[i].0@ == key,
        after == before.remove(i),
    ensures
        mapping(after) == mapping(before).remove(key),
{
    lemma_mapping(before);
    lemma_mapping(after);
    let m = mapping(before).remove(key);
    assert forall|k: Seq<char>| #[trigger] mapping(after).contains_key(k) <==> m.contains_key(k) by {
        if mapping(after).contains_key(k) {
            let j = choose|j: int| 0 <= j < after.len() && (#[trigger] after[j]).0@ == k;
            let j0 = if j < i { j } else { j + 1 };
            assert(after[j] == before[j0]);
            assert(before[j0].0@ == k);
            if j0 < i {
                assert(before[j0].0@ != before[i].0@);
            } else {
                assert(before[i].0@ != before[j0].0@);
            }
        }
        if m.contains_key(k) {
            assert(stands(before, k));
            let j = choose|j: int| 0 <= j < before.len() && (#[trigger] before[j]).0@ == k;
            let j1 = if j < i { j } else { j - 1 };
            assert(after[j1] == before[j]);
        }
    }
    assert forall|k: Seq<char>| mapping(after).contains_key(k) implies #[trigger] mapping(after)[k] == m[k] by {
        let j = choose|j: int| 0 <= j < after.len() && (#[trigger] after[j]).0@ == k;
        let j0 = if j < i { j } else { j + 1 };
        assert(after[j] == before[j0]);
        assert(mapping(after)[after[j].0@] == after[j].1);
        assert(mapping(before)[before[j0].0@] == before[j0].1);
    }
    assert(mapping(after) =~= m);
}

} // verus!
