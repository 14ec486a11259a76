use vstd::prelude::*;

verus! {

/// Some entry of `e` is keyed by `k`.
pub open spec fn has_key<V>(e: Seq<(String, V)>, k: Seq<char>) -> bool {
    exists|i: int| 0 <= i < e.len() && #[trigger] e[i].0@ == k
}

/// The position of the entry keyed by `k`.
pub open spec fn key_index<V>(e: Seq<(String, V)>, k: Seq<char>) -> int {
    choose|i: int| 0 <= i < e.len() && #[trigger] e[i].0@ == k
}

/// No two entries share a key.
pub open spec fn unique_keys<V>(e: Seq<(String, V)>) -> bool {
    forall|i: int, j: int|
        0 <= i < e.len() && 0 <= j < e.len() && i != j ==> #[trigger] e[i].0@ != #[trigger] e[j].0@
}

/// The map that a sequence of keyed entries stands for.
pub open spec fn table_map<V>(e: Seq<(String, V)>) -> Map<Seq<char>, V> {
    Map::new(|k: Seq<char>| has_key(e, k), |k: Seq<char>| e[key_index(e, k)].1)
}

pub proof fn lemma_table_entry<V>(e: Seq<(String, V)>, i: int)
    requires
        unique_keys(e),
        0 <= i < e.len(),
    ensures
        table_map(e).contains_key(e[i].0@),
        table_map(e)[e[i].0@] == e[i].1,
        key_index(e, e[i].0@) == i,
{
    let k = e[i].0@;
    assert(has_key(e, k));
    let j: int = key_index(e, k);
    assert(0 <= j < e.len() && e[j].0@ == k);
}

pub proof fn lemma_table_key<V>(e: Seq<(String, V)>, k: Seq<char>)
    requires
        table_map(e).contains_key(k),
    ensures
        0 <= key_index(e, k) < e.len(),
        e[key_index(e, k)].0@ == k,
{
}

pub proof fn lemma_table_push<V>(e: Seq<(String, V)>, key: String, v: V)
    requires
        unique_keys(e),
        !has_key(e, key@),
    ensures
        unique_keys(e.push((key, v))),
        table_map(e.push((key, v))) =~= table_map(e).insert(key@, v),
{
    let t = e.push((key, v));
    assert forall|i: int, j: int|
        0 <= i < t.len() && 0 <= j < t.len() && i != j implies #[trigger] t[i].0@ != #[trigger] t[j].0@ by {
        if i < e.len() && j < e.len() {
            assert(t[i] == e[i] && t[j] == e[j]);
        } else if i < e.len() {
            assert(t[i] == e[i]);
        } else {
            assert(t[j] == e[j]);
        }
    }
    assert forall|k: Seq<char>| #[trigger] table_map(t).contains_key(k) <==> table_map(e).insert(key@, v).contains_key(k) by {
        if has_key(e, k) {
            let i = choose|i: int| 0 <= i < e.len() && #[trigger] e[i].0@ == k;
            assert(t[i] == e[i]);
        }
        if k == key@ {
            assert(t[e.len() as int].0@ == k);
        }
        if has_key(t, k) {
            let i = choose|i: int| 0 <= i < t.len() && #[trigger] t[i].0@ == k;
            if i < e.len() {
                assert(t[i] == e[i]);
            }
        }
    }
    assert forall|k: Seq<char>| #[trigger] table_map(t).contains_key(k) implies table_map(t)[k]
        == table_map(e).insert(key@, v)[k] by {
        let i: int = key_index(t, k);
        lemma_table_entry(t, i);
        if i < e.len() {
            assert(t[i] == e[i]);
            lemma_table_entry(e, i);
        }
    }
}

pub proof fn lemma_table_update<V>(e: Seq<(String, V)>, i: int, key: String, v: V)
    requires
        unique_keys(e),
        0 <= i < e.len(),
        e[i].0@ == key@,
    ensures
        unique_keys(e.update(i, (key, v))),
        table_map(e.update(i, (key, v))) =~= table_map(e).insert(key@, v),
{
    let t = e.update(i, (key, v));
    assert forall|a: int, b: int|
        0 <= a < t.len() && 0 <= b < t.len() && a != b implies #[trigger] t[a].0@ != #[trigger] t[b].0@ by {
        assert(t[a].0@ == e[a].0@);
        assert(t[b].0@ == e[b].0@);
    }
    assert forall|k: Seq<char>| #[trigger] table_map(t).contains_key(k) <==> table_map(e).insert(key@, v).contains_key(k) by {
        if has_key(e, k) {
            let j = choose|j: int| 0 <= j < e.len() && #[trigger] e[j].0@ == k;
            assert(t[j].0@ == e[j].0@);
        }
        if k == key@ {
            assert(t[i].0@ == k);
        }
        if has_key(t, k) {
            let j = choose|j: int| 0 <= j < t.len() && #[trigger] t[j].0@ == k;
            assert(t[j].0@ == e[j].0@);
        }
    }
    assert forall|k: Seq<char>| #[trigger] table_map(t).contains_key(k) implies table_map(t)[k]
        == table_map(e).insert(key@, v)[k] by {
        let j: int = key_index(t, k);
        lemma_table_entry(t, j);
        if j != i {
            assert(t[j] == e[j]);
            lemma_table_entry(e, j);
        }
    }
}

/// A map from text keys to values, kept as a list of entries with distinct
/// keys in the order they were first stored. It stands where a `HashMap`
/// with `String` keys would: Verus proves of that map neither its length
/// after an insert nor that a key just inserted is found again.
pub struct Table<V> {
    pub entries: Vec<(String, V)>,
}

impl<V> Table<V> {
    pub open spec fn wf(&self) -> bool {
        unique_keys(self.entries@)
    }

    pub open spec fn map(&self) -> Map<Seq<char>, V> {
        table_map(self.entries@)
    }

    pub fn new() -> (t: Self)
        ensures
            t.wf(),
            t.map() == Map::<Seq<char>, V>::empty(),
            t.entries@.len() == 0,
    {
        let t = Table { entries: Vec::new() };
        assert(t.map() =~= Map::<Seq<char>, V>::empty());
        t
    }

    /// The position of the entry keyed by `key`, if there is one.
    pub fn find(&self, key: &String) -> (r: Option<usize>)
        requires
            self.wf(),
        ensures
            match r {
                Some(i) => i < self.entries@.len() && self.entries@[i as int].0@ == key@,
                None => !self.map().contains_key(key@),
            },
    {
        let mut i: usize = 0;
        while i < self.entries.len()
            invariant
                i <= self.entries@.len(),
                forall|j: int| 0 <= j < i ==> #[trigger] self.entries@[j].0@ != key@,
            decreases self.entries@.len() - i,
        {
            if self.entries[i].0 == *key {
                return Some(i);
            }
            i = i + 1;
        }
        None
    }

    pub fn get(&self, key: &String) -> (r: Option<&V>)
        requires
            self.wf(),
        ensures
            match r {
                Some(v) => self.map().contains_key(key@) && *v == self.map()[key@],
                None => !self.map().contains_key(key@),
            },
    {
        match self.find(key) {
            Some(i) => {
                proof {
                    lemma_table_entry(self.entries@, i as int);
                }
                Some(&self.entries[i].1)
            },
            None => None,
        }
    }

    /// Stores a value under a key that is not yet there.
    pub fn insert_fresh(&mut self, key: String, v: V)
        requires
            old(self).wf(),
            !old(self).map().contains_key(key@),
        ensures
            final(self).wf(),
            final(self).map() == old(self).map().insert(key@, v),
    {
        proof {
            lemma_table_push(self.entries@, key, v);
        }
        self.entries.push((key, v));
    }

    /// Stores a value under a key, replacing what was stored there.
    pub fn put(&mut self, key: String, v: V)
        requires
            old(self).wf(),
        ensures
            final(self).wf(),
            final(self).map() == old(self).map().insert(key@, v),
    {
        match self.find(&key) {
            Some(i) => {
                proof {
                    lemma_table_update(self.entries@, i as int, key, v);
                }
                self.entries.set(i, (key, v));
            },
            None => {
                proof {
                    lemma_table_push(self.entries@, key, v);
                }
                self.entries.push((key, v));
            },
        }
    }
}

} // verus!
