//! A map keyed by strings, kept as a list of entries with distinct keys.
//! Its meaning is a `Map` from the key's characters to the value.

use vstd::prelude::*;
use crate::text::views_of;

verus! {

/// The keys of a list of entries, in order.
pub open spec fn keys_of<V>(e: Seq<(String, V)>) -> Seq<Seq<char>> {
    e.map_values(|x: (String, V)| x.0@)
}

/// The position of an entry whose key is `k`.
pub open spec fn position_in<V>(e: Seq<(String, V)>, k: Seq<char>) -> int {
    choose|i: int| 0 <= i < e.len() && e[i].0@ == k
}

/// The map that a list of entries stands for.
pub open spec fn map_of<V>(e: Seq<(String, V)>) -> Map<Seq<char>, V> {
    Map::new(|k: Seq<char>| keys_of(e).contains(k), |k: Seq<char>| e[position_in(e, k)].1)
}

proof fn lemma_position<V>(e: Seq<(String, V)>, i: int)
    requires
        keys_of(e).no_duplicates(),
        0 <= i < e.len(),
    ensures
        position_in(e, e[i].0@) == i,
        map_of(e).contains_key(e[i].0@),
        map_of(e)[e[i].0@] == e[i].1,
{
    let k = e[i].0@;
    assert(keys_of(e)[i] == k);
    let p = position_in(e, k);
    assert(0 <= p < e.len() && e[p].0@ == k);
    assert(keys_of(e)[p] == k);
}

proof fn lemma_absent<V>(e: Seq<(String, V)>, k: Seq<char>)
    requires
        forall|j: int| 0 <= j < e.len() ==> e[j].0@ != k,
    ensures
        !map_of(e).contains_key(k),
{
    if keys_of(e).contains(k) {
        let j = choose|j: int| 0 <= j < keys_of(e).len() && keys_of(e)[j] == k;
        assert(e[j].0@ == k);
    }
}

/// A finite map from strings to values; each key occurs at most once.
pub struct StrMap<V> {
    entries: Vec<(String, V)>,
}

impl<V> View for StrMap<V> {
    type V = Map<Seq<char>, V>;

    closed spec fn view(&self) -> Map<Seq<char>, V> {
        map_of(self.entries@)
    }
}

impl<V> StrMap<V> {
    #[verifier::type_invariant]
    closed spec fn distinct_keys(self) -> bool {
        keys_of(self.entries@).no_duplicates()
    }

    /// An empty map.
    pub fn new() -> (r: Self)
        ensures
            r@ == Map::<Seq<char>, V>::empty(),
    {
        let r = StrMap { entries: Vec::new() };
        assert(map_of(r.entries@) =~= Map::<Seq<char>, V>::empty());
        r
    }

    /// The number of keys.
    pub fn len(&self) -> (r: usize)
        ensures
            self@.dom().finite(),
            r == self@.len(),
    {
        proof {
            use_type_invariant(self);
            let e = self.entries@;
            assert(map_of(e).dom() =~= keys_of(e).to_set());
            keys_of(e).unique_seq_to_set();
        }
        self.entries.len()
    }

    fn find(&self, k: &str) -> (r: Option<usize>)
        ensures
            match r {
                Some(i) => i < self.entries@.len() && self.entries@[i as int].0@ == k@,
                None => forall|j: int| 0 <= j < self.entries@.len() ==> self.entries@[j].0@ != k@,
            },
    {
        let key = k.to_string();
        let n = self.entries.len();
        let mut i: usize = 0;
        while i < n
            invariant
                i <= n,
                n == self.entries@.len(),
                key@ == k@,
                forall|j: int| 0 <= j < i ==> self.entries@[j].0@ != k@,
            decreases n - i,
        {
            if self.entries[i].0 == key {
                return Some(i);
            }
            i = i + 1;
        }
        None
    }

    /// Whether `k` is a key.
    pub fn contains_key(&self, k: &str) -> (r: bool)
        ensures
            r == self@.contains_key(k@),
    {
        proof {
            use_type_invariant(self);
        }
        match self.find(k) {
            Some(i) => {
                proof {
                    lemma_position(self.entries@, i as int);
                }
                true
            },
            None => {
                proof {
                    lemma_absent(self.entries@, k@);
                }
                false
            },
        }
    }

    /// The value stored under `k`, if any.
    pub fn get(&self, k: &str) -> (r: Option<&V>)
        ensures
            match r {
                Some(v) => self@.contains_key(k@) && *v == self@[k@],
                None => !self@.contains_key(k@),
            },
    {
        proof {
            use_type_invariant(self);
        }
        match self.find(k) {
            Some(i) => {
                proof {
                    lemma_position(self.entries@, i as int);
                }
                Some(&self.entries[i].1)
            },
            None => {
                proof {
                    lemma_absent(self.entries@, k@);
                }
                None
            },
        }
    }

    /// Stores `v` under `k`, replacing the value stored there before.
    pub fn insert(&mut self, k: String, v: V)
        ensures
            final(self)@ == old(self)@.insert(k@, v),
    {
        proof {
            use_type_invariant(&*self);
        }
        let ghost old_e = self.entries@;
        let ghost key = k@;
        let found = self.find(k.as_str());
        let mut entries: Vec<(String, V)> = Vec::new();
        std::mem::swap(&mut entries, &mut self.entries);
        match found {
            Some(i) => {
                entries.set(i, (k, v));
                proof {
                    let new_e = entries@;
                    assert(keys_of(new_e) =~= keys_of(old_e));
                    lemma_position(new_e, i as int);
                    assert forall|k2: Seq<char>|
                        #[trigger] map_of(new_e).contains_key(k2) == map_of(old_e).insert(
                            key,
                            v,
                        ).contains_key(k2) && (map_of(new_e).contains_key(k2) ==> map_of(
                            new_e,
                        )[k2] == map_of(old_e).insert(key, v)[k2]) by {
                        if k2 != key && keys_of(old_e).contains(k2) {
                            let j = choose|j: int|
                                0 <= j < keys_of(old_e).len() && keys_of(old_e)[j] == k2;
                            lemma_position(old_e, j);
                            lemma_position(new_e, j);
                        }
                    }
                    assert(map_of(new_e) =~= map_of(old_e).insert(key, v));
                }
            },
            None => {
                entries.push((k, v));
                proof {
                    let new_e = entries@;
                    assert(keys_of(new_e) =~= keys_of(old_e).push(key));
                    assert(!keys_of(old_e).contains(key)) by {
                        lemma_absent(old_e, key);
                    }
                    assert(keys_of(new_e).no_duplicates()) by {
                        assert forall|a: int, b: int|
                            0 <= a < b < keys_of(new_e).len() implies keys_of(new_e)[a]
                            != keys_of(new_e)[b] by {
                            if b == old_e.len() {
                                assert(keys_of(old_e)[a] == keys_of(new_e)[a]);
                            } else {
                                assert(keys_of(old_e)[a] == keys_of(new_e)[a]);
                                assert(keys_of(old_e)[b] == keys_of(new_e)[b]);
                            }
                        }
                    }
                    lemma_position(new_e, old_e.len() as int);
                    assert forall|k2: Seq<char>|
                        #[trigger] map_of(new_e).contains_key(k2) == map_of(old_e).insert(
                            key,
                            v,
                        ).contains_key(k2) && (map_of(new_e).contains_key(k2) ==> map_of(
                            new_e,
                        )[k2] == map_of(old_e).insert(key, v)[k2]) by {
                        if k2 != key && keys_of(old_e).contains(k2) {
                            let j = choose|j: int|
                                0 <= j < keys_of(old_e).len() && keys_of(old_e)[j] == k2;
                            lemma_position(old_e, j);
                            lemma_position(new_e, j);
                        }
                        if k2 != key && keys_of(new_e).contains(k2) {
                            let j = choose|j: int|
                                0 <= j < keys_of(new_e).len() && keys_of(new_e)[j] == k2;
                            assert(j < old_e.len());
                            assert(keys_of(old_e)[j] == k2);
                        }
                    }
                    assert(map_of(new_e) =~= map_of(old_e).insert(key, v));
                }
            },
        }
        self.entries = entries;
    }

    /// Removes the entry stored under `k` and hands back its value, if any.
    pub fn remove(&mut self, k: &str) -> (r: Option<V>)
        ensures
            final(self)@ == old(self)@.remove(k@),
            r == (if old(self)@.contains_key(k@) {
                Some(old(self)@[k@])
            } else {
                None
            }),
    {
        proof {
            use_type_invariant(&*self);
        }
        let ghost old_e = self.entries@;
        let ghost key = k@;
        match self.find(k) {
            Some(i) => {
                let mut entries: Vec<(String, V)> = Vec::new();
                std::mem::swap(&mut entries, &mut self.entries);
                let (_, v) = entries.remove(i);
                proof {
                    let new_e = entries@;
                    lemma_position(old_e, i as int);
                    assert(keys_of(new_e) =~= keys_of(old_e).remove(i as int));
                    assert(keys_of(new_e).no_duplicates()) by {
                        assert forall|a: int, b: int|
                            0 <= a < b < keys_of(new_e).len() implies keys_of(new_e)[a]
                            != keys_of(new_e)[b] by {
                            let a2 = if a < i { a } else { a + 1 };
                            let b2 = if b < i { b } else { b + 1 };
                            assert(keys_of(new_e)[a] == keys_of(old_e)[a2]);
                            assert(keys_of(new_e)[b] == keys_of(old_e)[b2]);
                        }
                    }
                    assert forall|k2: Seq<char>|
                        #[trigger] map_of(new_e).contains_key(k2) == map_of(old_e).remove(
                            key,
                        ).contains_key(k2) && (map_of(new_e).contains_key(k2) ==> map_of(
                            new_e,
                        )[k2] == map_of(old_e)[k2]) by {
                        assert(keys_of(old_e)[i as int] == key);
                        if keys_of(new_e).contains(k2) {
                            let j = choose|j: int|
                                0 <= j < keys_of(new_e).len() && keys_of(new_e)[j] == k2;
                            let j2 = if j < i { j } else { j + 1 };
                            assert(new_e[j] == old_e[j2]);
                            assert(keys_of(old_e)[j2] == k2);
                            assert(keys_of(old_e).contains(k2));
                            assert(j2 != i);
                        }
                        if keys_of(old_e).contains(k2) && k2 != key {
                            let j = choose|j: int|
                                0 <= j < keys_of(old_e).len() && keys_of(old_e)[j] == k2;
                            let j2 = if j < i { j } else { j - 1 };
                            assert(new_e[j2] == old_e[j]);
                            assert(keys_of(new_e)[j2] == k2);
                            lemma_position(old_e, j);
                            lemma_position(new_e, j2);
                        }
                    }
                    assert(map_of(new_e) =~= map_of(old_e).remove(key));
                }
                self.entries = entries;
                Some(v)
            },
            None => {
                proof {
                    lemma_absent(old_e, key);
                    assert(map_of(old_e) =~= map_of(old_e).remove(key));
                }
                None
            },
        }
    }

    /// The keys, each once, in no particular order.
    pub fn keys(&self) -> (r: Vec<String>)
        ensures
            views_of(r@).no_duplicates(),
            views_of(r@).to_set() == self@.dom(),
    {
        proof {
            use_type_invariant(self);
        }
        let n = self.entries.len();
        let mut out: Vec<String> = Vec::new();
        let mut i: usize = 0;
        while i < n
            invariant
                i <= n,
                n == self.entries@.len(),
                views_of(out@) == keys_of(self.entries@).take(i as int),
            decreases n - i,
        {
            let ghost prev = out@;
            out.push(self.entries[i].0.clone());
            proof {
                assert(out@ == prev.push(self.entries@[i as int].0));
                assert(prev.len() == views_of(prev).len());
                assert(out@.len() == i + 1);
                assert forall|j: int| 0 <= j < i + 1 implies #[trigger] views_of(out@)[j]
                    == keys_of(self.entries@).take(i + 1)[j] by {
                    if j < i {
                        assert(views_of(prev)[j] == keys_of(self.entries@).take(i as int)[j]);
                        assert(out@[j] == prev[j]);
                    } else {
                        assert(out@[j] == self.entries@[j].0);
                        assert(keys_of(self.entries@)[j] == self.entries@[j].0@);
                    }
                }
                assert(views_of(out@) =~= keys_of(self.entries@).take(i + 1));
            }
            i = i + 1;
        }
        proof {
            let e = self.entries@;
            assert(keys_of(e).take(n as int) =~= keys_of(e));
            assert(map_of(e).dom() =~= keys_of(e).to_set());
        }
        out
    }
}

} // verus!
