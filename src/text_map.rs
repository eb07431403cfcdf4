//! A small map from strings to strings, kept as a list of unique keys.
use vstd::prelude::*;

verus! {

/// Strings keyed by strings. A key appears at most once; inserting an
/// existing key replaces its value.
pub struct TextMap {
    entries: Vec<(String, String)>,
    model: Ghost<Map<Seq<char>, Seq<char>>>,
}

impl TextMap {
    /// The map as keys and values.
    pub closed spec fn view_map(&self) -> Map<Seq<char>, Seq<char>> {
        self.model@
    }

    /// Keys are unique and the entries list exactly the model.
    pub closed spec fn wf(&self) -> bool {
        &&& forall|i: int|
            0 <= i < self.entries@.len() ==> {
                &&& #[trigger] self.model@.contains_key(self.entries@[i].0@)
                &&& self.model@[self.entries@[i].0@] == self.entries@[i].1@
            }
        &&& forall|k: Seq<char>|
            #[trigger] self.model@.contains_key(k) ==> exists|i: int|
                0 <= i < self.entries@.len() && #[trigger] self.entries@[i].0@ == k
        &&& forall|i: int, j: int|
            0 <= i < self.entries@.len() && 0 <= j < self.entries@.len() && i != j
                ==> #[trigger] self.entries@[i].0@ != #[trigger] self.entries@[j].0@
    }

    /// An empty map.
    pub fn new() -> (r: Self)
        ensures
            r.wf(),
            r.view_map() == Map::<Seq<char>, Seq<char>>::empty(),
    {
        TextMap { entries: Vec::new(), model: Ghost(Map::empty()) }
    }

    /// The number of keys.
    pub fn len(&self) -> (r: usize)
        requires
            self.wf(),
        ensures
            r == self.view_map().dom().len(),
    {
        proof {
            self.lemma_dom_len();
        }
        self.entries.len()
    }

    proof fn lemma_dom_len(&self)
        requires
            self.wf(),
        ensures
            self.entries@.len() == self.model@.dom().len(),
    {
        let keys = self.entries@.map_values(|e: (String, String)| e.0@);
        assert forall|i: int, j: int|
            0 <= i < keys.len() && 0 <= j < keys.len() && i != j implies keys[i] != keys[j] by {
            assert(self.entries@[i].0@ != self.entries@[j].0@);
        }
        keys.unique_seq_to_set();
        assert forall|k: Seq<char>| keys.to_set().contains(k) <==> self.model@.dom().contains(
            k,
        ) by {
            if keys.to_set().contains(k) {
                let i = choose|i: int| 0 <= i < keys.len() && keys[i] == k;
                assert(self.model@.contains_key(self.entries@[i].0@));
            }
            if self.model@.dom().contains(k) {
                let i = choose|i: int|
                    0 <= i < self.entries@.len() && #[trigger] self.entries@[i].0@ == k;
                assert(keys[i] == k);
            }
        }
        assert(keys.to_set() =~= self.model@.dom());
    }

    /// The position of `key`, if present.
    fn find(&self, key: &String) -> (r: Option<usize>)
        requires
            self.wf(),
        ensures
            r matches Some(i) ==> i < self.entries@.len() && self.entries@[i as int].0@ == key@,
            r is None ==> !self.model@.contains_key(key@),
    {
        let mut i: usize = 0;
        while i < self.entries.len()
            invariant
                i <= self.entries@.len(),
                forall|j: int| 0 <= j < i ==> self.entries@[j].0@ != key@,
            decreases self.entries@.len() - i,
        {
            if self.entries[i].0 == *key {
                return Some(i);
            }
            i = i + 1;
        }
        proof {
            if self.model@.contains_key(key@) {
                let j = choose|j: int|
                    0 <= j < self.entries@.len() && #[trigger] self.entries@[j].0@ == key@;
            }
        }
        None
    }

    /// The value stored under `key`.
    pub fn get(&self, key: &String) -> (r: Option<String>)
        requires
            self.wf(),
        ensures
            r matches Some(v) ==> self.view_map().contains_key(key@) && v@ == self.view_map()[key@],
            r is None ==> !self.view_map().contains_key(key@),
    {
        match self.find(key) {
            Some(i) => {
                proof {
                    assert(self.model@.contains_key(self.entries@[i as int].0@));
                }
                Some(self.entries[i].1.clone())
            },
            None => None,
        }
    }

    /// Stores `value` under `key`, replacing what was there.
    pub fn insert(&mut self, key: String, value: String)
        requires
            old(self).wf(),
        ensures
            final(self).wf(),
            final(self).view_map() == old(self).view_map().insert(key@, value@),
    {
        let ghost k = key@;
        let ghost v = value@;
        match self.find(&key) {
            Some(i) => {
                self.entries.set(i, (key, value));
                self.model = Ghost(self.model@.insert(k, v));
                proof {
                    assert forall|a: Seq<char>| #[trigger]
                        self.model@.contains_key(a) implies exists|j: int|
                        0 <= j < self.entries@.len() && #[trigger] self.entries@[j].0@ == a by {
                        if a != k {
                            let j = choose|j: int|
                                0 <= j < old(self).entries@.len() && #[trigger] old(
                                    self,
                                ).entries@[j].0@ == a;
                            assert(self.entries@[j].0@ == a);
                        } else {
                            assert(self.entries@[i as int].0@ == a);
                        }
                    }
                    assert forall|j: int| 0 <= j < self.entries@.len() implies {
                        &&& #[trigger] self.model@.contains_key(self.entries@[j].0@)
                        &&& self.model@[self.entries@[j].0@] == self.entries@[j].1@
                    } by {
                        if j != i {
                            assert(old(self).model@.contains_key(old(self).entries@[j].0@));
                        }
                    }
                    assert forall|x: int, y: int|
                        0 <= x < self.entries@.len() && 0 <= y < self.entries@.len() && x
                            != y implies #[trigger] self.entries@[x].0@
                        != #[trigger] self.entries@[y].0@ by {
                        assert(old(self).entries@[x].0@ != old(self).entries@[y].0@);
                    }
                }
            },
            None => {
                self.entries.push((key, value));
                self.model = Ghost(self.model@.insert(k, v));
                proof {
                    let n = self.entries@.len() - 1;
                    assert forall|a: Seq<char>| #[trigger]
                        self.model@.contains_key(a) implies exists|j: int|
                        0 <= j < self.entries@.len() && #[trigger] self.entries@[j].0@ == a by {
                        if a != k {
                            let j = choose|j: int|
                                0 <= j < old(self).entries@.len() && #[trigger] old(
                                    self,
                                ).entries@[j].0@ == a;
                            assert(self.entries@[j].0@ == a);
                        } else {
                            assert(self.entries@[n].0@ == a);
                        }
                    }
                    assert forall|j: int| 0 <= j < self.entries@.len() implies {
                        &&& #[trigger] self.model@.contains_key(self.entries@[j].0@)
                        &&& self.model@[self.entries@[j].0@] == self.entries@[j].1@
                    } by {
                        if j != n {
                            assert(old(self).model@.contains_key(old(self).entries@[j].0@));
                        }
                    }
                    assert forall|x: int, y: int|
                        0 <= x < self.entries@.len() && 0 <= y < self.entries@.len() && x
                            != y implies #[trigger] self.entries@[x].0@
                        != #[trigger] self.entries@[y].0@ by {
                        if x == n {
                            assert(old(self).model@.contains_key(old(self).entries@[y].0@));
                        } else if y == n {
                            assert(old(self).model@.contains_key(old(self).entries@[x].0@));
                        }
                    }
                }
            },
        }
    }
}

} // verus!
