use vstd::prelude::*;

use crate::json::{json_clone, json_view, str_equal, Json, JsonValue};

verus! {

/// The metadata dictionary that an extraction produces: field name to JSON value,
/// each name at most once.
pub struct InfoDict {
    entries: Vec<(String, JsonValue)>,
}

/// The keys of the entries, in order.
pub open spec fn entry_keys(entries: Seq<(String, JsonValue)>) -> Seq<Seq<char>> {
    Seq::new(entries.len(), |i: int| entries[i].0@)
}

impl InfoDict {
    /// Each field name occurs once.
    pub closed spec fn wf(&self) -> bool {
        forall|i: int, j: int|
            0 <= i < j < self.entries@.len() ==> self.entries@[i].0@ != self.entries@[j].0@
    }

    /// The fields as a map from name to value.
    pub closed spec fn spec_map(&self) -> Map<Seq<char>, Json> {
        Map::new(
            |k: Seq<char>| exists|i: int| 0 <= i < self.entries@.len() && self.entries@[i].0@ == k,
            |k: Seq<char>|
                json_view(
                    self.entries@[choose|i: int| 0 <= i < self.entries@.len() && self.entries@[i].0@ == k].1,
                ),
        )
    }

    /// An empty dictionary.
    pub fn new() -> (r: InfoDict)
        ensures
            r.wf(),
            r@ == Map::<Seq<char>, Json>::empty(),
    {
        let r = InfoDict { entries: Vec::new() };
        assert(r.spec_map() =~= Map::<Seq<char>, Json>::empty());
        r
    }

    /// Sets `key` to `value`, replacing an earlier value of that key.
    pub fn insert(&mut self, key: &str, value: JsonValue)
        requires
            old(self).wf(),
        ensures
            final(self).wf(),
            final(self)@ == old(self)@.insert(key@, value@),
    {
        let ghost old_entries = self.entries@;
        let mut i: usize = 0;
        while i < self.entries.len()
            invariant
                self.entries@ == old_entries,
                old(self).wf(),
                old(self).entries@ == old_entries,
                i <= self.entries@.len(),
                forall|j: int| 0 <= j < i ==> self.entries@[j].0@ != key@,
            decreases self.entries@.len() - i,
        {
            if str_equal(self.entries[i].0.as_str(), key) {
                let k = self.entries[i].0.clone();
                self.entries.set(i, (k, value));
                proof {
                    let m = self.spec_map();
                    let expected = old(self).spec_map().insert(key@, value@);
                    assert forall|j: int, l: int| 0 <= j < l < self.entries@.len() implies
                        self.entries@[j].0@ != self.entries@[l].0@ by {
                        assert(self.entries@[j].0@ == old_entries[j].0@);
                        assert(self.entries@[l].0@ == old_entries[l].0@);
                    }
                    assert forall|k2: Seq<char>| #[trigger] m.contains_key(k2) <==> expected.contains_key(k2) by {
                        if k2 == key@ {
                            assert(self.entries@[i as int].0@ == k2);
                        }
                        if expected.contains_key(k2) && k2 != key@ {
                            let w = choose|w: int| 0 <= w < old_entries.len() && old_entries[w].0@ == k2;
                            assert(self.entries@[w].0@ == k2);
                        }
                        if m.contains_key(k2) {
                            let w = choose|w: int| 0 <= w < self.entries@.len() && self.entries@[w].0@ == k2;
                            assert(old_entries[w].0@ == k2);
                        }
                    }
                    assert forall|k2: Seq<char>| #[trigger] m.contains_key(k2) implies m[k2] == expected[k2] by {
                        let w = choose|w: int| 0 <= w < self.entries@.len() && self.entries@[w].0@ == k2;
                        if k2 == key@ {
                            assert(w == i);
                        } else {
                            let w2 = choose|w2: int| 0 <= w2 < old_entries.len() && old_entries[w2].0@ == k2;
                            assert(w2 == w);
                        }
                    }
                    assert(m =~= expected);
                }
                return;
            }
            i = i + 1;
        }
        self.entries.push((key.to_owned(), value));
        proof {
            let n = old_entries.len() as int;
            let m = self.spec_map();
            let expected = old(self).spec_map().insert(key@, value@);
            assert(self.entries@[n].0@ == key@);
            assert forall|k2: Seq<char>| #[trigger] m.contains_key(k2) <==> expected.contains_key(k2) by {
                if expected.contains_key(k2) && k2 != key@ {
                    let w = choose|w: int| 0 <= w < old_entries.len() && old_entries[w].0@ == k2;
                    assert(self.entries@[w].0@ == k2);
                }
                if k2 == key@ {
                    assert(self.entries@[n].0@ == k2);
                }
            }
            assert forall|k2: Seq<char>| #[trigger] m.contains_key(k2) implies m[k2] == expected[k2] by {
                let w = choose|w: int| 0 <= w < self.entries@.len() && self.entries@[w].0@ == k2;
                if k2 == key@ {
                    assert(w == n);
                } else {
                    let w2 = choose|w2: int| 0 <= w2 < old_entries.len() && old_entries[w2].0@ == k2;
                    assert(w2 == w);
                }
            }
            assert(m =~= expected);
        }
    }

    /// Sets `key` to `value` when there is a value, and leaves the dictionary as it is otherwise.
    pub fn insert_if_some(&mut self, key: &str, value: Option<JsonValue>)
        requires
            old(self).wf(),
        ensures
            final(self).wf(),
            final(self)@ == match value {
                Some(v) => old(self)@.insert(key@, v@),
                None => old(self)@,
            },
    {
        match value {
            Some(v) => self.insert(key, v),
            None => {},
        }
    }

    /// The value of `key`, copied out.
    pub fn get(&self, key: &str) -> (r: Option<JsonValue>)
        requires
            self.wf(),
        ensures
            match r {
                Some(v) => self@.contains_key(key@) && self@[key@] == v@,
                None => !self@.contains_key(key@),
            },
    {
        let mut i: usize = 0;
        while i < self.entries.len()
            invariant
                self.wf(),
                i <= self.entries@.len(),
                forall|j: int| 0 <= j < i ==> self.entries@[j].0@ != key@,
            decreases self.entries@.len() - i,
        {
            if str_equal(self.entries[i].0.as_str(), key) {
                let ghost w = choose|w: int| 0 <= w < self.entries@.len() && self.entries@[w].0@ == key@;
                assert(w == i);
                return Some(json_clone(&self.entries[i].1));
            }
            i = i + 1;
        }
        None
    }

    /// The fields in the order they were first inserted: each is a field of the dictionary,
    /// and each field of the dictionary is one of them.
    pub fn fields(&self) -> (r: &Vec<(String, JsonValue)>)
        requires
            self.wf(),
        ensures
            forall|i: int| 0 <= i < r@.len() ==> #[trigger] self@.contains_key(r@[i].0@) && self@[r@[i].0@] == r@[i].1@,
            forall|k: Seq<char>| #[trigger] self@.contains_key(k) ==> exists|i: int| 0 <= i < r@.len() && r@[i].0@ == k,
            entry_keys(r@).no_duplicates(),
    {
        assert forall|i: int| 0 <= i < self.entries@.len() implies #[trigger] self@.contains_key(self.entries@[i].0@)
            && self@[self.entries@[i].0@] == self.entries@[i].1@ by {
            let k = self.entries@[i].0@;
            let w = choose|w: int| 0 <= w < self.entries@.len() && self.entries@[w].0@ == k;
            assert(w == i);
        }
        assert forall|a: int, b: int| 0 <= a < b < entry_keys(self.entries@).len() implies
            entry_keys(self.entries@)[a] != entry_keys(self.entries@)[b] by {}
        &self.entries
    }

    /// The number of fields.
    pub fn len(&self) -> (r: usize)
        requires
            self.wf(),
        ensures
            r == self@.dom().len(),
    {
        proof { self.lemma_len(); }
        self.entries.len()
    }

    proof fn lemma_len(&self)
        requires
            self.wf(),
        ensures
            self@.dom().len() == self.entries@.len(),
            self@.dom().finite(),
    {
        let keys = entry_keys(self.entries@);
        assert forall|k: Seq<char>| #[trigger] self@.dom().contains(k) <==> keys.to_set().contains(k) by {
            if keys.to_set().contains(k) {
                let w = choose|w: int| 0 <= w < keys.len() && keys[w] == k;
                assert(self.entries@[w].0@ == k);
            }
            if self@.dom().contains(k) {
                let w = choose|w: int| 0 <= w < self.entries@.len() && self.entries@[w].0@ == k;
                assert(keys[w] == k);
            }
        }
        assert(self@.dom() =~= keys.to_set());
        assert(keys.no_duplicates());
        keys.unique_seq_to_set();
    }
}

impl View for InfoDict {
    type V = Map<Seq<char>, Json>;

    open spec fn view(&self) -> Map<Seq<char>, Json> {
        self.spec_map()
    }
}

} // verus!
