//! A table of values keyed by text, each key at most once: the storage
//! under the in-memory stores.

use vstd::prelude::*;

verus! {

pub struct KeyedTable<V> {
    entries: Vec<(String, V)>,
    model: Ghost<Map<Seq<char>, V>>,
}

impl<V> View for KeyedTable<V> {
    type V = Map<Seq<char>, V>;

    closed spec fn view(&self) -> Map<Seq<char>, V> {
        self.model@
    }
}

impl<V> KeyedTable<V> {
    /// Each entry is the model's value for its key, each key of the model
    /// has an entry, and no key has two.
    pub closed spec fn wf(&self) -> bool {
        &&& forall|i: int|
            0 <= i < self.entries@.len() ==> {
                &&& #[trigger] self.model@.contains_key(self.entries@[i].0@)
                &&& self.model@[self.entries@[i].0@] == self.entries@[i].1
            }
        &&& forall|k: Seq<char>|
            #[trigger] self.model@.contains_key(k) ==> exists|i: int|
                0 <= i < self.entries@.len() && self.entries@[i].0@ == k
        &&& forall|i: int, j: int|
            0 <= i < self.entries@.len() && 0 <= j < self.entries@.len() && i != j
                ==> self.entries@[i].0@ != self.entries@[j].0@
    }

    pub fn new() -> (r: KeyedTable<V>)
        ensures
            r.wf(),
            r@ == Map::<Seq<char>, V>::empty(),
    {
        KeyedTable { entries: Vec::new(), model: Ghost(Map::empty()) }
    }

    fn find(&self, key: &str) -> (r: Option<usize>)
        requires
            self.wf(),
        ensures
            match r {
                Some(i) => {
                    &&& i < self.entries@.len()
                    &&& self.entries@[i as int].0@ == key@
                    &&& self@.contains_key(key@)
                    &&& self@[key@] == self.entries@[i as int].1
                },
                None => !self@.contains_key(key@),
            },
    {
        let wanted = key.to_string();
        let mut i: usize = 0;
        while i < self.entries.len()
            invariant
                self.wf(),
                wanted@ == key@,
                i <= self.entries@.len(),
                forall|j: int| 0 <= j < i ==> self.entries@[j].0@ != key@,
            decreases self.entries@.len() - i,
        {
            if self.entries[i].0 == wanted {
                assert(self.model@.contains_key(self.entries@[i as int].0@));
                return Some(i);
            }
            i = i + 1;
        }
        None
    }

    /// The value stored under the key, if any.
    pub fn get(&self, key: &str) -> (r: Option<&V>)
        requires
            self.wf(),
        ensures
            match r {
                Some(v) => self@.contains_key(key@) && *v == self@[key@],
                None => !self@.contains_key(key@),
            },
    {
        match self.find(key) {
            Some(i) => Some(&self.entries[i].1),
            None => None,
        }
    }

    fn remove_at(&mut self, i: usize)
        requires
            old(self).wf(),
            i < old(self).entries@.len(),
        ensures
            final(self).wf(),
            final(self)@ == old(self)@.remove(old(self).entries@[i as int].0@),
    {
        let ghost key = self.entries@[i as int].0@;
        let ghost old_entries = self.entries@;
        self.entries.remove(i);
        self.model = Ghost(self.model@.remove(key));
        assert forall|j: int|
            0 <= j < self.entries@.len() implies #[trigger] self.model@.contains_key(
            self.entries@[j].0@,
        ) && self.model@[self.entries@[j].0@] == self.entries@[j].1 by {
            let oj = if j < i { j } else { j + 1 };
            assert(self.entries@[j] == old_entries[oj]);
            assert(old(self).model@.contains_key(old_entries[oj].0@));
        }
        assert forall|k: Seq<char>| #[trigger] self.model@.contains_key(k) implies exists|j: int|
            0 <= j < self.entries@.len() && self.entries@[j].0@ == k by {
            assert(old(self).model@.contains_key(k));
            let oj = choose|oj: int| 0 <= oj < old_entries.len() && old_entries[oj].0@ == k;
            let j = if oj < i { oj } else { oj - 1 };
            assert(self.entries@[j] == old_entries[oj]);
        }
        assert forall|a: int, b: int|
            0 <= a < self.entries@.len() && 0 <= b < self.entries@.len() && a != b implies
            self.entries@[a].0@ != self.entries@[b].0@ by {
            let oa = if a < i { a } else { a + 1 };
            let ob = if b < i { b } else { b + 1 };
            assert(self.entries@[a] == old_entries[oa]);
            assert(self.entries@[b] == old_entries[ob]);
        }
    }

    /// Removes the key's entry; tells whether there was one.
    pub fn remove(&mut self, key: &str) -> (r: bool)
        requires
            old(self).wf(),
        ensures
            final(self).wf(),
            final(self)@ == old(self)@.remove(key@),
            r == old(self)@.contains_key(key@),
    {
        match self.find(key) {
            Some(i) => {
                self.remove_at(i);
                true
            },
            None => {
                assert(self@.remove(key@) =~= self@);
                false
            },
        }
    }

    /// Stores the value under the key, replacing any earlier one.
    pub fn insert(&mut self, key: String, value: V)
        requires
            old(self).wf(),
        ensures
            final(self).wf(),
            final(self)@ == old(self)@.insert(key@, value),
    {
        if let Some(i) = self.find(key.as_str()) {
            self.remove_at(i);
        }
        let ghost k = key@;
        let ghost before = self.entries@;
        let ghost mid = self.model@;
        assert(!mid.contains_key(k));
        self.model = Ghost(self.model@.insert(k, value));
        self.entries.push((key, value));
        assert forall|q: Seq<char>| #[trigger] self.model@.contains_key(q) implies exists|i: int|
            0 <= i < self.entries@.len() && self.entries@[i].0@ == q by {
            if q == k {
                assert(self.entries@[before.len() as int].0@ == q);
            } else {
                assert(mid.contains_key(q));
                let i = choose|i: int| 0 <= i < before.len() && before[i].0@ == q;
                assert(self.entries@[i] == before[i]);
            }
        }
        assert forall|i: int|
            0 <= i < self.entries@.len() implies #[trigger] self.model@.contains_key(
            self.entries@[i].0@,
        ) && self.model@[self.entries@[i].0@] == self.entries@[i].1 by {
            if i < before.len() {
                assert(self.entries@[i] == before[i]);
                assert(mid.contains_key(before[i].0@));
            }
        }
        assert forall|i: int, j: int|
            0 <= i < self.entries@.len() && 0 <= j < self.entries@.len() && i != j implies
            self.entries@[i].0@ != self.entries@[j].0@ by {
            if i < before.len() {
                assert(self.entries@[i] == before[i]);
                assert(mid.contains_key(before[i].0@));
            }
            if j < before.len() {
                assert(self.entries@[j] == before[j]);
                assert(mid.contains_key(before[j].0@));
            }
        }
        assert(self.model@ =~= old(self)@.insert(k, value));
    }
}

} // verus!
