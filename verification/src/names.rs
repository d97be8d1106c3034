//! A map from names to values.

use vstd::prelude::*;
use crate::text::copy_text;
use crate::text::same_text;

verus! {

/// A map keyed by text. No name occurs twice among its entries.
pub struct NameMap<V> {
    pub(crate) entries: Vec<(String, V)>,
}

/// Whether `name` is the name of one of the entries.
pub closed spec fn named<V>(entries: Seq<(String, V)>, name: Seq<char>) -> bool {
    exists|i: int| 0 <= i < entries.len() && (#[trigger] entries[i]).0@ == name
}

/// The place of the entry called `name`.
pub closed spec fn place<V>(entries: Seq<(String, V)>, name: Seq<char>) -> int {
    choose|i: int| 0 <= i < entries.len() && (#[trigger] entries[i]).0@ == name
}

/// Whether a list of names and values holds what a map holds, each name once.
pub open spec fn lists<V: View>(list: Seq<(String, V)>, map: Map<Seq<char>, V::V>) -> bool {
    &&& forall|i: int|
        0 <= i < list.len() ==> map.contains_key((#[trigger] list[i]).0@) && map[list[i].0@]
            == list[i].1@
    &&& forall|name: Seq<char>| #[trigger]
        map.contains_key(name) ==> exists|i: int|
            0 <= i < list.len() && (#[trigger] list[i]).0@ == name
    &&& forall|i: int, j: int|
        0 <= i < j < list.len() ==> (#[trigger] list[i]).0@ != (#[trigger] list[j]).0@
}

impl<V: View> View for NameMap<V> {
    type V = Map<Seq<char>, V::V>;

    closed spec fn view(&self) -> Map<Seq<char>, V::V> {
        Map::new(
            |name: Seq<char>| named(self.entries@, name),
            |name: Seq<char>| self.entries@[place(self.entries@, name)].1@,
        )
    }
}

impl<V> NameMap<V> {
    /// No name occurs twice.
    #[verifier::type_invariant]
    pub(crate) open spec fn wf(self) -> bool {
        forall|i: int, j: int|
            0 <= i < j < self.entries@.len() ==> (#[trigger] self.entries@[i]).0@ != (
            #[trigger] self.entries@[j]).0@
    }
}

impl<V: View> NameMap<V> {
    /// An entry is found in the map under its name.
    pub(crate) proof fn lemma_entry(&self, i: int)
        requires
            self.wf(),
            0 <= i < self.entries@.len(),
        ensures
            self@.contains_key(self.entries@[i].0@),
            self@[self.entries@[i].0@] == self.entries@[i].1@,
    {
        let name = self.entries@[i].0@;
        assert(named(self.entries@, name));
        let p = place(self.entries@, name);
        assert(0 <= p < self.entries@.len() && self.entries@[p].0@ == name);
        assert(p == i);
    }

    /// A name in the map is the name of an entry.
    pub(crate) proof fn lemma_named(&self, name: Seq<char>) -> (i: int)
        requires
            self.wf(),
            self@.contains_key(name),
        ensures
            0 <= i < self.entries@.len(),
            self.entries@[i].0@ == name,
            self@[name] == self.entries@[i].1@,
    {
        let i = place(self.entries@, name);
        assert(named(self.entries@, name));
        i
    }

    /// The empty map.
    pub fn new() -> (map: Self)
        ensures
            map@ == Map::<Seq<char>, V::V>::empty(),
    {
        let map = NameMap { entries: Vec::new() };
        assert(map@ =~= Map::<Seq<char>, V::V>::empty());
        map
    }

    fn find(&self, name: &String) -> (found: Option<usize>)
        ensures
            self.wf(),
            match found {
                Some(i) => i < self.entries@.len() && self.entries@[i as int].0@ == name@
                    && self@.contains_key(name@) && self@[name@] == self.entries@[i as int].1@,
                None => !self@.contains_key(name@) && forall|j: int|
                    0 <= j < self.entries@.len() ==> (#[trigger] self.entries@[j]).0@ != name@,
            },
    {
        proof {
            use_type_invariant(self);
        }
        let mut i: usize = 0;
        while i < self.entries.len()
            invariant
                self.wf(),
                i <= self.entries@.len(),
                forall|j: int| 0 <= j < i ==> (#[trigger] self.entries@[j]).0@ != name@,
            decreases self.entries@.len() - i,
        {
            if same_text(&self.entries[i].0, name) {
                proof {
                    self.lemma_entry(i as int);
                }
                return Some(i);
            }
            i = i + 1;
        }
        None
    }

    /// The value under `name`.
    pub fn get(&self, name: &String) -> (found: Option<&V>)
        ensures
            match found {
                Some(value) => self@.contains_key(name@) && value@ == self@[name@],
                None => !self@.contains_key(name@),
            },
    {
        match self.find(name) {
            Some(i) => Some(&self.entries[i].1),
            None => None,
        }
    }

    /// Whether there is a value under `name`.
    pub fn contains_key(&self, name: &String) -> (found: bool)
        ensures
            found == self@.contains_key(name@),
    {
        self.find(name).is_some()
    }

    /// Whether the map holds nothing.
    pub fn is_empty(&self) -> (empty: bool)
        ensures
            empty == (self@ == Map::<Seq<char>, V::V>::empty()),
    {
        proof {
            use_type_invariant(self);
            if self.entries@.len() == 0 {
                assert(self@ =~= Map::<Seq<char>, V::V>::empty());
            } else {
                self.lemma_entry(0);
            }
        }
        self.entries.len() == 0
    }

    /// The names and their values.
    pub fn into_entries(self) -> (list: Vec<(String, V)>)
        ensures
            lists(list@, self@),
    {
        proof {
            use_type_invariant(&self);
            assert forall|i: int| 0 <= i < self.entries@.len() implies self@.contains_key(
                (#[trigger] self.entries@[i]).0@,
            ) && self@[self.entries@[i].0@] == self.entries@[i].1@ by {
                self.lemma_entry(i);
            }
            assert forall|name: Seq<char>| #[trigger] self@.contains_key(name) implies exists|
                i: int,
            | 0 <= i < self.entries@.len() && (#[trigger] self.entries@[i]).0@ == name by {
                let i = self.lemma_named(name);
            }
        }
        self.entries
    }

    /// Puts `value` under `name`, in place of what was there.
    pub fn insert(&mut self, name: String, value: V)
        ensures
            final(self)@ == old(self)@.insert(name@, value@),
    {
        let ghost before = *self;
        let found = self.find(&name);
        let mut entries: Vec<(String, V)> = Vec::new();
        std::mem::swap(&mut entries, &mut self.entries);
        match found {
            Some(i) => {
                entries[i] = (name, value);
                self.entries = entries;
                proof {
                    assert forall|key: Seq<char>| self@.contains_key(key)
                        == before@.insert(name@, value@).contains_key(key) by {
                        if before@.contains_key(key) {
                            let j = before.lemma_named(key);
                            self.lemma_entry(j);
                        }
                        if self@.contains_key(key) {
                            let j = self.lemma_named(key);
                            before.lemma_entry(j);
                        }
                        self.lemma_entry(i as int);
                    }
                    assert forall|key: Seq<char>| self@.contains_key(key) implies self@[key]
                        == before@.insert(name@, value@)[key] by {
                        let j = self.lemma_named(key);
                        before.lemma_entry(j);
                    }
                }
            },
            None => {
                entries.push((name, value));
                self.entries = entries;
                proof {
                    let last = before.entries@.len() as int;
                    assert forall|key: Seq<char>| self@.contains_key(key)
                        == before@.insert(name@, value@).contains_key(key) by {
                        if before@.contains_key(key) {
                            let j = before.lemma_named(key);
                            self.lemma_entry(j);
                        }
                        if self@.contains_key(key) {
                            let j = self.lemma_named(key);
                            if j < last {
                                before.lemma_entry(j);
                            }
                        }
                        self.lemma_entry(last);
                    }
                    assert forall|key: Seq<char>| self@.contains_key(key) implies self@[key]
                        == before@.insert(name@, value@)[key] by {
                        let j = self.lemma_named(key);
                        if j < last {
                            before.lemma_entry(j);
                        }
                    }
                }
            },
        }
        assert(self@ =~= before@.insert(name@, value@));
    }

    /// Takes the value under `name` out of the map.
    pub fn remove(&mut self, name: &String) -> (taken: Option<V>)
        ensures
            final(self)@ == old(self)@.remove(name@),
            match taken {
                Some(value) => old(self)@.contains_key(name@) && value@ == old(self)@[name@],
                None => !old(self)@.contains_key(name@),
            },
    {
        let ghost before = *self;
        match self.find(name) {
            Some(i) => {
                let mut entries: Vec<(String, V)> = Vec::new();
                std::mem::swap(&mut entries, &mut self.entries);
                let (_, value) = entries.remove(i);
                self.entries = entries;
                proof {
                    assert forall|key: Seq<char>| self@.contains_key(key)
                        == before@.remove(name@).contains_key(key) by {
                        if before@.contains_key(key) && key != name@ {
                            let j = before.lemma_named(key);
                            self.lemma_entry(if j < i { j } else { j - 1 });
                        }
                        if self@.contains_key(key) {
                            let j = self.lemma_named(key);
                            before.lemma_entry(if j < i { j } else { j + 1 });
                        }
                    }
                    assert forall|key: Seq<char>| self@.contains_key(key) implies self@[key]
                        == before@.remove(name@)[key] by {
                        let j = self.lemma_named(key);
                        before.lemma_entry(if j < i { j } else { j + 1 });
                    }
                    assert(self@ =~= before@.remove(name@));
                }
                Some(value)
            },
            None => {
                assert(self@ =~= before@.remove(name@));
                None
            },
        }
    }
}

impl NameMap<String> {
    /// A map with the same names and texts.
    pub fn copy(&self) -> (copy: Self)
        ensures
            copy@ == self@,
    {
        proof {
            use_type_invariant(self);
        }
        let mut entries: Vec<(String, String)> = Vec::new();
        let mut i: usize = 0;
        while i < self.entries.len()
            invariant
                i <= self.entries@.len(),
                entries@.len() == i,
                forall|j: int|
                    0 <= j < i ==> (#[trigger] entries@[j]).0@ == self.entries@[j].0@ && entries@[j].1@
                        == self.entries@[j].1@,
            decreases self.entries@.len() - i,
        {
            entries.push((copy_text(&self.entries[i].0), copy_text(&self.entries[i].1)));
            i = i + 1;
        }
        let copy = NameMap { entries };
        proof {
            assert forall|key: Seq<char>| copy@.contains_key(key) == self@.contains_key(key) by {
                if self@.contains_key(key) {
                    let j = self.lemma_named(key);
                    copy.lemma_entry(j);
                }
                if copy@.contains_key(key) {
                    let j = copy.lemma_named(key);
                    self.lemma_entry(j);
                }
            }
            assert forall|key: Seq<char>| copy@.contains_key(key) implies copy@[key]
                == self@[key] by {
                let j = copy.lemma_named(key);
                self.lemma_entry(j);
            }
            assert(copy@ =~= self@);
        }
        copy
    }

    /// Whether every name of this map has the same text in `other`.
    fn included_in(&self, other: &Self) -> (included: bool)
        ensures
            included == (forall|key: Seq<char>| #[trigger]
                self@.contains_key(key) ==> other@.contains_key(key) && other@[key] == self@[key]),
    {
        proof {
            use_type_invariant(self);
        }
        let mut i: usize = 0;
        while i < self.entries.len()
            invariant
                self.wf(),
                i <= self.entries@.len(),
                forall|j: int|
                    0 <= j < i ==> other@.contains_key((#[trigger] self.entries@[j]).0@)
                        && other@[self.entries@[j].0@] == self.entries@[j].1@,
            decreases self.entries@.len() - i,
        {
            let equal = match other.get(&self.entries[i].0) {
                Some(value) => same_text(value, &self.entries[i].1),
                None => false,
            };
            if !equal {
                proof {
                    self.lemma_entry(i as int);
                }
                return false;
            }
            i = i + 1;
        }
        proof {
            assert forall|key: Seq<char>| #[trigger] self@.contains_key(key) implies other@.contains_key(
                key,
            ) && other@[key] == self@[key] by {
                let j = self.lemma_named(key);
            }
        }
        true
    }

    /// Whether two maps hold the same texts under the same names, in whatever order they were
    /// put in.
    pub fn same_as(&self, other: &Self) -> (same: bool)
        ensures
            same == (self@ == other@),
    {
        let same = self.included_in(other) && other.included_in(self);
        proof {
            if same {
                assert(self@ =~= other@);
            }
        }
        same
    }
}

} // verus!
