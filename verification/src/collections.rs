//! Maps and sets keyed by strings, compared by their character sequences.
//!
//! They stand where the exchange reconciliation keeps hash maps and hash sets of
//! strings: the contents are modelled as a `Map` (resp. `Set`) over character
//! sequences, and no key occurs twice.
use vstd::prelude::*;

verus! {

/// A finite map from strings to values; a key occurs at most once.
pub struct StringMap<V> {
    entries: Vec<(String, V)>,
}

impl<V> StringMap<V> {
    /// The key stored at position `i`.
    pub closed spec fn key_at(&self, i: int) -> Seq<char> {
        self.entries@[i].0@
    }

    /// No key is stored twice.
    #[verifier::type_invariant]
    closed spec fn keys_unique(&self) -> bool {
        forall|i: int, j: int|
            0 <= i < j < self.entries@.len() ==> #[trigger] self.key_at(i) != #[trigger] self.key_at(j)
    }

    closed spec fn stores(&self, k: Seq<char>) -> bool {
        exists|i: int| 0 <= i < self.entries@.len() && #[trigger] self.key_at(i) == k
    }

    closed spec fn position(&self, k: Seq<char>) -> int {
        choose|i: int| 0 <= i < self.entries@.len() && #[trigger] self.key_at(i) == k
    }

    /// The map is empty.
    pub fn new() -> (m: Self)
        ensures
            m@ == Map::<Seq<char>, V>::empty(),
    {
        let m = StringMap { entries: Vec::new() };
        assert(m@ =~= Map::<Seq<char>, V>::empty());
        m
    }

    proof fn lemma_position(&self, i: int)
        requires
            self.keys_unique(),
            0 <= i < self.entries@.len(),
        ensures
            self@.contains_key(self.key_at(i)),
            self@[self.key_at(i)] == self.entries@[i].1,
    {
        let k = self.key_at(i);
        assert(self.stores(k));
        let p = self.position(k);
        assert(self.key_at(p) == k);
        if p != i {
            if p < i {
                assert(self.key_at(p) != self.key_at(i));
            } else {
                assert(self.key_at(i) != self.key_at(p));
            }
        }
    }

    /// Finds the position of `key`, if it is stored.
    fn find(&self, key: &String) -> (r: Option<usize>)
        ensures
            match r {
                Some(i) => i < self.entries@.len() && self.key_at(i as int) == key@,
                None => !self@.contains_key(key@),
            },
    {
        let mut i: usize = 0;
        while i < self.entries.len()
            invariant
                i <= self.entries@.len(),
                forall|j: int| 0 <= j < i ==> #[trigger] self.key_at(j) != key@,
            decreases self.entries@.len() - i,
        {
            if self.entries[i].0 == *key {
                return Some(i);
            }
            i = i + 1;
        }
        None
    }

    /// Whether `key` is stored.
    pub fn contains_key(&self, key: &String) -> (r: bool)
        ensures
            r == self@.contains_key(key@),
    {
        proof { use_type_invariant(self); }
        match self.find(key) {
            Some(i) => {
                proof { self.lemma_position(i as int); }
                true
            },
            None => false,
        }
    }

    /// The value stored under `key`, if any.
    pub fn get(&self, key: &String) -> (r: Option<&V>)
        ensures
            match r {
                Some(v) => self@.contains_key(key@) && *v == self@[key@],
                None => !self@.contains_key(key@),
            },
    {
        proof { use_type_invariant(self); }
        match self.find(key) {
            Some(i) => {
                proof { self.lemma_position(i as int); }
                Some(&self.entries[i].1)
            },
            None => None,
        }
    }

    /// Stores `value` under `key`, replacing what was stored there before.
    pub fn insert(&mut self, key: String, value: V)
        ensures
            final(self)@ == old(self)@.insert(key@, value),
    {
        proof { use_type_invariant(&*self); }
        let ghost before = *self;
        let ghost k = key@;
        match self.find(&key) {
            Some(i) => {
                let mut entries: Vec<(String, V)> = Vec::new();
                std::mem::swap(&mut entries, &mut self.entries);
                entries.set(i, (key, value));
                proof {
                    assert forall|a: int, b: int|
                        0 <= a < b < entries@.len() implies entries@[a].0@ != entries@[b].0@ by {
                        if a != i as int && b != i as int {
                            assert(before.key_at(a) != before.key_at(b));
                        } else if a == i as int {
                            assert(before.key_at(a) != before.key_at(b));
                        } else {
                            assert(before.key_at(a) != before.key_at(b));
                        }
                    }
                }
                self.entries = entries;
                proof {
                    assert forall|kk: Seq<char>| #[trigger] self@.contains_key(kk) == before@.insert(k, value).contains_key(kk) by {
                        if before.stores(kk) {
                            let p = before.position(kk);
                            assert(self.key_at(p) == kk || p == i as int);
                        }
                        if self.stores(kk) {
                            let p = self.position(kk);
                            if p != i as int {
                                assert(before.key_at(p) == kk);
                            }
                        }
                    }
                    assert forall|kk: Seq<char>| self@.contains_key(kk) implies #[trigger] self@[kk] == before@.insert(k, value)[kk] by {
                        let p = self.position(kk);
                        self.lemma_position(p);
                        if p == i as int {
                        } else {
                            before.lemma_position(p);
                        }
                    }
                    assert(self@ =~= before@.insert(k, value));
                }
            },
            None => {
                let mut entries: Vec<(String, V)> = Vec::new();
                std::mem::swap(&mut entries, &mut self.entries);
                entries.push((key, value));
                proof {
                    assert forall|a: int, b: int|
                        0 <= a < b < entries@.len() implies entries@[a].0@ != entries@[b].0@ by {
                        if b < before.entries@.len() {
                            assert(before.key_at(a) != before.key_at(b));
                        } else {
                            assert(before.key_at(a) == entries@[a].0@);
                        }
                    }
                }
                self.entries = entries;
                proof {
                    let n = before.entries@.len() as int;
                    assert(self.key_at(n) == k);
                    assert forall|kk: Seq<char>| #[trigger] self@.contains_key(kk) == before@.insert(k, value).contains_key(kk) by {
                        if before.stores(kk) {
                            let p = before.position(kk);
                            assert(self.key_at(p) == kk);
                        }
                        if self.stores(kk) {
                            let p = self.position(kk);
                            if p != n {
                                assert(before.key_at(p) == kk);
                            }
                        }
                    }
                    assert forall|kk: Seq<char>| self@.contains_key(kk) implies #[trigger] self@[kk] == before@.insert(k, value)[kk] by {
                        let p = self.position(kk);
                        self.lemma_position(p);
                        if p != n {
                            before.lemma_position(p);
                        }
                    }
                    assert(self@ =~= before@.insert(k, value));
                }
            },
        }
    }
}

impl<V> View for StringMap<V> {
    type V = Map<Seq<char>, V>;

    closed spec fn view(&self) -> Map<Seq<char>, V> {
        Map::new(|k: Seq<char>| self.stores(k), |k: Seq<char>| self.entries@[self.position(k)].1)
    }
}

} // verus!

verus! {

/// The character sequences of a list of strings.
pub open spec fn views_of(items: Seq<String>) -> Seq<Seq<char>> {
    items.map_values(|s: String| s@)
}

/// Appending a text to a list adds it to the set of the list's texts.
pub proof fn lemma_push_to_set(s: Seq<Seq<char>>, v: Seq<char>)
    ensures
        s.push(v).to_set() == s.to_set().insert(v),
{
    assert forall|x: Seq<char>| s.push(v).to_set().contains(x) implies s.to_set().insert(v).contains(x) by {
        let j = choose|j: int| 0 <= j < s.push(v).len() && s.push(v)[j] == x;
        if j < s.len() {
            assert(s[j] == x);
        }
    }
    assert forall|x: Seq<char>| s.to_set().insert(v).contains(x) implies s.push(v).to_set().contains(x) by {
        if x == v {
            assert(s.push(v)[s.len() as int] == v);
        } else {
            let j = choose|j: int| 0 <= j < s.len() && s[j] == x;
            assert(s.push(v)[j] == x);
        }
    }
    assert(s.push(v).to_set() =~= s.to_set().insert(v));
}

/// A finite set of strings; no string occurs twice.
pub struct StringSet {
    items: Vec<String>,
}

impl View for StringSet {
    type V = Set<Seq<char>>;

    closed spec fn view(&self) -> Set<Seq<char>> {
        views_of(self.items@).to_set()
    }
}

impl StringSet {
    #[verifier::type_invariant]
    closed spec fn items_unique(&self) -> bool {
        views_of(self.items@).no_duplicates()
    }

    /// The set is empty.
    pub fn new() -> (s: Self)
        ensures
            s@ == Set::<Seq<char>>::empty(),
    {
        let s = StringSet { items: Vec::new() };
        assert(views_of(s.items@) =~= Seq::<Seq<char>>::empty());
        assert(s@ =~= Set::<Seq<char>>::empty());
        s
    }

    /// Whether `item` belongs to the set.
    pub fn contains(&self, item: &String) -> (r: bool)
        ensures
            r == self@.contains(item@),
    {
        let mut i: usize = 0;
        while i < self.items.len()
            invariant
                i <= self.items@.len(),
                forall|j: int| 0 <= j < i ==> #[trigger] self.items@[j]@ != item@,
            decreases self.items@.len() - i,
        {
            if self.items[i] == *item {
                assert(views_of(self.items@)[i as int] == item@);
                return true;
            }
            i = i + 1;
        }
        proof {
            if views_of(self.items@).contains(item@) {
                let j = choose|j: int| 0 <= j < views_of(self.items@).len() && views_of(self.items@)[j] == item@;
                assert(self.items@[j]@ == item@);
            }
        }
        false
    }

    /// Adds `item`; returns whether it was absent before.
    pub fn insert(&mut self, item: String) -> (added: bool)
        ensures
            final(self)@ == old(self)@.insert(item@),
            added == !old(self)@.contains(item@),
    {
        proof { use_type_invariant(&*self); }
        if self.contains(&item) {
            assert(self@.insert(item@) =~= self@);
            false
        } else {
            let ghost before = views_of(self.items@);
            let ghost v = item@;
            let mut items: Vec<String> = Vec::new();
            std::mem::swap(&mut items, &mut self.items);
            items.push(item);
            proof {
                assert(views_of(items@) =~= before.push(v));
                assert(!before.contains(v));
                assert forall|a: int, b: int|
                    0 <= a < views_of(items@).len() && 0 <= b < views_of(items@).len() && a != b
                    implies views_of(items@)[a] != views_of(items@)[b] by {
                    if a < before.len() && b < before.len() {
                    } else if a < before.len() {
                        assert(before[a] == views_of(items@)[a]);
                    } else {
                        assert(before[b] == views_of(items@)[b]);
                    }
                }
                lemma_push_to_set(before, v);
            }
            self.items = items;
            true
        }
    }

    /// The number of strings in the set.
    pub fn len(&self) -> (n: usize)
        ensures
            n == self@.len(),
    {
        proof {
            use_type_invariant(self);
            views_of(self.items@).unique_seq_to_set();
        }
        self.items.len()
    }

    /// The strings of the set, each once, in some order.
    pub fn elements(&self) -> (r: &Vec<String>)
        ensures
            views_of(r@).to_set() == self@,
            views_of(r@).no_duplicates(),
    {
        proof { use_type_invariant(self); }
        &self.items
    }
}

} // verus!
