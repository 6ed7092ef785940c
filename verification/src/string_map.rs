use vstd::prelude::*;

verus! {

/// A map from strings to values, kept as a list of entries in which no key occurs
/// twice.  It stands for the string-keyed hash maps and hash sets of the widgets.
pub struct StringMap<V> {
    entries: Vec<(String, V)>,
}

/// Whether two entry lists give no key twice.
pub open spec fn keys_distinct<V>(entries: Seq<(String, V)>) -> bool {
    forall|i: int, j: int|
        0 <= i < entries.len() && 0 <= j < entries.len() && i != j ==> #[trigger] entries[i].0@
            != #[trigger] entries[j].0@
}

/// Whether some entry of the list has key `k`.
pub open spec fn has_key<V>(entries: Seq<(String, V)>, k: Seq<char>) -> bool {
    exists|i: int| 0 <= i < entries.len() && #[trigger] entries[i].0@ == k
}

/// The map that an entry list stands for.
pub open spec fn entries_map<V>(entries: Seq<(String, V)>) -> Map<Seq<char>, V> {
    Map::new(
        |k: Seq<char>| has_key(entries, k),
        |k: Seq<char>| entries[choose|i: int| 0 <= i < entries.len() && #[trigger] entries[i].0@ == k].1,
    )
}

/// In a list without repeated keys, entry `i` gives the map's value at its key.
pub proof fn lemma_entries_map_at<V>(entries: Seq<(String, V)>, i: int)
    requires
        keys_distinct(entries),
        0 <= i < entries.len(),
    ensures
        entries_map(entries).dom().contains(entries[i].0@),
        entries_map(entries)[entries[i].0@] == entries[i].1,
{
    let k = entries[i].0@;
    assert(has_key(entries, k));
    let j = choose|j: int| 0 <= j < entries.len() && #[trigger] entries[j].0@ == k;
    assert(entries[j].0@ == entries[i].0@);
}

/// Removing entry `i` removes its key from the map and keeps the other keys.
pub proof fn lemma_entries_map_remove<V>(entries: Seq<(String, V)>, i: int)
    requires
        keys_distinct(entries),
        0 <= i < entries.len(),
    ensures
        keys_distinct(entries.remove(i)),
        entries_map(entries.remove(i)) == entries_map(entries).remove(entries[i].0@),
{
    let rest = entries.remove(i);
    let key = entries[i].0@;
    assert forall|a: int, b: int|
        0 <= a < rest.len() && 0 <= b < rest.len() && a != b implies #[trigger] rest[a].0@
        != #[trigger] rest[b].0@ by {
        let oa = if a < i { a } else { a + 1 };
        let ob = if b < i { b } else { b + 1 };
        assert(rest[a] == entries[oa]);
        assert(rest[b] == entries[ob]);
    }
    let m1 = entries_map(rest);
    let m2 = entries_map(entries).remove(key);
    assert forall|k: Seq<char>| m1.dom().contains(k) <==> m2.dom().contains(k) by {
        if m1.dom().contains(k) {
            let a = choose|a: int| 0 <= a < rest.len() && #[trigger] rest[a].0@ == k;
            let oa = if a < i { a } else { a + 1 };
            assert(rest[a] == entries[oa]);
            assert(entries[oa].0@ == k);
            assert(has_key(entries, k));
            assert(oa != i);
        }
        if m2.dom().contains(k) {
            let o = choose|o: int| 0 <= o < entries.len() && #[trigger] entries[o].0@ == k;
            assert(o != i);
            let a = if o < i { o } else { o - 1 };
            assert(rest[a] == entries[o]);
            assert(has_key(rest, k));
        }
    }
    assert forall|k: Seq<char>| #[trigger] m1.dom().contains(k) implies m1[k] == m2[k] by {
        let a = choose|a: int| 0 <= a < rest.len() && #[trigger] rest[a].0@ == k;
        let oa = if a < i { a } else { a + 1 };
        assert(rest[a] == entries[oa]);
        lemma_entries_map_at(rest, a);
        lemma_entries_map_at(entries, oa);
    }
    assert(m1 =~= m2);
}

/// Appending an entry with a new key adds that key to the map.
pub proof fn lemma_entries_map_push<V>(entries: Seq<(String, V)>, key: String, value: V)
    requires
        keys_distinct(entries),
        !has_key(entries, key@),
    ensures
        keys_distinct(entries.push((key, value))),
        entries_map(entries.push((key, value))) == entries_map(entries).insert(key@, value),
{
    let next = entries.push((key, value));
    let n = entries.len() as int;
    assert forall|a: int, b: int|
        0 <= a < next.len() && 0 <= b < next.len() && a != b implies #[trigger] next[a].0@
        != #[trigger] next[b].0@ by {
        if a < n && b < n {
            assert(next[a] == entries[a]);
            assert(next[b] == entries[b]);
        } else if a < n {
            assert(next[a] == entries[a]);
            assert(entries[a].0@ != key@);
        } else {
            assert(next[b] == entries[b]);
            assert(entries[b].0@ != key@);
        }
    }
    let m1 = entries_map(next);
    let m2 = entries_map(entries).insert(key@, value);
    assert forall|k: Seq<char>| m1.dom().contains(k) <==> m2.dom().contains(k) by {
        if m1.dom().contains(k) {
            let a = choose|a: int| 0 <= a < next.len() && #[trigger] next[a].0@ == k;
            if a < n {
                assert(next[a] == entries[a]);
                assert(has_key(entries, k));
            }
        }
        if m2.dom().contains(k) {
            if k == key@ {
                assert(next[n].0@ == k);
                assert(has_key(next, k));
            } else {
                let o = choose|o: int| 0 <= o < entries.len() && #[trigger] entries[o].0@ == k;
                assert(next[o] == entries[o]);
                assert(has_key(next, k));
            }
        }
    }
    assert forall|k: Seq<char>| #[trigger] m1.dom().contains(k) implies m1[k] == m2[k] by {
        let a = choose|a: int| 0 <= a < next.len() && #[trigger] next[a].0@ == k;
        lemma_entries_map_at(next, a);
        if a < n {
            assert(next[a] == entries[a]);
            lemma_entries_map_at(entries, a);
        }
    }
    assert(m1 =~= m2);
}

/// Replacing entry `i` by an entry with the same key replaces the value at that key.
pub proof fn lemma_entries_map_update<V>(entries: Seq<(String, V)>, i: int, key: String, value: V)
    requires
        keys_distinct(entries),
        0 <= i < entries.len(),
        entries[i].0@ == key@,
    ensures
        keys_distinct(entries.update(i, (key, value))),
        entries_map(entries.update(i, (key, value))) == entries_map(entries).insert(key@, value),
{
    let next = entries.update(i, (key, value));
    assert forall|a: int, b: int|
        0 <= a < next.len() && 0 <= b < next.len() && a != b implies #[trigger] next[a].0@
        != #[trigger] next[b].0@ by {
        assert(next[a].0@ == entries[a].0@);
        assert(next[b].0@ == entries[b].0@);
    }
    let m1 = entries_map(next);
    let m2 = entries_map(entries).insert(key@, value);
    assert forall|k: Seq<char>| m1.dom().contains(k) <==> m2.dom().contains(k) by {
        if m1.dom().contains(k) {
            let a = choose|a: int| 0 <= a < next.len() && #[trigger] next[a].0@ == k;
            assert(entries[a].0@ == k);
            assert(has_key(entries, k));
        }
        if m2.dom().contains(k) {
            if k == key@ {
                assert(next[i].0@ == k);
                assert(has_key(next, k));
            } else {
                let o = choose|o: int| 0 <= o < entries.len() && #[trigger] entries[o].0@ == k;
                assert(next[o].0@ == k);
                assert(has_key(next, k));
            }
        }
    }
    assert forall|k: Seq<char>| #[trigger] m1.dom().contains(k) implies m1[k] == m2[k] by {
        let a = choose|a: int| 0 <= a < next.len() && #[trigger] next[a].0@ == k;
        lemma_entries_map_at(next, a);
        if a != i {
            assert(next[a] == entries[a]);
            lemma_entries_map_at(entries, a);
        }
    }
    assert(m1 =~= m2);
}

impl<V> View for StringMap<V> {
    type V = Map<Seq<char>, V>;

    closed spec fn view(&self) -> Map<Seq<char>, V> {
        entries_map(self.entries@)
    }
}

impl<V> StringMap<V> {
    #[verifier::type_invariant]
    closed spec fn keys_unique(self) -> bool {
        keys_distinct(self.entries@)
    }

    /// Creates an empty map.
    pub fn new() -> (r: Self)
        ensures
            r@ == Map::<Seq<char>, V>::empty(),
    {
        let r = StringMap { entries: Vec::new() };
        assert(r@ =~= Map::<Seq<char>, V>::empty());
        r
    }

    /// True when the map holds no entry.
    pub fn is_empty(&self) -> (r: bool)
        ensures
            r == (self@ == Map::<Seq<char>, V>::empty()),
    {
        if self.entries.len() == 0 {
            assert(self@ =~= Map::<Seq<char>, V>::empty());
            true
        } else {
            proof {
                use_type_invariant(self);
                lemma_entries_map_at(self.entries@, 0);
                assert(self@.dom().contains(self.entries@[0].0@));
            }
            false
        }
    }

    /// The number of entries.
    pub fn len(&self) -> (r: usize)
        ensures
            r == self@.dom().len(),
            self@.dom().finite(),
    {
        proof {
            use_type_invariant(self);
            lemma_entries_map_len(self.entries@);
        }
        self.entries.len()
    }

    /// Whether the map has an entry for `key`.
    pub fn contains_key(&self, key: &String) -> (r: bool)
        ensures
            r == self@.dom().contains(key@),
    {
        proof {
            use_type_invariant(self);
        }
        match self_find(&self.entries, key) {
            Some(i) => {
                proof {
                    lemma_entries_map_at(self.entries@, i as int);
                }
                true
            },
            None => false,
        }
    }

    /// The value stored for `key`, if any.
    pub fn get(&self, key: &String) -> (r: Option<&V>)
        ensures
            match r {
                Some(v) => self@.dom().contains(key@) && *v == self@[key@],
                None => !self@.dom().contains(key@),
            },
    {
        proof {
            use_type_invariant(self);
        }
        match self_find(&self.entries, key) {
            Some(i) => {
                proof {
                    lemma_entries_map_at(self.entries@, i as int);
                }
                Some(&self.entries[i].1)
            },
            None => None,
        }
    }

    /// Stores `value` for `key`, replacing any value stored before.
    pub fn insert(&mut self, key: String, value: V)
        ensures
            final(self)@ == old(self)@.insert(key@, value),
    {
        proof {
            use_type_invariant(&*self);
        }
        let mut entries: Vec<(String, V)> = Vec::new();
        std::mem::swap(&mut entries, &mut self.entries);
        let ghost before = entries@;
        assert(before == old(self).entries@);
        match self_find(&entries, &key) {
            Some(i) => {
                proof {
                    lemma_entries_map_update(before, i as int, key, value);
                }
                entries.set(i, (key, value));
            },
            None => {
                proof {
                    lemma_entries_map_push(before, key, value);
                }
                entries.push((key, value));
            },
        }
        self.entries = entries;
    }

    /// Removes the entry for `key`, returning its value when there was one.
    pub fn remove(&mut self, key: &String) -> (r: Option<V>)
        ensures
            final(self)@ == old(self)@.remove(key@),
            r == (if old(self)@.dom().contains(key@) {
                Some(old(self)@[key@])
            } else {
                None::<V>
            }),
    {
        proof {
            use_type_invariant(&*self);
        }
        let mut entries: Vec<(String, V)> = Vec::new();
        std::mem::swap(&mut entries, &mut self.entries);
        let ghost before = entries@;
        assert(before == old(self).entries@);
        match self_find(&entries, key) {
            Some(i) => {
                proof {
                    lemma_entries_map_remove(before, i as int);
                    lemma_entries_map_at(before, i as int);
                }
                let (_k, v) = entries.remove(i);
                self.entries = entries;
                Some(v)
            },
            None => {
                assert(entries_map(before).remove(key@) =~= entries_map(before));
                self.entries = entries;
                None
            },
        }
    }

    /// Empties the map, handing out its former entries (in no particular order).
    pub fn take_all(&mut self) -> (r: Vec<(String, V)>)
        ensures
            final(self)@ == Map::<Seq<char>, V>::empty(),
            keys_distinct(r@),
            entries_map(r@) == old(self)@,
    {
        proof {
            use_type_invariant(&*self);
        }
        let mut entries: Vec<(String, V)> = Vec::new();
        std::mem::swap(&mut entries, &mut self.entries);
        assert(self@ =~= Map::<Seq<char>, V>::empty());
        entries
    }
}

/// The index of the entry of `entries` with key `key`, if there is one.
fn self_find<V>(entries: &Vec<(String, V)>, key: &String) -> (r: Option<usize>)
    ensures
        match r {
            Some(i) => i < entries@.len() && entries@[i as int].0@ == key@,
            None => !has_key(entries@, key@),
        },
{
    let mut i: usize = 0;
    while i < entries.len()
        invariant
            i <= entries@.len(),
            forall|j: int| 0 <= j < i ==> #[trigger] entries@[j].0@ != key@,
        decreases entries@.len() - i,
    {
        if entries[i].0 == *key {
            return Some(i);
        }
        i = i + 1;
    }
    None
}

/// The map of a list without repeated keys has one key per entry.
pub proof fn lemma_entries_map_len<V>(entries: Seq<(String, V)>)
    requires
        keys_distinct(entries),
    ensures
        entries_map(entries).dom().finite(),
        entries_map(entries).dom().len() == entries.len(),
    decreases entries.len(),
{
    if entries.len() == 0 {
        assert(entries_map(entries).dom() =~= Set::<Seq<char>>::empty());
    } else {
        let last = entries.len() - 1;
        let front = entries.remove(last);
        lemma_entries_map_remove(entries, last);
        lemma_entries_map_len(front);
        lemma_entries_map_at(entries, last);
        assert(entries_map(entries).dom() =~= entries_map(front).dom().insert(entries[last].0@));
        assert(!entries_map(front).dom().contains(entries[last].0@));
    }
}

} // verus!
