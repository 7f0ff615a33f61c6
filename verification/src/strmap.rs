//! Small maps keyed by strings, with insertion-order storage: string-to-string
//! maps for HTTP header sets and plugin metadata, and maps from plugin ids to
//! the plugins' runtime objects.

use vstd::prelude::*;

verus! {

/// The map that inserting `entries` one after another into an empty map gives:
/// a later entry for a key replaces an earlier one.
pub open spec fn entries_map<V>(entries: Seq<(Seq<char>, V)>) -> Map<Seq<char>, V>
    decreases entries.len(),
{
    if entries.len() == 0 {
        Map::empty()
    } else {
        entries_map(entries.drop_last()).insert(entries.last().0, entries.last().1)
    }
}

/// The character views of a list of string pairs.
pub open spec fn pair_views(entries: Seq<(String, String)>) -> Seq<(Seq<char>, Seq<char>)> {
    entries.map_values(|p: (String, String)| (p.0@, p.1@))
}

/// No key occurs twice.
pub open spec fn keys_unique<V>(entries: Seq<(Seq<char>, V)>) -> bool {
    forall|i: int, j: int|
        0 <= i < entries.len() && 0 <= j < entries.len() && i != j ==> #[trigger] entries[i].0
            != #[trigger] entries[j].0
}

/// With unique keys, the map holds exactly the listed pairs.
pub proof fn lemma_entries_map_unique<V>(entries: Seq<(Seq<char>, V)>)
    requires
        keys_unique(entries),
    ensures
        forall|k: Seq<char>|
            #[trigger] entries_map(entries).dom().contains(k) <==> exists|j: int|
                0 <= j < entries.len() && entries[j].0 == k,
        forall|j: int|
            0 <= j < entries.len() ==> #[trigger] entries_map(entries)[entries[j].0]
                == entries[j].1,
        entries_map(entries).dom().finite(),
        entries_map(entries).dom().len() == entries.len(),
    decreases entries.len(),
{
    if entries.len() > 0 {
        let init = entries.drop_last();
        assert(keys_unique(init)) by {
            assert forall|i: int, j: int|
                0 <= i < init.len() && 0 <= j < init.len() && i != j implies #[trigger] init[i].0
                != #[trigger] init[j].0 by {
                assert(init[i] == entries[i] && init[j] == entries[j]);
            }
        }
        lemma_entries_map_unique(init);
        let last = entries.last();
        assert(!entries_map(init).dom().contains(last.0)) by {
            if entries_map(init).dom().contains(last.0) {
                let j = choose|j: int| 0 <= j < init.len() && init[j].0 == last.0;
                assert(entries[j].0 == entries[entries.len() - 1].0);
            }
        }
        assert forall|k: Seq<char>| #[trigger]
            entries_map(entries).dom().contains(k) <==> exists|j: int|
                0 <= j < entries.len() && entries[j].0 == k by {
            if entries_map(entries).dom().contains(k) && k != last.0 {
                let j = choose|j: int| 0 <= j < init.len() && init[j].0 == k;
                assert(entries[j].0 == k);
            }
            if exists|j: int| 0 <= j < entries.len() && entries[j].0 == k {
                let j = choose|j: int| 0 <= j < entries.len() && entries[j].0 == k;
                if j < entries.len() - 1 {
                    assert(init[j].0 == k);
                }
            }
        }
        assert forall|j: int| 0 <= j < entries.len() implies #[trigger] entries_map(
            entries,
        )[entries[j].0] == entries[j].1 by {
            if j < entries.len() - 1 {
                assert(init[j] == entries[j]);
                assert(entries[j].0 != entries[entries.len() - 1].0);
            }
        }
    }
}

/// Replacing the value of an entry whose key is unique updates the map at that key.
proof fn lemma_entries_map_update<V>(entries: Seq<(Seq<char>, V)>, j: int, v: V)
    requires
        keys_unique(entries),
        0 <= j < entries.len(),
    ensures
        entries_map(entries.update(j, (entries[j].0, v))) == entries_map(entries).insert(
            entries[j].0,
            v,
        ),
        keys_unique(entries.update(j, (entries[j].0, v))),
    decreases entries.len(),
{
    let upd = entries.update(j, (entries[j].0, v));
    assert(keys_unique(upd)) by {
        assert forall|a: int, b: int|
            0 <= a < upd.len() && 0 <= b < upd.len() && a != b implies #[trigger] upd[a].0
            != #[trigger] upd[b].0 by {
            assert(upd[a].0 == entries[a].0 && upd[b].0 == entries[b].0);
        }
    }
    lemma_entries_map_unique(entries);
    lemma_entries_map_unique(upd);
    let m1 = entries_map(upd);
    let m2 = entries_map(entries).insert(entries[j].0, v);
    assert forall|k: Seq<char>| #[trigger] m1.dom().contains(k) <==> m2.dom().contains(k) by {
        if m1.dom().contains(k) {
            let a = choose|a: int| 0 <= a < upd.len() && upd[a].0 == k;
            assert(entries[a].0 == k);
        }
        if m2.dom().contains(k) && k != entries[j].0 {
            let a = choose|a: int| 0 <= a < entries.len() && entries[a].0 == k;
            assert(upd[a].0 == k);
        }
        if k == entries[j].0 {
            assert(upd[j].0 == k);
        }
    }
    assert forall|k: Seq<char>| m1.dom().contains(k) implies m1[k] == m2[k] by {
        let a = choose|a: int| 0 <= a < upd.len() && upd[a].0 == k;
        assert(m1[upd[a].0] == upd[a].1);
        if a != j {
            assert(entries[a].0 != entries[j].0);
            assert(entries_map(entries)[entries[a].0] == entries[a].1);
        }
    }
    assert(m1 =~= m2);
}

/// A map from strings to strings, stored as a list of pairs with distinct keys.
#[derive(Debug)]
pub struct StringMap {
    entries: Vec<(String, String)>,
}

impl View for StringMap {
    type V = Map<Seq<char>, Seq<char>>;

    closed spec fn view(&self) -> Map<Seq<char>, Seq<char>> {
        entries_map(pair_views(self.entries@))
    }
}

impl StringMap {
    #[verifier::type_invariant]
    closed spec fn keys_distinct(self) -> bool {
        keys_unique(pair_views(self.entries@))
    }

    /// The stored pairs, in insertion order.
    pub closed spec fn pairs(&self) -> Seq<(Seq<char>, Seq<char>)> {
        pair_views(self.entries@)
    }

    /// The map is what inserting the stored pairs in order gives.
    pub proof fn lemma_view(&self)
        ensures
            self@ == entries_map(self.pairs()),
    {
    }

    /// The map holds exactly the stored pairs.
    proof fn lemma_pairs(&self)
        requires
            keys_unique(self.pairs()),
        ensures
            keys_unique(self.pairs()),
            self@ == entries_map(self.pairs()),
            self@.dom().finite(),
            self@.dom().len() == self.pairs().len(),
            forall|j: int|
                0 <= j < self.pairs().len() ==> #[trigger] self@[self.pairs()[j].0]
                    == self.pairs()[j].1,
            forall|k: Seq<char>|
                #[trigger] self@.dom().contains(k) <==> exists|j: int|
                    0 <= j < self.pairs().len() && self.pairs()[j].0 == k,
    {
        lemma_entries_map_unique(pair_views(self.entries@));
    }

    /// An empty map.
    pub fn new() -> (r: Self)
        ensures
            r@ == Map::<Seq<char>, Seq<char>>::empty(),
            r.pairs().len() == 0,
    {
        let r = StringMap { entries: Vec::new() };
        assert(pair_views(r.entries@) =~= Seq::<(Seq<char>, Seq<char>)>::empty());
        r
    }

    /// Number of keys.
    pub fn len(&self) -> (r: usize)
        ensures
            r == self@.dom().len(),
    {
        proof {
            use_type_invariant(&*self);
            self.lemma_pairs();
        }
        self.entries.len()
    }

    /// Position of `key` among the stored pairs.
    fn find(&self, key: &str) -> (r: Option<usize>)
        ensures
            r matches Some(j) ==> j < self.pairs().len() && self.pairs()[j as int].0 == key@,
            r is None ==> forall|j: int|
                0 <= j < self.pairs().len() ==> self.pairs()[j].0 != key@,
    {
        let mut i: usize = 0;
        while i < self.entries.len()
            invariant
                i <= self.entries@.len(),
                forall|j: int| 0 <= j < i ==> self.pairs()[j].0 != key@,
            decreases self.entries@.len() - i,
        {
            if crate::text::str_eq(self.entries[i].0.as_str(), key) {
                return Some(i);
            }
            i = i + 1;
        }
        None
    }

    /// The value stored for `key`, if any.
    pub fn get(&self, key: &str) -> (r: Option<&String>)
        ensures
            r is Some <==> self@.dom().contains(key@),
            r matches Some(v) ==> v@ == self@[key@],
    {
        proof {
            use_type_invariant(&*self);
            self.lemma_pairs();
        }
        match self.find(key) {
            Some(j) => Some(&self.entries[j].1),
            None => None,
        }
    }

    /// Sets the value for `key`, replacing any previous value, as `HeaderMap::insert`
    /// and `HashMap::insert` do.
    pub fn insert(&mut self, key: String, value: String)
        ensures
            final(self)@ == old(self)@.insert(key@, value@),
    {
        proof {
            use_type_invariant(&*self);
            self.lemma_pairs();
        }
        let ghost old_pairs = pair_views(self.entries@);
        match self.find(key.as_str()) {
            Some(j) => {
                proof {
                    lemma_entries_map_update(old_pairs, j as int, value@);
                }
                let mut entries: Vec<(String, String)> = Vec::new();
                std::mem::swap(&mut entries, &mut self.entries);
                entries.set(j, (key, value));
                assert(pair_views(entries@) =~= old_pairs.update(j as int, (old_pairs[j as int].0, value@)));
                self.entries = entries;
            },
            None => {
                let mut entries: Vec<(String, String)> = Vec::new();
                std::mem::swap(&mut entries, &mut self.entries);
                entries.push((key, value));
                assert(pair_views(entries@).drop_last() =~= old_pairs);
                proof {
                    let np = pair_views(entries@);
                    assert forall|a: int, b: int|
                        0 <= a < np.len() && 0 <= b < np.len() && a != b implies #[trigger] np[a].0
                        != #[trigger] np[b].0 by {
                        if a < old_pairs.len() && b < old_pairs.len() {
                            assert(np[a] == old_pairs[a] && np[b] == old_pairs[b]);
                        } else if a < old_pairs.len() {
                            assert(np[a] == old_pairs[a]);
                        } else {
                            assert(np[b] == old_pairs[b]);
                        }
                    }
                }
                self.entries = entries;
            },
        }
    }

    /// The stored key/value pairs, in insertion order.
    pub fn entries(&self) -> (r: &Vec<(String, String)>)
        ensures
            pair_views(r@) == self.pairs(),
    {
        &self.entries
    }
}

impl Clone for StringMap {
    /// A map with the same keys and values.
    fn clone(&self) -> (r: Self)
        ensures
            r@ == self@,
    {
        let mut out = StringMap::new();
        let ghost pairs = self.pairs();
        let mut i: usize = 0;
        assert(pairs.take(0) =~= Seq::<(Seq<char>, Seq<char>)>::empty());
        while i < self.entries.len()
            invariant
                i <= self.entries@.len(),
                pairs == pair_views(self.entries@),
                out@ == entries_map(pairs.take(i as int)),
            decreases self.entries@.len() - i,
        {
            let (k, v) = &self.entries[i];
            assert(pairs.take(i + 1).drop_last() =~= pairs.take(i as int));
            assert(pairs.take(i + 1).last() == (k@, v@));
            out.insert(k.clone(), v.clone());
            i = i + 1;
        }
        assert(pairs.take(self.entries@.len() as int) =~= pairs);
        out
    }
}

} // verus!

verus! {

/// The key views of a list of keyed values.
pub open spec fn key_views<V>(entries: Seq<(String, V)>) -> Seq<(Seq<char>, V)> {
    entries.map_values(|p: (String, V)| (p.0@, p.1))
}

/// A map from strings to values of any type, stored as a list of pairs with
/// distinct keys.
pub struct KeyedMap<V> {
    entries: Vec<(String, V)>,
}

impl<V> View for KeyedMap<V> {
    type V = Map<Seq<char>, V>;

    closed spec fn view(&self) -> Map<Seq<char>, V> {
        entries_map(key_views(self.entries@))
    }
}

impl<V> KeyedMap<V> {
    #[verifier::type_invariant]
    closed spec fn keys_distinct(self) -> bool {
        keys_unique(key_views(self.entries@))
    }

    proof fn lemma_keys(&self)
        requires
            keys_unique(key_views(self.entries@)),
        ensures
            self@.dom().finite(),
            self@.dom().len() == self.entries@.len(),
            forall|j: int|
                0 <= j < self.entries@.len() ==> #[trigger] self@[key_views(self.entries@)[j].0]
                    == key_views(self.entries@)[j].1,
            forall|k: Seq<char>|
                #[trigger] self@.dom().contains(k) <==> exists|j: int|
                    0 <= j < self.entries@.len() && key_views(self.entries@)[j].0 == k,
    {
        lemma_entries_map_unique(key_views(self.entries@));
    }

    /// An empty map.
    pub fn new() -> (r: Self)
        ensures
            r@ == Map::<Seq<char>, V>::empty(),
    {
        let r = KeyedMap { entries: Vec::new() };
        assert(key_views(r.entries@) =~= Seq::<(Seq<char>, V)>::empty());
        r
    }

    /// Number of keys.
    pub fn len(&self) -> (r: usize)
        ensures
            r == self@.dom().len(),
    {
        proof {
            use_type_invariant(&*self);
            self.lemma_keys();
        }
        self.entries.len()
    }

    /// Position of `key` among the stored pairs.
    fn find(&self, key: &str) -> (r: Option<usize>)
        ensures
            r matches Some(j) ==> j < self.entries@.len() && key_views(self.entries@)[j as int].0
                == key@,
            r is None ==> forall|j: int|
                0 <= j < self.entries@.len() ==> key_views(self.entries@)[j].0 != key@,
    {
        let mut i: usize = 0;
        while i < self.entries.len()
            invariant
                i <= self.entries@.len(),
                forall|j: int| 0 <= j < i ==> key_views(self.entries@)[j].0 != key@,
            decreases self.entries@.len() - i,
        {
            if crate::text::str_eq(self.entries[i].0.as_str(), key) {
                return Some(i);
            }
            i = i + 1;
        }
        None
    }

    /// The value stored for `key`, if any.
    pub fn get(&self, key: &str) -> (r: Option<&V>)
        ensures
            r is Some <==> self@.dom().contains(key@),
            r matches Some(v) ==> *v == self@[key@],
    {
        proof {
            use_type_invariant(&*self);
            self.lemma_keys();
        }
        match self.find(key) {
            Some(j) => Some(&self.entries[j].1),
            None => None,
        }
    }

    /// Sets the value for `key`, replacing any previous value.
    pub fn insert(&mut self, key: String, value: V)
        ensures
            final(self)@ == old(self)@.insert(key@, value),
    {
        proof {
            use_type_invariant(&*self);
        }
        let ghost old_pairs = key_views(self.entries@);
        match self.find(key.as_str()) {
            Some(j) => {
                proof {
                    lemma_entries_map_update(old_pairs, j as int, value);
                }
                let mut entries: Vec<(String, V)> = Vec::new();
                std::mem::swap(&mut entries, &mut self.entries);
                entries.set(j, (key, value));
                assert(key_views(entries@) =~= old_pairs.update(j as int, (old_pairs[j as int].0, value)));
                self.entries = entries;
            },
            None => {
                let mut entries: Vec<(String, V)> = Vec::new();
                std::mem::swap(&mut entries, &mut self.entries);
                entries.push((key, value));
                assert(key_views(entries@).drop_last() =~= old_pairs);
                proof {
                    let np = key_views(entries@);
                    assert forall|a: int, b: int|
                        0 <= a < np.len() && 0 <= b < np.len() && a != b implies #[trigger] np[a].0
                        != #[trigger] np[b].0 by {
                        if a < old_pairs.len() && b < old_pairs.len() {
                            assert(np[a] == old_pairs[a] && np[b] == old_pairs[b]);
                        } else if a < old_pairs.len() {
                            assert(np[a] == old_pairs[a]);
                        } else {
                            assert(np[b] == old_pairs[b]);
                        }
                    }
                }
                self.entries = entries;
            },
        }
    }

    /// Removes every key.
    pub fn clear(&mut self)
        ensures
            final(self)@ == Map::<Seq<char>, V>::empty(),
    {
        self.entries = Vec::new();
        assert(key_views(self.entries@) =~= Seq::<(Seq<char>, V)>::empty());
    }
}

} // verus!
