//! The index store: what the five operations of a synthesized store do, as
//! functions on maps, the laws that hold of them, and a store that
//! implements them.

use vstd::prelude::*;

verus! {

/// What a lookup of `key` in `store` yields.
pub open spec fn spec_find<V>(store: Map<Seq<char>, V>, key: Seq<char>) -> Option<V> {
    if store.contains_key(key) {
        Some(store[key])
    } else {
        None
    }
}

/// The store after an upsert of `value` under `key`.
pub open spec fn spec_update<V>(store: Map<Seq<char>, V>, key: Seq<char>, value: V) -> Map<
    Seq<char>,
    V,
> {
    store.insert(key, value)
}

/// The store without the entry under `key`, if it has one.
pub open spec fn spec_remove<V>(store: Map<Seq<char>, V>, key: Seq<char>) -> Map<Seq<char>, V> {
    store.remove(key)
}

/// The store without any entry.
pub open spec fn spec_remove_all<V>(store: Map<Seq<char>, V>) -> Map<Seq<char>, V> {
    Map::empty()
}

/// `values` holds the values of `store`, each entry's once, in some order.
pub open spec fn spec_holds_all<V>(store: Map<Seq<char>, V>, values: Seq<V>) -> bool {
    exists|keys: Seq<Seq<char>>|
        {
            &&& #[trigger] keys.no_duplicates()
            &&& keys.to_set() == store.dom()
            &&& keys.len() == values.len()
            &&& forall|i: int| 0 <= i < keys.len() ==> values[i] == store[#[trigger] keys[i]]
        }
}

#[derive(Debug)]
struct Entry<V> {
    key: String,
    value: V,
}

/// A store of the values of one component kind under string keys: the
/// primary index that every synthesized index type holds. No key occurs
/// twice in it.
#[derive(Debug)]
pub struct IndexStore<V> {
    primary_index: Vec<Entry<V>>,
}

spec fn holds<V>(entries: Seq<Entry<V>>, key: Seq<char>) -> bool {
    exists|i: int| 0 <= i < entries.len() && (#[trigger] entries[i]).key@ == key
}

spec fn slot<V>(entries: Seq<Entry<V>>, key: Seq<char>) -> int {
    choose|i: int| 0 <= i < entries.len() && (#[trigger] entries[i]).key@ == key
}

spec fn distinct<V>(entries: Seq<Entry<V>>) -> bool {
    forall|i: int, j: int|
        0 <= i < j < entries.len() ==> (#[trigger] entries[i]).key@ != (#[trigger] entries[j]).key@
}

spec fn entries_map<V>(entries: Seq<Entry<V>>) -> Map<Seq<char>, V> {
    Map::new(|key: Seq<char>| holds(entries, key), |key: Seq<char>| entries[slot(entries, key)].value)
}

spec fn entries_keys<V>(entries: Seq<Entry<V>>) -> Seq<Seq<char>> {
    entries.map_values(|e: Entry<V>| e.key@)
}

proof fn lemma_entry<V>(entries: Seq<Entry<V>>, i: int)
    requires
        distinct(entries),
        0 <= i < entries.len(),
    ensures
        entries_map(entries).contains_key(entries[i].key@),
        entries_map(entries)[entries[i].key@] == entries[i].value,
{
    let key = entries[i].key@;
    assert(holds(entries, key));
    let j = slot(entries, key);
    assert(j == i);
}

impl<V> View for IndexStore<V> {
    type V = Map<Seq<char>, V>;

    closed spec fn view(&self) -> Map<Seq<char>, V> {
        entries_map(self.primary_index@)
    }
}

impl<V: Clone> Clone for IndexStore<V> {
    /// A store with the same keys, and under each key a clone of its value.
    fn clone(&self) -> (copy: IndexStore<V>)
        ensures
            copy@.dom() == self@.dom(),
            forall|key: Seq<char>| #[trigger]
                self@.contains_key(key) ==> cloned(self@[key], copy@[key]),
    {
        proof {
            use_type_invariant(self);
        }
        let mut entries: Vec<Entry<V>> = Vec::new();
        let count = self.primary_index.len();
        for i in 0..count
            invariant
                count == self.primary_index@.len(),
                entries@.len() == i,
                forall|k: int|
                    0 <= k < i ==> (#[trigger] entries@[k]).key@ == self.primary_index@[k].key@,
                forall|k: int|
                    0 <= k < i ==> cloned(self.primary_index@[k].value, (#[trigger] entries@[k]).value),
        {
            let entry = &self.primary_index[i];
            entries.push(Entry { key: entry.key.clone(), value: entry.value.clone() });
        }
        proof {
            let mine = self.primary_index@;
            let theirs = entries@;
            assert(distinct(theirs)) by {
                assert forall|a: int, b: int| 0 <= a < b < theirs.len() implies (
                #[trigger] theirs[a]).key@ != (#[trigger] theirs[b]).key@ by {
                    assert(mine[a].key@ != mine[b].key@);
                }
            }
            assert forall|key: Seq<char>| holds(mine, key) <==> holds(theirs, key) by {
                if holds(mine, key) {
                    assert(theirs[slot(mine, key)].key@ == key);
                }
                if holds(theirs, key) {
                    assert(mine[slot(theirs, key)].key@ == key);
                }
            }
            assert(entries_map(theirs).dom() =~= entries_map(mine).dom());
            assert forall|key: Seq<char>| #[trigger]
                entries_map(mine).contains_key(key) implies cloned(
                entries_map(mine)[key],
                entries_map(theirs)[key],
            ) by {
                let k = slot(mine, key);
                lemma_entry(mine, k);
                lemma_entry(theirs, k);
            }
        }
        IndexStore { primary_index: entries }
    }
}

impl<V> IndexStore<V> {
    #[verifier::type_invariant]
    spec fn no_key_twice(&self) -> bool {
        distinct(self.primary_index@)
    }

    /// A store holds finitely many entries.
    pub proof fn lemma_finite(&self)
        ensures
            self@.dom().finite(),
    {
        let entries = self.primary_index@;
        let keys = entries_keys(entries);
        vstd::seq_lib::seq_to_set_is_finite(keys);
        assert forall|key: Seq<char>| keys.to_set().contains(key) <==> self@.dom().contains(
            key,
        ) by {
            if keys.to_set().contains(key) {
                let i = choose|i: int| 0 <= i < keys.len() && keys[i] == key;
                assert(entries[i].key@ == key);
            }
            if holds(entries, key) {
                let i = slot(entries, key);
                assert(keys[i] == key);
            }
        }
        assert(keys.to_set() =~= self@.dom());
    }

    /// An empty store.
    pub fn new() -> (store: IndexStore<V>)
        ensures
            store@ == Map::<Seq<char>, V>::empty(),
    {
        let store = IndexStore { primary_index: Vec::new() };
        assert(store@ =~= Map::<Seq<char>, V>::empty());
        store
    }

    fn position(&self, key: &String) -> (at: Option<usize>)
        ensures
            match at {
                Some(i) => i < self.primary_index@.len() && self.primary_index@[i as int].key@
                    == key@,
                None => !holds(self.primary_index@, key@),
            },
    {
        let count = self.primary_index.len();
        for i in 0..count
            invariant
                count == self.primary_index@.len(),
                forall|k: int| 0 <= k < i ==> (#[trigger] self.primary_index@[k]).key@ != key@,
        {
            if self.primary_index[i].key == *key {
                return Some(i);
            }
        }
        None
    }

    /// The value under `key`, if there is one.
    pub fn find(&self, key: &String) -> (found: Option<&V>)
        ensures
            match found {
                Some(value) => spec_find(self@, key@) == Some(*value),
                None => spec_find(self@, key@).is_none(),
            },
    {
        proof {
            use_type_invariant(self);
        }
        match self.position(key) {
            Some(i) => {
                proof {
                    lemma_entry(self.primary_index@, i as int);
                }
                Some(&self.primary_index[i].value)
            },
            None => None,
        }
    }

    /// Every value in the store, each entry's once; the order is not fixed.
    pub fn find_all(&self) -> (values: Vec<&V>)
        ensures
            self@.dom().finite(),
            values@.len() == self@.dom().len(),
            spec_holds_all(self@, values@.map_values(|v: &V| *v)),
    {
        proof {
            use_type_invariant(self);
        }
        let mut values: Vec<&V> = Vec::new();
        let count = self.primary_index.len();
        for i in 0..count
            invariant
                count == self.primary_index@.len(),
                values@.len() == i,
                forall|k: int| 0 <= k < i ==> *(#[trigger] values@[k]) == self.primary_index@[k].value,
        {
            values.push(&self.primary_index[i].value);
        }
        proof {
            let entries = self.primary_index@;
            let keys = entries_keys(entries);
            self.lemma_finite();
            assert(keys.no_duplicates());
            assert forall|key: Seq<char>| keys.to_set().contains(key) <==> self@.dom().contains(
                key,
            ) by {
                if keys.to_set().contains(key) {
                    let i = choose|i: int| 0 <= i < keys.len() && keys[i] == key;
                    assert(entries[i].key@ == key);
                }
                if holds(entries, key) {
                    let i = slot(entries, key);
                    assert(keys[i] == key);
                }
            }
            assert(keys.to_set() =~= self@.dom());
            keys.unique_seq_to_set();
            let plain = values@.map_values(|v: &V| *v);
            assert forall|i: int| 0 <= i < keys.len() implies plain[i] == self@[#[trigger] keys[i]] by {
                lemma_entry(entries, i);
            }
        }
        values
    }

    /// Puts `value` under `key`, and hands out the value that was there before.
    pub fn update(&mut self, key: String, value: V) -> (previous: Option<V>)
        ensures
            final(self)@ == spec_update(old(self)@, key@, value),
            previous == spec_find(old(self)@, key@),
    {
        proof {
            use_type_invariant(&*self);
        }
        let ghost before = self.primary_index@;
        let at = self.position(&key);
        let mut entries: Vec<Entry<V>> = Vec::new();
        std::mem::swap(&mut self.primary_index, &mut entries);
        let previous = match at {
            Some(i) => {
                let entry = entries.swap_remove(i);
                proof {
                    lemma_entry(before, i as int);
                    lemma_swap_remove(before, entries@, i as int);
                }
                Some(entry.value)
            },
            None => {
                assert(entries_map(before) =~= entries_map(before).remove(key@));
                None
            },
        };
        let ghost between = entries@;
        assert(!holds(between, key@)) by {
            assert(!entries_map(between).contains_key(key@));
        }
        let entry = Entry { key, value };
        entries.push(entry);
        proof {
            lemma_push(between, entries@, entry);
            assert(entries_map(before).remove(key@).insert(key@, value) =~= entries_map(
                before,
            ).insert(key@, value));
        }
        self.primary_index = entries;
        previous
    }

    /// Deletes the entry under `key`; a store without such an entry stays as it is.
    pub fn remove(&mut self, key: &String)
        ensures
            final(self)@ == spec_remove(old(self)@, key@),
    {
        proof {
            use_type_invariant(&*self);
        }
        let ghost before = self.primary_index@;
        match self.position(key) {
            Some(i) => {
                let mut entries: Vec<Entry<V>> = Vec::new();
                std::mem::swap(&mut self.primary_index, &mut entries);
                entries.swap_remove(i);
                proof {
                    lemma_swap_remove(before, entries@, i as int);
                }
                self.primary_index = entries;
            },
            None => {
                assert(entries_map(before) =~= entries_map(before).remove(key@));
            },
        }
    }

    /// Deletes every entry.
    pub fn remove_all(&mut self)
        ensures
            final(self)@ == spec_remove_all(old(self)@),
    {
        self.primary_index = Vec::new();
        assert(self@ =~= Map::<Seq<char>, V>::empty());
    }
}

proof fn lemma_swap_remove<V>(before: Seq<Entry<V>>, after: Seq<Entry<V>>, i: int)
    requires
        distinct(before),
        0 <= i < before.len(),
        after == before.update(i, before.last()).drop_last(),
    ensures
        distinct(after),
        entries_map(after) == entries_map(before).remove(before[i].key@),
{
    let key = before[i].key@;
    let last = before.len() - 1;
    // Where an entry of `after` came from in `before`.
    let origin = |j: int| if j == i { last } else { j };
    assert forall|j: int| 0 <= j < after.len() implies after[j] == before[origin(j)] by {}
    assert forall|a: int, b: int| 0 <= a < b < after.len() implies (#[trigger] after[a]).key@
        != (#[trigger] after[b]).key@ by {
        assert(after[a] == before[origin(a)]);
        assert(after[b] == before[origin(b)]);
        assert(origin(a) != origin(b));
    }
    let left = entries_map(after);
    let right = entries_map(before).remove(key);
    assert forall|k: Seq<char>| left.contains_key(k) <==> right.contains_key(k) by {
        if holds(after, k) {
            let j = slot(after, k);
            assert(after[j] == before[origin(j)]);
            assert(before[origin(j)].key@ == k);
            assert(origin(j) != i);
        }
        if holds(before, k) && k != key {
            let j = slot(before, k);
            assert(j != i);
            if j == last {
                assert(after[i].key@ == k);
            } else {
                assert(after[j].key@ == k);
            }
        }
    }
    assert forall|k: Seq<char>| left.contains_key(k) implies left[k] == right[k] by {
        let j = slot(after, k);
        assert(after[j] == before[origin(j)]);
        lemma_entry(after, j);
        lemma_entry(before, origin(j));
    }
    assert(left =~= right);
}

proof fn lemma_push<V>(before: Seq<Entry<V>>, after: Seq<Entry<V>>, entry: Entry<V>)
    requires
        distinct(before),
        !holds(before, entry.key@),
        after == before.push(entry),
    ensures
        distinct(after),
        entries_map(after) == entries_map(before).insert(entry.key@, entry.value),
{
    let key = entry.key@;
    assert forall|a: int, b: int| 0 <= a < b < after.len() implies (#[trigger] after[a]).key@
        != (#[trigger] after[b]).key@ by {
        if b == after.len() - 1 {
            assert(before[a].key@ != key);
        }
    }
    let left = entries_map(after);
    let right = entries_map(before).insert(key, entry.value);
    assert forall|k: Seq<char>| left.contains_key(k) <==> right.contains_key(k) by {
        if holds(after, k) {
            let j = slot(after, k);
            if j < before.len() {
                assert(before[j].key@ == k);
            }
        }
        if holds(before, k) {
            let j = slot(before, k);
            assert(after[j].key@ == k);
        }
        if k == key {
            assert(after[after.len() - 1].key@ == k);
        }
    }
    assert forall|k: Seq<char>| left.contains_key(k) implies left[k] == right[k] by {
        let j = slot(after, k);
        lemma_entry(after, j);
        if j < before.len() {
            assert(before[j].key@ == k);
            lemma_entry(before, j);
        }
    }
    assert(left =~= right);
}

/// The store after one upsert for each key of `keys`, in order, with the
/// value at the same place in `values`.
pub open spec fn spec_update_each<V>(
    store: Map<Seq<char>, V>,
    keys: Seq<Seq<char>>,
    values: Seq<V>,
) -> Map<Seq<char>, V>
    decreases keys.len(),
{
    if keys.len() == 0 {
        store
    } else {
        spec_update(
            spec_update_each(store, keys.drop_last(), values.drop_last()),
            keys.last(),
            values.last(),
        )
    }
}

/// A lookup after an upsert under the same key finds the new value.
pub proof fn lemma_find_after_update<V>(store: Map<Seq<char>, V>, key: Seq<char>, value: V)
    ensures
        spec_find(spec_update(store, key, value), key) == Some(value),
{
}

/// A second upsert under a key replaces the first: what was there before it
/// is the first value, and a lookup after it finds the second.
pub proof fn lemma_update_replaces<V>(
    store: Map<Seq<char>, V>,
    key: Seq<char>,
    first: V,
    second: V,
)
    ensures
        spec_find(spec_update(store, key, first), key) == Some(first),
        spec_find(spec_update(spec_update(store, key, first), key, second), key) == Some(second),
        spec_update(spec_update(store, key, first), key, second) == spec_update(store, key, second),
{
    assert(store.insert(key, first).insert(key, second) =~= store.insert(key, second));
}

/// An upsert under one key leaves the lookups of all other keys as they were.
pub proof fn lemma_update_keeps_others<V>(
    store: Map<Seq<char>, V>,
    key: Seq<char>,
    value: V,
    other: Seq<char>,
)
    requires
        other != key,
    ensures
        spec_find(spec_update(store, key, value), other) == spec_find(store, other),
{
}

/// A lookup after a removal under the same key finds nothing.
pub proof fn lemma_find_after_remove<V>(store: Map<Seq<char>, V>, key: Seq<char>)
    ensures
        spec_find(spec_remove(store, key), key).is_none(),
{
}

/// The removal of a key that the store does not hold changes nothing.
pub proof fn lemma_remove_absent<V>(store: Map<Seq<char>, V>, key: Seq<char>)
    requires
        !store.contains_key(key),
    ensures
        spec_remove(store, key) == store,
{
    assert(store.remove(key) =~= store);
}

/// After the removal of every entry the store hands out no value, and a
/// second removal of every entry changes nothing.
pub proof fn lemma_remove_all_empties<V>(store: Map<Seq<char>, V>, values: Seq<V>)
    requires
        spec_holds_all(spec_remove_all(store), values),
    ensures
        values.len() == 0,
        spec_remove_all(spec_remove_all(store)) == spec_remove_all(store),
{
    let keys = choose|keys: Seq<Seq<char>>|
        {
            &&& #[trigger] keys.no_duplicates()
            &&& keys.to_set() == spec_remove_all(store).dom()
            &&& keys.len() == values.len()
            &&& forall|i: int|
                0 <= i < keys.len() ==> values[i] == spec_remove_all(store)[#[trigger] keys[i]]
        };
    if keys.len() > 0 {
        assert(keys.to_set().contains(keys[0]));
    }
}

/// Every sequence that holds the values of a store has one value for each
/// of its keys.
pub proof fn lemma_holds_all_len<V>(store: Map<Seq<char>, V>, values: Seq<V>)
    requires
        spec_holds_all(store, values),
    ensures
        store.dom().finite(),
        values.len() == store.dom().len(),
{
    let keys = choose|keys: Seq<Seq<char>>|
        {
            &&& #[trigger] keys.no_duplicates()
            &&& keys.to_set() == store.dom()
            &&& keys.len() == values.len()
            &&& forall|i: int| 0 <= i < keys.len() ==> values[i] == store[#[trigger] keys[i]]
        };
    vstd::seq_lib::seq_to_set_is_finite(keys);
    keys.unique_seq_to_set();
}

/// Upserts under keys that differ from one another and that the store does
/// not hold add one entry each.
pub proof fn lemma_update_each_len<V>(
    store: Map<Seq<char>, V>,
    keys: Seq<Seq<char>>,
    values: Seq<V>,
)
    requires
        store.dom().finite(),
        keys.no_duplicates(),
        keys.len() == values.len(),
        forall|i: int| 0 <= i < keys.len() ==> !store.contains_key(#[trigger] keys[i]),
    ensures
        spec_update_each(store, keys, values).dom() == store.dom().union(keys.to_set()),
        spec_update_each(store, keys, values).dom().finite(),
        spec_update_each(store, keys, values).dom().len() == store.dom().len() + keys.len(),
    decreases keys.len(),
{
    if keys.len() == 0 {
        assert(keys.to_set() =~= Set::<Seq<char>>::empty());
        assert(store.dom().union(keys.to_set()) =~= store.dom());
    } else {
        let front = keys.drop_last();
        let last = keys.last();
        assert forall|i: int, j: int| 0 <= i < front.len() && 0 <= j < front.len() && i
            != j implies front[i] != front[j] by {
            assert(front[i] == keys[i] && front[j] == keys[j]);
        }
        assert forall|i: int| 0 <= i < front.len() implies !store.contains_key(
            #[trigger] front[i],
        ) by {
            assert(front[i] == keys[i]);
        }
        lemma_update_each_len(store, front, values.drop_last());
        let inner = spec_update_each(store, front, values.drop_last());
        assert(!inner.dom().contains(last)) by {
            if front.to_set().contains(last) {
                let i = choose|i: int| 0 <= i < front.len() && front[i] == last;
                assert(keys[i] == keys[keys.len() - 1]);
            }
            assert(keys[keys.len() - 1] == last);
        }
        assert(keys.to_set() =~= front.to_set().insert(last)) by {
            assert forall|k: Seq<char>| keys.to_set().contains(k) <==> front.to_set().insert(
                last,
            ).contains(k) by {
                if keys.to_set().contains(k) {
                    let i = choose|i: int| 0 <= i < keys.len() && keys[i] == k;
                    if i < front.len() {
                        assert(front[i] == k);
                    }
                }
                if front.to_set().contains(k) {
                    let i = choose|i: int| 0 <= i < front.len() && front[i] == k;
                    assert(keys[i] == k);
                }
                if k == last {
                    assert(keys[keys.len() - 1] == k);
                }
            }
        }
        assert(spec_update_each(store, keys, values).dom() =~= store.dom().union(keys.to_set()));
    }
}

/// A fresh store after upserts under `n` keys that differ from one another
/// hands out exactly `n` values.
pub proof fn lemma_find_all_after_updates<V>(
    keys: Seq<Seq<char>>,
    values: Seq<V>,
    found: Seq<V>,
)
    requires
        keys.no_duplicates(),
        keys.len() == values.len(),
        spec_holds_all(spec_update_each(Map::<Seq<char>, V>::empty(), keys, values), found),
    ensures
        found.len() == keys.len(),
{
    lemma_update_each_len(Map::<Seq<char>, V>::empty(), keys, values);
    lemma_holds_all_len(spec_update_each(Map::<Seq<char>, V>::empty(), keys, values), found);
}

} // verus!
