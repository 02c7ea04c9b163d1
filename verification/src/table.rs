//! A small map with few entries, kept as a list of pairs in which no key occurs twice.
use vstd::prelude::*;

verus! {

/// A key that can be compared in executable code exactly as it is compared in contracts.
pub trait TableKey: Copy {
    fn same(&self, other: &Self) -> (result: bool)
        ensures
            result == (*self == *other),
    ;
}

/// Whether some entry of `entries` has the key `key`.
pub open spec fn has_key<K, W>(entries: Seq<(K, W)>, key: K) -> bool {
    exists|i: int| 0 <= i < entries.len() && (#[trigger] entries[i]).0 == key
}

/// Where the entry with the key `key` stands.
pub open spec fn key_index<K, W>(entries: Seq<(K, W)>, key: K) -> int
    recommends
        has_key(entries, key),
{
    choose|i: int| 0 <= i < entries.len() && (#[trigger] entries[i]).0 == key
}

/// The value kept under `key`.
pub open spec fn lookup<K, W>(entries: Seq<(K, W)>, key: K) -> Option<W> {
    if has_key(entries, key) {
        Some(entries[key_index(entries, key)].1)
    } else {
        None
    }
}

/// `entries` with `value` under `key`: in place of the old value, or else at the end.
pub open spec fn with_entry<K, W>(entries: Seq<(K, W)>, key: K, value: W) -> Seq<(K, W)> {
    if has_key(entries, key) {
        entries.update(key_index(entries, key), (key, value))
    } else {
        entries.push((key, value))
    }
}

/// `entries` without the entry of `key`, the others in their order.
pub open spec fn without_key<K, W>(entries: Seq<(K, W)>, key: K) -> Seq<(K, W)> {
    if has_key(entries, key) {
        entries.remove(key_index(entries, key))
    } else {
        entries
    }
}

/// No two entries share a key.
pub open spec fn keys_distinct<K, W>(entries: Seq<(K, W)>) -> bool {
    forall|i: int, j: int|
        0 <= i < j < entries.len() ==> (#[trigger] entries[i]).0 != (#[trigger] entries[j]).0
}

/// The entries as a mathematical map.
pub open spec fn entry_map<K, W>(entries: Seq<(K, W)>) -> Map<K, W> {
    Map::new(|key: K| has_key(entries, key), |key: K| entries[key_index(entries, key)].1)
}

/// Adding an entry changes what is kept under its key and nothing else, and no key comes to occur
/// twice.
pub proof fn law_with_entry<K, W>(entries: Seq<(K, W)>, key: K, value: W)
    requires
        keys_distinct(entries),
    ensures
        keys_distinct(with_entry(entries, key, value)),
        entry_map(with_entry(entries, key, value)) == entry_map(entries).insert(key, value),
        forall|other: K|
            #![trigger lookup(with_entry(entries, key, value), other)]
            lookup(with_entry(entries, key, value), other) == if other == key {
                Some(value)
            } else {
                lookup(entries, other)
            },
{
    let after = with_entry(entries, key, value);
    assert forall|other: K| #![trigger has_key(after, other)]
        has_key(after, other) == (has_key(entries, other) || other == key) by {
        if has_key(entries, other) {
            let i = key_index(entries, other);
            assert(after[i].0 == other);
        }
        if other == key {
            if has_key(entries, key) {
                assert(after[key_index(entries, key)].0 == key);
            } else {
                assert(after[entries.len() as int].0 == key);
            }
        }
        if has_key(after, other) {
            let i = key_index(after, other);
            assert(after[i].0 == other);
            if i < entries.len() {
                assert(entries[i].0 == other);
            }
        }
    }
    assert forall|other: K|
        #![trigger lookup(after, other)]
        lookup(after, other) == if other == key {
            Some(value)
        } else {
            lookup(entries, other)
        } by {
        assert(has_key(after, other) == (has_key(entries, other) || other == key));
        if has_key(after, other) {
            let i = key_index(after, other);
            assert(after[i].0 == other);
            if other != key {
                assert(i < entries.len() && entries[i].0 == other);
            }
        }
    }
    assert forall|other: K| has_key(after, other) implies entry_map(after)[other] == entry_map(
        entries,
    ).insert(key, value)[other] by {
        assert(lookup(after, other) == if other == key {
            Some(value)
        } else {
            lookup(entries, other)
        });
    }
    assert(entry_map(after) =~= entry_map(entries).insert(key, value));
}

/// Removing a key forgets what was kept under it and nothing else.
pub proof fn law_without_key<K, W>(entries: Seq<(K, W)>, key: K)
    requires
        keys_distinct(entries),
    ensures
        keys_distinct(without_key(entries, key)),
        entry_map(without_key(entries, key)) == entry_map(entries).remove(key),
        forall|other: K|
            #![trigger lookup(without_key(entries, key), other)]
            lookup(without_key(entries, key), other) == if other == key {
                None
            } else {
                lookup(entries, other)
            },
{
    let after = without_key(entries, key);
    if has_key(entries, key) {
        let gone = key_index(entries, key);
        assert(forall|i: int| 0 <= i < after.len() ==> (#[trigger] after[i]) == (if i < gone {
            entries[i]
        } else {
            entries[i + 1]
        }));
        assert forall|other: K| #![trigger has_key(after, other)]
            has_key(after, other) == (has_key(entries, other) && other != key) by {
            if has_key(after, other) {
                let i = key_index(after, other);
                if i < gone {
                    assert(entries[i].0 == other);
                } else {
                    assert(entries[i + 1].0 == other);
                }
            }
            if has_key(entries, other) && other != key {
                let i = key_index(entries, other);
                if i < gone {
                    assert(after[i].0 == other);
                } else {
                    assert(after[i - 1].0 == other);
                }
            }
        }
    }
    assert forall|other: K|
        #![trigger lookup(after, other)]
        lookup(after, other) == if other == key {
            None
        } else {
            lookup(entries, other)
        } by {
        assert(has_key(after, other) == (has_key(entries, other) && other != key));
        if has_key(after, other) {
            let i = key_index(after, other);
            assert(after[i].0 == other);
            let j = key_index(entries, other);
            assert(entries[j].0 == other);
        }
    }
    assert forall|other: K| has_key(after, other) implies entry_map(after)[other] == entry_map(
        entries,
    ).remove(key)[other] by {
        assert(lookup(after, other) == lookup(entries, other));
    }
    assert forall|other: K|
        #![trigger has_key(after, other)]
        has_key(after, other) == (has_key(entries, other) && other != key) by {}
    assert(entry_map(after) =~= entry_map(entries).remove(key));
}

/// A map from `K` to `V`. Its view lists the entries, each value by its own view.
pub struct Table<K, V> {
    entries: Vec<(K, V)>,
}

impl<K, V: View> View for Table<K, V> {
    type V = Seq<(K, V::V)>;

    closed spec fn view(&self) -> Seq<(K, V::V)> {
        self.entries@.map_values(|entry: (K, V)| (entry.0, entry.1@))
    }
}

impl<K, V> Table<K, V> {
    #[verifier::type_invariant]
    spec fn distinct(self) -> bool {
        keys_distinct(self.entries@)
    }
}

impl<K, V> Table<K, V> {
    /// Whether the storage may be found to have room for so many entries. How much room there is
    /// depends on the allocator.
    pub closed spec fn has_room_for(self, capacity: usize) -> bool {
        call_ensures(storage_capacity::<(K, V)>, (&self.entries,), capacity)
    }

    /// Whether this table is another one whose storage was given back, but for room for so many
    /// entries.
    pub closed spec fn is_shrunk_from(self, before: Self, min_capacity: usize) -> bool {
        call_ensures(shrink_storage::<(K, V)>, (before.entries, min_capacity), self.entries)
    }
}

/// How much room an empty table keeps when it has too much.
pub open spec fn room_kept(len: nat, capacity: usize) -> Option<usize> {
    if len == 0 && capacity > 16 {
        Some(8)
    } else {
        None
    }
}

/// Whether a table is what another one becomes when it gives back storage that it has too much of;
/// a table that has not is left as it is.
pub open spec fn shrunk_if_sparse<K, V: View>(before: Table<K, V>, after: Table<K, V>) -> bool {
    exists|capacity: usize|
        {
            &&& #[trigger] before.has_room_for(capacity)
            &&& match room_kept(before@.len(), capacity) {
                Some(min_capacity) => after.is_shrunk_from(before, min_capacity),
                None => after == before,
            }
        }
}

/// Whether a table was looked at with just these entries, and gave back storage if it had too much
/// of it.
pub open spec fn storage_settled<K, V: View>(table: Table<K, V>) -> bool {
    exists|before: Table<K, V>|
        before@ == table@ && #[trigger] shrunk_if_sparse(before, table)
}

impl<K: TableKey, V: View> Table<K, V> {
    pub fn new() -> (table: Self)
        ensures
            table@ == Seq::<(K, V::V)>::empty(),
    {
        let table = Table { entries: Vec::new() };
        assert(table@ =~= Seq::<(K, V::V)>::empty());
        table
    }

    pub fn len(&self) -> (len: usize)
        ensures
            len == self@.len(),
            keys_distinct(self@),
    {
        proof {
            use_type_invariant(self);
        }
        self.entries.len()
    }

    /// The `index`-th entry.
    pub fn entry(&self, index: usize) -> (entry: (K, &V))
        requires
            index < self@.len(),
        ensures
            entry.0 == self@[index as int].0,
            entry.1@ == self@[index as int].1,
    {
        let pair = &self.entries[index];
        (pair.0, &pair.1)
    }

    fn find(&self, key: &K) -> (found: Option<usize>)
        ensures
            match found {
                Some(index) => {
                    &&& index < self@.len()
                    &&& self@[index as int].0 == *key
                    &&& has_key(self@, *key)
                    &&& key_index(self@, *key) == index
                },
                None => !has_key(self@, *key),
            },
    {
        proof {
            use_type_invariant(self);
        }
        let mut index: usize = 0;
        while index < self.entries.len()
            invariant
                self@.len() == self.entries@.len(),
                index <= self.entries@.len(),
                keys_distinct(self@),
                forall|i: int| 0 <= i < index ==> (#[trigger] self@[i]).0 != *key,
            decreases self.entries@.len() - index,
        {
            assert(self@[index as int].0 == self.entries@[index as int].0);
            if self.entries[index].0.same(key) {
                return Some(index);
            }
            index = index + 1;
        }
        None
    }

    pub fn get(&self, key: &K) -> (value: Option<&V>)
        ensures
            match value {
                Some(value) => lookup(self@, *key) == Some(value@),
                None => lookup(self@, *key) is None,
            },
    {
        match self.find(key) {
            Some(index) => Some(&self.entries[index].1),
            None => None,
        }
    }

    pub fn insert(&mut self, key: K, value: V)
        ensures
            final(self)@ == with_entry(old(self)@, key, value@),
    {
        let found = self.find(&key);
        let mut entries: Vec<(K, V)> = Vec::new();
        proof {
            use_type_invariant(&*self);
        }
        std::mem::swap(&mut entries, &mut self.entries);
        match found {
            Some(index) => {
                entries[index] = (key, value);
            },
            None => {
                assert(forall|i: int|
                    0 <= i < entries@.len() ==> (#[trigger] entries@[i]).0 == old(self)@[i].0);
                entries.push((key, value));
            },
        }
        self.entries = entries;
        assert(self@ =~= with_entry(old(self)@, key, value@));
    }

    pub fn remove(&mut self, key: &K) -> (value: Option<V>)
        ensures
            final(self)@ == without_key(old(self)@, *key),
            match value {
                Some(value) => lookup(old(self)@, *key) == Some(value@),
                None => lookup(old(self)@, *key) is None,
            },
    {
        match self.find(key) {
            Some(index) => {
                let mut entries: Vec<(K, V)> = Vec::new();
                proof {
                    use_type_invariant(&*self);
                }
                std::mem::swap(&mut entries, &mut self.entries);
                let entry = entries.remove(index);
                self.entries = entries;
                assert(self@ =~= without_key(old(self)@, *key));
                Some(entry.1)
            },
            None => None,
        }
    }

    /// Hands the entries over and leaves the table empty.
    pub fn take(&mut self) -> (taken: Self)
        ensures
            taken@ == old(self)@,
            final(self)@ == Seq::<(K, V::V)>::empty(),
    {
        let mut taken = Table::new();
        std::mem::swap(&mut taken, self);
        taken
    }

    pub fn clear(&mut self)
        ensures
            final(self)@ == Seq::<(K, V::V)>::empty(),
    {
        let mut entries: Vec<(K, V)> = Vec::new();
        std::mem::swap(&mut entries, &mut self.entries);
        entries.clear();
        self.entries = entries;
        assert(self@ =~= Seq::<(K, V::V)>::empty());
    }

    /// Gives back the storage of an empty table that has room for many entries.
    pub fn shrink_if_sparse(&mut self)
        ensures
            final(self)@ == old(self)@,
            shrunk_if_sparse(*old(self), *final(self)),
    {
        let mut entries: Vec<(K, V)> = Vec::new();
        proof {
            use_type_invariant(&*self);
        }
        std::mem::swap(&mut entries, &mut self.entries);
        let capacity = storage_capacity(&entries);
        assert(old(self).has_room_for(capacity));
        if entries.len() == 0 && capacity > 16 {
            entries = shrink_storage(entries, 8);
        }
        self.entries = entries;
        assert(self@ =~= old(self)@);
    }
}

/// `Vec::capacity`: how many items the vector can hold before it allocates again. It is at least
/// the number that the vector holds.
#[verifier::external_body]
fn storage_capacity<T>(items: &Vec<T>) -> (capacity: usize)
    ensures
        capacity >= items@.len(),
{
    items.capacity()
}

/// `Vec::shrink_to`: frees unused storage down to about `min_capacity` items; the items stay.
#[verifier::external_body]
fn shrink_storage<T>(items: Vec<T>, min_capacity: usize) -> (shrunk: Vec<T>)
    ensures
        shrunk@ == items@,
{
    let mut shrunk = items;
    shrunk.shrink_to(min_capacity);
    shrunk
}

/// Storage is given back down to room for eight entries, by a table that is empty and has room for
/// more than sixteen, and by no other.
pub proof fn law_who_gives_storage_back(len: nat, capacity: usize)
    ensures
        room_kept(len, capacity) == Some(8usize) <==> len == 0 && capacity > 16,
        room_kept(len, capacity) is None <==> len > 0 || capacity <= 16,
{
}

/// A table whose storage is settled was asked, with the entries that it has, how much room it has.
/// If it was empty with room for more than sixteen entries it was shrunk to room for eight, and else
/// left as it was.
pub proof fn law_settled_storage<K, V: View>(table: Table<K, V>)
    requires
        storage_settled(table),
    ensures
        exists|before: Table<K, V>, capacity: usize|
            {
                &&& #[trigger] before.has_room_for(capacity)
                &&& before@ == table@
                &&& table@.len() == 0 && capacity > 16 ==> table.is_shrunk_from(before, 8)
                &&& table@.len() > 0 || capacity <= 16 ==> table == before
            },
{
    let before = choose|before: Table<K, V>|
        before@ == table@ && #[trigger] shrunk_if_sparse(before, table);
    let capacity = choose|capacity: usize|
        {
            &&& #[trigger] before.has_room_for(capacity)
            &&& match room_kept(before@.len(), capacity) {
                Some(min_capacity) => table.is_shrunk_from(before, min_capacity),
                None => table == before,
            }
        };
    assert(before.has_room_for(capacity));
}

} // verus!
