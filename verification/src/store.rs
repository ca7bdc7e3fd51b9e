use vstd::prelude::*;

verus! {

/// One value of the closed set of types a list entry can be bound to.
/// Floating-point values are carried as IEEE 754 bit patterns; the store
/// never does arithmetic on them, so the patterns stay plain integers.
#[derive(Clone, Debug, PartialEq)]
pub enum ListItemData {
    Bool(bool),
    I32(i32),
    I64(i64),
    U32(u32),
    U64(u64),
    /// Bit pattern of a single-precision number.
    F32Bits(u32),
    /// Bit pattern of a double-precision number.
    F64Bits(u64),
    Text(String),
}

impl ListItemData {
    /// Typed access for boolean update logic; `None` on a type mismatch.
    pub fn as_bool(&self) -> (r: Option<bool>)
        ensures
            r matches Some(b) ==> *self == ListItemData::Bool(b),
            r is None ==> !(*self matches ListItemData::Bool(_)),
    {
        match self {
            ListItemData::Bool(b) => Some(*b),
            _ => None,
        }
    }

    pub fn as_i32(&self) -> (r: Option<i32>)
        ensures
            r matches Some(n) ==> *self == ListItemData::I32(n),
            r is None ==> !(*self matches ListItemData::I32(_)),
    {
        match self {
            ListItemData::I32(n) => Some(*n),
            _ => None,
        }
    }

    pub fn as_i64(&self) -> (r: Option<i64>)
        ensures
            r matches Some(n) ==> *self == ListItemData::I64(n),
            r is None ==> !(*self matches ListItemData::I64(_)),
    {
        match self {
            ListItemData::I64(n) => Some(*n),
            _ => None,
        }
    }

    pub fn as_u32(&self) -> (r: Option<u32>)
        ensures
            r matches Some(n) ==> *self == ListItemData::U32(n),
            r is None ==> !(*self matches ListItemData::U32(_)),
    {
        match self {
            ListItemData::U32(n) => Some(*n),
            _ => None,
        }
    }

    pub fn as_u64(&self) -> (r: Option<u64>)
        ensures
            r matches Some(n) ==> *self == ListItemData::U64(n),
            r is None ==> !(*self matches ListItemData::U64(_)),
    {
        match self {
            ListItemData::U64(n) => Some(*n),
            _ => None,
        }
    }

    /// The bit pattern of a stored single-precision value.
    pub fn as_f32_bits(&self) -> (r: Option<u32>)
        ensures
            r matches Some(n) ==> *self == ListItemData::F32Bits(n),
            r is None ==> !(*self matches ListItemData::F32Bits(_)),
    {
        match self {
            ListItemData::F32Bits(n) => Some(*n),
            _ => None,
        }
    }

    /// The bit pattern of a stored double-precision value.
    pub fn as_f64_bits(&self) -> (r: Option<u64>)
        ensures
            r matches Some(n) ==> *self == ListItemData::F64Bits(n),
            r is None ==> !(*self matches ListItemData::F64Bits(_)),
    {
        match self {
            ListItemData::F64Bits(n) => Some(*n),
            _ => None,
        }
    }

    pub fn as_text(&self) -> (r: Option<&String>)
        ensures
            r matches Some(s) ==> *self == ListItemData::Text(*s),
            r is None ==> !(*self matches ListItemData::Text(_)),
    {
        match self {
            ListItemData::Text(s) => Some(s),
            _ => None,
        }
    }
}

/// Failures of the store and of the handles that point into it.
#[derive(Clone, Copy, Debug, PartialEq, Eq, Structural)]
pub enum StoreError {
    /// A load or replace named a key that the store does not hold.
    KeyNotFound,
}

struct StoreEntry {
    key: String,
    value: ListItemData,
}

/// Owns every bound value, keyed by string. Keys are unique; an entry is
/// created by `insert` and overwritten in place by `replace`, never
/// silently invented by a read.
pub struct ValueStore {
    entries: Vec<StoreEntry>,
}

/// A non-owning reference to a store entry, identified by key. Handles
/// are cheap and shareable; many handles may name the same key.
#[derive(Clone, Debug)]
pub struct Value {
    pub key: String,
}

impl ValueStore {
    /// The abstract contents: a map from key to stored value.
    pub closed spec fn view(&self) -> Map<Seq<char>, ListItemData> {
        Map::new(
            |k: Seq<char>| exists|i: int| 0 <= i < self.entries@.len() && self.entries@[i].key@ == k,
            |k: Seq<char>|
                self.entries@[choose|i: int|
                    0 <= i < self.entries@.len() && self.entries@[i].key@ == k].value,
        )
    }

    /// Keys are unique: no two entries share one.
    pub closed spec fn wf(&self) -> bool {
        forall|i: int, j: int|
            0 <= i < self.entries@.len() && 0 <= j < self.entries@.len() && i != j
                ==> self.entries@[i].key@ != self.entries@[j].key@
    }

    pub fn new() -> (s: Self)
        ensures
            s.wf(),
            s@ == Map::<Seq<char>, ListItemData>::empty(),
    {
        let s = ValueStore { entries: Vec::new() };
        proof {
            assert(s@ =~= Map::<Seq<char>, ListItemData>::empty());
        }
        s
    }

    /// Index of the entry holding `key`, if any.
    fn find(&self, key: &str) -> (r: Option<usize>)
        requires
            self.wf(),
        ensures
            r matches Some(i) ==> i < self.entries@.len() && self.entries@[i as int].key@ == key@,
            r is None ==> !self@.contains_key(key@),
            r matches Some(i) ==> self@.contains_key(key@) && self@[key@]
                == self.entries@[i as int].value,
    {
        let key_owned = key.to_owned();
        let n = self.entries.len();
        for i in 0..n
            invariant
                n == self.entries@.len(),
                key_owned@ == key@,
                forall|j: int| 0 <= j < i ==> self.entries@[j].key@ != key@,
                self.wf(),
        {
            if self.entries[i].key == key_owned {
                proof {
                    let w = choose|w: int|
                        0 <= w < self.entries@.len() && self.entries@[w].key@ == key@;
                    assert(w == i);
                }
                return Some(i);
            }
        }
        proof {
            assert(!self@.dom().contains(key@));
        }
        None
    }

    /// The entry at a valid index is what the map view returns for its key.
    proof fn lemma_entry_view(&self, i: int)
        requires
            self.wf(),
            0 <= i < self.entries@.len(),
        ensures
            self@.contains_key(self.entries@[i].key@),
            self@[self.entries@[i].key@] == self.entries@[i].value,
    {
        let k = self.entries@[i].key@;
        assert(0 <= i < self.entries@.len() && self.entries@[i].key@ == k);
        let w = choose|w: int| 0 <= w < self.entries@.len() && self.entries@[w].key@ == k;
        assert(w == i);
    }

    /// A handle for `key`. The handle does not check that the key is
    /// present; resolving it later does.
    pub fn get(&self, key: &str) -> (h: Value)
        ensures
            h.key@ == key@,
    {
        Value { key: key.to_owned() }
    }

    /// Stores `v` under `key`, overwriting any prior value there, and
    /// hands back a handle to the entry.
    pub fn insert(&mut self, key: &str, v: ListItemData) -> (h: Value)
        requires
            old(self).wf(),
        ensures
            final(self).wf(),
            final(self)@ == old(self)@.insert(key@, v),
            h.key@ == key@,
    {
        Value::new(key, v, self)
    }
}

impl Value {
    /// Stores `v` under `key` in `store`, overwriting any prior value
    /// there, and returns a handle to the entry.
    pub fn new(key: &str, v: ListItemData, store: &mut ValueStore) -> (h: Value)
        requires
            old(store).wf(),
        ensures
            final(store).wf(),
            final(store)@ == old(store)@.insert(key@, v),
            h.key@ == key@,
    {
        let found = store.find(key);
        match found {
            Some(i) => {
                let entry = StoreEntry { key: key.to_owned(), value: v };
                store.entries[i] = entry;
                proof {
                    let oe = old(store).entries@;
                    let ne = store.entries@;
                    assert(forall|m: int|
                        0 <= m < ne.len() ==> #[trigger] ne[m].key@ == oe[m].key@);
                    assert(store.wf());
                    assert forall|k: Seq<char>| true implies {
                        (#[trigger] store@.contains_key(k) <==> old(store)@.insert(
                            key@,
                            v,
                        ).contains_key(k)) && (store@.contains_key(k) ==> store@[k] == old(
                            store,
                        )@.insert(key@, v)[k])
                    } by {
                        if k == key@ {
                            store.lemma_entry_view(i as int);
                        } else {
                            if old(store)@.contains_key(k) {
                                let w = choose|w: int|
                                    0 <= w < oe.len() && oe[w].key@ == k;
                                assert(ne[w].key@ == k);
                                old(store).lemma_entry_view(w);
                                store.lemma_entry_view(w);
                            } else {
                                if store@.contains_key(k) {
                                    let w = choose|w: int|
                                        0 <= w < ne.len() && ne[w].key@ == k;
                                    assert(oe[w].key@ == k);
                                }
                            }
                        }
                    }
                    assert(store@ =~= old(store)@.insert(key@, v));
                }
            },
            None => {
                let entry = StoreEntry { key: key.to_owned(), value: v };
                store.entries.push(entry);
                proof {
                    let oe = old(store).entries@;
                    let ne = store.entries@;
                    let n = oe.len() as int;
                    assert(forall|m: int| 0 <= m < n ==> #[trigger] ne[m] == oe[m]);
                    assert(ne[n].key@ == key@);
                    assert forall|j: int| 0 <= j < n implies #[trigger] oe[j].key@ != key@ by {
                        if oe[j].key@ == key@ {
                            old(store).lemma_entry_view(j);
                        }
                    }
                    assert(store.wf());
                    assert forall|k: Seq<char>| true implies {
                        (#[trigger] store@.contains_key(k) <==> old(store)@.insert(
                            key@,
                            v,
                        ).contains_key(k)) && (store@.contains_key(k) ==> store@[k] == old(
                            store,
                        )@.insert(key@, v)[k])
                    } by {
                        if k == key@ {
                            store.lemma_entry_view(n);
                        } else {
                            if old(store)@.contains_key(k) {
                                let w = choose|w: int|
                                    0 <= w < oe.len() && oe[w].key@ == k;
                                assert(ne[w].key@ == k);
                                old(store).lemma_entry_view(w);
                                store.lemma_entry_view(w);
                            } else {
                                if store@.contains_key(k) {
                                    let w = choose|w: int|
                                        0 <= w < ne.len() && ne[w].key@ == k;
                                    assert(w != n);
                                    assert(oe[w].key@ == k);
                                }
                            }
                        }
                    }
                    assert(store@ =~= old(store)@.insert(key@, v));
                }
            },
        }
        Value { key: key.to_owned() }
    }

    /// The current value at this handle's key; `KeyNotFound` when the
    /// store does not hold the key.
    pub fn load<'a>(&self, store: &'a ValueStore) -> (r: Result<&'a ListItemData, StoreError>)
        requires
            store.wf(),
        ensures
            match r {
                Ok(v) => store@.contains_key(self.key@) && *v == store@[self.key@],
                Err(e) => !store@.contains_key(self.key@) && e == StoreError::KeyNotFound,
            },
    {
        match store.find(self.key.as_str()) {
            Some(i) => Ok(&store.entries[i].value),
            None => Err(StoreError::KeyNotFound),
        }
    }

    /// Swaps the value stored at this handle's key for `v`. The key is
    /// preserved and no other entry changes; a key the store does not
    /// hold is an error, never a silent insert.
    pub fn replace(&self, v: ListItemData, store: &mut ValueStore) -> (r: Result<(), StoreError>)
        requires
            old(store).wf(),
        ensures
            final(store).wf(),
            match r {
                Ok(()) => old(store)@.contains_key(self.key@) && final(store)@ == old(
                    store,
                )@.insert(self.key@, v),
                Err(e) => !old(store)@.contains_key(self.key@) && e == StoreError::KeyNotFound
                    && final(store)@ == old(store)@,
            },
    {
        match store.find(self.key.as_str()) {
            Some(_) => {
                let _ = Value::new(self.key.as_str(), v, store);
                Ok(())
            },
            None => Err(StoreError::KeyNotFound),
        }
    }
}

/// Replacing the value at a key and then loading that key yields exactly
/// the value that was stored, for every supported value type: the store
/// behaves as a map under `insert`.
pub proof fn lemma_replace_then_load(
    m: Map<Seq<char>, ListItemData>,
    key: Seq<char>,
    v: ListItemData,
)
    ensures
        m.insert(key, v).contains_key(key),
        m.insert(key, v)[key] == v,
        forall|k: Seq<char>| k != key ==> (m.insert(key, v).contains_key(k) <==> m.contains_key(k)),
        forall|k: Seq<char>|
            k != key && m.contains_key(k) ==> m.insert(key, v)[k] == #[trigger] m[k],
{
}

} // verus!
