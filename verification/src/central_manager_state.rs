//! Caches of the central (client) mode: the peripherals already looked up,
//! the service UUIDs that peripherals advertised, and a short history of
//! signal strength readings per peripheral.

use vstd::prelude::*;
use vstd::string::*;

verus! {

/// A map from text keys to values, kept as a list of entries whose keys are
/// pairwise different.
pub struct KeyedStore<V> {
    entries: Vec<(String, V)>,
}

/// Whether `k` is the key of some entry.
pub open spec fn has_key<V>(entries: Seq<(String, V)>, k: Seq<char>) -> bool {
    exists|i: int| 0 <= i < entries.len() && #[trigger] entries[i].0@ == k
}

/// The position of the entry with key `k` (meaningful when there is one).
pub open spec fn key_index<V>(entries: Seq<(String, V)>, k: Seq<char>) -> int {
    choose|i: int| 0 <= i < entries.len() && #[trigger] entries[i].0@ == k
}

/// No two entries have the same key.
pub open spec fn unique_keys<V>(entries: Seq<(String, V)>) -> bool {
    forall|i: int, j: int| 0 <= i < entries.len() && 0 <= j < entries.len() && i != j
        ==> #[trigger] entries[i].0@ != #[trigger] entries[j].0@
}

impl<V> KeyedStore<V> {
    #[verifier::type_invariant]
    spec fn keys_unique(self) -> bool {
        unique_keys(self.entries@)
    }

    /// The stored map.
    pub closed spec fn map(self) -> Map<Seq<char>, V> {
        Map::new(
            |k: Seq<char>| has_key(self.entries@, k),
            |k: Seq<char>| self.entries@[key_index(self.entries@, k)].1,
        )
    }

    /// An empty store.
    pub fn new() -> (r: Self)
        ensures
            r.map() == Map::<Seq<char>, V>::empty(),
    {
        let r = KeyedStore { entries: Vec::new() };
        assert(r.map() =~= Map::<Seq<char>, V>::empty());
        r
    }

    fn find(&self, key: &str) -> (r: Option<usize>)
        ensures
            r.is_none() ==> !has_key(self.entries@, key@),
            r matches Some(i) ==> i < self.entries@.len() && self.entries@[i as int].0@ == key@,
    {
        let mut i: usize = 0;
        while i < self.entries.len()
            invariant
                i <= self.entries@.len(),
                forall|j: int| 0 <= j < i ==> #[trigger] self.entries@[j].0@ != key@,
            decreases self.entries.len() - i,
        {
            if crate::text::str_eq(self.entries[i].0.as_str(), key) {
                return Some(i);
            }
            i = i + 1;
        }
        None
    }

    /// The value stored under `key`.
    pub fn get(&self, key: &str) -> (r: Option<&V>)
        ensures
            match r {
                Some(v) => self.map().contains_key(key@) && self.map()[key@] == *v,
                None => !self.map().contains_key(key@),
            },
    {
        proof { use_type_invariant(self); }
        match self.find(key) {
            Some(i) => {
                proof {
                    let k = key_index(self.entries@, key@);
                    assert(self.entries@[k].0@ == key@);
                }
                Some(&self.entries[i].1)
            },
            None => None,
        }
    }

    /// Whether a value is stored under `key`.
    pub fn contains_key(&self, key: &str) -> (r: bool)
        ensures
            r == self.map().contains_key(key@),
    {
        self.find(key).is_some()
    }

    /// Stores `value` under `key`, replacing what was stored there.
    pub fn insert(&mut self, key: String, value: V)
        ensures
            final(self).map() == old(self).map().insert(key@, value),
    {
        proof { use_type_invariant(&*self); }
        let ghost old_entries = self.entries@;
        match self.find(key.as_str()) {
            Some(i) => {
                let ghost k = key@;
                let mut entries: Vec<(String, V)> = Vec::new();
                std::mem::swap(&mut entries, &mut self.entries);
                entries.set(i, (key, value));
                proof {
                    assert(entries@ == old_entries.update(i as int, (entries@[i as int].0, value)));
                    assert forall|a: int, b: int| 0 <= a < entries@.len() && 0 <= b < entries@.len() && a != b
                        implies #[trigger] entries@[a].0@ != #[trigger] entries@[b].0@ by {
                        if a != i && b != i {
                            assert(old_entries[a].0@ != old_entries[b].0@);
                        } else if a == i {
                            assert(old_entries[b].0@ != old_entries[i as int].0@);
                        } else {
                            assert(old_entries[a].0@ != old_entries[i as int].0@);
                        }
                    }
                }
                self.entries = entries;
                proof {
                    let m = self.map();
                    let target = old(self).map().insert(k, value);
                    assert forall|x: Seq<char>| m.contains_key(x) <==> target.contains_key(x) by {
                        if has_key(old_entries, x) {
                            let j = key_index(old_entries, x);
                            assert(self.entries@[j].0@ == x || j == i);
                        }
                        if has_key(self.entries@, x) {
                            let j = key_index(self.entries@, x);
                            assert(old_entries[j].0@ == x || j == i);
                        }
                    }
                    assert forall|x: Seq<char>| m.contains_key(x) implies m[x] == target[x] by {
                        let j = key_index(self.entries@, x);
                        if x == k {
                            assert(j == i);
                        } else {
                            let j0 = key_index(old_entries, x);
                            assert(old_entries[j].0@ == x);
                            assert(j0 == j);
                        }
                    }
                    assert(m =~= target);
                }
            },
            None => {
                let ghost k = key@;
                let mut entries: Vec<(String, V)> = Vec::new();
                std::mem::swap(&mut entries, &mut self.entries);
                entries.push((key, value));
                proof {
                    assert forall|a: int, b: int| 0 <= a < entries@.len() && 0 <= b < entries@.len() && a != b
                        implies #[trigger] entries@[a].0@ != #[trigger] entries@[b].0@ by {
                        if a < old_entries.len() && b < old_entries.len() {
                            assert(old_entries[a].0@ != old_entries[b].0@);
                        } else if a == old_entries.len() {
                            assert(old_entries[b] == entries@[b]);
                        } else {
                            assert(old_entries[a] == entries@[a]);
                        }
                    }
                }
                self.entries = entries;
                proof {
                    let m = self.map();
                    let target = old(self).map().insert(k, value);
                    let n = old_entries.len() as int;
                    assert(self.entries@[n].0@ == k);
                    assert forall|x: Seq<char>| m.contains_key(x) <==> target.contains_key(x) by {
                        if has_key(old_entries, x) {
                            let j = key_index(old_entries, x);
                            assert(self.entries@[j] == old_entries[j]);
                        }
                        if has_key(self.entries@, x) {
                            let j = key_index(self.entries@, x);
                            if j < n {
                                assert(old_entries[j] == self.entries@[j]);
                            }
                        }
                    }
                    assert forall|x: Seq<char>| m.contains_key(x) implies m[x] == target[x] by {
                        let j = key_index(self.entries@, x);
                        if x == k {
                            assert(j == n);
                        } else {
                            let j0 = key_index(old_entries, x);
                            assert(self.entries@[j0] == old_entries[j0]);
                            assert(j0 == j);
                        }
                    }
                    assert(m =~= target);
                }
            },
        }
    }
}


/// How many signal strength readings are kept per peripheral.
pub const RSSI_HISTORY_LIMIT: usize = 10;

/// A signal strength reading: seconds since the Unix epoch and dBm.
pub type RssiReading = (i64, i16);

/// The history after recording `reading`: the reading is appended and only
/// the last [`RSSI_HISTORY_LIMIT`] readings are kept.
pub open spec fn recorded(history: Seq<RssiReading>, reading: RssiReading) -> Seq<RssiReading> {
    let h = history.push(reading);
    if h.len() > RSSI_HISTORY_LIMIT {
        h.skip(h.len() - RSSI_HISTORY_LIMIT)
    } else {
        h
    }
}

/// Recent signal strength readings, per peripheral id.
pub struct RssiCache {
    store: KeyedStore<Vec<RssiReading>>,
}

impl RssiCache {
    /// The readings kept for each peripheral, oldest first.
    pub closed spec fn histories(self) -> Map<Seq<char>, Seq<RssiReading>> {
        self.store.map().map_values(|v: Vec<RssiReading>| v@)
    }

    /// A cache without readings.
    pub fn new() -> (r: Self)
        ensures
            r.histories() == Map::<Seq<char>, Seq<RssiReading>>::empty(),
    {
        let r = RssiCache { store: KeyedStore::new() };
        assert(r.histories() =~= Map::<Seq<char>, Seq<RssiReading>>::empty());
        r
    }
}

fn copy_readings(v: &Vec<RssiReading>) -> (r: Vec<RssiReading>)
    ensures
        r@ == v@,
{
    let mut r: Vec<RssiReading> = Vec::new();
    let mut i: usize = 0;
    while i < v.len()
        invariant
            i <= v@.len(),
            r@ == v@.subrange(0, i as int),
        decreases v.len() - i,
    {
        r.push(v[i]);
        i = i + 1;
        assert(r@ =~= v@.subrange(0, i as int));
    }
    assert(v@.subrange(0, v@.len() as int) =~= v@);
    r
}

/// Records a signal strength reading of `peripheral_id` taken at `timestamp`.
pub fn cache_rssi(cache: &mut RssiCache, peripheral_id: &str, timestamp: i64, rssi: i16)
    ensures
        final(cache).histories() == old(cache).histories().insert(
            peripheral_id@,
            recorded(
                if old(cache).histories().contains_key(peripheral_id@) {
                    old(cache).histories()[peripheral_id@]
                } else {
                    Seq::<RssiReading>::empty()
                },
                (timestamp, rssi),
            ),
        ),
{
    let mut entry: Vec<RssiReading> = match cache.store.get(peripheral_id) {
        Some(v) => copy_readings(v),
        None => Vec::new(),
    };
    let ghost before = entry@;
    entry.push((timestamp, rssi));
    if entry.len() > RSSI_HISTORY_LIMIT {
        let cut = entry.len() - RSSI_HISTORY_LIMIT;
        let tail = entry.split_off(cut);
        entry = tail;
    }
    assert(entry@ =~= recorded(before, (timestamp, rssi)));
    cache.store.insert(crate::text::owned(peripheral_id), entry);
    proof {
        assert(final(cache).histories() =~= old(cache).histories().insert(
            peripheral_id@,
            recorded(before, (timestamp, rssi)),
        ));
    }
}

/// The readings kept for `peripheral_id`, oldest first.
pub fn get_peripheral_rssi_cache(cache: &RssiCache, peripheral_id: &str) -> (r: Option<Vec<RssiReading>>)
    ensures
        match r {
            Some(v) => cache.histories().contains_key(peripheral_id@) && v@ == cache.histories()[peripheral_id@],
            None => !cache.histories().contains_key(peripheral_id@),
        },
{
    match cache.store.get(peripheral_id) {
        Some(v) => Some(copy_readings(v)),
        None => None,
    }
}

/// At most [`RSSI_HISTORY_LIMIT`] readings are kept for a peripheral, and
/// the newest reading is the last one kept.
pub proof fn lemma_recorded_keeps_latest_within_limit(history: Seq<RssiReading>, reading: RssiReading)
    ensures
        recorded(history, reading).len() <= RSSI_HISTORY_LIMIT,
        recorded(history, reading).last() == reading,
        history.len() < RSSI_HISTORY_LIMIT ==> recorded(history, reading) == history.push(reading),
{
}

/// The service UUIDs that each peripheral advertised last.
pub type ServiceCache = KeyedStore<Vec<String>>;


/// What is stored under a key is what a later lookup of that key gives;
/// storing under one key leaves every other key of the store as it was.
/// (`after` is `before` once [`KeyedStore::insert`] stored `v` under `k`.)
pub proof fn lemma_store_read_after_write<V>(before: KeyedStore<V>, after: KeyedStore<V>, k: Seq<char>, v: V, other: Seq<char>)
    requires
        after.map() == before.map().insert(k, v),
    ensures
        after.map().contains_key(k),
        after.map()[k] == v,
        other != k ==> (after.map().contains_key(other) == before.map().contains_key(other)),
        other != k && before.map().contains_key(other) ==> after.map()[other] == before.map()[other],
{
}

} // verus!
