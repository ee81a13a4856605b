//! A small cache whose entries expire after a fixed time to live.
//!
//! Time is a reading of a clock that does not run backwards, in
//! milliseconds; the caller passes it in.

use vstd::prelude::*;
use crate::nodes::{distinct, find_id, id_views};

verus! {

/// A cached value and the clock reading at which it was stored.
#[derive(Debug)]
pub struct CacheEntry<T> {
    pub data: T,
    pub timestamp: u64,
}

/// Values by their keys, each kept until its time to live has passed.
pub struct Cache<T> {
    /// The keys, each once.
    pub keys: Vec<String>,
    /// The entry of each key, in the order of `keys`.
    pub entries: Vec<CacheEntry<T>>,
    /// Milliseconds for which an entry is served.
    pub ttl: u64,
}

/// Less than `ttl` milliseconds have passed at `now` since the entry was
/// stored.
pub open spec fn is_fresh<T>(entry: CacheEntry<T>, now: u64, ttl: u64) -> bool {
    elapsed_since(entry.timestamp, now) < ttl
}

/// Milliseconds from the reading `then` to the reading `now`; none if `now`
/// is the earlier one.
pub open spec fn elapsed_since(then: u64, now: u64) -> int {
    if now >= then {
        now - then
    } else {
        0
    }
}

/// Milliseconds from the reading `then` to the reading `now`; none if `now`
/// is the earlier one.
pub fn elapsed(then: u64, now: u64) -> (e: u64)
    ensures
        e == elapsed_since(then, now),
{
    if now >= then {
        now - then
    } else {
        0
    }
}

impl<T: Copy> Cache<T> {
    pub open spec fn wf(&self) -> bool {
        self.keys@.len() == self.entries@.len() && distinct(id_views(self.keys@))
    }

    /// What the cache holds: the entry of each key.
    pub open spec fn view(&self) -> Map<Seq<char>, CacheEntry<T>> {
        Map::new(
            |k: Seq<char>| id_views(self.keys@).contains(k),
            |k: Seq<char>| self.entries@[id_views(self.keys@).index_of(k)],
        )
    }

    /// What is left of `held` at `now`: the entries that are still fresh.
    pub open spec fn unexpired(
        held: Map<Seq<char>, CacheEntry<T>>,
        now: u64,
        ttl: u64,
    ) -> Map<Seq<char>, CacheEntry<T>> {
        Map::new(
            |k: Seq<char>| held.dom().contains(k) && is_fresh(held[k], now, ttl),
            |k: Seq<char>| held[k],
        )
    }

    /// The key at position `i` leads to the entry at position `i`.
    pub proof fn lemma_entry_at(&self, i: int)
        requires
            self.wf(),
            0 <= i < self.keys@.len(),
        ensures
            self@.dom().contains(self.keys@[i]@),
            self@[self.keys@[i]@] == self.entries@[i],
    {
        let ids = id_views(self.keys@);
        assert(ids[i] == self.keys@[i]@);
        assert(ids.contains(ids[i]));
        let j = ids.index_of(ids[i]);
        assert(0 <= j < ids.len() && ids[j] == ids[i]);
        assert(j == i);
    }

    /// An empty cache whose entries live for `ttl` milliseconds.
    pub fn new(ttl: u64) -> (c: Self)
        ensures
            c.wf(),
            c@ == Map::<Seq<char>, CacheEntry<T>>::empty(),
            c.ttl == ttl,
    {
        let c = Cache { keys: Vec::new(), entries: Vec::new(), ttl };
        assert(c@ =~= Map::<Seq<char>, CacheEntry<T>>::empty());
        c
    }

    /// The value stored under `key`, if there is one and it is still fresh
    /// at `now`.
    pub fn get(&self, key: &str, now: u64) -> (r: Option<T>)
        requires
            self.wf(),
        ensures
            r == if self@.dom().contains(key@) && is_fresh(self@[key@], now, self.ttl) {
                Some(self@[key@].data)
            } else {
                None
            },
    {
        match find_id(&self.keys, key) {
            Some(i) => {
                proof {
                    self.lemma_entry_at(i as int);
                }
                let entry = &self.entries[i];
                if elapsed(entry.timestamp, now) < self.ttl {
                    Some(entry.data)
                } else {
                    None
                }
            },
            None => None,
        }
    }

    /// Stores `value` under `key` with the clock reading `now`, in place of
    /// what was stored under that key before.
    pub fn set(&mut self, key: String, value: T, now: u64)
        requires
            old(self).wf(),
        ensures
            final(self).wf(),
            final(self).ttl == old(self).ttl,
            final(self)@ == old(self)@.insert(key@, CacheEntry { data: value, timestamp: now }),
    {
        let entry = CacheEntry { data: value, timestamp: now };
        match find_id(&self.keys, key.as_str()) {
            Some(i) => {
                self.entries[i] = entry;
                proof {
                    let ids = id_views(self.keys@);
                    assert(self.keys@ == old(self).keys@);
                    assert(ids[i as int] == key@);
                    old(self).lemma_entry_at(i as int);
                    assert forall|k: Seq<char>| #[trigger] self@.dom().contains(k) implies self@[k]
                        == old(self)@.insert(key@, entry)[k] by {
                        let j = ids.index_of(k);
                        assert(ids.contains(k));
                        assert(0 <= j < ids.len() && ids[j] == k);
                        self.lemma_entry_at(j);
                        old(self).lemma_entry_at(j);
                        if j == i {
                            assert(self.entries@[j] == entry);
                        } else {
                            assert(self.entries@[j] == old(self).entries@[j]);
                            assert(ids[j] != ids[i as int]);
                        }
                    }
                    assert(self@.dom() =~= old(self)@.insert(key@, entry).dom());
                    assert(self@ =~= old(self)@.insert(key@, entry));
                }
            },
            None => {
                let ghost before = id_views(self.keys@);
                self.keys.push(key);
                self.entries.push(entry);
                proof {
                    let ids = id_views(self.keys@);
                    assert(ids =~= before.push(key@));
                    assert forall|i: int, j: int| 0 <= i < j < ids.len() implies ids[i]
                        != ids[j] by {
                        if j == before.len() {
                            assert(before.contains(before[i]));
                        }
                    }
                    assert forall|k: Seq<char>| #[trigger] self@.dom().contains(k)
                        <==> old(self)@.insert(key@, entry).dom().contains(k) by {
                        if ids.contains(k) {
                            let j = ids.index_of(k);
                            assert(0 <= j < ids.len() && ids[j] == k);
                            if j < before.len() {
                                assert(before[j] == k);
                            }
                        }
                        if before.contains(k) {
                            let j = before.index_of(k);
                            assert(0 <= j < before.len() && before[j] == k);
                            assert(ids[j] == k);
                        }
                        if k == key@ {
                            assert(ids[before.len() as int] == k);
                        }
                    }
                    assert forall|k: Seq<char>| #[trigger] self@.dom().contains(k) implies self@[k]
                        == old(self)@.insert(key@, entry)[k] by {
                        let j = ids.index_of(k);
                        assert(0 <= j < ids.len() && ids[j] == k);
                        self.lemma_entry_at(j);
                        if j < before.len() {
                            old(self).lemma_entry_at(j);
                            assert(before.contains(before[j]));
                        }
                    }
                    assert(self@ =~= old(self)@.insert(key@, entry));
                }
            },
        }
    }

    /// Drops every entry that is no longer fresh at `now`.
    pub fn clear_expired(&mut self, now: u64)
        requires
            old(self).wf(),
        ensures
            final(self).wf(),
            final(self).ttl == old(self).ttl,
            final(self)@ == Self::unexpired(old(self)@, now, old(self).ttl),
    {
        let mut keys: Vec<String> = Vec::new();
        let mut entries: Vec<CacheEntry<T>> = Vec::new();
        let mut i: usize = 0;
        let ghost mut origin: Seq<int> = Seq::empty();
        while i < self.keys.len()
            invariant
                i <= self.keys@.len(),
                self.wf(),
                *self == *old(self),
                keys@.len() == entries@.len() == origin.len(),
                forall|k: int| 0 <= k < origin.len() ==> 0 <= #[trigger] origin[k] < i,
                forall|k: int, l: int| 0 <= k < l < origin.len() ==> origin[k] < origin[l],
                forall|k: int|
                    0 <= k < origin.len() ==> (#[trigger] keys@[k])@ == self.keys@[origin[k]]@
                        && entries@[k] == self.entries@[origin[k]] && is_fresh(
                        entries@[k],
                        now,
                        self.ttl,
                    ),
                forall|j: int|
                    0 <= j < i && is_fresh(#[trigger] self.entries@[j], now, self.ttl)
                        ==> origin.contains(j),
            decreases self.keys@.len() - i,
        {
            let entry = CacheEntry {
                data: self.entries[i].data,
                timestamp: self.entries[i].timestamp,
            };
            if elapsed(entry.timestamp, now) < self.ttl {
                keys.push(self.keys[i].clone());
                entries.push(entry);
                proof {
                    let grown = origin.push(i as int);
                    assert forall|j: int|
                        0 <= j < i + 1 && is_fresh(
                            #[trigger] self.entries@[j],
                            now,
                            self.ttl,
                        ) implies grown.contains(j) by {
                        if j < i {
                            let at = origin.index_of(j);
                            assert(origin.contains(j));
                            assert(0 <= at < origin.len() && origin[at] == j);
                            assert(grown[at] == j);
                        } else {
                            assert(grown[origin.len() as int] == j);
                        }
                    }
                    origin = grown;
                }
            }
            i += 1;
        }
        let ghost held = self@;
        let ghost ttl = self.ttl;
        self.keys = keys;
        self.entries = entries;
        proof {
            let ids = id_views(self.keys@);
            let old_ids = id_views(old(self).keys@);
            assert forall|k: int, l: int| 0 <= k < l < ids.len() implies ids[k] != ids[l] by {
                assert(old_ids[origin[k]] == ids[k]);
                assert(old_ids[origin[l]] == ids[l]);
            }
            assert forall|key: Seq<char>| #[trigger] self@.dom().contains(key)
                <==> Self::unexpired(held, now, ttl).dom().contains(key) by {
                if ids.contains(key) {
                    let k = ids.index_of(key);
                    assert(0 <= k < ids.len() && ids[k] == key);
                    old(self).lemma_entry_at(origin[k]);
                }
                if held.dom().contains(key) && is_fresh(held[key], now, ttl) {
                    let j = old_ids.index_of(key);
                    assert(0 <= j < old_ids.len() && old_ids[j] == key);
                    old(self).lemma_entry_at(j);
                    assert(origin.contains(j));
                    let k = origin.index_of(j);
                    assert(0 <= k < origin.len() && origin[k] == j);
                    assert(ids[k] == key);
                }
            }
            assert forall|key: Seq<char>| #[trigger] self@.dom().contains(key) implies self@[key]
                == Self::unexpired(held, now, ttl)[key] by {
                let k = ids.index_of(key);
                assert(0 <= k < ids.len() && ids[k] == key);
                self.lemma_entry_at(k);
                old(self).lemma_entry_at(origin[k]);
            }
            assert(self@ =~= Self::unexpired(held, now, ttl));
        }
    }
}

} // verus!
