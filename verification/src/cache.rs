//! The keyed time-to-live store.
//!
//! A `Cache` maps string keys to entries, each entry a value paired with the
//! instant at which it stops being served. Instants are `u64` readings of a
//! monotonic clock (the caller picks the unit and supplies `now`); an entry
//! written at `now` with time-to-live `ttl` expires at `now + ttl` and is
//! served exactly while `now < expires_at`. A stale entry is treated as
//! absent on lookup but stays in the store until a later successful
//! computation for the same key overwrites it.

use vstd::prelude::*;

verus! {

/// One stored entry: the cached value and the instant from which it no
/// longer counts as fresh.
pub struct Entry<V> {
    pub value: V,
    pub expires_at: u64,
}

/// Whether the store `m` holds a fresh entry for `k` at instant `now`:
/// the key is present and its expiry lies strictly in the future.
pub open spec fn fresh_at<V>(m: Map<Seq<char>, Entry<V>>, k: Seq<char>, now: u64) -> bool {
    m.contains_key(k) && now < m[k].expires_at
}

/// What a lookup observed: a fresh entry, with its value and the time still
/// left before expiry, or nothing servable. Callers that log treat these as
/// the "cache hit" / "cache miss" events; the outcome never changes what the
/// store holds.
#[derive(Debug, PartialEq, Eq)]
pub enum Lookup<V> {
    Hit { value: V, remaining: u64 },
    Miss,
}

/// The cache: a mapping from string keys to entries, at most one entry per
/// key. Its view is the mathematical map from key characters to entries.
#[verifier::reject_recursive_types(V)]
pub struct Cache<V> {
    data: vstd::hash_map::StringHashMap<Entry<V>>,
}

impl<V> View for Cache<V> {
    type V = Map<Seq<char>, Entry<V>>;

    closed spec fn view(&self) -> Map<Seq<char>, Entry<V>> {
        self.data@
    }
}

impl<V: Copy> Cache<V> {
    /// Creates an empty cache: no key has an entry.
    pub fn new() -> (c: Self)
        ensures
            c@ == Map::<Seq<char>, Entry<V>>::empty(),
    {
        Cache { data: vstd::hash_map::StringHashMap::new() }
    }

    /// Reads the store for `key` at instant `now`. Returns the stored value
    /// and the time left before expiry when the entry is fresh, and `Miss`
    /// when the key is absent or its entry has expired. Never changes the
    /// store.
    pub fn lookup(&self, key: &str, now: u64) -> (r: Lookup<V>)
        ensures
            fresh_at(self@, key@, now) ==> r == (Lookup::Hit {
                value: self@[key@].value,
                remaining: (self@[key@].expires_at - now) as u64,
            }),
            !fresh_at(self@, key@, now) ==> r == Lookup::<V>::Miss,
    {
        match self.data.get(key) {
            Some(entry) => {
                if now < entry.expires_at {
                    Lookup::Hit { value: entry.value, remaining: entry.expires_at - now }
                } else {
                    Lookup::Miss
                }
            },
            None => Lookup::Miss,
        }
    }

    /// Stores `value` for `key` with expiry `now + ttl`, superseding any
    /// prior entry for that key unconditionally.
    pub fn insert(&mut self, key: String, value: V, now: u64, ttl: u64)
        requires
            now + ttl <= u64::MAX,
        ensures
            final(self)@ == old(self)@.insert(key@, (Entry { value, expires_at: (now + ttl) as u64 })),
    {
        let expires_at = now + ttl;
        self.data.insert(key, Entry { value, expires_at });
    }

    /// Stores the outcome of a computation for `key`: a successful result
    /// is entered with expiry `now + ttl`, superseding any prior entry for
    /// that key, while a failure leaves the store exactly as it was — no
    /// entry is ever written except as the direct result of a successful
    /// computation.
    pub fn store_if_ok<E>(&mut self, key: String, result: &Result<V, E>, now: u64, ttl: u64)
        requires
            now + ttl <= u64::MAX,
        ensures
            result is Ok ==> final(self)@ == old(self)@.insert(
                key@,
                (Entry { value: result->Ok_0, expires_at: (now + ttl) as u64 }),
            ),
            result is Err ==> final(self)@ == old(self)@,
    {
        match result {
            Ok(value) => self.insert(key, *value, now, ttl),
            Err(_) => {},
        }
    }

    /// Memoized access at instant `now`: on a fresh entry for `key` the
    /// stored value is returned and `f` plays no part; otherwise `f` is
    /// invoked, its result is returned as is, and only a successful result
    /// is stored, with expiry `now + ttl`. A failure leaves the store
    /// exactly as it was, so nothing is ever cached for a failed
    /// computation.
    pub fn get_or_insert_with<E, F: FnOnce() -> Result<V, E>>(
        &mut self,
        key: String,
        ttl: u64,
        now: u64,
        f: F,
    ) -> (r: Result<V, E>)
        requires
            call_requires(f, ()),
            now + ttl <= u64::MAX,
        ensures
            fresh_at(old(self)@, key@, now) ==> {
                &&& final(self)@ == old(self)@
                &&& r == Ok::<V, E>(old(self)@[key@].value)
            },
            !fresh_at(old(self)@, key@, now) ==> {
                &&& call_ensures(f, (), r)
                &&& (r is Ok ==> final(self)@ == old(self)@.insert(
                    key@,
                    (Entry { value: r->Ok_0, expires_at: (now + ttl) as u64 }),
                ))
                &&& (r is Err ==> final(self)@ == old(self)@)
            },
    {
        match self.lookup(key.as_str(), now) {
            Lookup::Hit { value, remaining: _ } => Ok(value),
            Lookup::Miss => {
                let result = f();
                self.store_if_ok(key, &result, now, ttl);
                result
            },
        }
    }
}

/// A key never seen before is a miss at every instant, so a lookup for it
/// takes the compute path.
pub proof fn lemma_never_seen_misses<V>(m: Map<Seq<char>, Entry<V>>, k: Seq<char>, now: u64)
    requires
        !m.contains_key(k),
    ensures
        !fresh_at(m, k, now),
{
}

/// Hit within the window: once a successful computation for `k` is stored at
/// instant `t0` with time-to-live `ttl`, the store holds a fresh entry for
/// `k` at every instant `t1` with `t0 <= t1 < t0 + ttl`, and that entry
/// carries the stored value — so a lookup there returns it without running
/// the computation again.
pub proof fn lemma_hit_within_window<V>(
    m: Map<Seq<char>, Entry<V>>,
    k: Seq<char>,
    v: V,
    t0: u64,
    ttl: u64,
    t1: u64,
)
    requires
        t0 + ttl <= u64::MAX,
        t0 <= t1 < t0 + ttl,
    ensures
        fresh_at(m.insert(k, (Entry { value: v, expires_at: (t0 + ttl) as u64 })), k, t1),
        m.insert(k, (Entry { value: v, expires_at: (t0 + ttl) as u64 }))[k].value == v,
{
}

/// Miss after expiry: an entry stored at `t0` with time-to-live `ttl` is no
/// longer fresh at any instant `t1 >= t0 + ttl`, so a lookup there is a
/// fresh miss and runs the computation again.
pub proof fn lemma_miss_after_expiry<V>(
    m: Map<Seq<char>, Entry<V>>,
    k: Seq<char>,
    v: V,
    t0: u64,
    ttl: u64,
    t1: u64,
)
    requires
        t0 + ttl <= u64::MAX,
        t0 + ttl <= t1,
    ensures
        !fresh_at(m.insert(k, (Entry { value: v, expires_at: (t0 + ttl) as u64 })), k, t1),
{
}

/// Staleness never heals on its own: a key with no fresh entry at `t1` still
/// has none at any later instant `t2`, as long as the store is not written.
/// With `get_or_insert_with`'s guarantee that a failed computation leaves
/// the store exactly as it was, this is the absence of negative caching:
/// after a failure, the very next lookup for that key is again a miss and
/// runs the computation afresh rather than serving the old error.
pub proof fn lemma_no_negative_caching<V>(
    m: Map<Seq<char>, Entry<V>>,
    k: Seq<char>,
    t1: u64,
    t2: u64,
)
    requires
        !fresh_at(m, k, t1),
        t1 <= t2,
    ensures
        !fresh_at(m, k, t2),
{
}

/// Concurrent misses are settled by write order alone: when two computations
/// for the same key both complete and store their results, the store keeps
/// whichever entry was written last, with no trace of the first.
pub proof fn lemma_last_write_wins<V>(
    m: Map<Seq<char>, Entry<V>>,
    k: Seq<char>,
    e1: Entry<V>,
    e2: Entry<V>,
)
    ensures
        m.insert(k, e1).insert(k, e2) == m.insert(k, e2),
{
    assert(m.insert(k, e1).insert(k, e2) =~= m.insert(k, e2));
}

} // verus!
