//! A key-value map whose entries lapse a fixed time after they were inserted.
use std::hash::Hash;

use vstd::prelude::*;
use vstd::std_specs::hash::obeys_key_model;

pub mod inner_expiring_map;
pub mod laws;
pub mod time;

use crate::inner_expiring_map::{inserted, live_value, swept, InnerExpiringMap, ValueContainer};
use crate::time::{TimePoint, TimeSpan, MAX_SPAN_NANOS};

verus! {

/// Relies on SystemTime::now, read as its Duration since UNIX_EPOCH in nanoseconds.
/// Duration::as_nanos is whole seconds (a u64) times 10^9 plus fewer than 10^9
/// nanoseconds, hence the bound. A clock set before the epoch reads as the epoch.
#[verifier::external_body]
fn clock_now() -> (r: TimePoint)
    ensures
        r.nanos <= MAX_SPAN_NANOS,
{
    match std::time::SystemTime::now().duration_since(std::time::UNIX_EPOCH) {
        Ok(d) => TimePoint { nanos: d.as_nanos() },
        Err(_) => TimePoint { nanos: 0 },
    }
}

/// What an insert of `v` under `k` at `now` does: `after` holds the new entry,
/// and `r` is the value replaced if it was live at `now`.
pub open spec fn insert_outcome<K, V>(
    before: Map<K, ValueContainer<V>>,
    after: Map<K, ValueContainer<V>>,
    k: K,
    v: V,
    now: TimePoint,
    ttl: TimeSpan,
    r: Option<V>,
) -> bool {
    &&& now.nanos <= MAX_SPAN_NANOS
    &&& after == inserted(before, k, v, now, ttl)
    &&& r == live_value(before, k, now)
}

/// What a read of `k` at `now` sees.
pub open spec fn read_outcome<K, V>(m: Map<K, ValueContainer<V>>, k: K, now: TimePoint, r: Option<V>) -> bool {
    &&& now.nanos <= MAX_SPAN_NANOS
    &&& r == live_value(m, k, now)
}

/// The value that a reference handed out by a read points to, if any.
pub open spec fn seen<V>(r: Option<&V>) -> Option<V> {
    match r {
        Some(v) => Some(*v),
        None => None,
    }
}

/// The value that a mutable reference handed out by a read points to at first, if any.
pub open spec fn seen_mut<V>(r: Option<&mut V>) -> Option<V> {
    match r {
        Some(v) => Some(*v),
        None => None,
    }
}

/// What a sweep at `now` leaves.
pub open spec fn sweep_outcome<K, V>(
    before: Map<K, ValueContainer<V>>,
    after: Map<K, ValueContainer<V>>,
    now: TimePoint,
) -> bool {
    &&& now.nanos <= MAX_SPAN_NANOS
    &&& after == swept(before, now)
}

/// A map from keys to values in which each entry lapses a fixed time-to-live after its
/// insertion. Each operation reads the system clock for the current time.
pub struct ExpiringMap<K, V> {
    inner: InnerExpiringMap<K, V>,
}

impl<K, V> View for ExpiringMap<K, V> {
    type V = Map<K, ValueContainer<V>>;

    closed spec fn view(&self) -> Map<K, ValueContainer<V>> {
        self.inner@
    }
}

impl<K: Eq + Hash, V> ExpiringMap<K, V> {
    /// Keys hash deterministically and compare equal exactly when they are identical.
    pub closed spec fn wf(&self) -> bool {
        self.inner.wf()
    }

    /// The time-to-live given at construction.
    pub closed spec fn ttl(&self) -> TimeSpan {
        self.inner.ttl()
    }

    /// An empty map whose entries expire `time_to_live` after their insertion.
    pub fn new(time_to_live: TimeSpan) -> (r: Self)
        requires
            obeys_key_model::<K>(),
        ensures
            r.wf(),
            r@ == Map::<K, ValueContainer<V>>::empty(),
            r.ttl() == time_to_live,
    {
        ExpiringMap { inner: InnerExpiringMap::new(time_to_live) }
    }

    /// Stores `v` under `k`, to expire the time-to-live after now, replacing any entry
    /// for `k`. Returns the value replaced if it was still live.
    pub fn insert(&mut self, k: K, v: V) -> (r: Option<V>)
        requires
            old(self).wf(),
        ensures
            final(self).wf(),
            final(self).ttl() == old(self).ttl(),
            exists|now: TimePoint|
                #[trigger] insert_outcome(old(self)@, final(self)@, k, v, now, old(self).ttl(), r),
    {
        let now = clock_now();
        let r = self.inner.insert(k, v, now);
        assert(insert_outcome(old(self)@, self@, k, v, now, old(self).ttl(), r));
        r
    }

    /// The value under `k` if it is live now.
    pub fn get(&self, k: &K) -> (r: Option<&V>)
        requires
            self.wf(),
        ensures
            exists|now: TimePoint|
                #[trigger] read_outcome(
                    self@,
                    *k,
                    now,
                    seen(r)),
    {
        let now = clock_now();
        let r = self.inner.get(k, now);
        assert(read_outcome(self@, *k, now, seen(r)));
        r
    }

    /// Mutable access to the value under `k` if it is live now. Writing through it
    /// leaves the entry's expiry as it was.
    pub fn get_mut(&mut self, k: &K) -> (r: Option<&mut V>)
        requires
            old(self).wf(),
        ensures
            final(self).wf(),
            final(self).ttl() == old(self).ttl(),
            exists|now: TimePoint|
                #[trigger] read_outcome(
                    old(self)@,
                    *k,
                    now,
                    seen_mut(r)),
            match r {
                Some(v) => final(self)@ == old(self)@.insert(
                    *k,
                    ValueContainer { value: *final(v), expire_time: old(self)@[*k].expire_time },
                ),
                None => final(self)@ == old(self)@,
            },
    {
        let now = clock_now();
        let r = self.inner.get_mut(k, now);
        assert(read_outcome(old(self)@, *k, now, seen_mut(r)));
        r
    }

    /// Drops every entry that has expired by now; keeps the live ones unchanged.
    pub fn remove_expired_entries(&mut self)
        requires
            old(self).wf(),
        ensures
            final(self).wf(),
            final(self).ttl() == old(self).ttl(),
            exists|now: TimePoint| #[trigger] sweep_outcome(old(self)@, final(self)@, now),
    {
        let now = clock_now();
        self.inner.remove_expired_entries(now);
        assert(sweep_outcome(old(self)@, self@, now));
    }

    /// Drops the entry for `k`, live or expired, if there is one.
    pub fn remove(&mut self, k: K)
        requires
            old(self).wf(),
        ensures
            final(self).wf(),
            final(self).ttl() == old(self).ttl(),
            final(self)@ == old(self)@.remove(k),
    {
        self.inner.remove(&k);
    }
}

} // verus!
