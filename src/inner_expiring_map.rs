//! The expiry-aware store: every read takes the current time as an argument.
use std::collections::HashMap;
use std::hash::Hash;

use vstd::prelude::*;
use vstd::std_specs::hash::obeys_key_model;

use crate::time::{TimePoint, TimeSpan, MAX_SPAN_NANOS};

verus! {

/// A stored value and the instant after which it no longer counts.
pub struct ValueContainer<V> {
    pub value: V,
    pub expire_time: TimePoint,
}

impl<V> ValueContainer<V> {
    /// Whether the entry still counts at `now`: `now` is no later than its expiry.
    pub open spec fn live_at(&self, now: TimePoint) -> bool {
        now.nanos <= self.expire_time.nanos
    }

    /// An entry holding `value` that expires after `expire_time`.
    pub fn new(value: V, expire_time: TimePoint) -> (r: Self)
        ensures
            r.value == value,
            r.expire_time == expire_time,
    {
        ValueContainer { value, expire_time }
    }

    /// Whether the entry still counts at `now`.
    pub fn is_live_at(&self, now: TimePoint) -> (r: bool)
        ensures
            r == self.live_at(now),
    {
        now.le(&self.expire_time)
    }
}

/// The expiry instant of an entry inserted at `now` with time-to-live `ttl`.
pub open spec fn expiry(now: TimePoint, ttl: TimeSpan) -> TimePoint {
    TimePoint { nanos: (now.nanos + ttl.spec_nanos()) as u128 }
}

/// The entries after `k` is given `v` at `now`, whatever it held before.
pub open spec fn inserted<K, V>(
    m: Map<K, ValueContainer<V>>,
    k: K,
    v: V,
    now: TimePoint,
    ttl: TimeSpan,
) -> Map<K, ValueContainer<V>> {
    m.insert(k, ValueContainer { value: v, expire_time: expiry(now, ttl) })
}

/// The value under `k` as a read at `now` sees it: absent if there is none or it has expired.
pub open spec fn live_value<K, V>(m: Map<K, ValueContainer<V>>, k: K, now: TimePoint) -> Option<V> {
    if m.contains_key(k) && m[k].live_at(now) {
        Some(m[k].value)
    } else {
        None
    }
}

/// The entries that a sweep at `now` keeps: those still live at `now`.
pub open spec fn swept<K, V>(m: Map<K, ValueContainer<V>>, now: TimePoint) -> Map<
    K,
    ValueContainer<V>,
> {
    Map::new(|k: K| m.contains_key(k) && m[k].live_at(now), |k: K| m[k])
}

/// Relies on HashMap::get_mut: a mutable reference to the value stored under `k`,
/// through which the map's entry for `k` changes, or `None` where `k` has no entry.
#[verifier::external_body]
fn map_get_mut<'a, K: Eq + Hash, V>(m: &'a mut HashMap<K, V>, k: &K) -> (r: Option<&'a mut V>)
    requires
        obeys_key_model::<K>(),
    ensures
        match r {
            Some(v) => {
                &&& old(m)@.contains_key(*k)
                &&& *v == old(m)@[*k]
                &&& final(m)@ == old(m)@.insert(*k, *final(v))
            },
            None => {
                &&& !old(m)@.contains_key(*k)
                &&& final(m)@ == old(m)@
            },
        },
{
    m.get_mut(k)
}

/// Relies on HashMap::retain: it removes exactly the entries for which the
/// predicate, here `ValueContainer::is_live_at(now)`, is false, and leaves the others as they were.
#[verifier::external_body]
fn map_retain_live<K: Eq + Hash, V>(m: &mut HashMap<K, ValueContainer<V>>, now: TimePoint)
    requires
        obeys_key_model::<K>(),
    ensures
        final(m)@ == swept(old(m)@, now),
{
    m.retain(|_k, c| c.is_live_at(now))
}

/// A map from keys to values in which each entry lapses `time_to_live` after its insertion.
/// Every operation takes the current time as an argument.
pub struct InnerExpiringMap<K, V> {
    inner: HashMap<K, ValueContainer<V>>,
    time_to_live: TimeSpan,
}

impl<K, V> View for InnerExpiringMap<K, V> {
    type V = Map<K, ValueContainer<V>>;

    closed spec fn view(&self) -> Map<K, ValueContainer<V>> {
        self.inner@
    }
}

impl<K: Eq + Hash, V> InnerExpiringMap<K, V> {
    /// Keys hash deterministically and compare equal exactly when they are identical,
    /// and the time-to-live is within the range of a `TimeSpan`.
    pub open spec fn wf(&self) -> bool {
        &&& obeys_key_model::<K>()
        &&& self.ttl().spec_nanos() <= MAX_SPAN_NANOS
    }

    /// The time-to-live given at construction.
    pub closed spec fn ttl(&self) -> TimeSpan {
        self.time_to_live
    }

    /// An empty store whose entries expire `time_to_live` after their insertion.
    pub fn new(time_to_live: TimeSpan) -> (r: Self)
        requires
            obeys_key_model::<K>(),
        ensures
            r.wf(),
            r@ == Map::<K, ValueContainer<V>>::empty(),
            r.ttl() == time_to_live,
    {
        proof {
            use_type_invariant(&time_to_live);
        }
        InnerExpiringMap { inner: HashMap::new(), time_to_live }
    }

    /// The time-to-live given at construction.
    pub fn time_to_live(&self) -> (r: TimeSpan)
        ensures
            r == self.ttl(),
    {
        self.time_to_live
    }

    /// The number of stored entries, expired or not.
    pub fn len(&self) -> (r: usize)
        requires
            self.wf(),
        ensures
            r == self@.len(),
    {
        self.inner.len()
    }

    /// Stores `v` under `k`, to expire `time_to_live` after `current_time`, replacing any
    /// entry for `k`. Returns the value replaced if it was still live at `current_time`.
    pub fn insert(&mut self, k: K, v: V, current_time: TimePoint) -> (r: Option<V>)
        requires
            old(self).wf(),
            current_time.nanos + old(self).ttl().spec_nanos() <= u128::MAX,
        ensures
            final(self).wf(),
            final(self).ttl() == old(self).ttl(),
            final(self)@ == inserted(old(self)@, k, v, current_time, old(self).ttl()),
            r == live_value(old(self)@, k, current_time),
    {
        let value_container = ValueContainer::new(v, current_time.add(self.time_to_live));
        match self.inner.insert(k, value_container) {
            Some(val_container) => {
                if val_container.is_live_at(current_time) {
                    Some(val_container.value)
                } else {
                    None
                }
            },
            None => None,
        }
    }

    /// The value under `k` if it is live at `current_time`.
    pub fn get(&self, k: &K, current_time: TimePoint) -> (r: Option<&V>)
        requires
            self.wf(),
        ensures
            match r {
                Some(v) => live_value(self@, *k, current_time) == Some(*v),
                None => live_value(self@, *k, current_time) is None,
            },
    {
        match self.inner.get(k) {
            Some(val_container) => {
                if val_container.is_live_at(current_time) {
                    Some(&val_container.value)
                } else {
                    None
                }
            },
            None => None,
        }
    }

    /// Mutable access to the value under `k` if it is live at `current_time`.
    /// Writing through it leaves the entry's expiry as it was.
    pub fn get_mut(&mut self, k: &K, current_time: TimePoint) -> (r: Option<&mut V>)
        requires
            old(self).wf(),
        ensures
            final(self).wf(),
            final(self).ttl() == old(self).ttl(),
            match r {
                Some(v) => {
                    &&& live_value(old(self)@, *k, current_time) == Some(*v)
                    &&& final(self)@ == old(self)@.insert(
                        *k,
                        ValueContainer { value: *final(v), expire_time: old(self)@[*k].expire_time },
                    )
                },
                None => {
                    &&& live_value(old(self)@, *k, current_time) is None
                    &&& final(self)@ == old(self)@
                },
            },
    {
        match map_get_mut(&mut self.inner, k) {
            Some(val_container) => {
                if val_container.is_live_at(current_time) {
                    Some(&mut val_container.value)
                } else {
                    proof {
                        assert(old(self)@.insert(*k, old(self)@[*k]) =~= old(self)@);
                    }
                    None
                }
            },
            None => None,
        }
    }

    /// Drops every entry that has expired at `current_time`; keeps the live ones unchanged.
    pub fn remove_expired_entries(&mut self, current_time: TimePoint)
        requires
            old(self).wf(),
        ensures
            final(self).wf(),
            final(self).ttl() == old(self).ttl(),
            final(self)@ == swept(old(self)@, current_time),
    {
        map_retain_live(&mut self.inner, current_time);
    }

    /// Drops the entry for `k`, live or expired, if there is one.
    pub fn remove(&mut self, k: &K)
        requires
            old(self).wf(),
        ensures
            final(self).wf(),
            final(self).ttl() == old(self).ttl(),
            final(self)@ == old(self)@.remove(*k),
    {
        self.inner.remove(k);
    }
}

} // verus!
