//! Laws that relate the operations of the store, stated over the maps that their
//! contracts speak of.
use vstd::prelude::*;

use crate::inner_expiring_map::{expiry, inserted, live_value, swept, ValueContainer};
use crate::time::{TimePoint, TimeSpan};

verus! {

/// An entry inserted at `t0` with time-to-live `ttl` is read back at every instant up to
/// and including `t0 + ttl`, and is absent at every instant after it.
pub proof fn lemma_liveness_boundary<K, V>(
    m: Map<K, ValueContainer<V>>,
    k: K,
    v: V,
    t0: TimePoint,
    ttl: TimeSpan,
    t: TimePoint,
)
    requires
        t0.nanos + ttl.spec_nanos() <= u128::MAX,
    ensures
        live_value(inserted(m, k, v, t0, ttl), k, t) == if t.nanos <= t0.nanos + ttl.spec_nanos() {
            Some(v)
        } else {
            None
        },
{
}

/// After `v1` is inserted under `k` at `t0`, a second insert under `k` at `t1` hands `v1`
/// back when `t1` is no later than `t0 + ttl`, and nothing when it is later, though
/// `v1` is still stored.
pub proof fn lemma_insert_returns_previous_if_live<K, V>(
    m: Map<K, ValueContainer<V>>,
    k: K,
    v1: V,
    t0: TimePoint,
    t1: TimePoint,
    ttl: TimeSpan,
)
    requires
        t0.nanos + ttl.spec_nanos() <= u128::MAX,
    ensures
        inserted(m, k, v1, t0, ttl).contains_key(k),
        inserted(m, k, v1, t0, ttl)[k].value == v1,
        live_value(inserted(m, k, v1, t0, ttl), k, t1) == if t1.nanos <= t0.nanos
            + ttl.spec_nanos() {
            Some(v1)
        } else {
            None
        },
{
}

/// An insert under `k` at `t1` replaces whatever `k` held, live or expired: a read at any
/// instant up to `t1 + ttl` sees the new value.
pub proof fn lemma_overwrite_is_unconditional<K, V>(
    m: Map<K, ValueContainer<V>>,
    k: K,
    v: V,
    t1: TimePoint,
    ttl: TimeSpan,
    t: TimePoint,
)
    requires
        t1.nanos + ttl.spec_nanos() <= u128::MAX,
        t.nanos <= t1.nanos + ttl.spec_nanos(),
    ensures
        inserted(m, k, v, t1, ttl)[k] == (ValueContainer { value: v, expire_time: expiry(t1, ttl) }),
        live_value(inserted(m, k, v, t1, ttl), k, t) == Some(v),
{
}

/// A sweep at `now` removes exactly the entries whose expiry is before `now`; each entry
/// that stays is unchanged and is still read back at `now`.
pub proof fn lemma_sweep_correctness<K, V>(m: Map<K, ValueContainer<V>>, now: TimePoint)
    ensures
        swept(m, now).dom() == m.dom().filter(|k: K| now.nanos <= m[k].expire_time.nanos),
        forall|k: K|
            #![trigger swept(m, now).contains_key(k)]
            m.contains_key(k) && m[k].expire_time.nanos < now.nanos ==> !swept(
                m,
                now,
            ).contains_key(k),
        forall|k: K|
            #![trigger swept(m, now).contains_key(k)]
            m.contains_key(k) && now.nanos <= m[k].expire_time.nanos ==> {
                &&& swept(m, now).contains_key(k)
                &&& swept(m, now)[k] == m[k]
                &&& live_value(swept(m, now), k, now) == Some(m[k].value)
            },
{
    assert(swept(m, now).dom() =~= m.dom().filter(|k: K| now.nanos <= m[k].expire_time.nanos));
}

} // verus!
