use std::time::{Duration, SystemTime};

use expiring_map::time::{TimePoint, TimeSpan, MAX_SPAN_NANOS};
use expiring_map::ExpiringMap;

fn key(s: &str) -> String {
    s.to_owned()
}

#[test]
fn facade_insert_get_and_replace() {
    let mut map: ExpiringMap<String, String> = ExpiringMap::new(TimeSpan::from_secs(3600));
    assert_eq!(None, map.insert(key("keyA"), key("valA")));
    assert_eq!(Some(&key("valA")), map.get(&key("keyA")));
    assert_eq!(Some(&mut key("valA")), map.get_mut(&key("keyA")));
    assert_eq!(Some(key("valA")), map.insert(key("keyA"), key("valB")));
    assert_eq!(Some(&key("valB")), map.get(&key("keyA")));
    assert_eq!(None, map.get(&key("keyB")));
}

#[test]
fn facade_get_mut_edits_in_place() {
    let mut map: ExpiringMap<String, u64> = ExpiringMap::new(TimeSpan::from_secs(3600));
    map.insert(key("n"), 1);
    if let Some(v) = map.get_mut(&key("n")) {
        *v += 41;
    }
    assert_eq!(Some(&42), map.get(&key("n")));
}

#[test]
fn facade_remove_and_sweep() {
    let mut map: ExpiringMap<String, String> = ExpiringMap::new(TimeSpan::from_secs(3600));
    map.insert(key("a"), key("1"));
    map.insert(key("b"), key("2"));
    map.remove(key("a"));
    assert_eq!(None, map.get(&key("a")));
    map.remove_expired_entries();
    assert_eq!(Some(&key("2")), map.get(&key("b")));
}

#[test]
fn facade_reads_a_moving_clock() {
    let mut map: ExpiringMap<String, String> = ExpiringMap::new(TimeSpan::from_secs(0));
    map.insert(key("k"), key("v"));
    let start = SystemTime::now();
    while SystemTime::now() < start + Duration::from_millis(2) {}
    assert_eq!(None, map.get(&key("k")));
    assert_eq!(None, map.get_mut(&key("k")));
    assert_eq!(None, map.insert(key("k"), key("w")));
}

#[test]
fn time_span_constructors() {
    assert_eq!(60_000_000_000, TimeSpan::from_secs(60).as_nanos());
    assert_eq!(7, TimeSpan::from_nanos(7).as_nanos());
    assert_eq!(MAX_SPAN_NANOS - 999_999_999, TimeSpan::from_secs(u64::MAX).as_nanos());
}

#[test]
fn time_point_add_and_compare() {
    let t = TimePoint { nanos: 100 };
    let later = t.add(TimeSpan::from_secs(1));
    assert_eq!(1_000_000_100, later.nanos);
    assert!(t.le(&later));
    assert!(t.le(&t));
    assert!(!later.le(&t));
}
