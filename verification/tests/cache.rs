use race_scheduler::cache::NagCache;

fn full() -> Vec<i64> {
    vec![60, 30, 15]
}

#[test]
fn a_race_seen_first_gets_the_thresholds_still_ahead() {
    let mut cache = NagCache::new(100);
    assert_eq!(100, cache.capacity());
    assert_eq!(0, cache.len());
    assert!(!cache.contains(1));
    assert_eq!(None, cache.remaining(1));
    assert_eq!(None, cache.look(1, &full(), 45));
    assert!(cache.contains(1));
    assert_eq!(Some(vec![30, 15]), cache.remaining(1));
    assert_eq!(1, cache.len());
}

#[test]
fn a_cached_schedule_is_used_as_it_was_left() {
    let mut cache = NagCache::new(100);
    assert_eq!(None, cache.look(1, &full(), 100));
    assert_eq!(Some(15), cache.look(1, &full(), 14));
    assert_eq!(Some(vec![60, 30]), cache.remaining(1));
    assert_eq!(Some(30), cache.look(1, &full(), 13));
    assert_eq!(Some(60), cache.look(1, &full(), 12));
    assert_eq!(None, cache.look(1, &full(), 11));
    assert_eq!(Some(vec![]), cache.remaining(1));
    assert_eq!(1, cache.len());
}

#[test]
fn a_first_look_never_fires() {
    let mut cache = NagCache::new(4);
    assert_eq!(None, cache.look(9, &full(), 14));
    assert_eq!(Some(vec![]), cache.remaining(9));
    assert_eq!(None, cache.look(9, &full(), 13));
    assert_eq!(None, cache.look(8, &full(), 16));
    assert_eq!(Some(vec![15]), cache.remaining(8));
    assert_eq!(Some(15), cache.look(8, &full(), 14));
}

#[test]
fn the_least_recently_used_schedule_makes_room() {
    let mut cache = NagCache::new(2);
    cache.look(1, &full(), 100);
    cache.look(2, &full(), 100);
    cache.look(1, &full(), 99);
    cache.look(3, &full(), 100);
    assert_eq!(2, cache.len());
    assert!(cache.contains(1));
    assert!(!cache.contains(2));
    assert!(cache.contains(3));
    cache.look(2, &full(), 20);
    assert!(!cache.contains(1));
    assert!(cache.contains(3));
    assert_eq!(Some(vec![15]), cache.remaining(2));
}

#[test]
fn an_evicted_race_starts_over_without_the_thresholds_passed() {
    let mut cache = NagCache::new(1);
    assert_eq!(None, cache.look(1, &full(), 40));
    assert_eq!(Some(15), cache.look(1, &full(), 14));
    assert_eq!(None, cache.look(2, &full(), 90));
    assert!(!cache.contains(1));
    assert_eq!(None, cache.look(1, &full(), 13));
    assert_eq!(Some(vec![]), cache.remaining(1));
}

#[test]
fn a_cache_without_room_keeps_nothing() {
    let mut cache = NagCache::new(0);
    assert_eq!(None, cache.look(1, &full(), 40));
    assert_eq!(0, cache.len());
    assert_eq!(None, cache.look(1, &full(), 14));
    assert_eq!(0, cache.len());
    assert!(!cache.contains(1));
}

#[test]
fn forget_drops_only_the_race_named() {
    let mut cache = NagCache::new(3);
    cache.look(1, &full(), 100);
    cache.look(2, &full(), 50);
    cache.forget(1);
    cache.forget(7);
    assert_eq!(1, cache.len());
    assert!(!cache.contains(1));
    assert_eq!(Some(vec![30, 15]), cache.remaining(2));
}
