use assement::cache::TasksCache;

const SEC: u128 = 1_000_000_000;

#[test]
fn stored_view_is_served_while_fresh() {
    let mut c = TasksCache::new(60);
    assert_eq!(c.get_at(1, 0), None);
    c.set_at(1, "body".to_string(), 10 * SEC);
    assert_eq!(c.get_at(1, 10 * SEC), Some("body".to_string()));
    assert_eq!(c.get_at(1, 69 * SEC), Some("body".to_string()));
    assert_eq!(c.get_at(1, 70 * SEC - 1), Some("body".to_string()));
}

#[test]
fn stale_view_is_dropped() {
    let mut c = TasksCache::new(60);
    c.set_at(1, "body".to_string(), 10 * SEC);
    assert_eq!(c.get_at(1, 70 * SEC), None);
    // The stale entry is gone, even when asked at an earlier moment.
    assert_eq!(c.get_at(1, 10 * SEC), None);
}

#[test]
fn clock_going_back_counts_as_no_time() {
    let mut c = TasksCache::new(1);
    c.set_at(1, "body".to_string(), 10 * SEC);
    assert_eq!(c.get_at(1, 5 * SEC), Some("body".to_string()));
}

#[test]
fn invalidate_drops_only_that_user() {
    let mut c = TasksCache::new(60);
    c.set_at(1, "one".to_string(), 0);
    c.set_at(2, "two".to_string(), 0);
    c.invalidate(1);
    assert_eq!(c.get_at(1, 0), None);
    assert_eq!(c.get_at(2, 0), Some("two".to_string()));
}

#[test]
fn later_store_replaces_earlier() {
    let mut c = TasksCache::new(60);
    c.set_at(1, "old".to_string(), 0);
    c.set_at(1, "new".to_string(), SEC);
    assert_eq!(c.get_at(1, SEC), Some("new".to_string()));
}

#[test]
fn zero_ttl_never_serves() {
    let mut c = TasksCache::new(0);
    c.set_at(1, "body".to_string(), 0);
    assert_eq!(c.get_at(1, 0), None);
}

#[test]
fn clock_driven_calls() {
    let mut c = TasksCache::new(60);
    c.set(3, "body".to_string());
    assert_eq!(c.get(3), Some("body".to_string()));
    c.invalidate(3);
    assert_eq!(c.get(3), None);
}
