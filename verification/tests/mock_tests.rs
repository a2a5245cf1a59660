use std::time::Duration;

use quanta::ClockSource;
use quanta::Instant;
use quanta::IntoNanoseconds;
use quanta::Mock;
use quanta::MockSlot;
use quanta::RecentCache;

#[test]
fn fresh_mock_starts_at_zero_and_moves_by_increments() {
    let mut slot = MockSlot::new();
    let mock = Mock::new(&mut slot);
    assert_eq!(mock.value(), 0);
    mock.increment(1_500u64);
    mock.decrement(500u64);
    assert_eq!(mock.value(), 1_000);
}

#[test]
fn clones_share_one_register() {
    let mut slot = MockSlot::new();
    let original = Mock::new(&mut slot);
    let clone = original.clone();
    clone.increment(100u64);
    assert_eq!(original.value(), 100);
    original.increment(11u64);
    assert_eq!(clone.value(), 111);
}

#[test]
fn share_hands_out_a_handle_to_the_same_register() {
    let mut slot = MockSlot::new();
    let mock = Mock::new(&mut slot);
    let shared = mock.share();
    shared.increment(64u64);
    assert_eq!(mock.value(), 64);
    mock.decrement(14u64);
    assert_eq!(shared.value(), 50);
}

#[test]
fn increments_accept_durations() {
    let mut slot = MockSlot::new();
    let mock = Mock::new(&mut slot);
    mock.increment(Duration::from_nanos(250));
    mock.increment(Duration::from_secs(1));
    assert_eq!(mock.value(), 1_000_000_250);
    mock.decrement(Duration::from_nanos(250));
    assert_eq!(mock.value(), 1_000_000_000);
}

#[test]
fn into_nanos_converts_raw_values_and_durations() {
    assert_eq!(5u64.into_nanos(), 5);
    assert_eq!(Duration::from_secs(1).into_nanos(), 1_000_000_000);
    // An oversized duration keeps only the low 64 bits of its count.
    assert_eq!(
        Duration::from_secs(20_000_000_000).into_nanos(),
        1_553_255_926_290_448_384
    );
}

#[test]
fn recent_is_zero_without_mock_or_upkeep() {
    let cache = RecentCache::new();
    let slot = MockSlot::new();
    assert_eq!(Instant::recent(&cache, &slot).as_u64(), 0);
}

#[test]
fn recent_falls_back_to_the_active_mock() {
    let cache = RecentCache::new();
    let mut slot = MockSlot::new();
    let mock = Mock::new(&mut slot);
    mock.increment(123u64);
    assert_eq!(Instant::recent(&cache, &slot), Instant(123));
}

#[test]
fn published_cache_value_wins_over_the_mock() {
    let cache = RecentCache::new();
    let mut slot = MockSlot::new();
    let mock = Mock::new(&mut slot);
    mock.increment(123u64);
    cache.store(Instant(777));
    assert_eq!(Instant::recent(&cache, &slot), Instant(777));
}

#[test]
fn second_mock_supersedes_the_first() {
    let cache = RecentCache::new();
    let mut slot = MockSlot::new();
    let first = Mock::new(&mut slot);
    let second = Mock::new(&mut slot);
    second.increment(42u64);
    first.increment(7u64);
    assert_eq!(Instant::recent(&cache, &slot), Instant(42));
    assert_eq!(first.value(), 7);
    assert_eq!(second.value(), 42);
}

#[test]
fn recent_from_parts_prefers_a_published_value() {
    assert_eq!(Instant::recent_from_parts(5, 9), Instant(5));
    assert_eq!(Instant::recent_from_parts(0, 9), Instant(9));
    assert_eq!(Instant::recent_from_parts(0, 0), Instant(0));
}

#[test]
fn mock_answers_every_clock_source_reading_with_its_value() {
    let mut slot = MockSlot::new();
    let mock = Mock::new(&mut slot);
    mock.increment(360u64);
    assert_eq!(mock.now(), 360);
    assert_eq!(mock.start(), 360);
    assert_eq!(mock.end(), 360);
    assert_eq!(mock.value(), 360);
}

#[test]
fn shared_cache_clones_observe_stores() {
    let cache = RecentCache::new();
    let writer = cache.clone();
    writer.store(Instant(31));
    assert_eq!(cache.load_raw(), 31);
    let slot = MockSlot::new();
    assert_eq!(Instant::recent(&cache, &slot), Instant(31));
}
