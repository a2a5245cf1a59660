use std::time::Duration;

use quanta::Instant;

#[test]
fn duration_since_ordered_pair() {
    let a = Instant(4);
    let b = Instant(10);
    assert_eq!(b.duration_since(a), Duration::from_nanos(6));
    assert_eq!(a.checked_duration_since(b), None);
}

#[test]
fn duration_since_equal_pair_is_zero() {
    let a = Instant(77);
    assert_eq!(a.duration_since(a), Duration::from_nanos(0));
    assert_eq!(a.checked_duration_since(a), Some(Duration::from_nanos(0)));
}

#[test]
fn add_then_sub_returns_to_start() {
    let t = Instant(100);
    let d = Duration::from_nanos(40);
    assert_eq!((t + d) - d, t);
    assert_eq!((t + d).checked_sub(d), Some(t));
    assert_eq!(t + d, Instant(140));
    assert_eq!((t + d) - t, d);
}

#[test]
fn checked_add_overflow_yields_none() {
    let top = Instant(u64::MAX);
    assert_eq!(top.checked_add(Duration::from_nanos(1)), None);
    assert_eq!(top.checked_add(Duration::from_nanos(0)), Some(top));
    assert_eq!(Instant(5).checked_add(Duration::from_nanos(7)), Some(Instant(12)));
}

#[test]
fn checked_sub_underflow_yields_none() {
    assert_eq!(Instant(0).checked_sub(Duration::from_nanos(1)), None);
    assert_eq!(Instant(12).checked_sub(Duration::from_nanos(7)), Some(Instant(5)));
}

#[test]
fn saturating_duration_since_saturates_at_zero() {
    let earlier = Instant(3);
    let later = Instant(9);
    assert_eq!(earlier.saturating_duration_since(later), Duration::from_nanos(0));
    assert_eq!(later.saturating_duration_since(earlier), Duration::from_nanos(6));
    assert_eq!(later.saturating_duration_since(later), Duration::from_nanos(0));
}

#[test]
fn ordering_follows_raw_integers() {
    let first = Instant(5);
    let second = Instant(10);
    let third = Instant(10);
    assert!(first < second);
    assert_eq!(second, third);
    assert!(second > first);
    assert!(second <= third);
    assert!(first != second);
}

#[test]
fn as_unix_duration_reinterprets_the_integer() {
    assert_eq!(
        Instant(1_500_000_123).as_unix_duration(),
        Duration::new(1, 500_000_123)
    );
    assert_eq!(Instant(0).as_unix_duration(), Duration::from_nanos(0));
}

#[test]
fn as_u64_exposes_the_raw_value() {
    assert_eq!(Instant(42).as_u64(), 42);
    assert_eq!(Instant(u64::MAX).as_u64(), u64::MAX);
}

#[test]
fn oversized_duration_is_truncated_to_low_64_bits() {
    // 20_000_000_000 s = 2e19 ns, which exceeds u64::MAX by
    // 1_553_255_926_290_448_384.
    let big = Duration::from_secs(20_000_000_000);
    assert_eq!(
        Instant(0).checked_add(big),
        Some(Instant(1_553_255_926_290_448_384))
    );
    assert_eq!(
        Instant(2_000_000_000_000_000_000).checked_sub(big),
        Some(Instant(446_744_073_709_551_616))
    );
}

#[test]
fn wire_timestamp_splits_seconds_and_nanos() {
    let wire = Instant(1_500_000_123).as_wire_timestamp();
    assert_eq!(wire.seconds, 1);
    assert_eq!(wire.nanos, 500_000_123);

    let top = Instant(u64::MAX).as_wire_timestamp();
    assert_eq!(top.seconds, 18_446_744_073);
    assert_eq!(top.nanos, 709_551_615);

    let zero = Instant(0).as_wire_timestamp();
    assert_eq!(zero.seconds, 0);
    assert_eq!(zero.nanos, 0);
}

#[test]
fn subtracting_instants_gives_the_elapsed_duration() {
    assert_eq!(Instant(10) - Instant(4), Duration::from_nanos(6));
    assert_eq!(Instant(10) - Instant(10), Duration::from_nanos(0));
}
