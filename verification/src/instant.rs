//! The timestamp value type: nanoseconds elapsed since the Unix epoch, held
//! as a single 64-bit value, with checked, saturating and precondition-guarded
//! arithmetic against `std::time::Duration`, and a total order that follows
//! the underlying unsigned integer.

use core::cmp::Ordering;
use std::time::Duration;
use vstd::prelude::*;

use crate::duration::dur_nanos;
use crate::duration::dur_nanos_trunc;
use crate::duration::dur_to_nanos_u64;
use crate::duration::duration_from_nanos_u64;
use crate::duration::NANOS_PER_SEC;
use crate::mock::Mock;
use crate::mock::MockSlot;
use crate::mock::RecentCache;
use vstd::std_specs::cmp::PartialOrdSpec;
use vstd::std_specs::ops::AddSpec;
use vstd::std_specs::ops::SubSpec;

verus! {

/// A point-in-time wall-clock measurement, scaled to reference time:
/// nanoseconds elapsed since 1970-01-01T00:00:00Z.
///
/// The type is intended to be opaque, but the raw integer can be read (and
/// written) directly as an escape hatch; no stability guarantee attaches to
/// it.
#[derive(Clone, Copy, PartialEq, Eq, Structural, Ord, Debug)]
pub struct Instant(pub u64);

impl View for Instant {
    type V = u64;

    open spec fn view(&self) -> u64 {
        self.0
    }
}

/// Whether an elapsed-time reading from `earlier` to `later` exists: the
/// condition under which `checked_duration_since` yields a value.
pub open spec fn spec_elapsed_defined(later: Instant, earlier: Instant) -> bool {
    earlier@ <= later@
}

/// The elapsed nanoseconds from `earlier` to `later`.
pub open spec fn spec_elapsed(later: Instant, earlier: Instant) -> int {
    later@ - earlier@
}

/// The elapsed nanoseconds from `earlier` to `later`, saturating at zero:
/// the value `saturating_duration_since` yields.
pub open spec fn spec_saturating_elapsed(later: Instant, earlier: Instant) -> int {
    if spec_elapsed_defined(later, earlier) {
        spec_elapsed(later, earlier)
    } else {
        0
    }
}

/// The value `checked_add` yields: the timestamp advanced by the duration's
/// truncated nanosecond count, or no value on 64-bit overflow.
pub open spec fn spec_checked_add(t: Instant, d: Duration) -> Option<Instant> {
    if t@ + dur_nanos_trunc(d) <= u64::MAX {
        Some(Instant((t@ + dur_nanos_trunc(d)) as u64))
    } else {
        None
    }
}

/// The value `checked_sub` yields: the timestamp moved back by the
/// duration's truncated nanosecond count, or no value on underflow.
pub open spec fn spec_checked_sub(t: Instant, d: Duration) -> Option<Instant> {
    if dur_nanos_trunc(d) <= t@ {
        Some(Instant((t@ - dur_nanos_trunc(d)) as u64))
    } else {
        None
    }
}

/// The fast-path selection rule on plain values: a published (nonzero)
/// cache value wins; otherwise the mock fallback value is used.
pub open spec fn recent_selection(cached: u64, mock_fallback: u64) -> u64 {
    if cached != 0 {
        cached
    } else {
        mock_fallback
    }
}

impl Instant {
    /// Gets the most recent current time, scaled to reference time.
    ///
    /// Reads the process-wide recent-time cache first; while the cache
    /// still holds its unset value `0` (no upkeep mechanism has published a
    /// value yet), falls back to the thread's active mock register, so that
    /// tests observe a deterministic time without any upkeep running. If no
    /// mock was ever created either, the fallback register holds `0`.
    ///
    /// Both reads are of shared atomic cells, so no contract here can pin
    /// what they return; the selection rule itself is the verified logic,
    /// in [`Instant::recent_from_parts`].
    pub fn recent(cache: &RecentCache, slot: &MockSlot) -> Instant {
        let cached: u64 = cache.load_raw();
        if cached != 0 {
            Instant::recent_from_parts(cached, 0)
        } else {
            Instant::recent_from_parts(cached, Mock::recent(slot))
        }
    }

    /// Builds the recent-time reading from the two raw values the fast path
    /// consults: the process-wide cache value, and the fallback value of
    /// the thread's active mock register.
    pub fn recent_from_parts(cached: u64, mock_fallback: u64) -> (r: Instant)
        ensures
            r@ == recent_selection(cached, mock_fallback),
    {
        if cached != 0 {
            Instant(cached)
        } else {
            Instant(mock_fallback)
        }
    }

    /// Returns the amount of time elapsed from another instant to this one.
    ///
    /// The caller must know that `earlier` is not later than `self`; the
    /// precondition replaces the panic an unguarded subtraction would
    /// raise. Callers that cannot prove the ordering use
    /// [`Instant::checked_duration_since`] or
    /// [`Instant::saturating_duration_since`] instead.
    pub fn duration_since(&self, earlier: Instant) -> (r: Duration)
        requires
            spec_elapsed_defined(*self, earlier),
        ensures
            dur_nanos(r) == spec_elapsed(*self, earlier),
    {
        duration_from_nanos_u64(self.0 - earlier.0)
    }

    /// Returns the amount of time elapsed from another instant to this one,
    /// or no value if that instant is later than this one.
    pub fn checked_duration_since(&self, earlier: Instant) -> (r: Option<Duration>)
        ensures
            r is Some <==> spec_elapsed_defined(*self, earlier),
            r matches Some(d) ==> dur_nanos(d) == spec_elapsed(*self, earlier),
    {
        if earlier.0 <= self.0 {
            Some(duration_from_nanos_u64(self.0 - earlier.0))
        } else {
            None
        }
    }

    /// Returns the amount of time elapsed from another instant to this one,
    /// or the zero duration if that instant is later than this one.
    pub fn saturating_duration_since(&self, earlier: Instant) -> (r: Duration)
        ensures
            dur_nanos(r) == spec_saturating_elapsed(*self, earlier),
    {
        match self.checked_duration_since(earlier) {
            Some(d) => d,
            None => duration_from_nanos_u64(0),
        }
    }

    /// Returns `Some(t)` where `t` is the time `self + duration`, if that
    /// fits the 64-bit nanosecond representation, and `None` otherwise. The
    /// duration is first truncated to a whole 64-bit nanosecond count.
    pub fn checked_add(&self, duration: Duration) -> (r: Option<Instant>)
        ensures
            r == spec_checked_add(*self, duration),
    {
        let n: u64 = dur_to_nanos_u64(&duration);
        match self.0.checked_add(n) {
            Some(v) => Some(Instant(v)),
            None => None,
        }
    }

    /// Returns `Some(t)` where `t` is the time `self - duration`, if that
    /// fits the 64-bit nanosecond representation, and `None` otherwise. The
    /// duration is first truncated to a whole 64-bit nanosecond count.
    pub fn checked_sub(&self, duration: Duration) -> (r: Option<Instant>)
        ensures
            r == spec_checked_sub(*self, duration),
    {
        let n: u64 = dur_to_nanos_u64(&duration);
        match self.0.checked_sub(n) {
            Some(v) => Some(Instant(v)),
            None => None,
        }
    }

    /// Gets this timestamp as a `Duration` since the Unix epoch: a direct
    /// reinterpretation of the integer as nanoseconds.
    pub fn as_unix_duration(&self) -> (r: Duration)
        ensures
            dur_nanos(r) == self@,
    {
        duration_from_nanos_u64(self.0)
    }

    /// Gets the inner value of this timestamp: an explicit, unchecked
    /// escape hatch with no stability guarantee.
    pub fn as_u64(&self) -> (r: u64)
        ensures
            r == self@,
    {
        self.0
    }

    /// Converts this timestamp to the wire form, clamping the seconds to
    /// the signed 64-bit range and the sub-second nanoseconds to the signed
    /// 32-bit range instead of overflowing. With a 64-bit nanosecond
    /// timestamp neither clamp can actually engage, so the result is exact.
    pub fn as_wire_timestamp(&self) -> (r: WireTimestamp)
        ensures
            r.seconds == self@ / NANOS_PER_SEC,
            r.nanos == self@ % NANOS_PER_SEC,
    {
        let dur = duration_from_nanos_u64(self.0);
        let secs: u64 = dur.as_secs();
        let seconds: i64 = if secs > i64::MAX as u64 {
            i64::MAX
        } else {
            secs as i64
        };
        let sub: u32 = dur.subsec_nanos();
        let nanos: i32 = if sub > i32::MAX as u32 {
            i32::MAX
        } else {
            sub as i32
        };
        proof {
            assert(self.0 / NANOS_PER_SEC <= u64::MAX as u64 / NANOS_PER_SEC) by (nonlinear_arith)
                requires
                    self.0 <= u64::MAX,
                    NANOS_PER_SEC > 0,
            ;
        }
        WireTimestamp { seconds: seconds, nanos: nanos }
    }
}

/// A wire timestamp: whole seconds since the Unix epoch, and sub-second
/// nanoseconds, in the signed ranges the common protobuf well-known
/// timestamp carries.
#[derive(Clone, Copy, PartialEq, Eq, Structural, Debug)]
pub struct WireTimestamp {
    pub seconds: i64,
    pub nanos: i32,
}

impl core::ops::Add<Duration> for Instant {
    type Output = Instant;

    /// Panicking form of [`Instant::checked_add`]: the overflow case is
    /// excluded by precondition, so verified callers cannot reach the
    /// panic.
    fn add(self, other: Duration) -> Instant {
        let n: u64 = dur_to_nanos_u64(&other);
        Instant(self.0 + n)
    }
}

impl vstd::std_specs::ops::AddSpecImpl<Duration> for Instant {
    open spec fn obeys_add_spec() -> bool {
        true
    }

    open spec fn add_req(self, rhs: Duration) -> bool {
        self@ + dur_nanos_trunc(rhs) <= u64::MAX
    }

    open spec fn add_spec(self, rhs: Duration) -> Instant {
        Instant((self@ + dur_nanos_trunc(rhs)) as u64)
    }
}

impl core::ops::Sub<Duration> for Instant {
    type Output = Instant;

    /// Panicking form of [`Instant::checked_sub`]: the underflow case is
    /// excluded by precondition, so verified callers cannot reach the
    /// panic.
    fn sub(self, other: Duration) -> Instant {
        let n: u64 = dur_to_nanos_u64(&other);
        Instant(self.0 - n)
    }
}

impl vstd::std_specs::ops::SubSpecImpl<Duration> for Instant {
    open spec fn obeys_sub_spec() -> bool {
        true
    }

    open spec fn sub_req(self, rhs: Duration) -> bool {
        dur_nanos_trunc(rhs) <= self@
    }

    open spec fn sub_spec(self, rhs: Duration) -> Instant {
        Instant((self@ - dur_nanos_trunc(rhs)) as u64)
    }
}

impl core::ops::Sub<Instant> for Instant {
    type Output = Duration;

    /// Subtracting one timestamp from another yields the elapsed duration
    /// between them, defined identically to [`Instant::duration_since`];
    /// the precondition excludes the pairs on which that would panic. The
    /// returned duration is pinned by `duration_since`'s contract, not
    /// through the operator spec.
    fn sub(self, other: Instant) -> Duration {
        self.duration_since(other)
    }
}

impl vstd::std_specs::ops::SubSpecImpl<Instant> for Instant {
    open spec fn obeys_sub_spec() -> bool {
        false
    }

    open spec fn sub_req(self, rhs: Instant) -> bool {
        spec_elapsed_defined(self, rhs)
    }

    open spec fn sub_spec(self, rhs: Instant) -> Duration {
        choose|d: Duration| dur_nanos(d) == spec_elapsed(self, rhs)
    }
}

impl PartialOrd for Instant {
    fn partial_cmp(&self, other: &Self) -> (r: Option<Ordering>) {
        if self.0 < other.0 {
            Some(Ordering::Less)
        } else if self.0 == other.0 {
            Some(Ordering::Equal)
        } else {
            Some(Ordering::Greater)
        }
    }
}

impl vstd::std_specs::cmp::PartialOrdSpecImpl for Instant {
    open spec fn obeys_partial_cmp_spec() -> bool {
        true
    }

    open spec fn partial_cmp_spec(&self, other: &Self) -> Option<Ordering> {
        if self@ < other@ {
            Some(Ordering::Less)
        } else if self@ == other@ {
            Some(Ordering::Equal)
        } else {
            Some(Ordering::Greater)
        }
    }
}

/// For all timestamps `a`, `b` with `a`'s integer not above `b`'s: the
/// elapsed reading from `a` to `b` exists and is exactly `b@ - a@`
/// nanoseconds, and — for strictly ordered pairs — the checked reading in
/// the opposite direction yields no value. (On equal timestamps the checked
/// reading in either direction is the zero duration, not "no value".)
pub proof fn lemma_elapsed_ordered(a: Instant, b: Instant)
    requires
        a@ <= b@,
    ensures
        spec_elapsed_defined(b, a),
        spec_elapsed(b, a) == b@ - a@,
        a@ < b@ ==> !spec_elapsed_defined(a, b),
{
}

/// Adding a duration and then subtracting it returns to the start: for
/// every timestamp `t` and duration `d` whose truncated nanosecond count
/// keeps the sum within 64 bits, `(t + d) - d == t` through the operator
/// specs, and the checked variants agree.
pub proof fn lemma_add_sub_round_trip(t: Instant, d: Duration)
    requires
        t@ + dur_nanos_trunc(d) <= u64::MAX,
    ensures
        t.add_spec(d).sub_spec(d) == t,
        spec_checked_add(t, d) == Some(t.add_spec(d)),
        spec_checked_sub(t.add_spec(d), d) == Some(t),
{
}

/// The saturating elapsed reading exists for every pair of timestamps —
/// `saturating_duration_since` has no precondition, so it can never panic —
/// and it is the zero duration exactly where the checked reading yields no
/// value, and the true elapsed time everywhere else.
pub proof fn lemma_saturating_matches_checked(later: Instant, earlier: Instant)
    ensures
        spec_elapsed_defined(later, earlier) ==> spec_saturating_elapsed(later, earlier)
            == spec_elapsed(later, earlier),
        !spec_elapsed_defined(later, earlier) ==> spec_saturating_elapsed(later, earlier) == 0,
{
}

/// The ordering on timestamps is a strict total order consistent with
/// unsigned integer comparison of the underlying values: every pair
/// compares, the three outcomes hold exactly on the corresponding integer
/// comparisons, equality is equality of the integers, and the strict order
/// is transitive.
pub proof fn lemma_order_is_total(a: Instant, b: Instant, c: Instant)
    ensures
        a.partial_cmp_spec(&b) is Some,
        a.partial_cmp_spec(&b) == Some(Ordering::Less) <==> a@ < b@,
        a.partial_cmp_spec(&b) == Some(Ordering::Equal) <==> a@ == b@,
        a.partial_cmp_spec(&b) == Some(Ordering::Greater) <==> a@ > b@,
        a == b <==> a@ == b@,
        a.partial_cmp_spec(&b) == Some(Ordering::Less) && b.partial_cmp_spec(&c) == Some(
            Ordering::Less,
        ) ==> a.partial_cmp_spec(&c) == Some(Ordering::Less),
{
}

} // verus!
