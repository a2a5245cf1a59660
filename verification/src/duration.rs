//! A mathematical model of `std::time::Duration`, the operand type for
//! timestamp arithmetic.
//!
//! A `Duration` holds a whole-second count and a sub-second nanosecond
//! count. The two uninterpreted functions below name those contents, so that
//! contracts elsewhere can speak of a duration's total length in
//! nanoseconds. Every fact assumed about `Duration` itself lives in this
//! module, in the `assume_specification` items for its methods.

use std::time::Duration;
use vstd::arithmetic::div_mod::lemma_fundamental_div_mod;
use vstd::prelude::*;

verus! {

pub const NANOS_PER_SEC: u64 = 1_000_000_000;

/// The whole-second count a `Duration` holds.
pub uninterp spec fn dur_secs(d: Duration) -> u64;

/// The sub-second nanosecond count a `Duration` holds; always below one
/// billion.
pub uninterp spec fn dur_subsec_nanos(d: Duration) -> u32;

/// The total length of a duration, in nanoseconds.
pub open spec fn dur_nanos(d: Duration) -> int {
    dur_secs(d) * NANOS_PER_SEC + dur_subsec_nanos(d)
}

/// The nanosecond count a duration contributes to timestamp arithmetic: its
/// total length, truncated to the low 64 bits, exactly as a lossy cast of
/// the 128-bit total to `u64` truncates it.
pub open spec fn dur_nanos_trunc(d: Duration) -> u64 {
    (dur_nanos(d) % 0x1_0000_0000_0000_0000) as u64
}

/// Relies on `Duration::from_nanos`: the whole-second part of the result is
/// the nanosecond count divided by one billion, and the sub-second part is
/// the remainder.
pub assume_specification [ Duration::from_nanos ](nanos: u64) -> (d: Duration)
    ensures
        dur_secs(d) == nanos / NANOS_PER_SEC,
        dur_subsec_nanos(d) == nanos % NANOS_PER_SEC,
;

/// Relies on `Duration::as_nanos`: the result is the exact total length in
/// nanoseconds, which always fits in 128 bits.
pub assume_specification [ Duration::as_nanos ](d: &Duration) -> (n: u128)
    ensures
        n == dur_nanos(*d),
;

/// Relies on `Duration::as_secs`: the result is the whole-second part.
pub assume_specification [ Duration::as_secs ](d: &Duration) -> (s: u64)
    ensures
        s == dur_secs(*d),
;

/// Relies on `Duration::subsec_nanos`: the result is the sub-second part,
/// which is always below one billion.
pub assume_specification [ Duration::subsec_nanos ](d: &Duration) -> (n: u32)
    ensures
        n == dur_subsec_nanos(*d),
        n < NANOS_PER_SEC,
;

/// Builds the duration of exactly `nanos` nanoseconds.
pub fn duration_from_nanos_u64(nanos: u64) -> (d: Duration)
    ensures
        dur_secs(d) == nanos / NANOS_PER_SEC,
        dur_subsec_nanos(d) == nanos % NANOS_PER_SEC,
        dur_nanos(d) == nanos,
        dur_nanos_trunc(d) == nanos,
{
    let d = Duration::from_nanos(nanos);
    proof {
        lemma_fundamental_div_mod(nanos as int, NANOS_PER_SEC as int);
    }
    d
}

/// The duration's total nanosecond count, truncated to 64 bits, as the
/// arithmetic on a timestamp consumes it.
pub fn dur_to_nanos_u64(d: &Duration) -> (n: u64)
    ensures
        n == dur_nanos_trunc(*d),
{
    let wide: u128 = d.as_nanos();
    let n: u64 = #[verifier::truncate] (wide as u64);
    proof {
        assert((n as u128) == wide % 0x1_0000_0000_0000_0000u128) by (bit_vector)
            requires
                n == wide as u64,
        ;
    }
    n
}

} // verus!
