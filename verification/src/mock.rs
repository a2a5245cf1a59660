//! The mock clock mechanism: a shared, atomically-mutable offset register
//! under full test control, the per-thread slot holding the active
//! register, and the process-wide recent-time cache the fast path reads.
//!
//! Both the cache and the slot are explicit, injectable values rather than
//! ambient globals: an embedding that wants parameterless ergonomics keeps
//! one `RecentCache` per process and one `MockSlot` per thread and passes
//! them in.

use atomic_shim::AtomicU64;
use core::sync::atomic::Ordering;
use std::sync::Arc;
use std::time::Duration;
use vstd::prelude::*;

use crate::duration::dur_nanos_trunc;
use crate::duration::dur_to_nanos_u64;
use crate::instant::Instant;

verus! {

/// Type which can be converted into a nanosecond representation.
///
/// Lets users of [`Mock`] adjust the time both with raw integer values and
/// with the more convenient `Duration` type.
pub trait IntoNanoseconds: Sized {
    /// The nanosecond count this value stands for.
    spec fn nanos_spec(self) -> u64;

    /// Converts into a whole 64-bit nanosecond count.
    fn into_nanos(self) -> (r: u64)
        ensures
            r == self.nanos_spec(),
    ;
}

impl IntoNanoseconds for u64 {
    open spec fn nanos_spec(self) -> u64 {
        self
    }

    fn into_nanos(self) -> u64 {
        self
    }
}

impl IntoNanoseconds for Duration {
    open spec fn nanos_spec(self) -> u64 {
        dur_nanos_trunc(self)
    }

    fn into_nanos(self) -> u64 {
        dur_to_nanos_u64(&self)
    }
}

/// The capability interface of a calibrated clock source: a current-time
/// reading, and measurement-begin / measurement-end readings, all in raw
/// nanoseconds of reference time. A [`Mock`] is substitutable anywhere a
/// real source is expected; for a mock all three readings are the
/// register's current value.
pub trait ClockSource {
    /// The current time, in nanoseconds since the Unix epoch.
    fn now(&self) -> u64;

    /// A measurement-begin reading; a calibrated source may let this
    /// differ from `now`.
    fn start(&self) -> u64;

    /// A measurement-end reading.
    fn end(&self) -> u64;
}

/// Relies on `Arc::clone`: the returned handle refers to the same shared
/// allocation, so it carries the same value.
#[verifier::external_body]
fn share_register(register: &Arc<AtomicU64>) -> (shared: Arc<AtomicU64>)
    ensures
        shared == *register,
{
    register.clone()
}

/// Relies on `Arc::new` and `AtomicU64::new`: creating a register allocates
/// it fresh, so the result is a different register from the given existing
/// one. At the spec level a register is known only by identity, never by
/// its numeric contents.
#[verifier::external_body]
fn fresh_register(prev: &Arc<AtomicU64>) -> (fresh: Arc<AtomicU64>)
    ensures
        fresh != *prev,
{
    let _ = prev;
    Arc::new(AtomicU64::new(0))
}

/// A thread's active-register slot.
///
/// Each thread keeps exactly one. Before any `Mock` is created it holds a
/// private default register, frozen at `0`, that nothing else references;
/// creating a `Mock` against the slot replaces that register with the
/// mock's own, and that replacement is the only transition.
pub struct MockSlot {
    active: Arc<AtomicU64>,
}

impl MockSlot {
    /// A fresh slot on which no mock is active: it holds a default
    /// register at `0` that no handle outside the slot references.
    pub fn new() -> MockSlot {
        MockSlot { active: Arc::new(AtomicU64::new(0)) }
    }

    /// The register currently active in this slot.
    pub closed spec fn active_register(&self) -> Arc<AtomicU64> {
        self.active
    }
}

/// The process-wide recent-time cache: one shared 64-bit timestamp value,
/// starting at `0` ("not yet initialized") and written only by an external
/// upkeep mechanism. Clones share the same cell, so the upkeep mechanism
/// can hold one clone and writers of the fast path another.
#[derive(Clone)]
pub struct RecentCache {
    cell: Arc<AtomicU64>,
}

impl RecentCache {
    /// A fresh cache holding the unset value `0`.
    pub fn new() -> RecentCache {
        RecentCache { cell: Arc::new(AtomicU64::new(0)) }
    }

    /// The raw cached value; `0` means no value has been published yet.
    /// The cell is shared, so nothing can be promised of the value read.
    pub fn load_raw(&self) -> u64 {
        self.cell.load(Ordering::Relaxed)
    }

    /// Publishes a fresh timestamp; the external upkeep mechanism calls
    /// this periodically.
    pub fn store(&self, recent: Instant) {
        self.cell.store(recent.0, Ordering::Release);
    }
}

/// Controllable time source for use in tests.
///
/// A mocked clock lets the caller move the given time backwards and
/// forwards by whatever amount it chooses. Cloning shares the underlying
/// register rather than its current value: every handle derived from one
/// `Mock` observes the same timeline.
#[derive(Clone)]
pub struct Mock {
    offset: Arc<AtomicU64>,
}

impl Mock {
    /// Creates a fresh mock whose register starts at `0` and installs that
    /// register as the slot's active register, fully superseding whatever
    /// mock was active there before: the new register is not the one that
    /// was active, and after the call the slot holds the new one, so
    /// mutations through an earlier mock's handle no longer reach the
    /// slot's fast-path reads.
    pub fn new(slot: &mut MockSlot) -> (mock: Mock)
        ensures
            mock.register() == final(slot).active_register(),
            mock.register() != old(slot).active_register(),
    {
        let offset = fresh_register(&slot.active);
        slot.active = share_register(&offset);
        Mock { offset }
    }

    /// The shared register this handle references.
    pub closed spec fn register(&self) -> Arc<AtomicU64> {
        self.offset
    }

    /// Clones this handle with the sharing visible to contracts: the
    /// returned handle references the same register, so both observe one
    /// timeline. The derived `Clone` does the same but carries no
    /// contract.
    pub fn share(&self) -> (shared: Mock)
        ensures
            shared.register() == self.register(),
    {
        Mock { offset: share_register(&self.offset) }
    }

    /// The raw fallback value for a fast-path read: the current value of
    /// the slot's active register.
    pub(crate) fn recent(slot: &MockSlot) -> u64 {
        slot.active.load(Ordering::Acquire)
    }

    /// Increments the time by the given amount: one atomic, wrapping
    /// fetch-and-add on the shared register. The register may be shared
    /// with other handles and threads, so no contract here can pin the
    /// value it ends at; the deterministic single-thread behaviour is
    /// exercised by the test suite.
    pub fn increment<N: IntoNanoseconds>(&self, amount: N) {
        self.offset.fetch_add(amount.into_nanos(), Ordering::Release);
    }

    /// Decrements the time by the given amount: one atomic, wrapping
    /// fetch-and-subtract on the shared register.
    pub fn decrement<N: IntoNanoseconds>(&self, amount: N) {
        self.offset.fetch_sub(amount.into_nanos(), Ordering::Release);
    }

    /// Gets the current value of this `Mock`.
    pub fn value(&self) -> u64 {
        self.offset.load(Ordering::Acquire)
    }
}

impl ClockSource for Mock {
    fn now(&self) -> u64 {
        self.offset.load(Ordering::Acquire)
    }

    fn start(&self) -> u64 {
        self.now()
    }

    fn end(&self) -> u64 {
        self.now()
    }
}

} // verus!
