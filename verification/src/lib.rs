//! Monotonic clock abstractions for deterministic elapsed-time measurement.
//!
//! [`MonotonicClock`] is a narrow trait over [`Instant`], with the production
//! adapter [`StdMonotonicClock`] backed by the host's monotonic clock.
//! Consumers inject the trait wherever elapsed time matters, and tests use the
//! deterministic clocks of [`test_util`] instead.
use vstd::prelude::*;

pub mod test_util;
pub mod time;

pub use time::{Duration, Instant};

verus! {

use crate::time::span;

/// The host's monotonic instant type, carried opaquely as a clock's origin.
#[verifier::external_type_specification]
#[verifier::external_body]
pub struct ExHostInstant(std::time::Instant);

/// What a clock states of the instants it reads.
pub enum Readings {
    /// Nothing is stated of a reading or of the clock after it.
    Unstated,
    /// The next readings are these instants, front first; a reading returns
    /// the front and removes it.
    Queued(Seq<Instant>),
    /// Every reading returns this instant and leaves the clock holding it.
    Held(Instant),
}

/// Whether a clock whose readings are described by `before` may return
/// `instant` from a reading and be described by `after` afterwards.
pub open spec fn reads(before: Readings, instant: Instant, after: Readings) -> bool {
    match before {
        Readings::Unstated => true,
        Readings::Queued(pending) => instant == pending[0] && after == Readings::Queued(
            pending.drop_first(),
        ),
        Readings::Held(held) => instant == held && after == Readings::Held(held),
    }
}

/// Clock abstraction for monotonic elapsed-time measurements.
///
/// Implement this trait when code needs to measure elapsed time without
/// depending directly on the host clock. A clock is read through `&mut self`,
/// so a clock that hands out pre-seeded instants states its remaining
/// readings in its contract.
pub trait MonotonicClock: Send + Sync {
    /// Whether the clock can produce a reading in its current state; a clock
    /// that can always be read keeps this default.
    open spec fn is_readable(&self) -> bool {
        true
    }

    /// What the clock states of its readings; a clock that states nothing of
    /// them keeps this default.
    open spec fn readings(&self) -> Readings {
        Readings::Unstated
    }

    /// Returns the current monotonic instant.
    #[must_use]
    fn now(&mut self) -> (instant: Instant)
        requires
            old(self).is_readable(),
        ensures
            reads(old(self).readings(), instant, final(self).readings()),
    ;
}

/// Convenience methods for [`MonotonicClock`] implementations.
///
/// This is only elapsed-time measurement: callers keep ownership of sleeping,
/// deadlines, retries and any logical-time policy.
pub trait MonotonicClockExt: MonotonicClock {
    /// Takes one reading of the clock and returns the duration from
    /// `started_at` to it, or zero where the reading comes before `started_at`.
    #[must_use]
    fn elapsed_since(&mut self, started_at: Instant) -> (elapsed: Duration)
        requires
            old(self).is_readable(),
        ensures
            exists|reading: Instant|
                #[trigger] reads(old(self).readings(), reading, final(self).readings())
                    && elapsed@ == span(reading@, started_at@),
    {
        let reading = self.now();
        reading.duration_since(started_at)
    }
}

impl<T: MonotonicClock + ?Sized> MonotonicClockExt for T {}

/// Reads the host's monotonic clock: `std::time::Instant::now`.
///
/// The result depends on the time of the call, so nothing is stated of it.
#[verifier::external_body]
fn host_clock_now() -> std::time::Instant {
    std::time::Instant::now()
}

/// Time elapsed on the host's monotonic clock since `origin`:
/// `std::time::Instant::elapsed`.
///
/// The result depends on the time of the call, so nothing is stated of it;
/// in particular that two readings from one origin never decrease is the
/// host clock's guarantee and is left unsaid.
#[verifier::external_body]
fn host_elapsed(origin: &std::time::Instant) -> std::time::Duration {
    origin.elapsed()
}

/// The longest host duration in nanoseconds: `u64::MAX` whole seconds, the
/// range of `Duration::as_secs`, and `999_999_999` more, the largest value of
/// `Duration::subsec_nanos`.
pub open spec fn longest_host_nanos() -> nat {
    u64::MAX as nat * 1_000_000_000 + 999_999_999
}

/// The whole of a host duration in nanoseconds: `Duration::as_nanos`.
///
/// States only the bound that std documents for every duration: whole
/// seconds fit in a `u64` (`as_secs`) and the fraction is under one second
/// (`subsec_nanos`). Which value the host duration holds is opaque here.
#[verifier::external_body]
fn host_duration_nanos(duration: &std::time::Duration) -> (nanos: u128)
    ensures
        nanos <= longest_host_nanos(),
{
    duration.as_nanos()
}

/// Monotonic clock backed by the host's monotonic clock.
///
/// Its timeline starts where the clock was created: readings are the time
/// elapsed since then.
#[derive(Clone, Copy, Debug)]
pub struct StdMonotonicClock {
    origin: std::time::Instant,
}

impl StdMonotonicClock {
    /// Creates a clock whose timeline starts now.
    pub fn new() -> (clock: Self) {
        StdMonotonicClock { origin: host_clock_now() }
    }
}

impl Default for StdMonotonicClock {
    fn default() -> (clock: Self) {
        Self::new()
    }
}

impl MonotonicClock for StdMonotonicClock {
    /// Reads the host's monotonic clock: the time elapsed since the clock's
    /// origin, which is never longer than the longest host duration.
    fn now(&mut self) -> (instant: Instant)
        ensures
            *final(self) == *old(self),
            instant@ <= longest_host_nanos(),
    {
        let elapsed = host_elapsed(&self.origin);
        Instant::from_nanos(host_duration_nanos(&elapsed))
    }
}

/// A reading of the host clock leaves room for every duration of at most
/// `u128::MAX - longest_host_nanos()` nanoseconds after it.
pub proof fn lemma_host_reading_leaves_room(reading: Instant, duration: Duration)
    requires
        reading@ <= longest_host_nanos(),
        duration@ <= u128::MAX - longest_host_nanos(),
    ensures
        crate::time::representable(reading, duration),
{
}

} // verus!
