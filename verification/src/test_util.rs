//! Deterministic monotonic clocks for tests.
//!
//! These clocks let a test decide exactly which instants code under test
//! observes: a fixed elapsed duration, a queue of pre-seeded instants, or a
//! clock that moves only when the test advances it.
use std::collections::VecDeque;

use vstd::prelude::*;

use crate::time::{Duration, Instant, representable, span};
use crate::{lemma_host_reading_leaves_room, longest_host_nanos, MonotonicClock, Readings, StdMonotonicClock};

verus! {

broadcast use {crate::time::lemma_duration_fits, crate::time::lemma_instant_fits};

/// Deterministic clock that returns a queue of pre-seeded instants.
///
/// Each reading takes the front of the queue. A clock whose queue is empty
/// cannot be read: `now` requires a remaining instant.
#[derive(Debug)]
pub struct QueuedMonotonicClock {
    instants: VecDeque<Instant>,
}

impl View for QueuedMonotonicClock {
    type V = Seq<Instant>;

    /// The instants still to be returned, front first.
    closed spec fn view(&self) -> Seq<Instant> {
        self.instants@
    }
}

impl QueuedMonotonicClock {
    /// Creates a clock that returns `instants` in their order.
    #[must_use]
    pub fn from_instants(instants: Vec<Instant>) -> (clock: Self)
        ensures
            clock@ == instants@,
    {
        let mut queue: VecDeque<Instant> = VecDeque::new();
        let mut i: usize = 0;
        while i < instants.len()
            invariant
                i <= instants.len(),
                queue@ == instants@.take(i as int),
            decreases instants.len() - i,
        {
            queue.push_back(instants[i]);
            i = i + 1;
            assert(queue@ == instants@.take(i as int));
        }
        assert(instants@.take(instants.len() as int) == instants@);
        QueuedMonotonicClock { instants: queue }
    }
}

impl MonotonicClock for QueuedMonotonicClock {
    /// A queued clock can be read while instants remain.
    open spec fn is_readable(&self) -> bool {
        self@.len() > 0
    }

    /// A queued clock reads its remaining instants in order.
    open spec fn readings(&self) -> Readings {
        Readings::Queued(self@)
    }

    /// Returns the front of the queue and removes it.
    fn now(&mut self) -> (instant: Instant)
        ensures
            instant == old(self)@[0],
            final(self)@ == old(self)@.drop_first(),
    {
        let next_instant = self.instants.pop_front();
        next_instant.expect("queued monotonic clock exhausted: no instant available")
    }
}

/// Returns `instant` advanced by `duration`; the sum must stay on the timeline.
fn add_duration(instant: Instant, duration: Duration) -> (advanced: Instant)
    requires
        representable(instant, duration),
    ensures
        advanced@ == instant@ + duration@,
{
    instant.checked_add(duration).expect("monotonic clock instant overflowed while advancing")
}

/// Deterministic clock that reports one configured elapsed duration.
///
/// The clock serves code that calls [`MonotonicClock::now`] exactly twice,
/// once before work starts and once after it ends; its timeline starts at the
/// origin.
#[derive(Debug)]
pub struct FixedMonotonicClock {
    clock: QueuedMonotonicClock,
}

impl View for FixedMonotonicClock {
    type V = Seq<Instant>;

    /// The readings still to be returned, front first.
    closed spec fn view(&self) -> Seq<Instant> {
        self.clock@
    }
}

impl FixedMonotonicClock {
    /// Creates a fixed clock whose readings are `started_at` and the instant
    /// `elapsed` after it; that instant must lie on the timeline.
    #[must_use]
    pub fn starting_at(started_at: Instant, elapsed: Duration) -> (clock: Self)
        requires
            representable(started_at, elapsed),
        ensures
            clock@.len() == 2,
            clock@[0] == started_at,
            clock@[1]@ == started_at@ + elapsed@,
    {
        let finished_at = add_duration(started_at, elapsed);
        FixedMonotonicClock { clock: QueuedMonotonicClock::from_instants(vec![started_at, finished_at]) }
    }

    /// Creates a fixed clock that reports `elapsed` between its two readings,
    /// starting at a reading of the host's monotonic clock taken now.
    ///
    /// Returns `None` only where no instant lies `elapsed` after that reading,
    /// which needs an `elapsed` longer than `u128::MAX - longest_host_nanos()`.
    #[must_use]
    pub fn with_elapsed(elapsed: Duration) -> (r: Option<Self>)
        ensures
            elapsed@ <= u128::MAX - longest_host_nanos() ==> r is Some,
            r matches Some(clock) ==> clock@[0]@ <= longest_host_nanos(),
            exists|started_at: Instant|
                match r {
                    Some(clock) => #[trigger] representable(started_at, elapsed) && clock@.len()
                        == 2 && clock@[0] == started_at && clock@[1]@ == started_at@ + elapsed@,
                    None => !representable(started_at, elapsed),
                },
    {
        let mut host = StdMonotonicClock::new();
        let started_at = host.now();
        proof {
            if elapsed@ <= u128::MAX - longest_host_nanos() {
                lemma_host_reading_leaves_room(started_at, elapsed);
            }
        }
        match started_at.checked_add(elapsed) {
            Some(_) => Some(Self::starting_at(started_at, elapsed)),
            None => None,
        }
    }
}

impl MonotonicClock for FixedMonotonicClock {
    /// A fixed clock can be read twice.
    open spec fn is_readable(&self) -> bool {
        self@.len() > 0
    }

    /// A fixed clock reads its remaining readings in order.
    open spec fn readings(&self) -> Readings {
        Readings::Queued(self@)
    }

    /// Returns the next of the two readings.
    fn now(&mut self) -> (instant: Instant)
        ensures
            instant == old(self)@[0],
            final(self)@ == old(self)@.drop_first(),
    {
        self.clock.now()
    }
}

/// Deterministic clock that advances only when it is explicitly moved.
///
/// Useful for polling loops and timeout code where the test controls time
/// between observations.
#[derive(Debug)]
pub struct ManualMonotonicClock {
    current: Instant,
}

impl View for ManualMonotonicClock {
    type V = Instant;

    /// The instant the clock currently reads.
    closed spec fn view(&self) -> Instant {
        self.current
    }
}

impl ManualMonotonicClock {
    /// Creates a manual clock starting at `instant`.
    #[must_use]
    pub fn new(instant: Instant) -> (clock: Self)
        ensures
            clock@ == instant,
    {
        ManualMonotonicClock { current: instant }
    }

    /// Advances the current instant by `duration`, which must keep it on the
    /// timeline.
    pub fn advance(&mut self, duration: Duration)
        requires
            representable(old(self)@, duration),
        ensures
            final(self)@@ == old(self)@@ + duration@,
    {
        self.current = add_duration(self.current, duration);
    }
}

impl MonotonicClock for ManualMonotonicClock {
    /// A manual clock reads its current instant and is not moved by reading.
    open spec fn readings(&self) -> Readings {
        Readings::Held(self@)
    }

    /// Returns the current instant; reading does not move the clock.
    fn now(&mut self) -> (instant: Instant)
        ensures
            instant == old(self)@,
            final(self)@ == old(self)@,
    {
        self.current
    }
}

/// The readings a fixed clock starts with, those of `starting_at` or
/// `with_elapsed`, are `elapsed` apart, and after both are taken none is
/// left: a third reading is ruled out.
pub proof fn lemma_fixed_clock_reads_twice(readings: Seq<Instant>, elapsed: Duration)
    requires
        readings.len() == 2,
        readings[1]@ == readings[0]@ + elapsed@,
    ensures
        span(readings[1]@, readings[0]@) == elapsed@,
        readings.drop_first()[0] == readings[1],
        readings.drop_first().drop_first().len() == 0,
{
}

/// A queued clock built from `seeded` and read `k` times holds the instants
/// of `seeded` from position `k` on: its next reading is `seeded[k]`, after
/// which it holds those from position `k + 1` on.
pub proof fn lemma_queue_reads_in_order(seeded: Seq<Instant>, k: int)
    requires
        0 <= k < seeded.len(),
    ensures
        seeded.skip(k).len() > 0,
        seeded.skip(k)[0] == seeded[k],
        seeded.skip(k).drop_first() == seeded.skip(k + 1),
        seeded.skip(0) == seeded,
{
    assert(seeded.skip(k).drop_first() =~= seeded.skip(k + 1));
    assert(seeded.skip(0) =~= seeded);
}

/// When the seeded instants never decrease, neither do the readings: the
/// reading at position `k` is no earlier than any reading before it.
pub proof fn lemma_queue_readings_monotone(seeded: Seq<Instant>, j: int, k: int)
    requires
        forall|a: int, b: int| 0 <= a <= b < seeded.len() ==> seeded[a]@ <= seeded[b]@,
        0 <= j <= k < seeded.len(),
    ensures
        seeded.skip(j)[0]@ <= seeded.skip(k)[0]@,
{
}

} // verus!
