//! Instants and durations on a monotonic timeline, measured in nanoseconds.
use vstd::prelude::*;

verus! {

/// Nanoseconds from `earlier` to `later`, or zero when `earlier` comes after `later`.
pub open spec fn span(later: nat, earlier: nat) -> nat {
    if earlier <= later {
        (later - earlier) as nat
    } else {
        0
    }
}

/// A span of monotonic time with nanosecond precision.
#[derive(Clone, Copy, Debug, PartialEq, Eq, Structural, PartialOrd, Ord, Hash)]
pub struct Duration {
    nanos: u128,
}

impl View for Duration {
    type V = nat;

    closed spec fn view(&self) -> nat {
        self.nanos as nat
    }
}

/// A duration's nanoseconds fit in a `u128`.
pub broadcast proof fn lemma_duration_fits(d: Duration)
    ensures
        #[trigger] d@ <= u128::MAX,
{
}

/// An instant's nanoseconds fit in a `u128`.
pub broadcast proof fn lemma_instant_fits(i: Instant)
    ensures
        #[trigger] i@ <= u128::MAX,
{
}

impl Duration {
    /// The empty duration.
    pub fn zero() -> (d: Duration)
        ensures
            d@ == 0,
    {
        Duration { nanos: 0 }
    }

    /// A duration of `nanos` nanoseconds.
    pub fn from_nanos(nanos: u64) -> (d: Duration)
        ensures
            d@ == nanos,
    {
        Duration { nanos: nanos as u128 }
    }

    /// A duration of `millis` milliseconds.
    pub fn from_millis(millis: u64) -> (d: Duration)
        ensures
            d@ == millis * 1_000_000,
    {
        Duration { nanos: (millis as u128) * 1_000_000 }
    }

    /// A duration of `secs` seconds.
    pub fn from_secs(secs: u64) -> (d: Duration)
        ensures
            d@ == secs * 1_000_000_000,
    {
        Duration { nanos: (secs as u128) * 1_000_000_000 }
    }

    /// The sum of `self` and `other`, or `None` where it does not fit.
    pub fn checked_add(self, other: Duration) -> (r: Option<Duration>)
        ensures
            match r {
                Some(sum) => self@ + other@ <= u128::MAX && sum@ == self@ + other@,
                None => self@ + other@ > u128::MAX,
            },
    {
        match self.nanos.checked_add(other.nanos) {
            Some(nanos) => Some(Duration { nanos }),
            None => None,
        }
    }

    /// `self` less `other`, or zero where `other` is the longer.
    pub fn saturating_sub(self, other: Duration) -> (r: Duration)
        ensures
            r@ == span(self@, other@),
    {
        if other.nanos <= self.nanos {
            Duration { nanos: self.nanos - other.nanos }
        } else {
            Duration { nanos: 0 }
        }
    }

    /// The whole duration in nanoseconds.
    pub fn as_nanos(&self) -> (n: u128)
        ensures
            n == self@,
    {
        self.nanos
    }
}

/// A point on a monotonic timeline, held as nanoseconds from the timeline's origin.
///
/// Instants are totally ordered by their distance from the origin; every
/// timeline is the timeline of one clock, so instants read from different
/// clocks are not meant to be compared.
#[derive(Clone, Copy, Debug, PartialEq, Eq, Structural, PartialOrd, Ord, Hash)]
pub struct Instant {
    nanos: u128,
}

impl View for Instant {
    type V = nat;

    closed spec fn view(&self) -> nat {
        self.nanos as nat
    }
}

/// Whether `duration` can be added to `instant` without leaving the timeline.
pub open spec fn representable(instant: Instant, duration: Duration) -> bool {
    instant@ + duration@ <= u128::MAX
}

impl Instant {
    /// The instant `nanos` nanoseconds after the timeline's origin.
    pub fn from_nanos(nanos: u128) -> (i: Instant)
        ensures
            i@ == nanos,
    {
        Instant { nanos }
    }

    /// The origin of the timeline.
    pub fn origin() -> (i: Instant)
        ensures
            i@ == 0,
    {
        Instant { nanos: 0 }
    }

    /// Nanoseconds from the timeline's origin to this instant.
    pub fn as_nanos(&self) -> (n: u128)
        ensures
            n == self@,
    {
        self.nanos
    }

    /// The instant `duration` after `self`, or `None` where that instant is
    /// past the end of the timeline.
    pub fn checked_add(self, duration: Duration) -> (r: Option<Instant>)
        ensures
            match r {
                Some(later) => representable(self, duration) && later@ == self@ + duration@,
                None => !representable(self, duration),
            },
    {
        match self.nanos.checked_add(duration.nanos) {
            Some(nanos) => Some(Instant { nanos }),
            None => None,
        }
    }

    /// The time elapsed from `earlier` to `self`, or zero where `earlier`
    /// comes after `self`.
    pub fn duration_since(self, earlier: Instant) -> (d: Duration)
        ensures
            d@ == span(self@, earlier@),
    {
        if earlier.nanos <= self.nanos {
            Duration { nanos: self.nanos - earlier.nanos }
        } else {
            Duration { nanos: 0 }
        }
    }
}

/// Two instants with the same nanoseconds are the same instant.
pub proof fn lemma_instant_view_eq(a: Instant, b: Instant)
    requires
        a@ == b@,
    ensures
        a == b,
{
}

/// Two durations with the same nanoseconds are the same duration.
pub proof fn lemma_duration_view_eq(a: Duration, b: Duration)
    requires
        a@ == b@,
    ensures
        a == b,
{
}

/// Advancing an instant by zero leaves it where it was.
pub proof fn lemma_advance_by_zero(start: Instant, zero: Duration)
    requires
        zero@ == 0,
    ensures
        representable(start, zero),
        start@ + zero@ == start@,
{
}

/// Two advances give the same instant in either order, and the same as one
/// advance by their sum.
pub proof fn lemma_advances_commute(start: Instant, first: Duration, second: Duration)
    requires
        start@ + first@ + second@ <= u128::MAX,
    ensures
        representable(start, first),
        representable(start, second),
        (start@ + first@) + second@ == (start@ + second@) + first@,
        (start@ + first@) + second@ == start@ + (first@ + second@),
{
}

/// Advancing by a longer duration reaches a later instant, and two advances
/// reach the same instant exactly when the durations are the same.
pub proof fn lemma_advance_monotone(start: Instant, shorter: Duration, longer: Duration)
    requires
        shorter@ <= longer@,
        representable(start, longer),
    ensures
        representable(start, shorter),
        start@ + shorter@ <= start@ + longer@,
        (start@ + shorter@ == start@ + longer@) <==> shorter == longer,
{
    if shorter@ == longer@ {
        lemma_duration_view_eq(shorter, longer);
    }
}

/// Measuring from an instant to the instant `duration` after it gives back
/// `duration`.
pub proof fn lemma_measure_after_advance(start: Instant, duration: Duration)
    requires
        representable(start, duration),
    ensures
        span(start@ + duration@, start@) == duration@,
{
}

/// Advancing by `first` and then by `second`, and measuring from the start,
/// gives their sum.
pub proof fn lemma_advances_accumulate(start: Instant, first: Duration, second: Duration)
    requires
        start@ + first@ + second@ <= u128::MAX,
    ensures
        span((start@ + first@) + second@, start@) == first@ + second@,
{
}

/// Measuring from `started_at` to a reading that does not come after it
/// gives zero.
pub proof fn lemma_measure_backwards_is_zero(reading: Instant, started_at: Instant)
    requires
        reading@ <= started_at@,
    ensures
        span(reading@, started_at@) == 0,
{
}

} // verus!
