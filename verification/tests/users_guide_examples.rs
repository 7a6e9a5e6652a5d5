//! Executable examples from the users' guide.

use monotony::test_util::{FixedMonotonicClock, ManualMonotonicClock, QueuedMonotonicClock};
use monotony::{Duration, Instant, MonotonicClock, StdMonotonicClock};

fn measure_elapsed(clock: &mut dyn MonotonicClock) -> Duration {
    let started_at = clock.now();
    clock.now().duration_since(started_at)
}

#[test]
fn guide_measures_elapsed_time_with_standard_clock() {
    let elapsed = measure_elapsed(&mut StdMonotonicClock::new());

    assert!(elapsed >= Duration::zero());
}

#[test]
fn guide_measures_fixed_elapsed_time() {
    let mut clock = FixedMonotonicClock::with_elapsed(Duration::from_millis(250)).unwrap();

    assert_eq!(measure_elapsed(&mut clock), Duration::from_millis(250));
}

#[test]
fn guide_collects_queued_instants() {
    let first = StdMonotonicClock::new().now();
    let second = first.checked_add(Duration::from_millis(10)).unwrap();
    let third = second.checked_add(Duration::from_millis(20)).unwrap();
    let mut clock = QueuedMonotonicClock::from_instants(vec![first, second, third]);

    assert_eq!(collect_ticks(&mut clock, 3), vec![first, second, third]);
}

fn collect_ticks(clock: &mut dyn MonotonicClock, count: usize) -> Vec<Instant> {
    (0..count).map(|_| clock.now()).collect()
}

#[test]
fn guide_advances_manual_time() {
    let started_at = StdMonotonicClock::new().now();
    let mut clock = ManualMonotonicClock::new(started_at);

    assert!(!has_timed_out(&mut clock, started_at));

    clock.advance(Duration::from_secs(5));

    assert!(has_timed_out(&mut clock, started_at));
}

fn has_timed_out(clock: &mut dyn MonotonicClock, started_at: Instant) -> bool {
    clock.now().duration_since(started_at) >= Duration::from_secs(5)
}

trait Sleeper {
    fn sleep(&mut self, duration: Duration);
}

/// A manual clock that the sleeper and the waiter observe together.
#[derive(Clone)]
struct SharedClock {
    clock: std::sync::Arc<std::sync::Mutex<ManualMonotonicClock>>,
}

impl SharedClock {
    fn new(instant: Instant) -> Self {
        Self {
            clock: std::sync::Arc::new(std::sync::Mutex::new(ManualMonotonicClock::new(instant))),
        }
    }

    fn advance(&self, duration: Duration) {
        self.clock.lock().unwrap().advance(duration);
    }
}

impl MonotonicClock for SharedClock {
    fn now(&mut self) -> Instant {
        self.clock.lock().unwrap().now()
    }
}

struct AdvancingSleeper {
    clock: SharedClock,
    total_slept: Duration,
    sleep_durations: Vec<Duration>,
}

impl AdvancingSleeper {
    fn new(clock: SharedClock) -> Self {
        Self {
            clock,
            total_slept: Duration::zero(),
            sleep_durations: Vec::new(),
        }
    }
}

impl Sleeper for AdvancingSleeper {
    fn sleep(&mut self, duration: Duration) {
        self.clock.advance(duration);
        self.total_slept = self.total_slept.checked_add(duration).unwrap();
        self.sleep_durations.push(duration);
    }
}

#[derive(Clone, Copy, Debug)]
struct WaitPolicy {
    timeout: Duration,
    interval: Duration,
}

fn wait_until_timeout(
    clock: &mut dyn MonotonicClock,
    sleeper: &mut dyn Sleeper,
    started_at: Instant,
    policy: WaitPolicy,
) {
    assert!(
        policy.interval > Duration::zero(),
        "wait interval must be greater than zero"
    );

    loop {
        let elapsed = clock.now().duration_since(started_at);

        if elapsed >= policy.timeout {
            break;
        }

        let remaining = policy.timeout.saturating_sub(elapsed);

        sleeper.sleep(remaining.min(policy.interval));
    }
}

#[test]
fn guide_pairs_clock_with_consumer_owned_sleeper() {
    let started_at = StdMonotonicClock::new().now();
    let mut observed_clock = SharedClock::new(started_at);
    let mut sleeper = AdvancingSleeper::new(observed_clock.clone());

    wait_until_timeout(
        &mut observed_clock,
        &mut sleeper,
        started_at,
        WaitPolicy {
            timeout: Duration::from_secs(5),
            interval: Duration::from_secs(1),
        },
    );

    assert_eq!(sleeper.total_slept, Duration::from_secs(5));
    assert!(has_timed_out(&mut observed_clock, started_at));
}

#[test]
fn guide_clamps_final_sleep_to_remaining_timeout() {
    let started_at = StdMonotonicClock::new().now();
    let mut observed_clock = SharedClock::new(started_at);
    let mut sleeper = AdvancingSleeper::new(observed_clock.clone());

    wait_until_timeout(
        &mut observed_clock,
        &mut sleeper,
        started_at,
        WaitPolicy {
            timeout: Duration::from_secs(5),
            interval: Duration::from_secs(2),
        },
    );

    assert_eq!(
        sleeper.sleep_durations,
        vec![
            Duration::from_secs(2),
            Duration::from_secs(2),
            Duration::from_secs(1)
        ]
    );
    assert_eq!(sleeper.total_slept, Duration::from_secs(5));
}

#[test]
#[should_panic(expected = "wait interval must be greater than zero")]
fn guide_rejects_zero_sleep_interval() {
    let started_at = StdMonotonicClock::new().now();
    let mut observed_clock = SharedClock::new(started_at);
    let mut sleeper = AdvancingSleeper::new(observed_clock.clone());

    wait_until_timeout(
        &mut observed_clock,
        &mut sleeper,
        started_at,
        WaitPolicy {
            timeout: Duration::from_secs(5),
            interval: Duration::zero(),
        },
    );
}

#[test]
fn guide_waiter_reaches_timeout_without_oversleeping() {
    let cases: [(u64, u64); 6] = [(0, 1), (1, 1), (5, 3), (999, 1_000), (9_999, 999), (7_000, 7)];
    for (timeout_millis, interval_millis) in cases {
        let started_at = StdMonotonicClock::new().now();
        let mut observed_clock = SharedClock::new(started_at);
        let mut sleeper = AdvancingSleeper::new(observed_clock.clone());
        let timeout = Duration::from_millis(timeout_millis);
        let interval = Duration::from_millis(interval_millis);

        wait_until_timeout(
            &mut observed_clock,
            &mut sleeper,
            started_at,
            WaitPolicy { timeout, interval },
        );

        assert_eq!(sleeper.total_slept, timeout);
        assert!(sleeper
            .sleep_durations
            .iter()
            .all(|duration| *duration > Duration::zero() && *duration <= interval));
        assert!(observed_clock.now().duration_since(started_at) >= timeout);
    }
}
