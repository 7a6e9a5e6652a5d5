# monotony

Injectable monotonic clocks with verified deterministic test clocks.

- `src/time.rs`: `Instant` and `Duration`, held as nanoseconds on a clock's
  own timeline, with checked and saturating arithmetic and the laws it keeps.
- `src/lib.rs`: the `MonotonicClock` trait, its `MonotonicClockExt`
  extension, and `StdMonotonicClock`, which reads the host's monotonic clock
  and measures from the moment the clock was created.
- `src/test_util.rs`: `QueuedMonotonicClock`, `FixedMonotonicClock` and
  `ManualMonotonicClock`, whose readings are stated exactly in their
  contracts.
- `app/lib.rs`: `SharedManualMonotonicClock`, a manual clock shared between
  handles through a lock.

Clocks are read through `&mut self`, so a clock's remaining readings are part
of its state and its contract; a queued clock with no instants left cannot be
read.
