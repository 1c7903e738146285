//! Tests of the clock and of deadlines.

use adele_voice::time::{Clock, Duration, Instant};

#[test]
fn a_clock_counts_from_its_start() {
    let clock = Clock::start();
    let first = clock.now();
    let second = clock.now();
    assert!(first.nanos <= second.nanos);
    assert!(second.duration_since(first).nanos < Duration::from_secs(3_600).nanos);
    assert!(second.nanos < Duration::from_secs(3_600).nanos);
}

#[test]
fn a_clock_goes_on() {
    let clock = Clock::start();
    let first = clock.now();
    while clock.now().nanos <= first.nanos {}
    assert!(clock.now().duration_since(first).nanos > 0);
}

#[test]
fn deadlines_are_exact() {
    let last_reading = Instant { nanos: (u64::MAX as u128 + 1) * 1_000_000_000 - 1 };
    let longest = Duration::from_secs(u64::MAX);
    let deadline = last_reading.plus(longest);
    assert_eq!(deadline.nanos, last_reading.nanos + longest.nanos);
    assert_eq!(deadline.duration_since(last_reading), longest);
    // The last point there is has none behind it.
    assert_eq!(Instant { nanos: u128::MAX }.plus(longest), Instant { nanos: u128::MAX });
}
