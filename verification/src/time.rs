//! Lengths of time and points in time, counted in nanoseconds, and a clock.

use vstd::prelude::*;

verus! {

/// A length of time.
#[derive(Clone, Copy, Debug, PartialEq, Eq, PartialOrd, Ord, Hash, Structural)]
pub struct Duration {
    pub nanos: u128,
}

/// A point in time, as the time passed since some fixed origin.
#[derive(Clone, Copy, Debug, PartialEq, Eq, PartialOrd, Ord, Hash, Structural)]
pub struct Instant {
    pub nanos: u128,
}

/// The length of time from `earlier` to `later`; nothing where `later` comes
/// first.
pub open spec fn elapsed(earlier: Instant, later: Instant) -> nat {
    if later.nanos >= earlier.nanos {
        (later.nanos - earlier.nanos) as nat
    } else {
        0
    }
}

/// The point `d` after `t`, or the last point there is.
pub open spec fn later_by(t: Instant, d: Duration) -> Instant {
    Instant {
        nanos: if t.nanos + d.nanos > u128::MAX {
            u128::MAX
        } else {
            (t.nanos + d.nanos) as u128
        },
    }
}

impl Duration {
    pub fn from_nanos(nanos: u64) -> (d: Duration)
        ensures
            d.nanos == nanos,
    {
        Duration { nanos: nanos as u128 }
    }

    pub fn from_millis(millis: u64) -> (d: Duration)
        ensures
            d.nanos == millis * 1_000_000,
    {
        Duration { nanos: millis as u128 * 1_000_000 }
    }

    pub fn from_secs(secs: u64) -> (d: Duration)
        ensures
            d.nanos == secs * 1_000_000_000,
    {
        Duration { nanos: secs as u128 * 1_000_000_000 }
    }

    pub fn is_zero(self) -> (b: bool)
        ensures
            b == (self.nanos == 0),
    {
        self.nanos == 0
    }
}

impl Instant {
    /// How long ago `earlier` was at this point; nothing where it is still to
    /// come.
    pub fn duration_since(self, earlier: Instant) -> (d: Duration)
        ensures
            d.nanos == elapsed(earlier, self),
    {
        if self.nanos >= earlier.nanos {
            Duration { nanos: self.nanos - earlier.nanos }
        } else {
            Duration { nanos: 0 }
        }
    }

    /// The point `d` later.
    pub fn plus(self, d: Duration) -> (t: Instant)
        ensures
            t == later_by(self, d),
    {
        match self.nanos.checked_add(d.nanos) {
            Some(nanos) => Instant { nanos },
            None => Instant { nanos: u128::MAX },
        }
    }
}

/// `std::time::Instant`, a reading of the system's monotonic clock. Nothing is
/// known of what a reading holds.
#[verifier::external_type_specification]
#[verifier::external_body]
pub struct ExStdInstant(std::time::Instant);

/// `std::time::Instant::now` reads the monotonic clock. Nothing is claimed of
/// the reading.
#[verifier::external_body]
fn read_clock() -> std::time::Instant {
    std::time::Instant::now()
}

/// Whether a clock can show this point: whole seconds in a `u64`, and less than
/// another one.
pub open spec fn is_readable(t: Instant) -> bool {
    t.nanos < (u64::MAX + 1) * 1_000_000_000
}

/// `std::time::Instant::elapsed` is the time passed since the reading, here in
/// nanoseconds. How long it is rests on the system; claimed is only that, as any
/// `std::time::Duration`, it has whole seconds that a `u64` holds and less than a
/// second besides.
#[verifier::external_body]
fn nanos_since(reading: &std::time::Instant) -> (nanos: u128)
    ensures
        nanos < (u64::MAX + 1) * 1_000_000_000,
{
    reading.elapsed().as_nanos()
}

/// A clock whose points in time are counted from its creation.
#[derive(Clone, Copy)]
pub struct Clock {
    origin: std::time::Instant,
}

impl Clock {
    /// A clock that starts now. What its origin is rests on the system.
    pub fn start() -> Clock {
        Clock { origin: read_clock() }
    }

    /// The time passed since the clock was started. It is always far from the
    /// last point there is, so that deadlines counted from it are exact.
    pub fn now(&self) -> (t: Instant)
        ensures
            is_readable(t),
    {
        Instant { nanos: nanos_since(&self.origin) }
    }
}

/// A deadline counted from a clock's reading is exact: whichever number of
/// milliseconds, or of seconds, lies between them, it is never cut short.
pub proof fn law_deadlines_are_exact(t: Instant, d: Duration)
    requires
        is_readable(t),
        d.nanos <= u64::MAX * 1_000_000_000,
    ensures
        later_by(t, d).nanos == t.nanos + d.nanos,
        elapsed(t, later_by(t, d)) == d.nanos,
{
}

/// Time passes evenly: so many nanoseconds later, so many have passed; before a
/// point in time none have. A point in time is never put off beyond the last one
/// there is.
pub proof fn law_time_passes(t: Instant, n: int)
    requires
        0 <= t.nanos + n <= u128::MAX,
    ensures
        n >= 0 ==> elapsed(t, Instant { nanos: (t.nanos + n) as u128 }) == n,
        n <= 0 ==> elapsed(t, Instant { nanos: (t.nanos + n) as u128 }) == 0,
        n >= 0 ==> later_by(t, Duration { nanos: n as u128 }) == (Instant {
            nanos: (t.nanos + n) as u128,
        }),
        later_by(t, Duration { nanos: u128::MAX }).nanos == u128::MAX,
{
}

} // verus!
