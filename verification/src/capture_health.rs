//! How the end of an audio capture is noticed.

use vstd::prelude::*;

use crate::time::{elapsed, Duration, Instant};

verus! {

/// The longest a capture may deliver nothing before it counts as dead.
pub const CAPTURE_STALL_TIMEOUT_SECS: u64 = 5;

/// The shortest a capture may have run before its end is passed on.
pub const MIN_CAPTURE_LIFETIME_SECS: u64 = 1;

/// The errors that an audio backend reports of a running stream.
#[derive(Clone, Copy, Debug, PartialEq, Eq, Structural)]
pub enum StreamError {
    /// The device is gone.
    DeviceNotAvailable,
    /// The stream has to be built anew.
    StreamInvalidated,
    /// Samples were lost.
    BufferUnderrun,
    /// Anything else the backend reports.
    BackendSpecific,
}

/// How the capture has to treat a stream error.
#[derive(Clone, Copy, Debug, PartialEq, Eq, Structural)]
pub enum StreamFault {
    /// The stream is finished.
    Fatal,
    /// Audio keeps flowing.
    Transient,
}

/// Whether the error says that the stream is finished.
pub open spec fn is_fatal_error(err: StreamError) -> bool {
    err is DeviceNotAvailable || err is StreamInvalidated
}

pub fn classify_stream_error(err: &StreamError) -> (fault: StreamFault)
    ensures
        fault is Fatal <==> is_fatal_error(*err),
{
    match err {
        StreamError::DeviceNotAvailable | StreamError::StreamInvalidated => StreamFault::Fatal,
        StreamError::BufferUnderrun | StreamError::BackendSpecific => StreamFault::Transient,
    }
}

/// What is known of a capture stream.
pub struct HealthView {
    pub finished: bool,
    pub tally: usize,
    pub storm_reported: bool,
}

impl HealthView {
    /// Behind the news that the stream is finished.
    pub open spec fn ended(self) -> HealthView {
        HealthView { finished: true, ..self }
    }

    /// Behind a recoverable error.
    pub open spec fn counted(self) -> HealthView {
        HealthView { tally: self.tally.wrapping_add(1), storm_reported: true, ..self }
    }

    /// Behind a summary.
    pub open spec fn summarized(self) -> HealthView {
        HealthView { tally: 0, storm_reported: false, ..self }
    }
}

/// The health of one capture stream.
#[derive(Debug, PartialEq, Eq, Structural)]
pub struct CaptureHealth {
    fatal: bool,
    pending: usize,
    reported: bool,
}

impl View for CaptureHealth {
    type V = HealthView;

    closed spec fn view(&self) -> HealthView {
        HealthView {
            finished: self.fatal,
            tally: self.pending,
            storm_reported: self.reported,
        }
    }
}

impl CaptureHealth {
    /// Whether the stream is known to be finished.
    pub open spec fn finished(&self) -> bool {
        self@.finished
    }

    /// The recoverable errors not reported in a summary yet.
    pub open spec fn tally(&self) -> usize {
        self@.tally
    }

    /// Whether a recoverable error was reported since the last summary.
    pub open spec fn storm_reported(&self) -> bool {
        self@.storm_reported
    }

    pub fn new() -> (h: CaptureHealth)
        ensures
            h@ == (HealthView { finished: false, tally: 0, storm_reported: false }),
    {
        CaptureHealth { fatal: false, pending: 0, reported: false }
    }

    /// Records that the stream is finished. True the first time only.
    pub fn mark_fatal(&mut self) -> (first: bool)
        ensures
            first == !old(self).finished(),
            final(self)@ == old(self)@.ended(),
    {
        let first = !self.fatal;
        self.fatal = true;
        first
    }

    pub fn is_fatal(&self) -> (b: bool)
        ensures
            b == self.finished(),
    {
        self.fatal
    }

    /// Records a recoverable error. True for the first since the last summary
    /// only.
    pub fn record_transient(&mut self) -> (first: bool)
        ensures
            first == !old(self).storm_reported(),
            final(self)@ == old(self)@.counted(),
    {
        self.pending = self.pending.wrapping_add(1);
        let first = !self.reported;
        self.reported = true;
        first
    }

    /// Reads and clears the count of recoverable errors; the next one is
    /// reported again.
    pub fn take_transient(&mut self) -> (count: usize)
        ensures
            count == old(self).tally(),
            final(self)@ == old(self)@.summarized(),
    {
        let count: usize = self.pending;
        self.pending = 0;
        self.reported = false;
        count
    }

    /// Whether captured audio is still to be passed on.
    pub fn keep_draining(&self, running: bool) -> (b: bool)
        ensures
            b == (running && !self.finished()),
    {
        running && !self.is_fatal()
    }
}

/// What to write to the log about a stream error.
#[derive(Clone, Copy, Debug, PartialEq, Eq, Structural)]
pub enum FaultReport {
    /// The stream is finished.
    Fatal,
    /// Recoverable; repeats are counted from here on.
    Recoverable,
    /// Nothing new.
    Silent,
}

/// Records a stream error and says what to report of it.
pub fn on_stream_error(health: &mut CaptureHealth, err: &StreamError) -> (report: FaultReport)
    ensures
        is_fatal_error(*err) ==> {
            &&& final(health)@ == old(health)@.ended()
            &&& report == (if old(health).finished() {
                FaultReport::Silent
            } else {
                FaultReport::Fatal
            })
        },
        !is_fatal_error(*err) ==> {
            &&& final(health)@ == old(health)@.counted()
            &&& report == (if old(health).storm_reported() {
                FaultReport::Silent
            } else {
                FaultReport::Recoverable
            })
        },
{
    match classify_stream_error(err) {
        StreamFault::Fatal => {
            if health.mark_fatal() {
                FaultReport::Fatal
            } else {
                FaultReport::Silent
            }
        },
        StreamFault::Transient => {
            if health.record_transient() {
                FaultReport::Recoverable
            } else {
                FaultReport::Silent
            }
        },
    }
}

/// Notices that a capture has gone quiet.
#[derive(Clone, Copy, Debug, PartialEq, Eq, Structural)]
pub struct StallWatchdog {
    last_data: Instant,
    timeout: Duration,
}

impl StallWatchdog {
    /// When audio last came.
    pub closed spec fn last_seen(&self) -> Instant {
        self.last_data
    }

    /// How long the capture may be quiet.
    pub closed spec fn limit(&self) -> Duration {
        self.timeout
    }

    pub fn new(now: Instant, timeout: Duration) -> (w: StallWatchdog)
        ensures
            w.last_seen() == now,
            w.limit() == timeout,
    {
        StallWatchdog { last_data: now, timeout }
    }

    /// Notes that audio came.
    pub fn saw_data(&mut self, now: Instant)
        ensures
            final(self).last_seen() == now,
            final(self).limit() == old(self).limit(),
    {
        self.last_data = now;
    }

    /// Whether the capture has been quiet for too long.
    pub fn is_stalled(&self, now: Instant) -> (b: bool)
        ensures
            b == (elapsed(self.last_seen(), now) >= self.limit().nanos),
    {
        now.duration_since(self.last_data).nanos >= self.timeout.nanos
    }
}

/// How long the end of a capture that ran for `lifetime` is held back.
pub open spec fn backoff_nanos(lifetime: nat) -> nat {
    if lifetime >= 1_000_000_000 {
        0
    } else {
        (1_000_000_000 - lifetime) as nat
    }
}

/// How long to wait before a capture that ran for `lifetime` may be restarted.
pub fn restart_backoff(lifetime: Duration) -> (wait: Duration)
    ensures
        wait.nanos == backoff_nanos(lifetime.nanos as nat),
{
    let least = Duration::from_secs(MIN_CAPTURE_LIFETIME_SECS);
    if lifetime.nanos >= least.nanos {
        Duration { nanos: 0 }
    } else {
        Duration { nanos: least.nanos - lifetime.nanos }
    }
}

/// How long a capture may deliver nothing before it counts as dead.
pub fn capture_stall_timeout() -> (d: Duration)
    ensures
        d.nanos == 5_000_000_000,
{
    Duration::from_secs(CAPTURE_STALL_TIMEOUT_SECS)
}

/// A call that notes something of a stream.
pub enum HealthCall {
    MarkFatal,
    RecordTransient,
}

/// What is known of a stream behind several calls.
pub open spec fn after_calls(v: HealthView, calls: Seq<HealthCall>) -> HealthView
    decreases calls.len(),
{
    if calls.len() == 0 {
        v
    } else {
        let before = after_calls(v, calls.drop_last());
        match calls.last() {
            HealthCall::MarkFatal => before.ended(),
            HealthCall::RecordTransient => before.counted(),
        }
    }
}

/// How many of the calls record a recoverable error.
pub open spec fn recorded(calls: Seq<HealthCall>) -> nat
    decreases calls.len(),
{
    if calls.len() == 0 {
        0
    } else {
        recorded(calls.drop_last()) + (if calls.last() is RecordTransient {
            1nat
        } else {
            0
        })
    }
}

/// No error goes uncounted: whatever calls came since the last summary, in
/// whichever order and from wherever, the next one gives the number of
/// recoverable errors among them, as far as it can be held, and the one behind
/// it none. A finished stream is not counted, and no summary forgets it.
pub proof fn law_no_error_goes_uncounted(v: HealthView, calls: Seq<HealthCall>)
    requires
        v.tally == 0,
        !v.storm_reported,
        recorded(calls) <= usize::MAX,
    ensures
        after_calls(v, calls).tally == recorded(calls),
        after_calls(v, calls).storm_reported <==> recorded(calls) > 0,
        after_calls(v, calls).finished <==> v.finished || calls.contains(HealthCall::MarkFatal),
        after_calls(v, calls).summarized().tally == 0,
        after_calls(v, calls).summarized().finished == after_calls(v, calls).finished,
    decreases calls.len(),
{
    if calls.len() > 0 {
        let before = calls.drop_last();
        law_no_error_goes_uncounted(v, before);
        assert(calls =~= before.push(calls.last()));
        if calls.contains(HealthCall::MarkFatal) && calls.last() !is MarkFatal {
            let i = choose|i: int| 0 <= i < calls.len() && calls[i] == HealthCall::MarkFatal;
            assert(before[i] == calls[i]);
        }
        if before.contains(HealthCall::MarkFatal) {
            let i = choose|i: int| 0 <= i < before.len() && before[i] == HealthCall::MarkFatal;
            assert(calls[i] == before[i]);
        }
        if calls.last() is MarkFatal {
            assert(calls[calls.len() - 1] == HealthCall::MarkFatal);
        }
    }
}

/// Restarts are at least a second apart: the time a capture ran and the wait
/// behind it never sum to less.
pub proof fn law_restarts_are_rate_limited(lifetime: nat)
    ensures
        lifetime + backoff_nanos(lifetime) >= 1_000_000_000,
        lifetime >= 1_000_000_000 <==> backoff_nanos(lifetime) == 0,
{
}

/// A stream is finished where its device is gone or it has to be built anew, and
/// by no other error.
pub proof fn law_what_finishes_a_stream()
    ensures
        is_fatal_error(StreamError::DeviceNotAvailable),
        is_fatal_error(StreamError::StreamInvalidated),
        !is_fatal_error(StreamError::BufferUnderrun),
        !is_fatal_error(StreamError::BackendSpecific),
{
}

/// The wait behind a capture that ran for less than a second is what the second
/// lacks.
pub proof fn law_what_is_waited(lifetime: nat)
    ensures
        lifetime < 1_000_000_000 ==> lifetime + backoff_nanos(lifetime) == 1_000_000_000,
        lifetime >= 1_000_000_000 ==> backoff_nanos(lifetime) == 0,
{
}

/// What each call changes of what is known, and what it leaves.
pub proof fn law_what_a_call_changes(v: HealthView)
    ensures
        v.ended() == (HealthView { finished: true, ..v }),
        v.counted().finished == v.finished,
        v.counted().storm_reported,
        v.tally < usize::MAX ==> v.counted().tally == v.tally + 1,
        v.tally == usize::MAX ==> v.counted().tally == 0,
        v.summarized() == (HealthView { tally: 0, storm_reported: false, ..v }),
{
}

} // verus!
