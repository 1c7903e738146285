use adele_voice::capture_health::{
    capture_stall_timeout, on_stream_error, restart_backoff, CaptureHealth, StallWatchdog,
    StreamError,
};
use adele_voice::time::{Clock, Duration, Instant};

fn start_of_capture() -> Instant {
    Clock::start().now()
}

#[test]
fn fatal_device_loss_marks_capture_dead() {
    // A USB mic unplugged mid-session. The stream can never produce audio
    // again, so capture must be torn down for the pipeline to re-open it.
    let mut health = CaptureHealth::new();
    on_stream_error(&mut health, &StreamError::DeviceNotAvailable);
    assert!(
        health.is_fatal(),
        "losing the device must be recorded as capture death"
    );
}

#[test]
fn stream_invalidation_marks_capture_dead() {
    // A sound server (PipeWire/Pulse) restarting invalidates the stream: it
    // has to be rebuilt, so the current one is finished.
    let mut health = CaptureHealth::new();
    on_stream_error(&mut health, &StreamError::StreamInvalidated);
    assert!(
        health.is_fatal(),
        "an invalidated stream must be recorded as capture death"
    );
}

#[test]
fn drain_loop_stops_on_fatal_error_while_running_is_still_latched() {
    // The regression itself: `running` stays true until stop() or the
    // thread's own exit guard clears it, so the drain loop has to notice the
    // dead stream on its own. Without this the thread loops forever, never
    // drops the audio sender, and the pipeline's capture-death recovery
    // never runs — the daemon is deaf while still reporting Capturing.
    let mut health = CaptureHealth::new();
    assert!(
        health.keep_draining(true),
        "healthy capture keeps draining while running"
    );
    on_stream_error(&mut health, &StreamError::DeviceNotAvailable);
    assert!(
        !health.keep_draining(true),
        "a dead stream must end the drain loop even with `running` latched true"
    );
}

#[test]
fn repeated_fatal_errors_leave_capture_dead() {
    // ALSA keeps calling the error callback after the device is gone; the
    // storm must not undo or re-report the death, and a fatal error is not
    // a recoverable one.
    let mut health = CaptureHealth::new();
    for _ in 0..100 {
        on_stream_error(&mut health, &StreamError::DeviceNotAvailable);
    }
    assert!(health.is_fatal(), "capture stays dead");
    assert_eq!(
        health.take_transient(),
        0,
        "a fatal error is not counted as a recoverable one"
    );
}

#[test]
fn explicit_stop_still_ends_the_drain_loop() {
    // The pre-existing exit condition must survive: stop() clears `running`.
    let health = CaptureHealth::new();
    assert!(!health.keep_draining(false), "stop() must end the loop");
}

#[test]
fn buffer_underrun_does_not_kill_capture() {
    // An xrun is a dropped-samples glitch: ALSA re-prepares the PCM and
    // capture continues. Tearing down here would drop the mic on a hiccup.
    let mut health = CaptureHealth::new();
    on_stream_error(&mut health, &StreamError::BufferUnderrun);
    assert!(!health.is_fatal(), "an xrun is not capture death");
    assert!(
        health.keep_draining(true),
        "the drain loop keeps going through an xrun"
    );
    assert_eq!(health.take_transient(), 1, "but it is counted");
}

#[test]
fn backend_specific_error_is_counted_not_fatal() {
    // ALSA reports everything it cannot map — including a USB unplug — this
    // way, so a single one cannot be trusted to mean death. The stall
    // watchdog is what catches the ones that do.
    let mut health = CaptureHealth::new();
    on_stream_error(
        &mut health,
        &StreamError::BackendSpecific,
    );
    assert!(
        !health.is_fatal(),
        "an unclassifiable backend error must not tear capture down by itself"
    );
    assert_eq!(health.take_transient(), 1);
}

#[test]
fn transient_error_storm_is_reported_once_and_tallied() {
    // On ALSA a failing stream calls the error callback in a tight loop;
    // a line per error floods the journal.
    let mut health = CaptureHealth::new();
    assert!(health.record_transient(), "the first error reports");
    for _ in 0..999 {
        assert!(
            !health.record_transient(),
            "the storm after it is counted, not reported"
        );
    }
    assert_eq!(health.take_transient(), 1000, "every error is counted");
    assert_eq!(
        health.take_transient(),
        0,
        "draining resets so summaries do not double-count"
    );
}

#[test]
fn error_reporting_reopens_once_the_tally_is_drained() {
    // Flood control must not blind the operator for the life of a stream
    // that runs for days: a different failure hours later still reaches the
    // journal, at most once per summary window.
    let mut health = CaptureHealth::new();
    assert!(health.record_transient(), "the first error reports");
    assert!(!health.record_transient(), "an immediate repeat does not");
    assert_eq!(health.take_transient(), 2, "both are counted");
    assert!(
        health.record_transient(),
        "the next window reports its first error again"
    );
}

#[test]
fn every_error_is_counted_whatever_comes_between() {
    let mut health = CaptureHealth::new();
    for i in 0..30 {
        health.record_transient();
        if i % 7 == 0 {
            health.mark_fatal();
        }
    }
    assert_eq!(health.take_transient(), 30, "a finished stream is not counted");
    assert_eq!(health.take_transient(), 0);
    assert!(health.is_fatal(), "no summary forgets that the stream is finished");
}

#[test]
fn healthy_capture_reports_no_faults() {
    let mut health = CaptureHealth::new();
    assert!(!health.is_fatal());
    assert_eq!(health.take_transient(), 0);
    assert!(health.keep_draining(true));
}

#[test]
fn silent_capture_is_presumed_dead_at_the_stall_timeout() {
    // Covers what classification cannot: an unplug ALSA reported as a
    // backend-specific error, or a sound server that wedges without saying
    // anything at all.
    let start = start_of_capture();
    let watchdog = StallWatchdog::new(start, capture_stall_timeout());
    assert!(
        watchdog.is_stalled(start.plus(capture_stall_timeout())),
        "no audio for the whole window means capture is dead"
    );
}

#[test]
fn stall_watchdog_tolerates_a_gap_just_under_the_timeout() {
    let start = start_of_capture();
    let watchdog = StallWatchdog::new(start, capture_stall_timeout());
    let just_under = start.plus(Duration::from_millis(4_999));
    assert!(
        !watchdog.is_stalled(just_under),
        "a gap shorter than the timeout is not death"
    );
}

#[test]
fn flowing_capture_is_never_presumed_dead() {
    // A long assistant turn blocks the capture thread's sender for longer
    // than the timeout. The clock restarts from when audio was last seen —
    // measured after the send returns — so a busy pipeline is not mistaken
    // for a dead microphone.
    let start = start_of_capture();
    let mut watchdog = StallWatchdog::new(start, capture_stall_timeout());
    let after_long_turn = start.plus(Duration::from_secs(30));
    watchdog.saw_data(after_long_turn);
    assert!(
        !watchdog.is_stalled(after_long_turn.plus(Duration::from_millis(20))),
        "audio just seen means capture is alive"
    );
    assert!(
        watchdog.is_stalled(after_long_turn.plus(capture_stall_timeout())),
        "and the clock still runs from that moment"
    );
}

#[test]
fn stall_watchdog_honours_the_timeout_it_was_given() {
    // The timeout is a parameter, not a constant baked into the check.
    let start = start_of_capture();
    let watchdog = StallWatchdog::new(start, Duration::from_millis(200));
    assert!(!watchdog.is_stalled(start.plus(Duration::from_millis(199))));
    assert!(watchdog.is_stalled(start.plus(Duration::from_millis(200))));
}

#[test]
fn immediate_stream_death_is_rate_limited_before_restart() {
    // Death reaches the pipeline when the capture thread ends, so a stream
    // that opens and fails at once would otherwise spin the pipeline's
    // open/die/open loop as fast as the OS allows.
    let wait = restart_backoff(Duration::from_millis(5));
    assert!(
        wait >= Duration::from_millis(500) && wait <= Duration::from_secs(2),
        "an instantly dead stream must throttle the next open, got {wait:?}"
    );
}

#[test]
fn long_lived_stream_death_propagates_without_delay() {
    assert_eq!(
        restart_backoff(Duration::from_secs(600)),
        Duration::from_millis(0),
        "a stream that ran for minutes must be re-opened immediately"
    );
}
