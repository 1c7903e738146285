//! Tests of the playback clock.

use adele_voice::playback::{
    CpalAudioSink, CHANNELS, LATENCY_UNMEASURED, PLAYBACK_LATENCY_MARGIN_MS,
    PLAYBACK_TAIL_PAD_FLOOR_MS, SAMPLE_RATE,
};
use adele_voice::time::{Duration, Instant};

const NOW: Instant = Instant { nanos: 5_000_000_000 };

fn after(millis: u64) -> Instant {
    NOW.plus(Duration::from_millis(millis))
}

/// What is left to play at the start.
fn remaining(sink: &CpalAudioSink) -> u128 {
    sink.remaining_at(NOW).nanos
}

fn millis(n: u64) -> u128 {
    Duration::from_millis(n).nanos
}

#[test]
fn idle_sink_is_not_playing() {
    let sink = CpalAudioSink::new("default");
    assert!(!sink.is_playing_at(NOW), "nothing queued ⇒ not playing");
}

#[test]
fn queueing_marks_playing_immediately() {
    // `is_playing` must read true the instant audio is
    // queued, without waiting for a hardware callback to fire. One second
    // of audio (SAMPLE_RATE mono frames) is plainly still playing.
    let mut sink = CpalAudioSink::new("default");
    sink.extend_playback_deadline_at(SAMPLE_RATE as usize, NOW);
    assert!(sink.is_playing_at(NOW), "freshly queued audio reads as playing");
    assert!(
        remaining(&sink) > millis(900),
        "≈1s of audio should leave ≈1s on the clock, got {:?}",
        remaining(&sink)
    );
}

#[test]
fn back_to_back_sentences_accumulate() {
    // Two half-second batches queued back-to-back must stack to ≈1s, not
    // collapse to the last batch — otherwise the wait ends a sentence early.
    let mut sink = CpalAudioSink::new("default");
    let half_second = (SAMPLE_RATE / 2) as usize;
    sink.extend_playback_deadline_at(half_second, NOW);
    sink.extend_playback_deadline_at(half_second, NOW);
    assert!(
        remaining(&sink) > millis(900),
        "two 0.5s batches should accumulate to ≈1s, got {:?}",
        remaining(&sink)
    );
}

#[test]
fn stop_clears_the_deadline() {
    // Barge-in: stop must immediately report not-playing even with audio
    // still on the clock.
    let mut sink = CpalAudioSink::new("default");
    sink.extend_playback_deadline_at(SAMPLE_RATE as usize * 10, NOW); // 10s queued
    assert!(sink.is_playing_at(NOW));
    sink.stop();
    assert!(!sink.is_playing_at(NOW), "stop discards the queue ⇒ not playing");
}

#[test]
fn extend_by_zero_would_arm_the_pad_so_play_must_skip_it() {
    // Documents *why* the `written > 0` guard exists: extending by zero
    // pins the deadline at now, which is still < now + pad, so is_playing
    // would wrongly read true.
    let mut sink = CpalAudioSink::new("default");
    sink.extend_playback_deadline_at(0, NOW);
    assert!(
        sink.is_playing_at(NOW),
        "extending by zero arms the pad — hence play() guards on written > 0"
    );
}

#[test]
fn deadline_math_treats_count_as_interleaved_samples() {
    // The deadline is frames/SAMPLE_RATE with frames = samples / CHANNELS.
    // Pin it so a CHANNELS change can't silently halve (or double) the
    // deadline. At the current CHANNELS==1, SAMPLE_RATE samples == 1s.
    let mut sink = CpalAudioSink::new("default");
    let one_second_of_samples = SAMPLE_RATE as usize * CHANNELS as usize;
    sink.extend_playback_deadline_at(one_second_of_samples, NOW);
    let left = remaining(&sink);
    assert!(
        left > millis(950) && left < millis(1050),
        "SAMPLE_RATE*CHANNELS interleaved samples must be ~1s, got {left:?}"
    );
}

#[test]
fn deadline_math_scales_with_sample_count() {
    // Half as many samples ⇒ half the duration. Guards the divisor: if it
    // dropped CHANNELS the ratio would still hold at CHANNELS==1, so we also
    // pin the absolute value above; together they fix both factors.
    let mut sink = CpalAudioSink::new("default");
    let half = (SAMPLE_RATE as usize * CHANNELS as usize) / 2;
    sink.extend_playback_deadline_at(half, NOW);
    let left = remaining(&sink);
    assert!(
        left > millis(450) && left < millis(550),
        "half a second of samples must be ~0.5s, got {left:?}"
    );
}

#[test]
fn in_tail_pad_is_false_during_real_audio() {
    // 1s of audio queued: the deadline is in the future, so we're playing
    // real audio, not in the pad.
    let mut sink = CpalAudioSink::new("default");
    sink.extend_playback_deadline_at(SAMPLE_RATE as usize, NOW);
    assert!(sink.is_playing_at(NOW));
    assert!(
        !sink.in_tail_pad_at(NOW),
        "while real audio is sounding we are not in the tail pad"
    );
}

#[test]
fn in_tail_pad_is_false_when_idle() {
    let sink = CpalAudioSink::new("default");
    assert!(!sink.in_tail_pad_at(NOW), "nothing queued ⇒ not in a pad");
}

#[test]
fn deadline_elapses_after_the_audio_duration() {
    // A short clip stops reading as playing once its duration + tail pad
    // passes. 10ms of audio + 250ms pad ⇒ done well before 400ms.
    let mut sink = CpalAudioSink::new("default");
    sink.extend_playback_deadline_at((SAMPLE_RATE / 100) as usize, NOW); // 10ms
    assert!(sink.is_playing_at(NOW), "still playing right after queueing");
    assert!(sink.is_playing_at(after(259)));
    assert!(!sink.is_playing_at(after(260)));
    assert!(!sink.is_playing_at(after(400)), "done after duration + tail pad elapses");
}

#[test]
fn zero_write_does_not_arm_a_busy_window() {
    // Nothing was queued: the sink stays idle.
    let mut sink = CpalAudioSink::new("default");
    sink.queued_at(0, NOW);
    assert!(
        !sink.is_playing_at(NOW),
        "no audio queued ⇒ not playing, even with a fresh sink"
    );
    sink.queued_at(16, NOW);
    assert!(sink.is_playing_at(NOW));
    assert_eq!(remaining(&sink), millis(1));
}

#[test]
fn pad_falls_back_to_floor_before_any_measurement() {
    assert_eq!(
        CpalAudioSink::tail_pad_from_latency(LATENCY_UNMEASURED),
        Duration::from_millis(PLAYBACK_TAIL_PAD_FLOOR_MS),
        "with no measurement yet the pad is the floor"
    );
}

#[test]
fn low_latency_does_not_over_deafen() {
    // A fast sink (2ms latency) must not balloon the pad — the floor caps
    // it so we don't keep the mic deaf longer than necessary.
    let pad = CpalAudioSink::tail_pad_from_latency(2_000); // 2ms
    assert_eq!(
        pad,
        Duration::from_millis(PLAYBACK_TAIL_PAD_FLOOR_MS),
        "low latency stays at the floor, got {pad:?}"
    );
}

#[test]
fn high_latency_extends_the_pad_to_cover_it() {
    // A high-latency sink (e.g. Bluetooth, ~300ms) must get a pad that
    // covers its latency plus the margin — well past the 250ms floor — or
    // the mic re-arms mid-tail and records the daemon's own voice.
    let pad = CpalAudioSink::tail_pad_from_latency(300_000);
    assert_eq!(
        pad,
        Duration::from_millis(300 + PLAYBACK_LATENCY_MARGIN_MS),
        "high latency ⇒ pad = latency + margin"
    );
    assert!(
        pad.nanos > millis(PLAYBACK_TAIL_PAD_FLOOR_MS),
        "a 300ms-latency sink must exceed the 250ms floor, got {pad:?}"
    );
}

#[test]
fn pad_is_monotonic_in_latency() {
    // More device latency never yields a smaller pad.
    let lo = CpalAudioSink::tail_pad_from_latency(10_000);
    let hi = CpalAudioSink::tail_pad_from_latency(400_000);
    assert!(hi.nanos >= lo.nanos, "pad must not shrink as latency grows");
}

#[test]
fn in_tail_pad_is_true_after_deadline_but_within_pad() {
    // A 10ms clip: after ~150ms the audio deadline has passed but the
    // 250ms floor pad still keeps is_playing true — that is the tail pad.
    let mut sink = CpalAudioSink::new("default");
    sink.extend_playback_deadline_at((SAMPLE_RATE / 100) as usize, NOW); // 10ms
    assert!(sink.is_playing_at(after(150)), "still inside the pad");
    assert!(
        sink.in_tail_pad_at(after(150)),
        "deadline passed but within the pad ⇒ in the tail pad"
    );
    assert!(!sink.in_tail_pad_at(after(9)));
    assert!(sink.in_tail_pad_at(after(10)));
    assert!(!sink.in_tail_pad_at(after(260)));
}

#[test]
fn measured_latency_drives_is_playing_pad() {
    // Queue a tiny clip, then inject a high measured latency and confirm the
    // clip is still "playing" past the floor but inside the measured pad.
    let mut sink = CpalAudioSink::new("default");
    sink.extend_playback_deadline_at((SAMPLE_RATE / 100) as usize, NOW); // 10ms
    sink.set_measured_latency(500_000);
    assert_eq!(sink.tail_pad(), Duration::from_millis(550));
    assert!(
        sink.is_playing_at(after(300)),
        "10ms audio + ~550ms pad must still read playing after 300ms"
    );
}

#[test]
fn clock_driven_calls_follow_the_real_clock() {
    let mut sink = CpalAudioSink::new("speakers");
    assert_eq!(sink.device_name(), "speakers");
    assert!(!sink.is_playing());
    sink.extend_playback_deadline(SAMPLE_RATE as usize * 3600);
    assert!(sink.is_playing());
    assert!(!sink.in_tail_pad());
}

#[test]
fn playback_is_opened_once_until_stopped() {
    let mut sink = CpalAudioSink::new("default");
    assert!(sink.needs_open());
    sink.opened();
    assert!(!sink.needs_open());
    sink.stop();
    assert!(sink.needs_open());
}

#[test]
fn audio_queued_after_a_gap_starts_anew() {
    let mut sink = CpalAudioSink::new("default");
    sink.queued_at(16_000, NOW);
    // One second was heard long ago; another one starts now.
    sink.queued_at(16_000, after(5_000));
    assert_eq!(sink.remaining_at(after(5_000)).nanos, millis(1_000));
}
