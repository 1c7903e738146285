//! Tests of endpointing.

use adele_voice::endpointer::{Endpoint, Endpointer, PreBuffer};
use adele_voice::time::{Duration, Instant};

/// The level that stands for a probability.
fn level(probability: f32) -> i32 {
    probability.to_bits() as i32
}

/// 0 ms silence: one speech chunk then one sub-threshold chunk closes the
/// utterance — provided the buffer cleared the `min_samples` floor.
fn endpointer() -> Endpointer<f32> {
    Endpointer::new(level(0.5), Duration::from_millis(0), 800)
}

#[test]
fn speech_then_silence_completes_with_buffer() {
    let mut ep = endpointer();
    ep.arm(None);
    assert_eq!(ep.push(&vec![0.1; 1000], level(0.9)), Endpoint::SpeechStarted);
    match ep.push(&vec![0.1; 1000], level(0.0)) {
        Endpoint::Complete(samples) => assert_eq!(samples.len(), 2000),
        other => panic!("expected Complete, got {other:?}"),
    }
}

#[test]
fn first_speech_chunk_is_speech_started_then_accumulating() {
    let mut ep = endpointer();
    ep.arm(None);
    assert_eq!(ep.push(&vec![0.1; 100], level(0.9)), Endpoint::SpeechStarted);
    // A second speech chunk is just accumulation, not another "started".
    assert_eq!(ep.push(&vec![0.1; 100], level(0.9)), Endpoint::Accumulating);
}

#[test]
fn silence_below_min_samples_does_not_complete() {
    // Floor guards a stray blip: a tiny buffer must not close even on silence.
    let mut ep = Endpointer::new(level(0.5), Duration::from_millis(0), 800);
    ep.arm(None);
    assert_eq!(ep.push(&vec![0.1; 100], level(0.9)), Endpoint::SpeechStarted);
    // 100 + 100 = 200 samples, below the 800 floor → keep accumulating.
    assert_eq!(ep.push(&vec![0.1; 100], level(0.0)), Endpoint::Accumulating);
}

#[test]
fn lead_in_times_out_with_no_speech() {
    let mut ep = Endpointer::new(level(0.5), Duration::from_millis(0), 800);
    ep.arm(Some(Duration::from_millis(0)));
    // Sub-threshold chunk after a 0 ms lead-in → Timeout (never any speech).
    assert_eq!(ep.push(&vec![0.0; 1000], level(0.0)), Endpoint::Timeout);
}

#[test]
fn speech_cancels_the_lead_in() {
    let mut ep = Endpointer::new(level(0.5), Duration::from_millis(10_000), 800);
    ep.arm(Some(Duration::from_millis(0)));
    // Speech arrives — even though the lead-in already elapsed, speech wins
    // (checked first) and cancels the deadline, so no Timeout follows.
    assert_eq!(ep.push(&vec![0.1; 1000], level(0.9)), Endpoint::SpeechStarted);
    assert_eq!(ep.push(&vec![0.1; 1000], level(0.9)), Endpoint::Accumulating);
}

#[test]
fn arm_speaking_seeds_buffer_for_barge_in() {
    let mut ep = Endpointer::new(level(0.5), Duration::from_millis(0), 800);
    ep.arm_speaking(&vec![0.1; 500]);
    // Already mid-speech: the next sub-threshold chunk closes immediately,
    // and the seeded 500 + this 500 clear the 800 floor.
    match ep.push(&vec![0.1; 500], level(0.0)) {
        Endpoint::Complete(samples) => assert_eq!(samples.len(), 1000),
        other => panic!("expected Complete, got {other:?}"),
    }
}

#[test]
fn set_speech_threshold_takes_effect_on_the_next_chunk() {
    // Raising the threshold mid-stream means a chunk
    // that previously read as speech no longer does.
    let mut ep = endpointer();
    ep.arm(None);
    // prob 0.6 ≥ default 0.5 → speech.
    assert_eq!(ep.push(&vec![0.1; 100], level(0.6)), Endpoint::SpeechStarted);
    ep.reset();
    ep.arm(None);
    ep.set_speech_threshold(level(0.8));
    // Same 0.6 now < 0.8 → no speech, just accumulation (no prior speech to close).
    assert_eq!(ep.push(&vec![0.1; 100], level(0.6)), Endpoint::Accumulating);
}

#[test]
fn set_silence_changes_when_an_utterance_closes() {
    // With a long silence window, one sub-threshold chunk after speech keeps
    // accumulating; shortening it to 0 closes on the next silence chunk.
    let mut ep = Endpointer::new(level(0.5), Duration::from_secs(3600), 800);
    ep.arm(None);
    assert_eq!(ep.push(&vec![0.1; 1000], level(0.9)), Endpoint::SpeechStarted);
    assert_eq!(ep.push(&vec![0.1; 1000], level(0.0)), Endpoint::Accumulating);
    ep.set_silence(Duration::from_millis(0));
    match ep.push(&vec![0.1; 1000], level(0.0)) {
        Endpoint::Complete(samples) => assert_eq!(samples.len(), 3000),
        other => panic!("expected Complete after shortening silence, got {other:?}"),
    }
}

#[test]
fn reset_clears_pending_state() {
    let mut ep = endpointer();
    ep.arm(None);
    ep.push(&vec![0.1; 1000], level(0.9)); // speech buffered
    ep.reset();
    // After reset there's no speech history, so a lone silence chunk can't
    // complete (would need prior speech) — it just accumulates.
    assert_eq!(ep.push(&vec![0.0; 1000], level(0.0)), Endpoint::Accumulating);
}

#[test]
fn exactly_the_minimum_of_samples_completes() {
    let mut ep: Endpointer<i16> = Endpointer::new(level(0.5), Duration::from_millis(0), 800);
    let now = Instant { nanos: 0 };
    ep.arm_at(None, now);
    assert_eq!(ep.push_at(&[1; 400], level(0.9), now), Endpoint::SpeechStarted);
    assert_eq!(ep.push_at(&[2; 399], level(0.1), now), Endpoint::Accumulating);
    match ep.push_at(&[3; 1], level(0.1), now) {
        Endpoint::Complete(samples) => {
            assert_eq!(samples.len(), 800);
            assert_eq!((samples[0], samples[400], samples[799]), (1, 2, 3));
        }
        other => panic!("expected Complete, got {other:?}"),
    }
}

#[test]
fn silence_is_measured_from_the_last_speech() {
    let mut ep: Endpointer<i16> = Endpointer::new(level(0.5), Duration::from_millis(800), 1);
    let start = Instant { nanos: 0 };
    let at = |millis: u64| start.plus(Duration::from_millis(millis));
    ep.arm_at(Some(Duration::from_secs(10)), start);
    assert_eq!(ep.push_at(&[1], level(0.5), at(100)), Endpoint::SpeechStarted);
    assert_eq!(ep.push_at(&[1], level(0.4), at(899)), Endpoint::Accumulating);
    assert_eq!(ep.push_at(&[1], level(0.4), at(900)), Endpoint::Complete(vec![1, 1, 1]));
}

#[test]
fn a_preroll_opens_the_utterance() {
    let mut ep: Endpointer<i16> = Endpointer::new(level(0.5), Duration::from_millis(0), 1);
    let now = Instant { nanos: 0 };
    ep.arm_with_preroll_at(None, &[7, 8], now);
    // The preroll is kept but is no speech yet.
    assert_eq!(ep.push_at(&[9], level(0.1), now), Endpoint::Accumulating);
    assert_eq!(ep.push_at(&[10], level(0.9), now), Endpoint::SpeechStarted);
    assert_eq!(ep.push_at(&[11], level(0.1), now), Endpoint::Complete(vec![7, 8, 9, 10, 11]));
}

#[test]
fn the_prebuffer_keeps_the_latest_samples() {
    let mut buffer: PreBuffer<i16> = PreBuffer::new(4);
    buffer.push(&[1, 2, 3]);
    buffer.push(&[4, 5]);
    assert_eq!(buffer.take(), vec![2, 3, 4, 5]);
    assert_eq!(buffer.take(), Vec::<i16>::new());
    buffer.push(&[1, 2, 3, 4, 5, 6]);
    assert_eq!(buffer.take(), vec![3, 4, 5, 6]);
}
