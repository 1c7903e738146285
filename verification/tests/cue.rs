//! Tests of the listening cue.

use adele_voice::config::ListeningCue;
use adele_voice::cue::{
    ding_gain, next_cue, phrase, CueSound, DING_FADE_SAMPLES, DING_SAMPLES, PHRASE_COUNT,
};

const PHRASES: [&str; 5] = ["Yes?", "How can I help?", "I'm listening.", "Go ahead.", "Mm-hmm?"];

#[test]
fn phrase_rotates_deterministically_and_wraps() {
    let len = PHRASES.len() as u64;
    assert_eq!(len, PHRASE_COUNT);
    // Consecutive counters give consecutive phrases.
    assert_eq!(phrase(0), PHRASES[0]);
    assert_eq!(phrase(1), PHRASES[1]);
    // Wraps cleanly at the end of the list.
    assert_eq!(phrase(len), PHRASES[0]);
    assert_eq!(phrase(len + 2), PHRASES[2]);
}

#[test]
fn all_phrases_are_non_empty() {
    assert!(PHRASE_COUNT > 0, "there must be at least one phrase");
    assert!(
        (0..PHRASE_COUNT).all(|n| !phrase(n).trim().is_empty()),
        "every rotating phrase must be speakable"
    );
}

#[test]
fn only_phrases_are_counted() {
    assert_eq!(next_cue(ListeningCue::Off, 3), (None, 3));
    assert_eq!(next_cue(ListeningCue::Ding, 3), (Some(CueSound::Ding), 3));
    assert_eq!(
        next_cue(ListeningCue::Phrase, 3),
        (Some(CueSound::Phrase("Go ahead.")), 4)
    );
    assert_eq!(next_cue(ListeningCue::Phrase, u64::MAX).1, 0);
}

#[test]
fn ding_fades_in_and_out_to_avoid_clicks() {
    // 120 ms at 16 kHz = 1920 samples.
    assert_eq!(DING_SAMPLES, 1920);
    assert_eq!(ding_gain(0).0, 0, "must fade in from ~0");
    assert_eq!(ding_gain(DING_SAMPLES - 1).0, 0, "must fade out to ~0");
    assert_eq!(ding_gain(DING_SAMPLES / 2), (1, 1), "the middle must be audible");
    assert_eq!(ding_gain(80), (80, DING_FADE_SAMPLES));
    assert_eq!(ding_gain(DING_SAMPLES - 81), (80, DING_FADE_SAMPLES));
}
