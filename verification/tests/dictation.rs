//! Tests of speaking, transcribing and dictating.

use adele_voice::config::VadConfig;
use adele_voice::dictation::{dictation_options, Action, Dictation, DictationOptions, Input};
use adele_voice::error::VoiceError;
use adele_voice::paths::text_path;
use adele_voice::speaker::{SayStep, Speaker, Synthesis};
use adele_voice::time::{Duration, Instant};
use adele_voice::transcriber::{
    decoded, join_segments, stt_limit, Decoding, Transcriber, Transcript,
};

/// The level that stands for a probability or an amplitude that is not negative.
fn level(value: f32) -> i32 {
    value.to_bits() as i32
}

fn rms(samples: &[f32]) -> f32 {
    if samples.is_empty() {
        0.0
    } else {
        (samples.iter().map(|s| s * s).sum::<f32>() / samples.len() as f32).sqrt()
    }
}

fn opts() -> DictationOptions {
    DictationOptions {
        speech_threshold: level(0.5),
        silence: Duration::from_millis(0),
        min_samples: 800,
        lead_in: Duration::from_secs(5),
        echo_hangover: Duration::from_millis(200),
    }
}

/// The world round a dictation.
struct World {
    now: Instant,
    /// The chunks that come, and whether playback is heard meanwhile.
    chunks: Vec<(Vec<f32>, bool)>,
    /// How often playback is still heard before listening begins.
    playing: usize,
    probs: Vec<f32>,
    text: String,
    stopped: usize,
    scored: usize,
    transcribed: usize,
    log: Vec<&'static str>,
}

fn world(chunks: Vec<Vec<f32>>, probs: Vec<f32>, text: &str) -> World {
    World {
        now: Instant { nanos: 0 },
        chunks: chunks.into_iter().map(|c| (c, false)).collect(),
        playing: 0,
        probs,
        text: text.to_string(),
        stopped: 0,
        scored: 0,
        transcribed: 0,
        log: Vec::new(),
    }
}

/// Drives a dictation to its end.
fn run(d: &mut Dictation<f32>, w: &mut World) -> Result<Option<String>, VoiceError> {
    let mut action = d.dictate(Input::Begin, w.now);
    loop {
        let input = match action {
            Action::Nothing => panic!("the dictation is stuck"),
            Action::Start => Input::Started(None),
            Action::CheckPlayback(wait) => {
                w.now = w.now.plus(wait);
                w.log.push("check");
                let playing = w.playing > 0;
                w.playing = w.playing.saturating_sub(1);
                Input::Playback(playing)
            }
            Action::Settle(wait) => {
                w.now = w.now.plus(wait);
                w.log.push("settle");
                Input::Settled
            }
            Action::Receive => {
                if w.chunks.is_empty() {
                    Input::Closed
                } else {
                    let (samples, playing) = w.chunks.remove(0);
                    Input::Chunk { samples, playing }
                }
            }
            Action::Score(_) => {
                w.scored += 1;
                let p = if w.probs.is_empty() { 0.0 } else { w.probs.remove(0) };
                if p < 0.0 {
                    Input::Scored(Err(VoiceError::Vad("broken".to_string())))
                } else {
                    Input::Scored(Ok(level(p)))
                }
            }
            Action::Stop => {
                w.stopped += 1;
                Input::Stopped(None)
            }
            Action::Measure(samples) => Input::Measured(level(rms(&samples))),
            Action::Transcribe(_) => {
                w.transcribed += 1;
                Input::Transcribed(Ok(w.text.clone()))
            }
            Action::Finish(result) => return result,
        };
        action = d.dictate(input, w.now);
    }
}

#[test]
fn dictate_returns_transcript_for_speech_then_silence() {
    // Speech chunk (VAD 0.9) then silence (VAD 0.0) closes the utterance;
    // the buffer is loud enough to clear the energy floor.
    let mut w = world(vec![vec![0.1; 1000], vec![0.1; 1000]], vec![0.9], "what's the weather");
    let mut d = Dictation::new(opts());
    assert_eq!(run(&mut d, &mut w), Ok(Some("what's the weather".to_string())));
    assert_eq!(w.stopped, 1);
}

#[test]
fn dictate_times_out_with_no_speech() {
    // Lead-in of 0 ms and a sub-threshold chunk → Timeout → None, and STT
    // never runs.
    let mut w = world(vec![vec![0.0; 1000]], vec![0.0], "unreachable");
    let mut d = Dictation::new(DictationOptions { lead_in: Duration::from_millis(0), ..opts() });
    assert_eq!(run(&mut d, &mut w), Ok(None));
    assert_eq!(w.transcribed, 0);
}

#[test]
fn dictate_gates_near_silent_capture() {
    // VAD reports speech-then-silence (so the utterance completes), but the
    // samples are ~silent — it is dropped before returning text.
    let mut w = world(
        vec![vec![0.0; 1000], vec![0.0; 1000]],
        vec![0.9],
        "hallucinated filler",
    );
    let mut d = Dictation::new(opts());
    assert_eq!(run(&mut d, &mut w), Ok(None));
    assert_eq!(w.transcribed, 0);
}

#[test]
fn dictate_stops_the_source() {
    let mut w = world(vec![], vec![], "x");
    let mut d = Dictation::new(opts());
    assert_eq!(run(&mut d, &mut w), Ok(None));
    assert_eq!(
        w.stopped, 1,
        "dictate must stop the source even when nothing was captured"
    );
}

#[test]
fn dictate_drops_chunk_that_arrives_while_guard_is_playing() {
    let mut w = world(vec![], vec![0.9], "what's the weather");
    w.chunks = vec![
        (vec![0.1; 1000], true),
        (vec![0.1; 1000], false),
        (vec![0.1; 1000], false),
    ];
    let mut d = Dictation::new(opts()).with_echo_guard();
    assert_eq!(run(&mut d, &mut w), Ok(Some("what's the weather".to_string())));
    assert_eq!(w.scored, 2, "the echo must never reach the speech detector");
}

#[test]
fn dictate_waits_for_playback_then_captures_utterance() {
    let mut w = world(vec![vec![0.1; 1000], vec![0.1; 1000]], vec![0.9], "what's the weather");
    w.playing = 2;
    let mut d = Dictation::new(opts()).with_echo_guard();
    assert_eq!(run(&mut d, &mut w), Ok(Some("what's the weather".to_string())));
    assert_eq!(w.log, vec!["check", "check", "check", "settle"]);
    // Two polls of 50 ms and the hangover.
    assert_eq!(w.now, Instant { nanos: 300_000_000 });
}

#[test]
fn dictate_without_guard_is_unchanged() {
    let mut w = world(vec![vec![0.1; 1000], vec![0.1; 1000]], vec![0.9], "no guard here");
    // Whatever plays is not looked at.
    w.chunks[0].1 = true;
    let mut d = Dictation::new(opts());
    assert_eq!(run(&mut d, &mut w), Ok(Some("no guard here".to_string())));
    assert!(w.log.is_empty());
}

#[test]
fn a_broken_detector_still_closes_the_microphone() {
    let mut w = world(vec![vec![0.1; 1000]], vec![-1.0], "x");
    let mut d = Dictation::new(opts());
    assert_eq!(run(&mut d, &mut w), Err(VoiceError::Vad("broken".to_string())));
    assert_eq!(w.stopped, 1);
    // And another dictation can follow.
    let mut w = world(vec![vec![0.1; 1000], vec![0.1; 1000]], vec![0.9], "again");
    assert_eq!(run(&mut d, &mut w), Ok(Some("again".to_string())));
}

#[test]
fn a_microphone_that_cannot_be_opened_ends_the_dictation() {
    let now = Instant { nanos: 0 };
    let mut d: Dictation<f32> = Dictation::new(opts());
    assert!(matches!(d.dictate(Input::Settled, now), Action::Nothing));
    assert!(matches!(d.dictate(Input::Begin, now), Action::Start));
    match d.dictate(Input::Started(Some(VoiceError::Audio("busy".to_string()))), now) {
        Action::Finish(Err(e)) => assert_eq!(e, VoiceError::Audio("busy".to_string())),
        _ => panic!("expected the failure"),
    }
}

#[test]
fn the_options_follow_the_configuration() {
    let vad = VadConfig {
        model_path: text_path(""),
        speech_threshold: level(0.7),
        silence_duration_ms: 1_200,
    };
    let o = dictation_options(&vad);
    assert_eq!(o.speech_threshold, level(0.7));
    assert_eq!(o.silence, Duration::from_millis(1_200));
    assert_eq!(o.lead_in, Duration::from_secs(10));
    assert_eq!(DictationOptions::default().speech_threshold, level(0.5));
    assert_eq!(DictationOptions::default().silence, Duration::from_millis(800));
}

#[test]
fn near_silent_capture_is_gated_before_stt() {
    let t = Transcriber::new();
    assert!(!t.hears_speech(level(rms(&[0.0; 1000]))));
    assert!(!t.hears_speech(level(0.009_999)));
    assert!(t.hears_speech(level(0.01)));
    assert!(Transcriber::with_min_rms(level(0.5)).hears_speech(level(0.5)));
}

#[test]
fn empty_transcript_is_none() {
    assert_eq!(Transcriber::new().accept(String::new()), None);
}

#[test]
fn real_speech_transcribes() {
    let t = Transcriber::default();
    assert!(t.hears_speech(level(rms(&[0.2; 1000]))));
    assert_eq!(
        t.accept("hello there".to_string()),
        Some(Transcript { text: "hello there".to_string() })
    );
}

#[test]
fn segments_are_joined_and_trimmed() {
    let segments = vec![Some(" Hello".to_string()), None, Some(" there. ".to_string())];
    assert_eq!(join_segments(&segments), "Hello there.");
    assert_eq!(join_segments(&vec![]), "");
}

#[test]
fn a_transcription_fails_with_its_reason() {
    let limit = stt_limit(1_500).unwrap();
    assert_eq!(stt_limit(0), None);
    assert_eq!(
        decoded(Decoding::TimedOut, limit),
        Err(VoiceError::Stt("whisper inference timed out after 1500 ms".to_string()))
    );
    assert_eq!(
        decoded(Decoding::Lost("panic".to_string()), limit),
        Err(VoiceError::Stt("whisper inference task failed: panic".to_string()))
    );
    assert_eq!(
        decoded(Decoding::Failed(VoiceError::Stt("x".to_string())), limit),
        Err(VoiceError::Stt("x".to_string()))
    );
    assert_eq!(
        decoded(Decoding::Text("hi".to_string()), limit),
        Ok(Transcript { text: "hi".to_string() })
    );
}

#[test]
fn say_synthesizes_and_plays() {
    let speaker = Speaker::new();
    assert_eq!(
        speaker.say("hello"),
        SayStep::Synthesize { text: "hello".to_string(), within: Some(Duration::from_secs(20)) }
    );
    assert_eq!(
        speaker.synthesized(Synthesis::Audio(vec![0.1f32; 320])),
        Ok(Some(vec![0.1f32; 320])),
        "synthesized audio must be queued on the sink"
    );
}

#[test]
fn empty_synthesis_does_not_play() {
    let speaker = Speaker::new();
    assert!(matches!(speaker.say("…"), SayStep::Synthesize { .. }));
    assert_eq!(
        speaker.synthesized(Synthesis::Audio(Vec::<f32>::new())),
        Ok(None),
        "empty synthesis must not queue a play"
    );
}

#[test]
fn say_strips_markdown_before_synthesis() {
    // A streamed sentence with bold must reach the backend (and be spoken)
    // without asterisks.
    assert!(matches!(
        Speaker::new().say("**Here** are the steps:"),
        SayStep::Synthesize { text, .. } if text == "Here are the steps:"
    ));
}

#[test]
fn say_skips_synthesis_for_all_markdown_input() {
    // Never feed empty text to the engine, and never queue a play.
    assert_eq!(Speaker::new().say("---"), SayStep::Nothing);
    assert_eq!(Speaker::new().say("**"), SayStep::Nothing);
}

#[test]
fn a_synthesis_is_bounded_unless_told_otherwise() {
    let mut speaker = Speaker::new();
    speaker.set_synth_timeout(Duration::from_millis(750));
    assert_eq!(
        speaker.synthesized(Synthesis::<Vec<f32>>::TimedOut),
        Err(VoiceError::Tts("synthesis timed out after 750 ms".to_string()))
    );
    assert_eq!(
        speaker.synthesized(Synthesis::<Vec<f32>>::Failed(VoiceError::Tts("x".to_string()))),
        Err(VoiceError::Tts("x".to_string()))
    );
    speaker.set_synth_timeout(Duration::from_millis(0));
    assert_eq!(
        speaker.say_line("hi".to_string()),
        SayStep::Synthesize { text: "hi".to_string(), within: None }
    );
}
