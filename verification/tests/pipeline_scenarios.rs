//! Whole scenarios of the pipeline: what reaches the assistant, and when.

use adele_voice::config::{Config, ListeningCue, Tunables, TurnTimeouts};
use adele_voice::cue::{CueSound, DING_SAMPLES};
use adele_voice::pipeline::{Action, Input, Pipeline, PipelineConfig};
use adele_voice::state::{State, StateEvent};
use adele_voice::time::{Duration, Instant};
use adele_voice::tools::{
    answer_tool_call, read_tool_call, ClientToolToggles, ToolCall, TOOL_LISTEN_FOR_MORE,
    TOOL_SAY_THIS, TOOL_STOP_LISTENING,
};
use adele_voice::turn::{StopRequest, StreamEnd, TurnStream};

type Step = Input<Vec<f32>, String, Tunables>;
type Done = Action<Vec<f32>, String>;

const START: Instant = Instant { nanos: 1_000_000_000 };

fn at(millis: u64) -> Instant {
    START.plus(Duration::from_millis(millis))
}

/// The level that stands for a probability.
fn level(probability: f32) -> i32 {
    probability.to_bits() as i32
}

fn limits() -> TurnTimeouts {
    TurnTimeouts {
        response_stall: Duration::from_secs(10),
        turn_budget: Duration::from_secs(0),
        synth: Duration::from_secs(20),
        connect: Duration::from_secs(10),
        status_narration_min_gap: Duration::from_secs(15),
        liveness_delay: Duration::from_millis(300),
    }
}

fn config() -> PipelineConfig {
    PipelineConfig {
        tunables: Config::default().tunables(),
        conversation_title: "test".to_string(),
        silence_duration: Duration::from_millis(0),
        speech_threshold: level(0.5),
        conversation_mode: false,
        conversation_reuse_window: Duration::from_secs(600),
        followup_timeout: Duration::from_secs(8),
        idle_exit_timeout: None,
        spoken_response_hint: "Respond briefly, by voice.".to_string(),
        listening_cue: ListeningCue::Off,
        timeouts: limits(),
        client_tools: ClientToolToggles::default(),
    }
}

/// What a pipeline did, in order.
struct Harness {
    pipeline: Pipeline<f32>,
    enabled: bool,
    done: Vec<Done>,
}

impl Harness {
    fn start(config: PipelineConfig) -> Harness {
        let mut h = Harness { pipeline: Pipeline::new(config, START), enabled: true, done: vec![] };
        h.step(Input::Launch, START);
        h.step(Input::CaptureStarted, START);
        h
    }

    fn step(&mut self, input: Step, now: Instant) -> usize {
        let actions = self.pipeline.step(input, now);
        let count = actions.len();
        self.done.extend(actions);
        count
    }

    fn audio(&mut self, now: Instant) {
        let enabled = self.enabled;
        let chunk = vec![0.1; 1000];
        self.step(Input::Audio { chunk, playing: false, in_tail_pad: false, enabled }, now);
    }

    fn chunk(&mut self, probability: f32, now: Instant) {
        self.audio(now);
        self.step(Input::SpeechLevel { level: level(probability), playing: false }, now);
    }

    fn press(&mut self, now: Instant) {
        self.step(Input::Ptt { target: None, playing: false }, now);
        self.step(Input::EchoDrained, now);
        assert_eq!(self.pipeline.state(), State::Listening);
    }

    /// One utterance, up to the streamed response.
    fn utter(&mut self, text: &str, now: Instant) {
        self.chunk(0.9, now);
        self.chunk(0.0, now);
        self.step(Input::Transcribed(Some(text.to_string())), now);
        if self.pipeline.conversation_id().is_none() {
            self.step(Input::Created("own-session".to_string()), now);
        }
        self.step(Input::Subscribed, now);
        self.step(Input::Sent, now);
    }

    fn reply(&mut self, now: Instant) {
        let actions = self.pipeline.begin_response();
        self.done.extend(actions);
        self.step(Input::TurnOver { end: StreamEnd::Completed, playing: false }, now);
    }

    fn created(&self) -> Vec<&str> {
        self.done
            .iter()
            .filter_map(|a| match a {
                Action::CreateConversation(title) => Some(title.as_str()),
                _ => None,
            })
            .collect()
    }

    fn routed(&self) -> Vec<&str> {
        self.done
            .iter()
            .filter_map(|a| match a {
                Action::SendPrompt { conversation_id, .. } => Some(conversation_id.as_str()),
                _ => None,
            })
            .collect()
    }

    fn states(&self) -> Vec<State> {
        self.done
            .iter()
            .filter_map(|a| match a {
                Action::Publish(state) => Some(*state),
                _ => None,
            })
            .collect()
    }
}

/// A turn that streams and is heard.
fn held_turn() -> Harness {
    let mut h = Harness::start(config());
    h.press(START);
    h.utter("hello", START);
    let actions = h.pipeline.begin_response();
    h.done.extend(actions);
    assert_eq!(h.pipeline.state(), State::Speaking);
    h
}

#[test]
fn push_to_talk_transcribes_even_when_wake_disabled() {
    let mut h = Harness::start(config());
    h.enabled = false;
    h.press(START);
    h.chunk(0.9, START);
    h.chunk(0.0, START);
    assert!(
        matches!(h.done.last(), Some(Action::Transcribe(_))),
        "transcription must run for a push-to-talk utterance while wake word is disabled"
    );
}

#[test]
fn ptt_in_idle_without_playback_does_not_stop() {
    let mut h = Harness::start(config());
    h.press(START);
    assert!(
        !h.done.iter().any(|a| matches!(a, Action::StopPlayback | Action::HaltPlayback)),
        "PTT with nothing playing must not stop the sink"
    );
}

#[test]
fn turn_sends_clean_transcript_with_hint_as_system_refinement() {
    let mut h = Harness::start(config());
    h.press(START);
    h.utter("what's the weather?", START);
    let sent: Vec<(&str, &str)> = h
        .done
        .iter()
        .filter_map(|a| match a {
            Action::SendPrompt { prompt, hint, .. } => Some((prompt.as_str(), hint.as_str())),
            _ => None,
        })
        .collect();
    assert_eq!(sent, vec![("what's the weather?", "Respond briefly, by voice.")]);
    assert!(!sent[0].0.contains("Respond briefly"));
}

#[test]
fn plain_ptt_uses_daemon_own_session() {
    let mut h = Harness::start(config());
    h.press(START);
    h.utter("hello", START);
    assert_eq!(h.created(), vec!["test"]);
    assert_eq!(h.routed(), vec!["own-session"]);
}

#[test]
fn plain_ptt_reuses_own_session_across_presses() {
    let mut h = Harness::start(config());
    h.press(START);
    h.utter("hello", START);
    h.reply(START);
    assert_eq!(h.pipeline.state(), State::Idle);
    h.press(at(10));
    h.utter("hello", at(10));
    assert_eq!(h.routed(), vec!["own-session", "own-session"]);
    assert_eq!(h.created(), vec!["test"]);
}

#[test]
fn wake_word_triggers_listening_when_enabled() {
    let mut h = Harness::start(config());
    h.audio(START);
    h.step(Input::WakeChecked(true), START);
    assert_eq!(h.pipeline.state(), State::Listening);
}

#[test]
fn ding_cue_plays_on_wake_word_entry() {
    let mut h = Harness::start(PipelineConfig { listening_cue: ListeningCue::Ding, ..config() });
    h.audio(START);
    h.step(Input::WakeChecked(true), START);
    assert_eq!(h.done.last(), Some(&Action::PlayCue(CueSound::Ding)));
    assert!(DING_SAMPLES > 0);
}

#[test]
fn published_state_sequence_is_reachable_and_idle_bracketed() {
    let mut h = Harness::start(config());
    h.press(START);
    h.utter("hello", START);
    h.reply(START);
    let seq = h.states();
    assert_eq!(
        seq,
        vec![State::Idle, State::Listening, State::Processing, State::Speaking, State::Idle]
    );
    let all_events = [
        StateEvent::WakeWordDetected,
        StateEvent::PttPressed,
        StateEvent::SilenceDetected,
        StateEvent::ListeningTimedOut,
        StateEvent::ResponseStarted,
        StateEvent::PlaybackComplete,
        StateEvent::BargeIn,
        StateEvent::TurnEnded,
        StateEvent::RelistenArmed,
        StateEvent::Stopped,
    ];
    for pair in seq.windows(2) {
        let (from, to) = (pair[0], pair[1]);
        assert!(
            all_events.iter().any(|e| from.transition(e) == Some(to)),
            "unreachable step {from:?} -> {to:?}"
        );
    }
}

#[test]
fn conversation_mode_times_out_to_idle() {
    let mut h = Harness::start(PipelineConfig {
        conversation_mode: true,
        followup_timeout: Duration::from_millis(100),
        ..config()
    });
    h.press(START);
    h.utter("hello", START);
    h.reply(START);
    h.step(Input::EchoDrained, START);
    h.step(Input::EchoDrained, START);
    assert_eq!(h.pipeline.state(), State::Listening);
    h.chunk(0.0, at(160));
    assert_eq!(h.pipeline.state(), State::Idle);
}

#[test]
fn non_conversation_mode_returns_to_idle() {
    let mut h = Harness::start(config());
    h.press(START);
    h.utter("hello", START);
    h.reply(START);
    assert_eq!(h.pipeline.state(), State::Idle);
}

#[test]
fn reuse_window_continues_recent_conversation_on_next_wake() {
    let mut h = Harness::start(config());
    h.press(START);
    h.utter("hello", START);
    h.reply(START);
    h.press(at(600_000));
    h.utter("hello", at(600_000));
    assert_eq!(h.routed(), vec!["own-session", "own-session"]);
    assert_eq!(h.created(), vec!["test"]);
}

#[test]
fn reuse_disabled_starts_fresh_each_wake() {
    let mut h = Harness::start(PipelineConfig {
        conversation_reuse_window: Duration::from_secs(0),
        ..config()
    });
    h.press(START);
    h.utter("hello", START);
    h.reply(START);
    h.press(START);
    h.utter("hello", START);
    assert_eq!(h.created(), vec!["test", "test"]);
}

#[test]
fn ptt_during_degraded_mode_is_ignored() {
    let mut p: Pipeline<f32> = Pipeline::new(config(), START);
    p.step(Input::Launch, START);
    p.step(Input::CaptureFailed, START);
    assert_eq!(p.step(Input::Ptt { target: None, playing: false }, START), vec![]);
    assert_eq!(p.state(), State::Idle);
    assert_eq!(p.step(Input::ControlsClosed, START), vec![Action::Exit]);
}

#[test]
fn capture_death_mid_listening_degrades_then_recovers_on_reload() {
    let mut h = Harness::start(config());
    h.press(START);
    h.step(Input::CaptureClosed, START);
    h.step(Input::CaptureFailed, START);
    assert_eq!(h.pipeline.state(), State::Idle);
    h.step(Input::Reload(Config::default().tunables()), START);
    assert_eq!(h.done.last(), Some(&Action::StartSource));
    h.step(Input::CaptureStarted, START);
    h.press(START);
}

#[test]
fn control_channels_serviced_while_turn_streams() {
    let mut h = held_turn();
    let turn = TurnStream::new("req".to_string(), &limits(), START);
    let step = turn.on_stop::<f32>(StopRequest::Speaking);
    let end = step.end.expect("a stop ends the turn at once");
    h.step(Input::TurnOver { end, playing: true }, START);
    assert_eq!(h.pipeline.state(), State::Idle);
}

#[test]
fn audio_during_silent_processing_is_discarded_not_queued() {
    let mut h = Harness::start(config());
    h.press(START);
    h.utter("hello", START);
    assert_eq!(h.pipeline.state(), State::Processing);
    let turn = TurnStream::new("req".to_string(), &limits(), START);
    for _ in 0..20 {
        assert!(!h.pipeline.wants_barge_in(false));
        let step = turn.on_audio(vec![0.0f32; 1000], None, h.pipeline.speech_threshold());
        assert_eq!(step.effects, vec![]);
        assert_eq!(step.end, None);
    }
    let actions = h.pipeline.begin_response();
    h.done.extend(actions);
    let end = turn.on_stop::<f32>(StopRequest::Speaking).end.expect("a stop ends the turn");
    h.step(Input::TurnOver { end, playing: false }, START);
    assert_eq!(h.pipeline.state(), State::Idle);
}

#[test]
fn double_stop_is_idempotent() {
    let mut h = held_turn();
    let end = StreamEnd::Stopped(StopRequest::Speaking);
    h.step(Input::TurnOver { end, playing: true }, START);
    assert_eq!(h.pipeline.state(), State::Idle);
    assert_eq!(h.step(Input::Stop(StopRequest::Speaking), at(50)), 0);
    assert_eq!(h.pipeline.state(), State::Idle);
}

#[test]
fn liveness_line_suppressed_by_interrupt() {
    let turn = TurnStream::new("req".to_string(), &limits(), START);
    assert_eq!(turn.liveness_deadline(), Some(at(300)));
    let step = turn.on_stop::<f32>(StopRequest::Speaking);
    assert_eq!(step.end, Some(StreamEnd::Stopped(StopRequest::Speaking)));
    assert!(!format!("{:?}", step.effects).contains("Say"));
}

#[test]
fn say_this_speaks_text_and_acks() {
    let mut h = Harness::start(config());
    h.press(START);
    h.utter("hello", START);
    let call = read_tool_call(TOOL_SAY_THIS, r#"{ "text": "One moment, checking that now." }"#);
    assert_eq!(call, ToolCall::SayThis("One moment, checking that now.".to_string()));
    assert_eq!(h.pipeline.tool_requested(&call), vec![Action::Publish(State::Speaking)]);
    assert_eq!(answer_tool_call(&call, None), Ok("spoken".to_string()));
}

#[test]
fn say_this_without_text_errs() {
    let mut h = held_turn();
    let call = read_tool_call(TOOL_SAY_THIS, "{}");
    assert_eq!(h.pipeline.tool_requested(&call), vec![]);
    assert!(answer_tool_call(&call, None).is_err());
}

#[test]
fn stop_listening_sets_end_flag_and_acks() {
    let mut h = held_turn();
    let call = read_tool_call(TOOL_STOP_LISTENING, "{}");
    assert_eq!(h.pipeline.tool_requested(&call), vec![]);
    assert_eq!(answer_tool_call(&call, None), Ok("stopped".to_string()));
    h.step(Input::TurnOver { end: StreamEnd::Completed, playing: false }, START);
    assert_eq!(h.pipeline.conversation_id(), None, "the session must end behind the turn");
}

#[test]
fn listen_for_more_sets_listen_flag_and_acks() {
    let mut h = held_turn();
    let call = read_tool_call(TOOL_LISTEN_FOR_MORE, "{}");
    assert_eq!(h.pipeline.tool_requested(&call), vec![]);
    assert_eq!(answer_tool_call(&call, None), Ok("listening".to_string()));
    h.step(Input::TurnOver { end: StreamEnd::Completed, playing: false }, START);
    h.step(Input::EchoDrained, START);
    assert_eq!(h.pipeline.state(), State::Listening, "the microphone must stay open");
}

#[test]
fn unknown_tool_errs_with_not_found() {
    let mut h = held_turn();
    let call = read_tool_call("make_coffee", "{}");
    assert_eq!(h.pipeline.tool_requested(&call), vec![]);
    assert_eq!(answer_tool_call(&call, None), Err("unknown tool".to_string()));
    h.step(Input::TurnOver { end: StreamEnd::Completed, playing: false }, START);
    assert_eq!(h.pipeline.state(), State::Idle);
    assert_eq!(h.pipeline.conversation_id(), Some("own-session"));
}
