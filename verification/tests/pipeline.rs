//! Tests of the pipeline, driven step by step.

use adele_voice::config::{Config, ListeningCue, ReloadPlan, Tunables, TurnTimeouts};
use adele_voice::cue::CueSound;
use adele_voice::pipeline::{Action, Input, Pipeline, PipelineConfig};
use adele_voice::state::State;
use adele_voice::time::{Duration, Instant};
use adele_voice::tools::{ClientToolToggles, ToolCall};
use adele_voice::transcriber::Transcriber;
use adele_voice::turn::{StopRequest, StreamEnd};

type Step = Input<Vec<f32>, String, Tunables>;
type Done = Action<Vec<f32>, String>;

const START: Instant = Instant { nanos: 1_000_000_000 };

fn at(millis: u64) -> Instant {
    START.plus(Duration::from_millis(millis))
}

/// The level that stands for a probability.
fn level(probability: f32) -> i32 {
    probability.to_bits() as i32
}

fn config() -> PipelineConfig {
    PipelineConfig {
        tunables: Config::default().tunables(),
        conversation_title: "Voice Conversation".to_string(),
        silence_duration: Duration::from_millis(0),
        speech_threshold: level(0.5),
        conversation_mode: false,
        conversation_reuse_window: Duration::from_secs(600),
        followup_timeout: Duration::from_secs(8),
        idle_exit_timeout: None,
        spoken_response_hint: "Be brief.".to_string(),
        listening_cue: ListeningCue::Off,
        timeouts: TurnTimeouts {
            response_stall: Duration::from_secs(30),
            turn_budget: Duration::from_secs(120),
            synth: Duration::from_secs(20),
            connect: Duration::from_secs(10),
            status_narration_min_gap: Duration::from_secs(15),
            liveness_delay: Duration::from_secs(4),
        },
        client_tools: ClientToolToggles::default(),
    }
}

fn build_pipeline() -> Pipeline<f32> {
    Pipeline::new(config(), START)
}

/// A pipeline that runs.
fn running(config: PipelineConfig) -> Pipeline<f32> {
    let mut p = Pipeline::new(config, START);
    assert_eq!(p.step(Input::Launch, START), vec![Action::StartSource]);
    p.step(Input::CaptureStarted, START);
    p
}

fn audio(playing: bool) -> Step {
    Input::Audio { chunk: vec![0.1; 1000], playing, in_tail_pad: false, enabled: true }
}

fn heard(p: &mut Pipeline<f32>, probability: f32, now: Instant) -> Vec<Done> {
    let asked = p.step(audio(false), now);
    assert_eq!(asked, vec![Action::MeasureSpeech(vec![0.1; 1000])]);
    p.step(Input::SpeechLevel { level: level(probability), playing: false }, now)
}

/// Presses push-to-talk and speaks one utterance.
fn speak(p: &mut Pipeline<f32>, target: Option<&str>, now: Instant) {
    let target = target.map(|t| t.to_string());
    assert_eq!(
        p.step(Input::Ptt { target, playing: false }, now),
        vec![Action::DrainEcho]
    );
    assert_eq!(
        p.step(Input::EchoDrained, now),
        vec![Action::Publish(State::Listening), Action::ResetVad]
    );
    assert_eq!(heard(p, 0.9, now), vec![]);
    assert_eq!(
        heard(p, 0.0, now),
        vec![Action::Publish(State::Processing), Action::Transcribe(vec![0.1; 2000])]
    );
}

/// Asks the assistant, which answers.
fn ask(p: &mut Pipeline<f32>, prompt: &str, now: Instant) -> Vec<Done> {
    p.step(Input::Transcribed(Some(prompt.to_string())), now)
}

/// From a sent prompt to the end of its response.
fn answer(p: &mut Pipeline<f32>, now: Instant) -> Vec<Done> {
    p.step(Input::Subscribed, now);
    assert_eq!(p.step(Input::Sent, now), vec![Action::StreamTurn]);
    assert_eq!(p.begin_response(), vec![Action::Publish(State::Speaking)]);
    p.step(Input::TurnOver { end: StreamEnd::Completed, playing: false }, now)
}

#[test]
fn apply_plan_updates_live_tunable_state() {
    // The apply side of reload: a plan's hot knobs must mutate the running
    // pipeline's fields (and the shared endpointer threshold) in place.
    let mut p = build_pipeline();
    let plan = ReloadPlan {
        set_speech_threshold: Some(level(0.8)),
        set_silence_ms: Some(1200),
        set_followup_timeout_ms: Some(9000),
        set_conversation_mode: Some(true),
        set_idle_exit_timeout_ms: Some(60_000),
        ..ReloadPlan::default()
    };
    p.apply_plan(&plan);
    assert_eq!(p.speech_threshold(), level(0.8));
    assert_eq!(p.followup_timeout(), Duration::from_millis(9000));
    assert!(p.conversation_mode());
    assert_eq!(p.idle_exit_timeout(), Some(Duration::from_millis(60_000)));
}

#[test]
fn apply_plan_idle_exit_zero_disables() {
    // idle_exit_timeout_ms = 0 means "always-on" → the Option clears to None.
    let mut p: Pipeline<f32> = Pipeline::new(
        PipelineConfig { idle_exit_timeout: Some(Duration::from_millis(1000)), ..config() },
        START,
    );
    let plan = ReloadPlan {
        set_idle_exit_timeout_ms: Some(0),
        ..ReloadPlan::default()
    };
    p.apply_plan(&plan);
    assert_eq!(p.idle_exit_timeout(), None);
}

#[test]
fn apply_plan_rebuilds_wake_detector_on_sensitivity_change() {
    let mut p = build_pipeline();
    let plan = ReloadPlan {
        rebuild_wake_sensitivity: Some(level(0.9)),
        ..ReloadPlan::default()
    };
    assert_eq!(
        p.apply_plan(&plan),
        vec![Action::RebuildWake(level(0.9))],
        "the wake detector must be rebuilt by the builder on a sensitivity change"
    );
}

#[test]
fn apply_plan_updates_timeout_knobs() {
    // The timeout knobs hot-apply on reload like the other tunables.
    let mut p = build_pipeline();
    let plan = ReloadPlan {
        set_response_stall_ms: Some(7000),
        set_turn_budget_ms: Some(90_000),
        set_status_narration_min_gap_ms: Some(12_000),
        ..ReloadPlan::default()
    };
    p.apply_plan(&plan);
    assert_eq!(p.timeouts().response_stall, Duration::from_millis(7000));
    assert_eq!(p.timeouts().turn_budget, Duration::from_millis(90_000));
    assert_eq!(p.timeouts().status_narration_min_gap, Duration::from_millis(12_000));
}

/// A pipeline whose own conversation was last used at the start.
fn with_conversation(window: Duration, id: &str) -> Pipeline<f32> {
    let mut p = running(PipelineConfig { conversation_reuse_window: window, ..config() });
    speak(&mut p, None, START);
    ask(&mut p, "hello", START);
    p.step(Input::Created(id.to_string()), START);
    answer(&mut p, START);
    assert_eq!(p.conversation_id(), Some(id));
    p
}

#[test]
fn expire_stale_conversation_drops_id_outside_window() {
    // Unit-level reuse decision: an id older than the window is dropped; a
    // recent one is kept; a zero window always drops.
    let mut p = with_conversation(Duration::from_millis(50), "c1");
    p.expire_stale_conversation_on_wake(at(1000));
    assert!(
        p.conversation_id().is_none(),
        "a conversation older than the window must be dropped"
    );

    let mut p = with_conversation(Duration::from_secs(600), "c2");
    p.expire_stale_conversation_on_wake(START);
    assert_eq!(
        p.conversation_id(),
        Some("c2"),
        "a recent conversation within the window must be kept"
    );

    let mut p = with_conversation(Duration::from_millis(0), "c3");
    p.expire_stale_conversation_on_wake(START);
    assert!(
        p.conversation_id().is_none(),
        "a zero reuse window must always start fresh"
    );
}

#[test]
fn registers_session_control_tools_on_startup() {
    let mut p = build_pipeline();
    assert_eq!(p.step(Input::Launch, START), vec![Action::StartSource]);
    assert_eq!(
        p.step(Input::CaptureStarted, START),
        vec![
            Action::RegisterTools(ClientToolToggles::default()),
            Action::Publish(State::Idle)
        ]
    );
}

#[test]
fn a_whole_turn_runs_from_the_wake_word_to_idle() {
    let mut p = running(PipelineConfig { listening_cue: ListeningCue::Ding, ..config() });
    assert_eq!(p.step(audio(false), at(1)), vec![Action::DetectWake(vec![0.1; 1000])]);
    assert_eq!(
        p.step(Input::WakeChecked(true), at(2)),
        vec![
            Action::Publish(State::Listening),
            Action::ResetVad,
            Action::PlayCue(CueSound::Ding)
        ]
    );
    assert_eq!(p.step(Input::CuePlayed, at(3)), vec![]);
    assert_eq!(heard(&mut p, 0.9, at(4)), vec![]);
    // What was said in the same breath as the wake word is part of it.
    assert_eq!(
        heard(&mut p, 0.1, at(5)),
        vec![Action::Publish(State::Processing), Action::Transcribe(vec![0.1; 3000])]
    );
    assert_eq!(
        ask(&mut p, "what's the weather", at(6)),
        vec![
            Action::ShowTranscript("what's the weather".to_string()),
            Action::CreateConversation("Voice Conversation".to_string())
        ]
    );
    assert_eq!(p.step(Input::Created("c1".to_string()), at(7)), vec![Action::Subscribe]);
    assert_eq!(
        p.step(Input::Subscribed, at(8)),
        vec![Action::SendPrompt {
            conversation_id: "c1".to_string(),
            prompt: "what's the weather".to_string(),
            hint: "Be brief.".to_string()
        }]
    );
    assert_eq!(p.step(Input::Sent, at(9)), vec![Action::StreamTurn]);
    assert_eq!(p.begin_response(), vec![Action::Publish(State::Speaking)]);
    assert_eq!(
        p.step(Input::TurnOver { end: StreamEnd::Completed, playing: false }, at(10)),
        vec![Action::Publish(State::Idle)]
    );
    assert_eq!(p.state(), State::Idle);
    assert_eq!(p.conversation_id(), Some("c1"));
}

#[test]
fn stop_phrase_ends_conversation_without_prompting() {
    let mut p = running(PipelineConfig { conversation_mode: true, ..config() });
    speak(&mut p, None, START);
    assert_eq!(
        ask(&mut p, "stop", START),
        vec![
            Action::ShowTranscript("stop".to_string()),
            Action::Publish(State::Speaking),
            Action::Acknowledge("Okay.".to_string())
        ]
    );
    assert_eq!(p.step(Input::Acknowledged, START), vec![Action::Publish(State::Idle)]);
}

#[test]
fn stop_listening_ends_an_active_conversation() {
    let mut p = with_conversation(Duration::from_secs(600), "c1");
    p.step(Input::Ptt { target: None, playing: false }, at(1));
    p.step(Input::EchoDrained, at(1));
    assert_eq!(p.state(), State::Listening);
    assert_eq!(
        p.step(Input::Stop(StopRequest::Conversation), at(2)),
        vec![Action::StopPlayback, Action::Publish(State::Idle)]
    );
    assert_eq!(p.conversation_id(), None);
    // Stopping twice changes nothing more.
    assert_eq!(p.step(Input::Stop(StopRequest::Conversation), at(3)), vec![]);
}

#[test]
fn failed_turn_does_not_crash_the_daemon() {
    let mut p = running(config());
    speak(&mut p, None, START);
    assert_eq!(
        p.step(Input::TurnFailed, START),
        vec![
            Action::Publish(State::Speaking),
            Action::Apologize(
                "Sorry, I ran into an error and couldn't answer that.".to_string()
            )
        ]
    );
    assert_eq!(p.step(Input::Apologized, START), vec![Action::Publish(State::Idle)]);
    speak(&mut p, None, at(10));
}

#[test]
fn ptt_in_idle_with_playback_stops_tts_before_listening() {
    let mut p = running(config());
    assert_eq!(
        p.step(Input::Ptt { target: None, playing: true }, START),
        vec![Action::StopPlayback, Action::DrainEcho]
    );
    assert_eq!(p.state(), State::Idle);
    p.step(Input::EchoDrained, START);
    assert_eq!(p.state(), State::Listening);
}

#[test]
fn ptt_with_conversation_id_routes_to_that_conversation() {
    let mut p = with_conversation(Duration::from_secs(600), "own");
    speak(&mut p, Some("chat-7"), at(1));
    assert_eq!(
        ask(&mut p, "hi", at(2)),
        vec![Action::ShowTranscript("hi".to_string()), Action::Subscribe]
    );
    assert!(matches!(
        &p.step(Input::Subscribed, at(3))[..],
        [Action::SendPrompt { conversation_id, .. }] if conversation_id == "chat-7"
    ));
    // The next press without a target goes to the own conversation again.
    p.step(Input::Sent, at(4));
    p.begin_response();
    p.step(Input::TurnOver { end: StreamEnd::Completed, playing: false }, at(5));
    speak(&mut p, None, at(6));
    ask(&mut p, "hi", at(7));
    assert!(matches!(
        &p.step(Input::Subscribed, at(8))[..],
        [Action::SendPrompt { conversation_id, .. }] if conversation_id == "own"
    ));
}

#[test]
fn near_silent_capture_is_discarded() {
    let mut p = running(config());
    speak_until_listening(&mut p);
    // The detector takes it for speech and then silence, but it is silent.
    let mut captured = Vec::new();
    for probability in [0.9, 0.0] {
        let chunk = Input::Audio {
            chunk: vec![0.0; 1000],
            playing: false,
            in_tail_pad: false,
            enabled: true,
        };
        p.step(chunk, START);
        let heard = Input::SpeechLevel { level: level(probability), playing: false };
        for action in p.step(heard, START) {
            if let Action::Transcribe(samples) = action {
                captured = samples;
            }
        }
    }
    assert_eq!(captured.len(), 2000);
    let square = captured.iter().map(|s| s * s).sum::<f32>() / captured.len() as f32;
    assert!(
        !Transcriber::new().hears_speech(level(square.sqrt())),
        "a near-silent capture must be discarded before transcription"
    );
    assert_eq!(p.step(Input::Transcribed(None), START), vec![Action::Publish(State::Idle)]);
}

#[test]
fn idle_in_tail_pad_seeds_prebuffer_without_waking() {
    let mut p = running(config());
    let pad = |value: f32, in_tail_pad: bool| Input::Audio {
        chunk: vec![value; 10],
        playing: true,
        in_tail_pad,
        enabled: true,
    };
    assert_eq!(p.step(pad(0.3, false), START), vec![]);
    assert_eq!(p.step(pad(0.2, true), START), vec![]);
    p.step(audio(false), START);
    p.step(Input::WakeChecked(true), START);
    heard(&mut p, 0.9, START);
    // What sounded in the pad is kept, what sounded during playback is not.
    let mut expected = vec![0.2; 10];
    expected.extend(vec![0.1; 3000]);
    assert_eq!(
        heard(&mut p, 0.0, START),
        vec![Action::Publish(State::Processing), Action::Transcribe(expected)]
    );
}

#[test]
fn wake_word_ignored_when_disabled() {
    let mut p = running(config());
    let disabled =
        Input::Audio { chunk: vec![0.1; 10], playing: false, in_tail_pad: false, enabled: false };
    assert_eq!(p.step(disabled, START), vec![]);
    assert_eq!(p.state(), State::Idle);
}

#[test]
fn no_cue_plays_when_listening_cue_off() {
    let mut p = running(config());
    p.step(audio(false), START);
    assert_eq!(
        p.step(Input::WakeChecked(true), START),
        vec![Action::Publish(State::Listening), Action::ResetVad]
    );
}

#[test]
fn phrase_cue_echo_is_not_captured_as_the_utterance() {
    let mut p = running(PipelineConfig { listening_cue: ListeningCue::Phrase, ..config() });
    p.step(audio(false), START);
    assert_eq!(
        p.step(Input::WakeChecked(true), START),
        vec![
            Action::Publish(State::Listening),
            Action::ResetVad,
            Action::PlayCue(CueSound::Phrase("Yes?".to_string()))
        ]
    );
    assert_eq!(p.step(Input::CuePlayed, START), vec![Action::DrainEcho]);
    // The echo comes while the cue is waited out, and has no effect.
    for _ in 0..3 {
        let echo = Input::Audio {
            chunk: vec![0.2; 1000],
            playing: true,
            in_tail_pad: false,
            enabled: true,
        };
        assert_eq!(p.step(echo, START), vec![]);
    }
    assert_eq!(p.step(Input::EchoDrained, START), vec![]);
    // Then the user speaks: the lead and what came behind the drain is
    // transcribed.
    let mut listen = |sample: f32, probability: f32| {
        let chunk = vec![sample; 1000];
        let captured = Input::Audio {
            chunk: chunk.clone(),
            playing: false,
            in_tail_pad: false,
            enabled: true,
        };
        assert_eq!(p.step(captured, START), vec![Action::MeasureSpeech(chunk)]);
        p.step(Input::SpeechLevel { level: level(probability), playing: false }, START)
    };
    assert_eq!(listen(0.3, 0.9), vec![]);
    let mut utterance = vec![0.1; 1000];
    utterance.extend(vec![0.3; 1000]);
    utterance.extend(vec![0.0; 1000]);
    assert_eq!(
        listen(0.0, 0.0),
        vec![Action::Publish(State::Processing), Action::Transcribe(utterance)]
    );
}

#[test]
fn conversation_mode_relistens_after_response() {
    let mut p = running(PipelineConfig {
        conversation_mode: true,
        listening_cue: ListeningCue::Ding,
        ..config()
    });
    speak(&mut p, None, START);
    ask(&mut p, "hello", START);
    p.step(Input::Created("c1".to_string()), START);
    assert_eq!(answer(&mut p, START), vec![Action::DrainEcho]);
    assert_eq!(
        p.step(Input::EchoDrained, at(10)),
        vec![Action::Publish(State::Listening), Action::PlayCue(CueSound::Ding)]
    );
    assert_eq!(p.step(Input::CuePlayed, at(20)), vec![Action::DrainEcho]);
    assert_eq!(p.step(Input::EchoDrained, at(30)), vec![Action::ResetVad]);
    // Nobody speaks in time: back to idle.
    assert_eq!(heard(&mut p, 0.0, at(8_029)), vec![]);
    assert_eq!(heard(&mut p, 0.0, at(8_030)), vec![Action::Publish(State::Idle)]);
}

#[test]
fn idle_exits_when_wake_disabled_and_idle() {
    let mut p = running(PipelineConfig {
        idle_exit_timeout: Some(Duration::from_millis(500)),
        ..config()
    });
    let quiet = |playing: bool| Input::Audio {
        chunk: vec![0.1; 10],
        playing,
        in_tail_pad: false,
        enabled: false,
    };
    assert_eq!(p.step(quiet(false), at(499)), vec![]);
    assert_eq!(p.step(quiet(true), at(500)), vec![]);
    assert_eq!(p.step(quiet(false), at(500)), vec![Action::StopSource, Action::Exit]);
    assert_eq!(p.step(audio(false), at(501)), vec![]);
}

#[test]
fn does_not_idle_exit_while_wake_enabled() {
    let mut p = running(PipelineConfig {
        idle_exit_timeout: Some(Duration::from_millis(500)),
        ..config()
    });
    assert_eq!(p.step(audio(false), at(10_000)), vec![Action::DetectWake(vec![0.1; 1000])]);
}

#[test]
fn stop_listening_during_a_turn_ends_to_idle_and_clears_reuse_id() {
    let mut p = running(PipelineConfig { conversation_mode: true, ..config() });
    speak(&mut p, None, START);
    ask(&mut p, "no thanks", START);
    p.step(Input::Created("c1".to_string()), START);
    p.step(Input::Subscribed, START);
    p.step(Input::Sent, START);
    assert_eq!(p.tool_requested(&ToolCall::StopListening), vec![]);
    p.begin_response();
    assert_eq!(
        p.step(Input::TurnOver { end: StreamEnd::Completed, playing: false }, START),
        vec![Action::Publish(State::Idle)]
    );
    assert_eq!(p.conversation_id(), None);
}

#[test]
fn listen_for_more_relistens_outside_conversation_mode() {
    let mut p = running(config());
    speak(&mut p, None, START);
    ask(&mut p, "pick one", START);
    p.step(Input::Created("c1".to_string()), START);
    p.step(Input::Subscribed, START);
    p.step(Input::Sent, START);
    assert_eq!(p.tool_requested(&ToolCall::ListenForMore), vec![]);
    assert_eq!(
        p.tool_requested(&ToolCall::SayThis("Hm.".to_string())),
        vec![Action::Publish(State::Speaking)]
    );
    assert_eq!(
        p.step(Input::TurnOver { end: StreamEnd::Completed, playing: false }, START),
        vec![Action::DrainEcho]
    );
}

#[test]
fn capture_failure_recovers_on_reload() {
    let mut p = build_pipeline();
    p.step(Input::Launch, START);
    assert_eq!(p.step(Input::CaptureFailed, START), vec![]);
    // Nothing else gets through meanwhile.
    assert_eq!(p.step(Input::Ptt { target: None, playing: false }, START), vec![]);
    let tunables = Tunables { input_device: "hw:1".into(), ..Config::default().tunables() };
    let done = p.step(Input::Reload(tunables), START);
    assert_eq!(done.len(), 2);
    assert!(matches!(&done[0], Action::NoteDeviceChange(_)));
    assert_eq!(done[1], Action::StartSource);
    assert_eq!(
        p.step(Input::CaptureStarted, START),
        vec![
            Action::RegisterTools(ClientToolToggles::default()),
            Action::Publish(State::Idle)
        ]
    );
}

#[test]
fn capture_failure_then_closed_channels_shuts_down_cleanly() {
    let mut p = build_pipeline();
    p.step(Input::Launch, START);
    p.step(Input::CaptureFailed, START);
    assert_eq!(p.step(Input::ControlsClosed, START), vec![Action::Exit]);
}

#[test]
fn capture_thread_death_restarts_capture() {
    let mut p = running(config());
    speak_until_listening(&mut p);
    assert_eq!(
        p.step(Input::CaptureClosed, START),
        vec![
            Action::StopPlayback,
            Action::Publish(State::Idle),
            Action::StopSource,
            Action::StartSource
        ]
    );
    assert_eq!(p.step(Input::CaptureFailed, START), vec![]);
    assert_eq!(
        p.step(Input::Reload(Config::default().tunables()), START),
        vec![Action::StartSource]
    );
    assert_eq!(p.step(Input::CaptureStarted, START), vec![]);
    speak(&mut p, None, START);
}

fn speak_until_listening(p: &mut Pipeline<f32>) {
    p.step(Input::Ptt { target: None, playing: false }, START);
    p.step(Input::EchoDrained, START);
    assert_eq!(p.state(), State::Listening);
}

/// A pipeline whose turn streams and is heard.
fn streaming() -> Pipeline<f32> {
    let mut p = running(config());
    speak(&mut p, None, START);
    ask(&mut p, "hello", START);
    p.step(Input::Created("c1".to_string()), START);
    p.step(Input::Subscribed, START);
    p.step(Input::Sent, START);
    p.begin_response();
    p
}

#[test]
fn stop_speaking_mid_stream_stops_playback_and_ends_turn() {
    let mut p = streaming();
    let end = StreamEnd::Stopped(StopRequest::Speaking);
    assert_eq!(
        p.step(Input::TurnOver { end, playing: true }, START),
        vec![Action::DrainTurn, Action::Publish(State::Idle)]
    );
    assert_eq!(p.conversation_id(), Some("c1"));
}

#[test]
fn stop_conversation_mid_stream_ends_session() {
    let mut p = streaming();
    let end = StreamEnd::Stopped(StopRequest::Conversation);
    assert_eq!(
        p.step(Input::TurnOver { end, playing: true }, START),
        vec![Action::DrainTurn, Action::Publish(State::Idle)]
    );
    assert_eq!(p.conversation_id(), None);
}

#[test]
fn barge_in_during_streamed_playback_interrupts() {
    let mut p = streaming();
    assert!(p.wants_barge_in(true));
    assert!(!p.wants_barge_in(false));
    let end = StreamEnd::BargedIn(vec![0.3; 500]);
    assert_eq!(
        p.step(Input::TurnOver { end, playing: true }, START),
        vec![Action::DrainTurn, Action::Publish(State::Listening), Action::ResetVad]
    );
    // What was said over the response opens the next utterance.
    let mut expected = vec![0.3; 500];
    expected.extend(vec![0.1; 1000]);
    assert_eq!(
        heard(&mut p, 0.0, START),
        vec![Action::Publish(State::Processing), Action::Transcribe(expected)]
    );
}

#[test]
fn ptt_mid_stream_redirects_to_new_target() {
    let mut p = streaming();
    let end = StreamEnd::PttPressed(Some("chat-7".to_string()));
    assert_eq!(
        p.step(Input::TurnOver { end, playing: true }, START),
        vec![Action::DrainTurn, Action::StopPlayback, Action::DrainEcho]
    );
    assert_eq!(
        p.step(Input::EchoDrained, START),
        vec![Action::Publish(State::Listening), Action::ResetVad]
    );
    heard(&mut p, 0.9, START);
    heard(&mut p, 0.0, START);
    ask(&mut p, "over here", START);
    assert!(matches!(
        &p.step(Input::Subscribed, START)[..],
        [Action::SendPrompt { conversation_id, .. }] if conversation_id == "chat-7"
    ));
}

#[test]
fn reload_mid_turn_applies_without_ending_turn() {
    let mut p = streaming();
    let tunables = Tunables {
        speech_threshold: level(0.9),
        followup_timeout_ms: 1_000,
        ..Config::default().tunables()
    };
    assert_eq!(p.step(Input::Reload(tunables), START), vec![]);
    assert_eq!(p.speech_threshold(), level(0.9));
    assert_eq!(p.followup_timeout(), Duration::from_secs(1));
    assert_eq!(
        p.step(Input::TurnOver { end: StreamEnd::Completed, playing: false }, START),
        vec![Action::Publish(State::Idle)]
    );
}
