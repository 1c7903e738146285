//! Tests of the session gate, the service and the setup report.

use adele_voice::config::Config;
use adele_voice::paths::text_path;
use adele_voice::service::{
    capture_state, ptt_target, CaptureState, Emission, ForwarderInput, ForwarderStep, SignalForwarder,
    VoiceSignal,
};
use adele_voice::session::{
    on_report, open_gate, session_query, SessionGate, SessionProbe, SessionQuery, WatchEvent,
    WatchStep,
};
use adele_voice::setup::{
    binary_candidates, check_setup, list_devices, InputDeviceInfo, SetupFacts,
};
use adele_voice::single::ONE;
use adele_voice::state::State;

#[test]
fn inert_gate_is_always_active_and_disabled() {
    let gate = SessionGate::inert();
    assert!(gate.is_active(), "inert gate must report active");
    assert!(!gate.is_enabled(), "inert gate is not an enabled gate");
}

#[test]
fn watching_gate_reflects_channel() {
    let mut gate = SessionGate::watching(false);
    assert!(gate.is_enabled());
    assert!(!gate.is_active(), "false channel => inactive");
    gate.publish(true);
    assert!(gate.is_active(), "true channel => active");
}

#[test]
fn disabled_by_config_yields_inert_gate() {
    let gate = open_gate(false, SessionProbe::Known(false));
    assert!(!gate.is_enabled());
    assert!(gate.is_active());
}

#[test]
fn a_gate_degrades_where_sessions_are_unknown_and_closes_where_they_cannot_be_read() {
    assert!(open_gate(true, SessionProbe::Absent).is_active());
    assert!(!open_gate(true, SessionProbe::Absent).is_enabled());
    assert!(open_gate(true, SessionProbe::Known(true)).is_active());
    assert!(!open_gate(true, SessionProbe::Known(false)).is_active());
    assert!(!open_gate(true, SessionProbe::Unreadable).is_active());
    assert!(open_gate(true, SessionProbe::Unreadable).is_enabled());
}

#[test]
fn an_inert_gate_stays_inert() {
    let mut gate = SessionGate::inert();
    gate.publish(false);
    assert!(gate.is_active());
}

#[test]
fn whatever_goes_wrong_closes_the_gate() {
    let changed = |name: &str| WatchEvent::Changed {
        changed: vec![name.to_string()],
        invalidated: vec![],
    };
    let mut gate = SessionGate::watching(true);
    assert_eq!(on_report(&mut gate, changed("IdleHint")), WatchStep::Wait);
    assert_eq!(on_report(&mut gate, WatchEvent::Garbled), WatchStep::Wait);
    assert_eq!(on_report(&mut gate, changed("Active")), WatchStep::Read);
    assert!(gate.is_active());
    assert_eq!(on_report(&mut gate, WatchEvent::ReadFailed), WatchStep::Wait);
    assert!(!gate.is_active());
    assert_eq!(
        on_report(
            &mut gate,
            WatchEvent::Changed { changed: vec![], invalidated: vec!["Active".to_string()] }
        ),
        WatchStep::Read
    );
    assert_eq!(on_report(&mut gate, WatchEvent::Read(true)), WatchStep::Wait);
    assert!(gate.is_active());
    assert_eq!(on_report(&mut gate, WatchEvent::Ended), WatchStep::Stop);
    assert!(!gate.is_active());
    let mut gate = SessionGate::watching(true);
    assert_eq!(on_report(&mut gate, WatchEvent::Unwatchable), WatchStep::Stop);
    assert!(!gate.is_active());
}

#[test]
fn the_session_is_asked_for_by_id_first() {
    assert_eq!(session_query(Some("c2"), 7), SessionQuery::ById("c2".to_string()));
    assert_eq!(session_query(None, 7), SessionQuery::ByProcess(7));
}

#[test]
fn capture_states_are_told_by_name() {
    assert_eq!(CaptureState::default().to_string(), "Capturing");
    assert_eq!(CaptureState::PausedSessionInactive.to_string(), "PausedSessionInactive");
    assert_eq!(CaptureState::PausedDisabled.to_string(), "PausedDisabled");
    assert_eq!(CaptureState::Unavailable.to_string(), "Unavailable");
}

#[test]
fn the_session_is_told_before_the_device() {
    assert_eq!(capture_state(true, true), CaptureState::Capturing);
    assert_eq!(capture_state(true, false), CaptureState::Unavailable);
    assert_eq!(capture_state(false, true), CaptureState::PausedSessionInactive);
    assert_eq!(capture_state(false, false), CaptureState::PausedSessionInactive);
}

#[test]
fn an_empty_conversation_is_none_in_particular() {
    assert_eq!(ptt_target(""), None);
    assert_eq!(ptt_target("c1"), Some("c1".to_string()));
}

#[test]
fn emits_state_transcript_and_speaking_signals() {
    let (mut forwarder, first) = SignalForwarder::new(State::Idle);
    assert_eq!(first, Emission::StateChanged("Idle".to_string()));
    assert_eq!(
        forwarder.on_input(ForwarderInput::State(State::Listening)),
        ForwarderStep::Emit(Emission::StateChanged("Listening".to_string()))
    );
    assert_eq!(
        forwarder.on_input(ForwarderInput::News(VoiceSignal::TranscriptReady("hi".to_string()))),
        ForwarderStep::Emit(Emission::TranscriptReady("hi".to_string()))
    );
    assert_eq!(
        forwarder.on_input(ForwarderInput::News(VoiceSignal::SpeakingText("ho".to_string()))),
        ForwarderStep::Emit(Emission::SpeakingText("ho".to_string()))
    );
    assert_eq!(
        forwarder.on_input(ForwarderInput::News(VoiceSignal::CalibrationProgress {
            captured: 1,
            total: 5,
            score: -ONE
        })),
        ForwarderStep::Emit(Emission::CalibrationProgress {
            captured: 1,
            total: 5,
            score: -ONE
        })
    );
}

#[test]
fn forwarder_stops_when_pipeline_is_gone() {
    let (mut forwarder, _) = SignalForwarder::new(State::Idle);
    assert_eq!(forwarder.on_input(ForwarderInput::NewsEnded), ForwarderStep::Wait);
    assert_eq!(forwarder.on_input(ForwarderInput::StateEnded), ForwarderStep::Stop);
    let (mut forwarder, _) = SignalForwarder::new(State::Idle);
    assert_eq!(forwarder.on_input(ForwarderInput::StateEnded), ForwarderStep::Wait);
    assert_eq!(
        forwarder.on_input(ForwarderInput::News(VoiceSignal::SpeakingText("late".to_string()))),
        ForwarderStep::Emit(Emission::SpeakingText("late".to_string()))
    );
    assert_eq!(forwarder.on_input(ForwarderInput::NewsEnded), ForwarderStep::Stop);
}

fn facts() -> SetupFacts {
    SetupFacts {
        vad_model: true,
        stt_model: false,
        wake_model: true,
        kokoro_model: true,
        kokoro_voices: 12,
        espeak: false,
        piper_binary: true,
        piper_voice: true,
        aws_credentials: false,
    }
}

#[test]
fn the_setup_report_names_what_is_missing() {
    let mut config = Config::default();
    config.vad.model_path = text_path("/m/vad.onnx");
    config.stt.model_path = text_path("/m/stt.bin");
    config.wake_word.model_path = text_path("/m/wake.rpw");
    config.tts.kokoro_voice = "af_heart".to_string();
    let report = check_setup(&config, &facts(), Some("amy"));
    assert_eq!(
        report,
        "adele-voice — setup check\n\
         \n\
         Base models:\n\
         \x20 [ok  ] Silero VAD   /m/vad.onnx\n\
         \x20 [MISS] Whisper STT  /m/stt.bin\n\
         \x20 [ok  ] Wake word    /m/wake.rpw\n\
         \n\
         TTS backends:\n\
         \x20 [MISS] kokoro (local, DEFAULT)   model:yes voices:12 espeak-ng:NO\n\
         \x20 [ok  ] piper  (local)            binary:yes voice:yes\n\
         \x20 [--  ] polly  (CLOUD, BILLABLE)  AWS creds:none  — opt-in only\n\
         \n\
         Configured backend: kokoro  (voice: af_heart)\n\
         Fallback policy: if the configured backend can't initialize it falls back to a LOCAL\n\
         backend (Piper) — never to a billable cloud backend automatically.\n"
    );
}

#[test]
fn the_setup_report_names_the_configured_voice() {
    let mut config = Config::default();
    config.tts.backend = "polly".to_string();
    config.tts.polly_voice = "Ruth".to_string();
    config.tts.polly_engine = "neural".to_string();
    assert!(check_setup(&config, &facts(), None).contains("polly  (voice: Ruth (neural))"));
    config.tts.backend = "piper".to_string();
    assert!(check_setup(&config, &facts(), Some("amy")).contains("piper  (voice: amy)"));
    assert!(check_setup(&config, &facts(), None).contains("piper  (voice: ?)"));
}

#[test]
fn programs_are_looked_for_on_the_path() {
    let dirs = vec![text_path("/bin"), text_path("/usr/bin/")];
    assert_eq!(
        binary_candidates("piper", &dirs),
        vec![text_path("/bin/piper"), text_path("/usr/bin/piper")]
    );
    assert_eq!(binary_candidates("./piper", &dirs), vec![text_path("./piper")]);
}

#[test]
fn the_default_device_is_listed_first() {
    let found = InputDeviceInfo {
        value: "hw:1".to_string(),
        label: "USB".to_string(),
        is_default: false,
        kind: "raw".to_string(),
        supported: false,
        rate: Some(48_000),
        channels: Some(2),
        reason: Some("busy".to_string()),
    };
    let list = list_devices(vec![found]);
    assert_eq!(list.len(), 2);
    assert_eq!(list[0].value, "default");
    assert_eq!(list[0].label, "Follow system default (recommended)");
    assert!(list[0].supported && list[0].is_default && list[0].rate.is_none());
    assert_eq!(list[1].value, "hw:1");
}
