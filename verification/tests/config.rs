//! Tests of the configuration and its live reload.

use adele_voice::config::{
    config_path, config_path_in, data_dir_or_here, models_dir_in, plan_reload,
    touches_config, AssistantConfig, AudioConfig, ClientToolsConfig, Config, ConnectionConfig,
    FileChange, ListeningCue, SttConfig, TimeoutConfig, TransportMode, TtsChoice, TtsConfig,
    Tunables, VadConfig, WakeWordConfig,
};
use adele_voice::paths::{join_path, show_path, text_path, FilePath};
use adele_voice::time::Duration;
use adele_voice::voices::{settled, TtsKind};

/// The level that stands for a probability.
fn level(probability: f32) -> i32 {
    probability.to_bits() as i32
}

fn connection_defaults() -> ConnectionConfig {
    ConnectionConfig {
        transport_mode: TransportMode::Uds,
        ws_url: "ws://localhost:11339/ws".to_string(),
        socket_path: None,
        ws_jwt: None,
        ws_login_username: None,
        ws_login_password: None,
        tls_ca_cert: None,
    }
}

#[test]
fn default_config_is_valid() {
    let config = Config::default();
    assert_eq!(config.audio.input_device, "default");
    assert_eq!(config.vad.silence_duration_ms, 800);
    assert_eq!(config.stt.language, "en");
    assert_eq!(config.assistant.conversation_title, "Voice Conversation");
}

#[test]
fn wake_word_defaults_to_eager_with_ding_cue() {
    let config = WakeWordConfig::default();
    assert!(config.eager, "eager wake trigger is the default");
    assert_eq!(
        config.listening_cue,
        ListeningCue::Ding,
        "the ding earcon is the default Listening cue"
    );
}

#[test]
fn defaults_to_local_uds_transport() {
    let config = AssistantConfig::default();
    assert_eq!(config.transport, "uds");
    assert_eq!(
        config.connection_config(connection_defaults()).transport_mode,
        TransportMode::Uds
    );
}

#[test]
fn no_change_yields_an_empty_plan() {
    let t = Config::default().tunables();
    let plan = plan_reload(&t, &t);
    assert!(
        plan.is_empty(),
        "an unchanged config must be a no-op reload"
    );
}

#[test]
fn hot_knobs_apply_in_place() {
    let old = Config::default().tunables();
    let new = Tunables {
        speech_threshold: level(0.6),
        silence_duration_ms: old.silence_duration_ms + 100,
        followup_timeout_ms: old.followup_timeout_ms + 1000,
        conversation_mode: !old.conversation_mode,
        idle_exit_timeout_ms: old.idle_exit_timeout_ms + 5000,
        ..old.clone()
    };
    let plan = plan_reload(&old, &new);
    assert_eq!(plan.set_speech_threshold, Some(new.speech_threshold));
    assert_eq!(plan.set_silence_ms, Some(new.silence_duration_ms));
    assert_eq!(plan.set_followup_timeout_ms, Some(new.followup_timeout_ms));
    assert_eq!(plan.set_conversation_mode, Some(new.conversation_mode));
    assert_eq!(
        plan.set_idle_exit_timeout_ms,
        Some(new.idle_exit_timeout_ms)
    );
    // No rebuild / restart implied by the hot knobs alone.
    assert_eq!(plan.rebuild_wake_sensitivity, None);
    assert_eq!(plan.restart_required_for_device, None);
    assert!(!plan.is_empty());
}

#[test]
fn wake_sensitivity_change_requires_rebuilding_the_detector() {
    let old = Config::default().tunables();
    let new = Tunables {
        wake_sensitivity: level(0.7),
        ..old.clone()
    };
    let plan = plan_reload(&old, &new);
    assert_eq!(plan.rebuild_wake_sensitivity, Some(new.wake_sensitivity));
    // Only the wake detector — nothing else changed.
    assert_eq!(plan.set_speech_threshold, None);
    assert_eq!(plan.restart_required_for_device, None);
}

#[test]
fn device_change_flags_restart_required_and_does_not_block_other_knobs() {
    let old = Config::default().tunables();
    let new = Tunables {
        input_device: "hw:1".into(),
        speech_threshold: level(0.6),
        ..old.clone()
    };
    let plan = plan_reload(&old, &new);
    // A device change can't apply live → flagged for restart …
    assert!(plan.restart_required_for_device.is_some());
    // … but the hot knob in the same edit still applies.
    assert_eq!(plan.set_speech_threshold, Some(new.speech_threshold));
}

#[test]
fn output_device_change_also_flags_restart() {
    let old = Config::default().tunables();
    let new = Tunables {
        output_device: "hw:2".into(),
        ..old.clone()
    };
    let plan = plan_reload(&old, &new);
    assert!(plan.restart_required_for_device.is_some());
    assert_eq!(plan.set_speech_threshold, None);
}

#[test]
fn timeout_knob_changes_hot_apply() {
    // The hot-reloadable timeout knobs (stall / budget / narration gap) produce
    // an apply plan; the restart-only ones (stt/tts/connect) don't need to and
    // aren't part of Tunables.
    let old = Config::default().tunables();
    let new = Tunables {
        response_stall_ms: old.response_stall_ms + 1000,
        turn_budget_ms: old.turn_budget_ms + 10_000,
        status_narration_min_gap_ms: old.status_narration_min_gap_ms + 5000,
        ..old.clone()
    };
    let plan = plan_reload(&old, &new);
    assert_eq!(plan.set_response_stall_ms, Some(new.response_stall_ms));
    assert_eq!(plan.set_turn_budget_ms, Some(new.turn_budget_ms));
    assert_eq!(
        plan.set_status_narration_min_gap_ms,
        Some(new.status_narration_min_gap_ms)
    );
    assert_eq!(plan.rebuild_wake_sensitivity, None);
}

#[test]
fn conversation_reuse_window_change_hot_applies() {
    // The reuse window is a hot-reloadable tunable.
    let old = Config::default().tunables();
    let new = Tunables {
        conversation_reuse_window_ms: old.conversation_reuse_window_ms + 60_000,
        ..old.clone()
    };
    let plan = plan_reload(&old, &new);
    assert_eq!(
        plan.set_conversation_reuse_window_ms,
        Some(new.conversation_reuse_window_ms)
    );
}

#[test]
fn transport_selection_maps_to_connection_config() {
    let ws = AssistantConfig {
        transport: "ws".into(),
        ws_url: Some("wss://host:11339/ws".into()),
        ..AssistantConfig::default()
    };
    let cfg = ws.connection_config(connection_defaults());
    assert_eq!(cfg.transport_mode, TransportMode::Ws);
    assert_eq!(cfg.ws_url, "wss://host:11339/ws");

    let dbus = AssistantConfig {
        transport: "dbus".into(),
        ..AssistantConfig::default()
    };
    assert_eq!(
        dbus.connection_config(connection_defaults()).transport_mode,
        TransportMode::Dbus
    );
}

#[test]
fn defaults_match_the_provisioning_layout() {
    assert_eq!(AudioConfig::default().input_device, "default");
    assert_eq!(VadConfig::default().silence_duration_ms, 800);
    assert_eq!(SttConfig::default().language, "en");
    assert_eq!(TtsConfig::default().backend, "kokoro");
}

#[test]
fn timeout_defaults_are_sane() {
    let d = TimeoutConfig::default();
    assert!(d.response_stall_ms > 0 && d.turn_budget_ms > d.response_stall_ms);
    assert!(d.stt_ms > 0 && d.tts_ms > 0 && d.connect_ms > 0);
    assert_eq!(d.response_stall_ms, 30_000);
    assert_eq!(d.turn_budget_ms, 120_000);
    let limits = d.turn_timeouts(Duration::from_secs(4));
    assert_eq!(limits.turn_budget, Duration::from_secs(120));
    assert_eq!(limits.liveness_delay, Duration::from_secs(4));
}

#[test]
fn assistant_defaults_reuse_for_ten_minutes_with_every_tool() {
    assert_eq!(
        AssistantConfig::default().conversation_reuse_window_ms,
        600_000
    );
    let d = ClientToolsConfig::default();
    assert!(d.stop_listening && d.listen_for_more && d.say_this);
    let toggles = ClientToolsConfig { say_this: false, ..d }.toggles();
    assert!(toggles.stop_listening && toggles.listen_for_more && !toggles.say_this);
}

#[test]
fn piper_backend_is_selected() {
    let cfg = TtsConfig { backend: "piper".into(), ..TtsConfig::default() };
    assert_eq!(cfg.choice(), TtsChoice::Piper);
    assert_eq!(settled(cfg.choice(), true), TtsKind::Piper);
}

#[test]
fn unknown_backend_falls_back_to_piper() {
    let cfg = TtsConfig { backend: "whisper-in-the-wind".into(), ..TtsConfig::default() };
    assert_eq!(cfg.choice(), TtsChoice::Piper);
    assert_eq!(settled(cfg.choice(), true), TtsKind::Piper);
}

#[test]
fn kokoro_without_models_falls_back_to_piper_not_cloud() {
    // A Kokoro that cannot be loaded falls back to the local Piper, never to a
    // billable cloud backend.
    let cfg = TtsConfig {
        backend: "kokoro".into(),
        kokoro_model_path: text_path("/nonexistent/kokoro.onnx"),
        kokoro_voices_dir: text_path("/nonexistent/voices"),
        ..TtsConfig::default()
    };
    assert_eq!(cfg.choice(), TtsChoice::KokoroOrPiper);
    assert_eq!(settled(cfg.choice(), false), TtsKind::Piper);
    assert_eq!(settled(cfg.choice(), true), TtsKind::Kokoro);
    // Whether Kokoro could be loaded decides nothing else.
    for loaded in [false, true] {
        assert_eq!(settled(TtsChoice::Polly, loaded), TtsKind::Polly);
        assert_eq!(settled(TtsChoice::Piper, loaded), TtsKind::Piper);
    }
}

#[test]
fn the_cloud_is_chosen_by_name_alone() {
    let choice = |backend: &str| {
        let tts = TtsConfig { backend: backend.to_string(), ..TtsConfig::default() };
        tts.choice()
    };
    assert_eq!(choice("piper"), TtsChoice::Piper);
    assert_eq!(choice("whisper-in-the-wind"), TtsChoice::Piper);
    assert_eq!(choice("kokoro"), TtsChoice::KokoroOrPiper);
    assert_eq!(choice("polly"), TtsChoice::Polly);
    assert_eq!(choice("Polly"), TtsChoice::Piper);
}

#[test]
fn models_lie_below_the_data_directory() {
    let vad = VadConfig::in_data_dir(&text_path("/data"));
    let path = show_path(&vad.model_path);
    assert!(path.starts_with("/data/adele-voice/models/"));
    // Wherever the data directory is, the layout below it is the same.
    let file = path.trim_start_matches("/data/");
    assert!(show_path(&VadConfig::default().model_path).ends_with(file));
    assert_eq!(join_path(&text_path("/data/"), "x"), text_path("/data/x"));
    assert_eq!(join_path(&text_path(""), "x"), text_path("x"));
}

#[test]
fn the_configuration_lies_below_the_configuration_directory() {
    assert_eq!(
        config_path_in(Some(text_path("/etc"))),
        text_path("/etc/adele-voice/config.toml")
    );
    assert_eq!(config_path_in(None), text_path("./adele-voice/config.toml"));
    assert!(show_path(&config_path()).ends_with("/adele-voice/config.toml"));
}

#[test]
fn device_changes_are_quoted() {
    let old = Config::default().tunables();
    let new = Tunables { input_device: "a \"b\"".into(), ..old.clone() };
    let plan = plan_reload(&old, &new);
    let note = plan.restart_required_for_device.unwrap();
    assert!(note.contains("\"default\""), "got {note}");
    assert!(note.contains("\"a \\\"b\\\"\""), "got {note}");
}

#[test]
fn only_edits_of_the_configuration_count() {
    let files = vec![None, Some("notes.txt".to_string()), Some("config.toml".to_string())];
    assert!(touches_config(FileChange::Modified, &files, Some("config.toml")));
    assert!(touches_config(FileChange::Created, &files, Some("config.toml")));
    assert!(touches_config(FileChange::Removed, &files, Some("config.toml")));
    assert!(!touches_config(FileChange::Other, &files, Some("config.toml")));
    assert!(!touches_config(FileChange::Modified, &files, Some("other.toml")));
    assert!(touches_config(FileChange::Modified, &vec![], None));
}

#[test]
fn without_a_data_directory_the_working_directory_is_taken() {
    let found = text_path("/home/u/.local/share");
    assert_eq!(data_dir_or_here(Some(found.clone())), found);
    assert_eq!(data_dir_or_here(None), text_path("."));
    assert_eq!(models_dir_in(&data_dir_or_here(None)), text_path("./adele-voice/models"));
}

#[test]
fn a_directory_that_is_no_text_is_used_as_it_is() {
    let dir = FilePath::Bytes(vec![b'/', b'u', 0xff]);
    assert_eq!(data_dir_or_here(Some(dir.clone())), dir);
    let stt = SttConfig::in_data_dir(&dir);
    let mut expected = vec![b'/', b'u', 0xff];
    expected.extend(b"/adele-voice/models/ggml-distil-large-v3.bin");
    assert_eq!(stt.model_path, FilePath::Bytes(expected));
    assert_eq!(
        show_path(&stt.model_path),
        "/u\u{fffd}/adele-voice/models/ggml-distil-large-v3.bin"
    );
    let slash = FilePath::Bytes(vec![0xff, b'/']);
    assert_eq!(join_path(&slash, "x"), FilePath::Bytes(vec![0xff, b'/', b'x']));
}

#[test]
fn the_defaults_offer_every_tool_and_no_connection() {
    let c = Config::default();
    let tools = c.assistant.client_tools;
    assert!(tools.stop_listening && tools.listen_for_more && tools.say_this);
    assert_eq!(c.assistant.ws_url, None);
    assert_eq!(c.assistant.socket_path, None);
    assert!(show_path(&c.wake_word.model_path).ends_with("/adele-voice/models/hey-adele.rpw"));
    assert!(show_path(&c.tts.kokoro_voices_dir).ends_with("/adele-voice/models/kokoro-voices"));
}
