//! Tests of voices, their requests and the WAV encoding.

use adele_voice::paths::text_path;
use adele_voice::speaker::Speaker;
use adele_voice::time::Duration;
use adele_voice::voices::{
    current_voice, kokoro_voices, list_voices, parse_voice_metadata, polly_voices,
    read_voice_metadata, select_voice, set_voice, voice_model_path, voice_sidecar_path, ModelFile,
    Sidecar, TtsCommand, TtsKind, TtsService, TtsWork, VoiceInfo, VoiceSelection,
    DEFAULT_PIPER_SAMPLE_RATE,
};
use adele_voice::wav::encode_wav;

/// A sample as it is encoded.
fn pcm(sample: f32) -> i16 {
    (sample.clamp(-1.0, 1.0) * i16::MAX as f32) as i16
}

#[test]
fn wav_header_and_size_are_correct() {
    let samples: Vec<i16> = [0.0, 0.5, -0.5, 1.0].iter().map(|s| pcm(*s)).collect();
    let wav = encode_wav(&samples, 16000);
    assert_eq!(&wav[0..4], b"RIFF");
    assert_eq!(&wav[8..12], b"WAVE");
    assert_eq!(&wav[36..40], b"data");
    assert_eq!(wav.len(), 44 + 4 * 2);
    assert_eq!(
        u32::from_le_bytes([wav[24], wav[25], wav[26], wav[27]]),
        16000
    );
    assert_eq!(u32::from_le_bytes([wav[4], wav[5], wav[6], wav[7]]), 36 + 8);
}

#[test]
fn empty_input_is_a_valid_header_only_wav() {
    let wav = encode_wav(&[], 16000);
    assert_eq!(wav.len(), 44);
    assert_eq!(&wav[0..4], b"RIFF");
}

#[test]
fn samples_are_little_endian() {
    let wav = encode_wav(&[i16::MAX, -i16::MAX, i16::MIN, -2, 258], 22_050);
    let at = |k: usize| i16::from_le_bytes([wav[44 + 2 * k], wav[45 + 2 * k]]);
    assert_eq!(
        [at(0), at(1), at(2), at(3), at(4)],
        [i16::MAX, -i16::MAX, i16::MIN, -2, 258]
    );
    assert_eq!(u32::from_le_bytes([wav[28], wav[29], wav[30], wav[31]]), 44_100);
    assert_eq!(&wav[12..16], b"fmt ");
    assert_eq!((wav[16], wav[20], wav[22], wav[32], wav[34]), (16, 1, 1, 2, 16));
}

#[test]
fn parses_piper_voice_metadata() {
    let json = r#"{
        "dataset": "amy",
        "language": { "code": "en_US", "family": "en" },
        "audio": { "sample_rate": 22050 },
        "num_speakers": 1
    }"#;
    let (name, language, num_speakers, rate) = parse_voice_metadata(json);
    assert_eq!(name, "amy");
    assert_eq!(language, "en_US");
    assert_eq!(num_speakers, 1);
    assert_eq!(rate, 22050);
}

#[test]
fn malformed_metadata_falls_back_to_defaults() {
    let (name, language, num_speakers, rate) = parse_voice_metadata("not json");
    assert!(name.is_empty());
    assert!(language.is_empty());
    assert_eq!(num_speakers, 1);
    assert_eq!(rate, DEFAULT_PIPER_SAMPLE_RATE);
}

#[test]
fn metadata_is_read_field_by_field() {
    let json = r#"{"language": {"family": "de"}, "num_speakers": 4294967298, "audio": {"sample_rate": -5}}"#;
    let (name, language, num_speakers, rate) = parse_voice_metadata(json);
    assert_eq!(name, "");
    assert_eq!(language, "de");
    // Only the low half of the number counts.
    assert_eq!(num_speakers, 2);
    assert_eq!(rate, DEFAULT_PIPER_SAMPLE_RATE);
    // A code of another kind does not give way to the family.
    let json = r#"{"language": {"code": 7, "family": "de"}}"#;
    assert_eq!(parse_voice_metadata(json).1, "");
    assert_eq!(
        read_voice_metadata(None),
        (String::new(), String::new(), 1, DEFAULT_PIPER_SAMPLE_RATE)
    );
}

fn model(stem: &str, extension: &str, sidecar: Sidecar) -> ModelFile {
    ModelFile {
        stem: Some(stem.to_string()),
        extension: Some(extension.to_string()),
        sidecar,
    }
}

fn info(id: &str, name: &str, language: &str, num_speakers: u32) -> VoiceInfo<String> {
    VoiceInfo {
        id: id.to_string(),
        name: name.to_string(),
        language: language.to_string(),
        num_speakers,
    }
}

#[test]
fn voices_are_listed_in_order() {
    let json = r#"{"dataset": "Zoe", "language": {"code": "en_GB"}, "num_speakers": 3}"#;
    let files = vec![
        model("zoe", "onnx", Sidecar::Text(json.to_string())),
        model("silero", "onnx", Sidecar::Missing),
        model("amy", "onnx", Sidecar::Unreadable),
        model("notes", "txt", Sidecar::Text(json.to_string())),
        ModelFile { stem: None, extension: Some("onnx".to_string()), sidecar: Sidecar::Unreadable },
        model("am", "onnx", Sidecar::Text("{}".to_string())),
    ];
    assert_eq!(
        list_voices(&files),
        vec![
            info("am", "am", "", 1),
            info("amy", "amy", "", 1),
            info("zoe", "Zoe", "en_GB", 3),
        ]
    );
}

#[test]
fn the_order_of_the_files_does_not_matter() {
    let file = |stem: &str| model(stem, "onnx", Sidecar::Unreadable);
    let a = list_voices(&vec![file("b"), file("a"), file("c")]);
    let b = list_voices(&vec![file("c"), file("b"), file("a")]);
    assert_eq!(a, b);
    assert_eq!(a[0], info("a", "a", "", 1));
}

#[test]
fn other_voices_are_listed_as_they_come() {
    let polly = polly_voices();
    assert_eq!(polly.len(), 8);
    assert_eq!(polly[0], info("Joanna", "Joanna (female, US)", "en_US", 1));
    assert_eq!(polly[7], info("Arthur", "Arthur (male, GB)", "en_GB", 1));
    assert_eq!(
        kokoro_voices(&vec!["bf_emma".to_string(), "af_heart".to_string()]),
        vec![info("bf_emma", "bf_emma", "en_GB", 1), info("af_heart", "af_heart", "en_US", 1)]
    );
}

#[test]
fn voices_are_selected_by_id_and_speaker() {
    let json = r#"{"num_speakers": 2, "audio": {"sample_rate": 16000}}"#;
    assert_eq!(
        set_voice(&text_path("/models"), "amy", 1, true, Some(json)),
        Ok(VoiceSelection {
            model: text_path("/models/amy.onnx"),
            speaker: Some(1),
            sample_rate: 16_000
        })
    );
    assert_eq!(
        set_voice(&text_path("/models"), "amy", 2, true, Some(json)),
        Err("speaker 2 out of range (voice 'amy' has 2)".to_string())
    );
    assert_eq!(
        set_voice(&text_path("/models"), "amy", -1, true, None),
        Ok(VoiceSelection {
            model: text_path("/models/amy.onnx"),
            speaker: None,
            sample_rate: DEFAULT_PIPER_SAMPLE_RATE
        })
    );
    assert_eq!(
        set_voice(&text_path("/models"), "amy", 0, false, None),
        Err("voice 'amy' not found in /models".to_string())
    );
    // A voice that claims no speakers still has its one.
    assert!(select_voice(&text_path("/models"), "amy", 0, true, 0, 16_000).is_ok());
    assert!(select_voice(&text_path("/models"), "amy", 1, true, 0, 16_000).is_err());
    assert_eq!(voice_model_path(&text_path("models"), "/abs/amy"), text_path("/abs/amy.onnx"));
    assert_eq!(voice_sidecar_path(&text_path("models"), "amy"), text_path("models/amy.onnx.json"));
}

#[test]
fn the_voice_in_use_is_told() {
    assert_eq!(current_voice(Some("amy"), Some(3)), ("amy".to_string(), 3));
    assert_eq!(current_voice(None, None), (String::new(), -1));
}

#[test]
fn requests_are_served_by_kind() {
    let service = |kind: TtsKind| TtsService::new(kind, &text_path("/models"), Speaker::new());
    let piper = service(TtsKind::Piper);
    assert_eq!(
        piper.on_command(TtsCommand::Say("**Hello** there".to_string())),
        TtsWork::Speak {
            text: "Hello there".to_string(),
            within: Some(Duration::from_secs(20))
        }
    );
    assert_eq!(piper.on_command(TtsCommand::Say("---".to_string())), TtsWork::Nothing);
    assert_eq!(
        piper.on_command(TtsCommand::Synthesize("**raw**".to_string())),
        TtsWork::Encode("**raw**".to_string())
    );
    assert_eq!(piper.on_command(TtsCommand::ListVoices), TtsWork::ListModels);
    assert_eq!(service(TtsKind::Polly).on_command(TtsCommand::ListVoices), TtsWork::ListPolly);
    assert_eq!(service(TtsKind::Kokoro).on_command(TtsCommand::ListVoices), TtsWork::ListKokoro);
    assert_eq!(piper.on_command(TtsCommand::GetVoice), TtsWork::TellVoice);
    let set = || TtsCommand::SetVoice { voice_id: "amy".to_string(), speaker: 2 };
    assert_eq!(
        piper.on_command(set()),
        TtsWork::LookUp {
            voice_id: "amy".to_string(),
            speaker: 2,
            model: text_path("/models/amy.onnx"),
            sidecar: text_path("/models/amy.onnx.json")
        }
    );
    assert_eq!(
        service(TtsKind::Polly).on_command(set()),
        TtsWork::UsePolly("amy".to_string())
    );
    assert_eq!(
        service(TtsKind::Kokoro).on_command(set()),
        TtsWork::UseKokoro("amy".to_string())
    );
}
