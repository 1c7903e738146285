//! Tests of capturing: devices, formats, blocks and the capture thread.

use adele_voice::capture::{
    find_device, find_shared_route, is_default_device, is_shared_route, needs_resampling,
    negotiate_input_config, pick_capture_format, pick_device, read_capacity, resolve_input_device,
    ring_capacity, BlockQueue, CaptureDrain, ChosenFormat, ConfigRange, CpalAudioSource,
    DeviceChoice, DevicePick, DrainStep, ReadStep, SampleFormat,
};
use adele_voice::capture_health::{FaultReport, StreamError};
use adele_voice::error::VoiceError;
use adele_voice::time::{Duration, Instant};

#[test]
fn picks_native_16k_mono_when_supported() {
    let ranges = [
        ConfigRange {
            channels: 2,
            min_rate: 44_100,
            max_rate: 48_000,
            format: SampleFormat::F32,
        },
        ConfigRange {
            channels: 1,
            min_rate: 8_000,
            max_rate: 48_000,
            format: SampleFormat::F32,
        },
    ];
    let default = ConfigRange {
        channels: 2,
        min_rate: 48_000,
        max_rate: 48_000,
        format: SampleFormat::F32,
    };
    let chosen = pick_capture_format(&ranges, default);
    assert_eq!(
        chosen,
        ChosenFormat {
            rate: 16_000,
            channels: 1,
            format: SampleFormat::F32
        }
    );
}

#[test]
fn falls_back_to_default_when_16k_unsupported() {
    // A raw USB mic that only does 48 kHz stereo — the case that used to
    // crash with snd_pcm_hw_params EINVAL.
    let ranges = [ConfigRange {
        channels: 2,
        min_rate: 48_000,
        max_rate: 48_000,
        format: SampleFormat::F32,
    }];
    let default = ranges[0];
    let chosen = pick_capture_format(&ranges, default);
    assert_eq!(
        chosen,
        ChosenFormat {
            rate: 48_000,
            channels: 2,
            format: SampleFormat::F32
        }
    );
}

#[test]
fn prefers_f32_over_integer_at_16k() {
    let ranges = [
        ConfigRange {
            channels: 1,
            min_rate: 16_000,
            max_rate: 16_000,
            format: SampleFormat::I16,
        },
        ConfigRange {
            channels: 2,
            min_rate: 8_000,
            max_rate: 48_000,
            format: SampleFormat::F32,
        },
    ];
    let default = ranges[0];
    let chosen = pick_capture_format(&ranges, default);
    // mono-i16 scores 0+2=2; stereo-f32 scores 1+0=1 -> f32 wins.
    assert_eq!(chosen.format, SampleFormat::F32);
    assert_eq!(chosen.rate, 16_000);
}

#[test]
fn shared_routes_vs_raw_cards() {
    // Sound-server routes share the device with other apps.
    assert!(is_shared_route("default"));
    assert!(is_shared_route("pipewire"));
    assert!(is_shared_route("pulse"));
    assert!(is_shared_route("jack"));
    // Raw hardware PCMs take exclusive access.
    assert!(!is_shared_route("sysdefault:CARD=Mini"));
    assert!(!is_shared_route("front:CARD=Mini,DEV=0"));
    assert!(!is_shared_route("hw:CARD=PCH,DEV=0"));
    assert!(!is_shared_route("plughw:CARD=Mini"));
}

const NOW: Instant = Instant { nanos: 1_000_000_000 };

fn after(millis: u64) -> Instant {
    NOW.plus(Duration::from_millis(millis))
}

fn range(channels: u16, rate: u32, format: SampleFormat) -> ConfigRange {
    ConfigRange { channels, min_rate: rate, max_rate: rate, format }
}

#[test]
fn the_first_of_equally_good_ranges_is_taken() {
    let ranges = [
        range(4, 16_000, SampleFormat::F32),
        range(2, 16_000, SampleFormat::F32),
        range(1, 16_000, SampleFormat::I8),
    ];
    let chosen = pick_capture_format(&ranges, range(2, 48_000, SampleFormat::I16));
    assert_eq!(
        chosen,
        ChosenFormat { rate: 16_000, channels: 4, format: SampleFormat::F32 }
    );
}

#[test]
fn a_device_without_a_usable_format_is_refused() {
    let refused = negotiate_input_config(
        &[range(1, 16_000, SampleFormat::U8)],
        range(2, 48_000, SampleFormat::I24),
    );
    assert_eq!(
        refused,
        Err(VoiceError::Audio(
            "device offers no usable sample format (best was I24)".to_string()
        ))
    );
    let taken = negotiate_input_config(&[], range(2, 44_100, SampleFormat::I32));
    assert_eq!(
        taken,
        Ok(ChosenFormat { rate: 44_100, channels: 2, format: SampleFormat::I32 })
    );
}

#[test]
fn devices_are_found_by_part_of_their_name() {
    let names = vec![None, Some("USB Mini Mic".to_string()), Some("Mini".to_string())];
    assert_eq!(find_device(&names, "Mini"), Some(1));
    assert_eq!(find_device(&names, "Mic"), Some(1));
    assert_eq!(find_device(&names, "mini"), None);
    assert!(is_default_device("default"));
    assert!(!is_default_device("Default"));
}

#[test]
fn a_raw_card_gives_way_to_a_shared_route() {
    let routes = vec![
        Some("hw:CARD=Mini".to_string()),
        Some("pulse".to_string()),
        None,
        Some("pipewire".to_string()),
    ];
    assert_eq!(find_shared_route(&routes), Some(3));
    assert_eq!(
        resolve_input_device("Mini", Some("hw:CARD=Mini"), &routes),
        DeviceChoice::Shared(3)
    );
    assert_eq!(
        resolve_input_device("Mini", None, &vec![Some("pulse".to_string())]),
        DeviceChoice::Shared(0)
    );
    // What is shared already stays, and so does a card without any route.
    assert_eq!(
        resolve_input_device("jack", Some("jack"), &routes),
        DeviceChoice::Configured
    );
    assert_eq!(
        resolve_input_device("default", Some("hw:0"), &routes),
        DeviceChoice::Configured
    );
    assert_eq!(
        resolve_input_device("Mini", Some("hw:CARD=Mini"), &vec![Some("jack".to_string())]),
        DeviceChoice::Configured
    );
}

#[test]
fn buffers_fit_the_rate() {
    assert_eq!(ring_capacity(48_000), 48_000);
    assert_eq!(ring_capacity(8_000), 16_000);
    assert_eq!(read_capacity(48_000), 1_920);
    assert_eq!(read_capacity(7_999), 320);
    assert!(needs_resampling(44_100));
    assert!(!needs_resampling(16_000));
}

#[test]
fn blocks_keep_every_sample_in_order() {
    let mut queue: BlockQueue<i16> = BlockQueue::new(3);
    assert_eq!(queue.push(&[1, 2]), Vec::<Vec<i16>>::new());
    assert_eq!(queue.push(&[3, 4, 5, 6, 7]), vec![vec![1, 2, 3], vec![4, 5, 6]]);
    assert_eq!(queue.push(&[8, 9]), vec![vec![7, 8, 9]]);
}

#[test]
fn capture_starts_once_at_a_time() {
    let mut source = CpalAudioSource::new("Mini");
    assert_eq!(source.device_name(), "Mini");
    assert_eq!(source.may_start(), Ok(()));
    source.started();
    assert!(source.running());
    assert_eq!(
        source.may_start(),
        Err(VoiceError::Audio("capture already running".to_string()))
    );
    source.stop();
    assert_eq!(source.may_start(), Ok(()));
}

#[test]
fn a_quiet_capture_is_presumed_dead() {
    let mut drain = CaptureDrain::new(16_000, NOW);
    assert_eq!(drain.keep_going(true, after(4_999)), DrainStep::GoOn);
    drain.passed_on(after(4_000));
    assert_eq!(drain.keep_going(true, after(8_999)), DrainStep::GoOn);
    assert!(matches!(drain.keep_going(true, after(9_000)), DrainStep::Dead(_)));
    assert_eq!(drain.keep_going(false, after(9_000)), DrainStep::Stopped);
}

#[test]
fn a_fatal_error_ends_the_capture() {
    let mut drain = CaptureDrain::new(48_000, NOW);
    assert_eq!(drain.on_error(&StreamError::BufferUnderrun), FaultReport::Recoverable);
    assert_eq!(drain.keep_going(true, after(10)), DrainStep::GoOn);
    assert_eq!(drain.on_error(&StreamError::BufferUnderrun), FaultReport::Silent);
    assert_eq!(drain.take_errors(), 2);
    assert_eq!(drain.take_errors(), 0);
    assert_eq!(drain.on_error(&StreamError::BufferUnderrun), FaultReport::Recoverable);
    assert_eq!(drain.on_error(&StreamError::DeviceNotAvailable), FaultReport::Fatal);
    assert!(matches!(drain.keep_going(true, after(10)), DrainStep::Dead(_)));
}

#[test]
fn reads_go_on_while_the_buffer_is_full() {
    let drain = CaptureDrain::new(48_000, NOW);
    assert_eq!(drain.read_size(), 1_920);
    assert_eq!(drain.on_read(0), ReadStep::Idle);
    assert_eq!(drain.on_read(1_919), ReadStep::Pass);
    assert_eq!(drain.on_read(1_920), ReadStep::PassAndReadOn);
}

#[test]
fn a_device_that_is_not_there_is_named() {
    let names = vec![Some("USB Mini Mic".to_string())];
    assert_eq!(pick_device("input", "default", &names, true), Ok(DevicePick::Default));
    assert_eq!(
        pick_device("input", "default", &names, false),
        Err(VoiceError::Audio("no default input device".to_string()))
    );
    assert_eq!(pick_device("output", "Mini", &names, false), Ok(DevicePick::Named(0)));
    assert_eq!(
        pick_device("output", "HDMI", &names, true),
        Err(VoiceError::Audio("output device 'HDMI' not found".to_string()))
    );
}
