//! The native camera source.
use std::mem::size_of;
use std::path::PathBuf;

use micam_rs::native_miot::{
    default_lib_path, log_level, miot_host_string, native_frame, start_error_message, LogLevel,
    NativeFrame, NativeFrameHeader, NativeMiotConfig, NativeMiotSource, DEFAULT_QUEUE_CAPACITY,
};
use micam_rs::native_start::{NativeCall, NativeError, NativeEvent, NativePhase};

fn config() -> NativeMiotConfig {
    NativeMiotConfig {
        lib_path: PathBuf::from("/lib/camera.so"),
        cloud_server: " de ".to_string(),
        access_token: "token".to_string(),
        camera_id: " did ".to_string(),
        camera_model: "model".to_string(),
        channel_count: 2,
        channel: 1,
        video_quality: 3,
        enable_audio: true,
        pin_code: Some("1234".to_string()),
        queue_capacity: 4,
    }
}

/// Drives a source through a list of events; returns the calls of the last step.
fn drive(source: &mut NativeMiotSource, events: &[NativeEvent]) -> Vec<NativeCall> {
    let mut calls = Vec::new();
    for event in events {
        assert!(source.expects(*event));
        calls = source.advance(*event);
    }
    calls
}

#[test]
fn native_frame_header_matches_miloco_ctypes_layout() {
    assert_eq!(size_of::<NativeFrameHeader>(), 32);
}

#[test]
fn builds_miot_host_for_cn_and_global_regions() {
    assert_eq!(miot_host_string("cn"), "mico.api.mijia.tech");
    assert_eq!(miot_host_string("de"), "de.mico.api.mijia.tech");
}

#[test]
fn enforces_non_zero_queue_capacity() {
    let config = NativeMiotConfig {
        lib_path: default_lib_path(),
        cloud_server: "cn".to_string(),
        access_token: "token".to_string(),
        camera_id: "did".to_string(),
        camera_model: "model".to_string(),
        channel_count: 1,
        channel: 0,
        video_quality: 2,
        enable_audio: false,
        pin_code: None,
        queue_capacity: 0,
    };

    assert_eq!(config.queue_capacity(), 1);
}

#[test]
fn default_queue_capacity_is_small_for_low_latency() {
    assert_eq!(DEFAULT_QUEUE_CAPACITY, 8);
}

#[test]
fn summary_hides_the_secrets() {
    let mut config = config();
    assert_eq!(
        config.diagnostic_summary(),
        "cloud_server=de, host=de.mico.api.mijia.tech, did=did, model=model, channel=1/2, \
         video_quality=3, audio=true, pin_code=present, token=present"
    );
    config.pin_code = Some("  ".to_string());
    config.access_token = String::new();
    config.channel_count = 0;
    config.enable_audio = false;
    assert_eq!(
        config.diagnostic_summary(),
        "cloud_server=de, host=de.mico.api.mijia.tech, did=did, model=model, channel=1/1, \
         video_quality=3, audio=false, pin_code=absent, token=absent"
    );
}

#[test]
fn frames_of_unknown_codecs_are_dropped() {
    let header = NativeFrameHeader {
        codec_id: 5,
        length: 2,
        timestamp: 77,
        sequence: 8,
        frame_type: 1,
        channel: 3,
    };
    assert_eq!(
        native_frame(&header, vec![1, 2]),
        Some(NativeFrame {
            codec_id: 5,
            codec: "hevc",
            data: vec![1, 2],
            timestamp: 77,
            sequence: 8,
            channel: 3,
        })
    );
    let audio = NativeFrameHeader { codec_id: 1027, ..header };
    assert_eq!(native_frame(&audio, vec![1, 2]), None);
}

#[test]
fn library_messages_keep_their_weight() {
    assert_eq!(log_level(0), LogLevel::Debug);
    assert_eq!(log_level(1), LogLevel::Debug);
    assert_eq!(log_level(2), LogLevel::Info);
    assert_eq!(log_level(3), LogLevel::Warn);
    assert_eq!(log_level(4), LogLevel::Error);
    assert_eq!(log_level(-1), LogLevel::Error);
}

#[test]
fn incomplete_configurations_do_not_start() {
    let refusal = |change: fn(&mut NativeMiotConfig)| {
        let mut config = config();
        change(&mut config);
        match NativeMiotSource::start(config.clone()) {
            Ok(_) => panic!("started"),
            Err(error) => (error, error.message(&config)),
        }
    };

    assert_eq!(
        refusal(|c| c.access_token = " ".to_string()),
        (
            NativeError::MissingAccessToken,
            "MIOT_ACCESS_TOKEN is required in native mode".to_string()
        )
    );
    assert_eq!(
        refusal(|c| c.camera_id = " ".to_string()),
        (
            NativeError::MissingCameraId,
            "CAMERA_ID is required in native mode".to_string()
        )
    );
    assert_eq!(
        refusal(|c| c.camera_model = String::new()),
        (
            NativeError::MissingCameraModel,
            "MIOT_CAMERA_MODEL is required in native mode".to_string()
        )
    );
    assert_eq!(
        refusal(|c| c.channel = 2),
        (
            NativeError::ChannelOutsideCount { channel: 2, channel_count: 2 },
            "STREAM_CHANNEL 2 is outside MIOT_CHANNEL_COUNT 2".to_string()
        )
    );
    assert_eq!(
        refusal(|c| c.channel_count = 0).0,
        NativeError::ChannelOutsideCount { channel: 1, channel_count: 0 }
    );
}

#[test]
fn a_start_asks_for_each_call_in_turn() {
    let mut source = NativeMiotSource::start(config()).unwrap();

    let calls = source.advance(NativeEvent::LibraryLoaded);
    assert_eq!(calls.len(), 4);
    assert!(matches!(calls[0], NativeCall::SetLogHandler));
    assert!(matches!(calls[1], NativeCall::ReadVersion));
    assert!(matches!(
        &calls[2],
        NativeCall::Init { host, client_id, access_token }
            if host == "de.mico.api.mijia.tech"
                && *client_id == "2882303761520431603"
                && access_token == "token"
    ));
    assert!(matches!(
        &calls[3],
        NativeCall::NewCamera { did, model, channel_count: 2 } if did == " did " && model == "model"
    ));

    let calls = source.advance(NativeEvent::CameraMade);
    assert_eq!(calls.len(), 2);
    assert!(matches!(calls[0], NativeCall::InstallSenders { capacity: 4 }));
    assert!(matches!(calls[1], NativeCall::RegisterStatus));

    let calls = source.advance(NativeEvent::Code(0));
    assert_eq!(calls.len(), 1);
    assert!(matches!(calls[0], NativeCall::RegisterRawData { channel: 1 }));

    let calls = source.advance(NativeEvent::Code(0));
    assert_eq!(calls.len(), 1);
    assert!(matches!(
        &calls[0],
        NativeCall::StartStream { qualities, enable_audio: true, pin_code: Some(pin) }
            if *qualities == vec![3, 3, 0] && pin == "1234"
    ));

    assert!(source.advance(NativeEvent::Code(0)).is_empty());
    assert_eq!(source.phase, NativePhase::Running);
    assert!(!source.expects(NativeEvent::Code(0)));

    let calls = source.advance(NativeEvent::Shutdown);
    assert_eq!(calls.len(), 7);
    assert!(matches!(calls[0], NativeCall::ClearSenders));
    assert!(matches!(calls[1], NativeCall::ClearLogHandler));
    assert!(matches!(calls[2], NativeCall::StopStream));
    assert!(matches!(calls[3], NativeCall::UnregisterRawData { channel: 1 }));
    assert!(matches!(calls[4], NativeCall::UnregisterStatus));
    assert!(matches!(calls[5], NativeCall::FreeCamera));
    assert!(matches!(calls[6], NativeCall::Deinit));
    assert_eq!(source.phase, NativePhase::Released);
}

#[test]
fn a_missing_library_needs_no_cleanup() {
    let mut source = NativeMiotSource::start(config()).unwrap();

    assert!(source.advance(NativeEvent::LibraryFailed).is_empty());
    assert_eq!(source.phase, NativePhase::Failed(NativeError::LibraryNotLoaded));
    assert_eq!(
        NativeError::LibraryNotLoaded.message(&source.config),
        "failed to load MIoT camera library: /lib/camera.so"
    );
}

#[test]
fn a_nul_byte_is_not_handed_over() {
    let mut bad = config();
    bad.camera_model = "mo\0del".to_string();
    let mut source = NativeMiotSource::start(bad).unwrap();

    let calls = source.advance(NativeEvent::LibraryLoaded);
    assert_eq!(calls.len(), 2);
    assert!(matches!(calls[1], NativeCall::ReadVersion));
    let error = NativeError::InteriorNul { position: 2 };
    assert_eq!(source.phase, NativePhase::Failed(error));
    assert_eq!(
        error.message(&source.config),
        "nul byte found in provided data at position: 2"
    );
}

#[test]
fn a_blank_pin_is_left_out() {
    let mut blank = config();
    blank.pin_code = Some(" \0".replace('\0', " "));
    let mut source = NativeMiotSource::start(blank).unwrap();
    let calls = drive(
        &mut source,
        &[
            NativeEvent::LibraryLoaded,
            NativeEvent::CameraMade,
            NativeEvent::Code(0),
            NativeEvent::Code(0),
        ],
    );

    assert!(matches!(&calls[0], NativeCall::StartStream { pin_code: None, .. }));
}

#[test]
fn a_camera_that_is_null_ends_the_start() {
    let mut source = NativeMiotSource::start(config()).unwrap();
    let calls = drive(
        &mut source,
        &[NativeEvent::LibraryLoaded, NativeEvent::CameraNull],
    );

    assert_eq!(calls.len(), 2);
    assert!(matches!(calls[0], NativeCall::ClearLogHandler));
    assert!(matches!(calls[1], NativeCall::Deinit));
    assert_eq!(source.phase, NativePhase::Failed(NativeError::CameraNull));
    assert_eq!(
        NativeError::CameraNull.message(&source.config),
        format!(
            "miot_camera_new returned null. config: {}",
            source.config.diagnostic_summary()
        )
    );
}

#[test]
fn a_refused_callback_releases_what_was_made() {
    let mut source = NativeMiotSource::start(config()).unwrap();
    let calls = drive(
        &mut source,
        &[
            NativeEvent::LibraryLoaded,
            NativeEvent::CameraMade,
            NativeEvent::Code(-7),
        ],
    );
    assert_eq!(calls.len(), 4);
    assert!(matches!(calls[2], NativeCall::FreeCamera));
    let error = NativeError::StatusCallbackRefused { code: -7 };
    assert_eq!(source.phase, NativePhase::Failed(error));
    assert_eq!(
        error.message(&source.config),
        "miot_camera_register_status_changed failed: -7"
    );

    let mut source = NativeMiotSource::start(config()).unwrap();
    let calls = drive(
        &mut source,
        &[
            NativeEvent::LibraryLoaded,
            NativeEvent::CameraMade,
            NativeEvent::Code(0),
            NativeEvent::Code(9),
        ],
    );
    assert_eq!(calls.len(), 5);
    assert!(matches!(calls[1], NativeCall::UnregisterStatus));
    let error = NativeError::RawDataCallbackRefused { code: 9 };
    assert_eq!(source.phase, NativePhase::Failed(error));
    assert_eq!(
        error.message(&source.config),
        "miot_camera_register_raw_data failed: 9"
    );
}

#[test]
fn a_refused_start_reports_the_camera_status() {
    let mut source = NativeMiotSource::start(config()).unwrap();
    let calls = drive(
        &mut source,
        &[
            NativeEvent::LibraryLoaded,
            NativeEvent::CameraMade,
            NativeEvent::Code(0),
            NativeEvent::Code(0),
            NativeEvent::Code(-1),
        ],
    );
    assert_eq!(calls.len(), 1);
    assert!(matches!(calls[0], NativeCall::ReadStatus));
    assert_eq!(source.phase, NativePhase::CameraStatus { result: -1 });

    let calls = source.advance(NativeEvent::Code(5));
    assert_eq!(calls.len(), 6);
    assert!(matches!(calls[1], NativeCall::UnregisterRawData { channel: 1 }));
    let error = NativeError::StartRefused { result: -1, camera_status: 5 };
    assert_eq!(source.phase, NativePhase::Failed(error));
    assert_eq!(
        error.message(&source.config),
        format!(
            "miot_camera_start failed: -1; camera_status=5; native library rejected the start \
             request; check token, camera id/model, and camera state. config: {}",
            source.config.diagnostic_summary()
        )
    );
}

#[test]
fn start_errors_give_a_hint() {
    assert!(start_error_message(-2, 0, &config())
        .starts_with("miot_camera_start failed: -2; camera_status=0; probable device-info"));
    assert!(start_error_message(3, 1, &config())
        .starts_with("miot_camera_start failed: 3; camera_status=1; native library returned"));
}
