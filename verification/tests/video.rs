//! Keyframes and the FFmpeg command line.
use micam_rs::nal::find_annex_b_nal_units;
use micam_rs::{build_ffmpeg_args, is_keyframe, native_miot, FfmpegOptions};

fn options() -> FfmpegOptions {
    FfmpegOptions {
        video_codec: "h264".to_string(),
        rtsp_url: "rtsp://127.0.0.1:8554/live".to_string(),
        gpu_enabled: false,
        video_encoder: None,
        hwaccel: None,
        vaapi_device: None,
        extra_args: Vec::new(),
        low_latency: false,
    }
}

fn has_pair(args: &[String], key: &str, value: &str) -> bool {
    args.windows(2)
        .any(|pair| pair[0] == key && pair[1] == value)
}

#[test]
fn detects_h264_idr_keyframe() {
    let data = [0x00, 0x00, 0x00, 0x01, 0x65, 0x88, 0x84];

    assert!(is_keyframe("h264", &data));
}

#[test]
fn rejects_h264_non_idr_frame() {
    let data = [0x00, 0x00, 0x00, 0x01, 0x41, 0x9a, 0x22];

    assert!(!is_keyframe("h264", &data));
}

#[test]
fn detects_hevc_irap_keyframe() {
    let nal_type_19 = 19u8 << 1;
    let data = [0x00, 0x00, 0x00, 0x01, nal_type_19, 0x01, 0x60];

    assert!(is_keyframe("hevc", &data));
}

#[test]
fn hevc_keyframes_are_types_sixteen_to_twenty() {
    for nal_type in 0u8..64 {
        let data = [0x00, 0x00, 0x01, nal_type << 1, 0x01];
        assert_eq!(
            is_keyframe("hevc", &data),
            (16..=20).contains(&nal_type),
            "type {nal_type}"
        );
    }
}

#[test]
fn h264_keyframes_are_type_five() {
    for header in 0u8..=255 {
        let data = [0x00, 0x00, 0x01, header];
        assert_eq!(is_keyframe("h264", &data), header & 0x1f == 5, "{header}");
    }
}

#[test]
fn a_keyframe_may_follow_other_units() {
    let data = [0, 0, 0, 1, 0x67, 0x42, 0, 0, 0, 1, 0x68, 0, 0, 1, 0x65, 0x88];

    assert!(is_keyframe("h264", &data));
    assert!(!is_keyframe("hevc", &data));
}

#[test]
fn other_codecs_start_with_any_payload() {
    assert!(is_keyframe("mjpeg", &[]));
    assert!(is_keyframe("H264", &[0x41]));
    assert!(!is_keyframe("h264", &[]));
    assert!(!is_keyframe("h264", &[0x00, 0x00, 0x01]));
}

#[test]
fn units_start_behind_their_start_codes() {
    assert_eq!(find_annex_b_nal_units(&[0, 0, 1, 0x65]), vec![3]);
    assert_eq!(find_annex_b_nal_units(&[0, 0, 0, 1, 0x65]), vec![4, 4]);
    assert_eq!(find_annex_b_nal_units(&[0, 0, 1]), Vec::<usize>::new());
    assert_eq!(find_annex_b_nal_units(&[0, 0, 0, 1]), Vec::<usize>::new());
    assert_eq!(
        find_annex_b_nal_units(&[9, 0, 0, 1, 7, 0, 0, 1, 8]),
        vec![4, 8]
    );
}

#[test]
fn builds_homekit_gpu_ffmpeg_args_by_default() {
    let args = build_ffmpeg_args(&FfmpegOptions {
        video_codec: "hevc".to_string(),
        rtsp_url: "rtsp://127.0.0.1:8554/live".to_string(),
        gpu_enabled: true,
        video_encoder: None,
        hwaccel: None,
        vaapi_device: None,
        extra_args: Vec::new(),
        low_latency: false,
    });

    assert!(has_pair(&args, "-hwaccel", "cuda"));
    assert!(has_pair(&args, "-c:v", "h264_nvenc"));
    assert!(has_pair(&args, "-pix_fmt", "yuv420p"));
    assert!(has_pair(&args, "-c:a", "aac"));
    assert!(has_pair(&args, "-ar", "48000"));
    assert!(has_pair(&args, "-ac", "2"));
}

#[test]
fn uses_configured_video_encoder_and_hwaccel() {
    let args = build_ffmpeg_args(&FfmpegOptions {
        video_codec: "hevc".to_string(),
        rtsp_url: "rtsp://127.0.0.1:8554/live".to_string(),
        gpu_enabled: true,
        video_encoder: Some("h264_qsv".to_string()),
        hwaccel: Some("qsv".to_string()),
        vaapi_device: None,
        extra_args: Vec::new(),
        low_latency: false,
    });

    assert!(has_pair(&args, "-hwaccel", "qsv"));
    assert!(has_pair(&args, "-c:v", "h264_qsv"));
    assert!(has_pair(&args, "-c:a", "aac"));
}

#[test]
fn disables_gpu_and_copies_stream_when_requested() {
    let args = build_ffmpeg_args(&FfmpegOptions {
        video_codec: "h264".to_string(),
        rtsp_url: "rtsp://127.0.0.1:8554/live".to_string(),
        gpu_enabled: false,
        video_encoder: Some("h264_vaapi".to_string()),
        hwaccel: Some("vaapi".to_string()),
        vaapi_device: Some("/dev/dri/renderD128".to_string()),
        extra_args: Vec::new(),
        low_latency: false,
    });

    assert!(!args.contains(&"-hwaccel".to_string()));
    assert!(!args.contains(&"-vaapi_device".to_string()));
    assert!(has_pair(&args, "-c:v", "copy"));
    assert!(has_pair(&args, "-c:a", "copy"));
}

#[test]
fn adds_vaapi_device_and_upload_filter_for_vaapi_encoder() {
    let args = build_ffmpeg_args(&FfmpegOptions {
        video_codec: "h264".to_string(),
        rtsp_url: "rtsp://127.0.0.1:8554/live".to_string(),
        gpu_enabled: true,
        video_encoder: Some("h264_vaapi".to_string()),
        hwaccel: Some("vaapi".to_string()),
        vaapi_device: Some("/dev/dri/renderD128".to_string()),
        extra_args: Vec::new(),
        low_latency: false,
    });

    assert!(has_pair(&args, "-vaapi_device", "/dev/dri/renderD128"));
    assert!(has_pair(&args, "-hwaccel", "vaapi"));
    assert!(has_pair(&args, "-vf", "format=nv12,hwupload"));
    assert!(has_pair(&args, "-c:v", "h264_vaapi"));
}

#[test]
fn appends_extra_ffmpeg_args_before_output_url() {
    let args = build_ffmpeg_args(&FfmpegOptions {
        video_codec: "h264".to_string(),
        rtsp_url: "rtsp://127.0.0.1:8554/live".to_string(),
        gpu_enabled: true,
        video_encoder: Some("h264_qsv".to_string()),
        hwaccel: Some("qsv".to_string()),
        vaapi_device: None,
        extra_args: vec!["-b:v".to_string(), "2500k".to_string()],
        low_latency: false,
    });
    let output_url_index = args
        .iter()
        .position(|arg| arg == "rtsp://127.0.0.1:8554/live")
        .expect("output url should be present");

    assert_eq!(args[output_url_index - 2], "-b:v");
    assert_eq!(args[output_url_index - 1], "2500k");
}

#[test]
fn maps_native_codec_ids_to_ffmpeg_input_codecs() {
    assert_eq!(native_miot::codec_name(4), Some("h264"));
    assert_eq!(native_miot::codec_name(5), Some("hevc"));
    assert_eq!(native_miot::codec_name(99), None);
}

#[test]
fn low_latency_ffmpeg_args_are_inserted_before_output_url() {
    let args = build_ffmpeg_args(&FfmpegOptions {
        video_codec: "h264".to_string(),
        rtsp_url: "rtsp://127.0.0.1:8554/live".to_string(),
        gpu_enabled: false,
        video_encoder: None,
        hwaccel: None,
        vaapi_device: None,
        extra_args: Vec::new(),
        low_latency: true,
    });

    let output_url_index = args
        .iter()
        .position(|arg| arg == "rtsp://127.0.0.1:8554/live")
        .expect("output url should be present");
    assert!(args[..output_url_index]
        .windows(2)
        .any(|pair| pair[0] == "-fflags" && pair[1] == "nobuffer"));
    assert!(args[..output_url_index]
        .windows(2)
        .any(|pair| pair[0] == "-flags" && pair[1] == "low_delay"));
    assert!(args[..output_url_index]
        .windows(2)
        .any(|pair| pair[0] == "-flush_packets" && pair[1] == "1"));
}

#[test]
fn copying_command_line_is_exact() {
    let args = build_ffmpeg_args(&options());

    assert_eq!(
        args.join(" "),
        "-y -v error -hide_banner -use_wallclock_as_timestamps 1 -analyzeduration 20000000 \
         -probesize 20000000 -f h264 -i pipe:0 -c:v copy -c:a copy -f rtsp -rtsp_transport tcp \
         rtsp://127.0.0.1:8554/live"
    );
}

#[test]
fn vaapi_command_line_is_exact() {
    let args = build_ffmpeg_args(&FfmpegOptions {
        gpu_enabled: true,
        video_encoder: Some(" HEVC_VAAPI ".to_string()),
        hwaccel: Some("  ".to_string()),
        extra_args: vec!["-b:v".to_string(), "2500k".to_string()],
        low_latency: true,
        ..options()
    });

    assert_eq!(
        args.join(" "),
        "-y -v error -hide_banner -use_wallclock_as_timestamps 1 -analyzeduration 20000000 \
         -probesize 20000000 -vaapi_device /dev/dri/renderD128 -hwaccel cuda -f h264 -i pipe:0 \
         -c:v HEVC_VAAPI -vf format=nv12,hwupload -c:a aac -ar 48000 -ac 2 -f rtsp \
         -rtsp_transport tcp -fflags nobuffer -flags low_delay -flush_packets 1 -muxdelay 0 \
         -muxpreload 0 -b:v 2500k rtsp://127.0.0.1:8554/live"
    );
}
