//! The Miloco client and the bridge.
use std::path::PathBuf;

use http::header::{HeaderMap, HeaderValue, SET_COOKIE};
use micam_rs::bridge::{
    check_login, check_login_status, cookie_url, ffmpeg_exit_report, login_payload,
    stream_address_at, BridgeError, FrameEvent, SocketEvent, StreamAction,
};
use micam_rs::link::Link;
use micam_rs::miloco::{
    extract_access_cookie, find_access_cookie, into_data, message_action, CameraInfo, CookieError,
    LoginData, LoginError, MessageAction, MilocoClient, MilocoError, NormalResponse,
    RegisterStatusData, StreamMessage,
};
use micam_rs::native_miot::NativeFrame;
use micam_rs::numbers::IntegerError;
use micam_rs::oauth::MiotToken;
use micam_rs::remote_login::{LoginAction, LoginEvent, LoginFlow, LoginStage};
use micam_rs::{BridgeConfig, BridgeMode, RtspBridge};

const KEYFRAME: [u8; 5] = [0, 0, 0, 1, 0x65];
const OTHER_FRAME: [u8; 5] = [0, 0, 0, 1, 0x41];

fn config() -> BridgeConfig {
    BridgeConfig {
        mode: BridgeMode::Remote,
        base_url: "https://miloco:8000//".to_string(),
        username: "admin".to_string(),
        password: "secret".to_string(),
        camera_id: "1190866232".to_string(),
        channel: "1".to_string(),
        video_codec: "h264".to_string(),
        rtsp_url: "rtsp://0.0.0.0:8554/live".to_string(),
        ffmpeg_gpu_enabled: true,
        ffmpeg_video_encoder: Some("h264_qsv".to_string()),
        ffmpeg_hwaccel: Some("qsv".to_string()),
        ffmpeg_vaapi_device: None,
        ffmpeg_extra_args: vec!["-b:v".to_string(), "2500k".to_string()],
        ffmpeg_low_latency: true,
        miot_access_token: Some("access".to_string()),
        miot_refresh_token: None,
        miot_token_file: Some(PathBuf::from("/config/t.json")),
        miot_oauth_redirect_uri: "redirect".to_string(),
        miot_refresh_margin_seconds: 60,
        miot_cloud_server: "de".to_string(),
        miot_camera_model: Some("model".to_string()),
        miot_channel_count: 2,
        miot_video_quality: 3,
        miot_enable_audio: true,
        miot_pin_code: Some("1234".to_string()),
        miot_lib_path: PathBuf::from("/lib/camera.so"),
        miot_queue_capacity: 5,
    }
}

fn cookie(field: &'static str) -> HeaderMap {
    let mut headers = HeaderMap::new();
    headers.append(SET_COOKIE, HeaderValue::from_static(field));
    headers
}

fn bridge_at(base_url: &str) -> RtspBridge {
    RtspBridge::new(BridgeConfig { base_url: base_url.to_string(), ..config() })
}

fn frame(codec: &'static str, data: &[u8]) -> FrameEvent {
    FrameEvent::Frame(NativeFrame {
        codec_id: 4,
        codec,
        data: data.to_vec(),
        timestamp: 0,
        sequence: 0,
        channel: 0,
    })
}

fn forwarded(action: StreamAction) -> Option<Vec<u8>> {
    match action {
        StreamAction::Forward { data, .. } => Some(data),
        StreamAction::Skip => None,
        _ => panic!("the stream goes on"),
    }
}

fn failure(action: StreamAction) -> String {
    match action {
        StreamAction::Fail(error) => error.message(),
        _ => panic!("the stream fails"),
    }
}

#[test]
fn builds_https_websocket_url() {
    let client = MilocoClient::new("https://miloco:8000/");
    assert_eq!(
        client.websocket_url("1190866232", 0).unwrap(),
        "wss://miloco:8000/api/miot/ws/video_stream?camera_id=1190866232&channel=0"
    );
}

#[test]
fn builds_http_websocket_url() {
    let client = MilocoClient::new("http://127.0.0.1:8000");
    assert_eq!(
        client.websocket_url("cam", 1).unwrap(),
        "ws://127.0.0.1:8000/api/miot/ws/video_stream?camera_id=cam&channel=1"
    );
}

#[test]
fn extracts_access_token_cookie_only() {
    let mut headers = HeaderMap::new();
    headers.append(
        SET_COOKIE,
        "access_token=abc.def; HttpOnly; Path=/".parse().unwrap(),
    );
    assert_eq!(extract_access_cookie(&headers).unwrap(), "access_token=abc.def");
}

#[test]
fn exposes_miloco_oauth_callback_url() {
    let client = MilocoClient::new("https://miloco:8000/");

    assert_eq!(
        client.oauth_callback_url(),
        "https://miloco:8000/api/miot/xiaomi_home_callback"
    );
}

#[test]
fn base_urls_lose_every_trailing_slash() {
    let client = MilocoClient::new("http://a/b///");
    assert_eq!(
        client.oauth_callback_url(),
        "http://a/b/api/miot/xiaomi_home_callback"
    );
    assert!(matches!(
        MilocoClient::new("https://").websocket_url("cam", 0),
        Err(MilocoError::InvalidBaseUrl(url)) if url == "https:"
    ));
    assert!(matches!(
        MilocoClient::new("rtsp://a").websocket_url("cam", 0),
        Err(MilocoError::InvalidBaseUrl(url)) if url == "rtsp://a"
    ));
}

#[test]
fn first_access_cookie_counts() {
    let mut headers = HeaderMap::new();
    headers.append(SET_COOKIE, HeaderValue::from_static("theme=dark; access_token=no"));
    headers.append(SET_COOKIE, HeaderValue::from_static("access_token=one"));
    headers.append(SET_COOKIE, HeaderValue::from_static("access_token=two"));
    headers.append("cookie", HeaderValue::from_static("access_token=three"));
    assert_eq!(extract_access_cookie(&headers).unwrap(), "access_token=one");
}

#[test]
fn missing_access_cookie_is_reported() {
    let mut headers = HeaderMap::new();
    assert!(matches!(
        extract_access_cookie(&headers),
        Err(CookieError::Miloco(MilocoError::MissingAccessCookie))
    ));
    headers.append(SET_COOKIE, HeaderValue::from_static(" access_token=x"));
    assert!(matches!(
        extract_access_cookie(&headers),
        Err(CookieError::Miloco(MilocoError::MissingAccessCookie))
    ));
}

#[test]
fn cookies_that_are_no_text_are_reported() {
    let mut headers = HeaderMap::new();
    headers.append(SET_COOKIE, HeaderValue::from_bytes(b"name=\xff").unwrap());
    headers.append(SET_COOKIE, HeaderValue::from_static("access_token=x"));
    assert!(matches!(
        extract_access_cookie(&headers),
        Err(CookieError::HeaderNotText)
    ));
    assert_eq!(
        find_access_cookie(&vec![b"access_token=\tx;y".to_vec(), vec![0xff]]).unwrap(),
        "access_token=\tx"
    );
}

#[test]
fn answers_carry_data_or_an_error() {
    let answer = |code: i32, data: Option<bool>| NormalResponse {
        code,
        message: "said".to_string(),
        data: data.map(|is_registered| RegisterStatusData { is_registered }),
    };

    assert!(into_data(answer(0, Some(true))).unwrap().is_registered);
    let refused = into_data(answer(-3, Some(true))).unwrap_err();
    assert_eq!(refused.message(), "Miloco API error -3: said");
    let empty = into_data(answer(0, None)).unwrap_err();
    assert_eq!(
        empty.message(),
        "Miloco API error 0: Miloco response data is empty"
    );
}

#[test]
fn a_login_allows_streaming() {
    let mut client = MilocoClient::new("https://miloco:8000/");
    assert!(client.camera_list().cookie.is_none());
    assert!(matches!(
        client.stream_raw_video("cam", 0),
        Err(MilocoError::MissingAccessCookie)
    ));

    let request = client.login_request("admin", "secret");
    assert_eq!(request.url, "https://miloco:8000/api/auth/login");
    assert_eq!(request.payload, login_payload("admin", "secret"));

    let answer = |code: i32| {
        Ok::<_, String>(NormalResponse {
            code,
            message: String::new(),
            data: Some(LoginData { username: "admin".to_string() }),
        })
    };
    assert!(client.login(&cookie("access_token=no"), answer(1)).is_err());
    assert!(client.camera_list().cookie.is_none());

    let data = client.login(&cookie("access_token=yes; Path=/"), answer(0)).unwrap();
    assert_eq!(data.username, "admin");
    let cameras = client.camera_list();
    assert_eq!(cameras.url, "https://miloco:8000/api/miot/camera_list");
    assert_eq!(cameras.cookie.as_deref(), Some("access_token=yes"));
    let status = client.register_status();
    assert_eq!(status.url, "https://miloco:8000/api/auth/register-status");
    assert_eq!(status.cookie.as_deref(), Some("access_token=yes"));
    let stream = client.stream_raw_video("cam", 255).unwrap();
    assert_eq!(
        stream.url,
        "wss://miloco:8000/api/miot/ws/video_stream?camera_id=cam&channel=255"
    );
    assert_eq!(stream.cookie, "access_token=yes");

    assert!(client.login(&cookie("access_token=later"), answer(2)).is_err());
    assert_eq!(client.camera_list().cookie.as_deref(), Some("access_token=yes"));
}

#[test]
fn a_failed_login_leaves_the_client_as_it_was() {
    let mut client = MilocoClient::new("https://miloco:8000/");
    let answer = |data: Option<LoginData>| {
        Ok::<_, String>(NormalResponse { code: 0, message: String::new(), data })
    };
    let data = || Some(LoginData { username: "admin".to_string() });

    assert!(matches!(
        client.login(&cookie("theme=dark"), answer(data())),
        Err(LoginError::Miloco(MilocoError::MissingAccessCookie))
    ));
    assert!(matches!(
        client.login(&cookie("theme=dark"), Err("unread".to_string())),
        Err(LoginError::Miloco(MilocoError::MissingAccessCookie))
    ));
    assert!(matches!(
        client.login_with(&vec![vec![0xff]], answer(data())),
        Err(LoginError::HeaderNotText)
    ));
    assert!(matches!(
        client.login(&cookie("access_token=x"), Err("unread".to_string())),
        Err(LoginError::Body(cause)) if cause == "unread"
    ));
    assert!(matches!(
        client.login(&cookie("access_token=x"), answer(None)),
        Err(LoginError::Miloco(MilocoError::Api { code: 0, .. }))
    ));
    assert!(client.camera_list().cookie.is_none());

    client.login_with(&vec![b"access_token=y;z".to_vec()], answer(data())).unwrap();
    assert_eq!(client.camera_list().cookie.as_deref(), Some("access_token=y"));
}

#[test]
fn the_stream_is_connected_to_after_two_successes() {
    let bridge = RtspBridge::new(config());
    let (mut flow, action) = LoginFlow::begin(&bridge);
    match action {
        LoginAction::Login { url, payload } => {
            assert_eq!(url, "https://miloco:8000/api/auth/login");
            assert_eq!(payload, login_payload("admin", "secret"));
        }
        _ => panic!("the login comes first"),
    }
    assert!(!flow.expects(&LoginEvent::StatusAnswered { status: 200 }));
    let answered = LoginEvent::LoginAnswered { status: 200, body: String::new() };
    assert!(flow.expects(&answered));
    match flow.advance(&bridge, answered) {
        LoginAction::AskStatus { url } => {
            assert_eq!(url, "https://miloco:8000/api/miot/login_status")
        }
        _ => panic!("the question comes second"),
    }
    let answered = LoginEvent::StatusAnswered { status: 204 };
    assert!(flow.expects(&answered));
    assert!(matches!(flow.advance(&bridge, answered), LoginAction::Connect));
    assert!(!flow.expects(&LoginEvent::RequestFailed));
}

#[test]
fn a_login_without_success_does_not_connect() {
    let bridge = RtspBridge::new(config());
    let refused = LoginEvent::LoginAnswered { status: 403, body: "no".to_string() };
    match LoginFlow::begin(&bridge).0.advance(&bridge, refused) {
        LoginAction::Fail(error) => {
            assert_eq!(error.message(), "login failed: 403 Forbidden - no")
        }
        _ => panic!("the login was refused"),
    }
    assert!(matches!(
        LoginFlow::begin(&bridge).0.advance(&bridge, LoginEvent::RequestFailed),
        LoginAction::GiveUp
    ));
    let mut flow = LoginFlow { stage: LoginStage::AskingStatus };
    match flow.advance(&bridge, LoginEvent::StatusAnswered { status: 500 }) {
        LoginAction::Fail(error) => assert_eq!(
            error.message(),
            "login status check failed: 500 Internal Server Error"
        ),
        _ => panic!("the status was refused"),
    }
    assert_eq!(flow.stage, LoginStage::Over);
    let flow = LoginFlow { stage: LoginStage::LoggingIn };
    assert!(!flow.expects(&LoginEvent::LoginAnswered { status: 99, body: String::new() }));
}

#[test]
fn a_logged_in_client_still_needs_a_good_base_url() {
    let mut client = MilocoClient::new("miloco:8000");
    let answer = Ok::<_, String>(NormalResponse {
        code: 0,
        message: String::new(),
        data: Some(LoginData { username: "admin".to_string() }),
    });
    client.login(&cookie("access_token=yes"), answer).unwrap();
    match client.stream_raw_video("cam", 0) {
        Err(error) => assert_eq!(error.message(), "invalid Miloco base URL: miloco:8000"),
        Ok(_) => panic!("no stream without a scheme"),
    }
    assert_eq!(
        MilocoError::MissingAccessCookie.message(),
        "Miloco login did not return access_token cookie"
    );
}

#[test]
fn camera_lists_are_data() {
    let answer = NormalResponse {
        code: 0,
        message: String::new(),
        data: Some(vec![CameraInfo {
            did: "1".to_string(),
            name: None,
            model: Some("m".to_string()),
            channel_count: Some(2),
        }]),
    };
    let cameras = into_data(answer).unwrap();
    assert_eq!(cameras.len(), 1);
    assert_eq!(cameras[0].did, "1");
}

#[test]
fn stream_messages_are_sorted() {
    assert!(matches!(
        message_action(StreamMessage::Binary(vec![1, 2])),
        MessageAction::Deliver(data) if data == vec![1, 2]
    ));
    assert!(matches!(
        message_action(StreamMessage::Ping(vec![3])),
        MessageAction::Pong(payload) if payload == vec![3]
    ));
    assert!(matches!(message_action(StreamMessage::Close), MessageAction::Stop));
    assert!(matches!(message_action(StreamMessage::Other), MessageAction::Ignore));
}

#[test]
fn login_payload_has_two_fields() {
    let payload = login_payload("ad\"min", "secret");
    assert_eq!(payload["username"], "ad\"min");
    assert_eq!(payload["password"], "secret");
    assert_eq!(payload.as_object().unwrap().len(), 2);
}

#[test]
fn bridge_addresses_follow_the_base_url() {
    let bridge = RtspBridge::new(config());
    assert_eq!(bridge.login_url(), "https://miloco:8000/api/auth/login");
    assert_eq!(
        bridge.login_status_url(),
        "https://miloco:8000/api/miot/login_status"
    );
    assert_eq!(bridge.login_request(), login_payload("admin", "secret"));
    assert_eq!(
        bridge.ws_url().unwrap().text,
        "wss://miloco:8000/api/miot/ws/video_stream?camera_id=1190866232&channel=1"
    );
    assert_eq!(
        bridge_at("http://[::1]:80/x?y").ws_url().unwrap().text,
        "ws://[::1]/api/miot/ws/video_stream?camera_id=1190866232&channel=1"
    );
}

#[test]
fn bridge_rejects_other_base_urls() {
    match bridge_at("miloco").ws_url() {
        Err(BridgeError::InvalidBaseUrl(error)) => {
            assert_eq!(error, url::ParseError::RelativeUrlWithoutBase);
            assert_eq!(
                BridgeError::InvalidBaseUrl(error).message(),
                "invalid Miloco base URL"
            );
        }
        _ => panic!("a base URL is absolute"),
    }
    match bridge_at("ftp://miloco").ws_url() {
        Err(error) => assert_eq!(error.message(), "unsupported Miloco URL scheme: ftp"),
        Ok(_) => panic!("ftp has no socket"),
    }
    assert_eq!(
        BridgeError::InvalidWebSocketUrl(url::ParseError::EmptyHost).message(),
        "failed to build WebSocket URL"
    );
}

#[test]
fn stream_addresses_keep_a_special_port() {
    let mut base = Link {
        text: "http://cam.local:81/".to_string(),
        scheme: "http".to_string(),
        host: Some("cam.local".to_string()),
        port: Some(81),
        path: "/".to_string(),
        query_pairs: Vec::new(),
    };
    assert_eq!(
        stream_address_at(&base, "a&b", "x").unwrap(),
        "ws://cam.local:81/api/miot/ws/video_stream?camera_id=a&b&channel=x"
    );
    base.port = None;
    assert_eq!(
        stream_address_at(&base, "a", "0").unwrap(),
        "ws://cam.local/api/miot/ws/video_stream?camera_id=a&channel=0"
    );
    base.host = None;
    assert_eq!(
        stream_address_at(&base, "a", "0").unwrap_err().message(),
        "Miloco base URL has no host"
    );
}

#[test]
fn cookies_are_looked_up_over_http() {
    let secure = bridge_at("https://miloco:8000").ws_url().unwrap();
    assert_eq!(
        cookie_url(&secure).unwrap(),
        "https://miloco:8000/api/miot/ws/video_stream?camera_id=1190866232&channel=1"
    );
    let plain = bridge_at("http://miloco").ws_url().unwrap();
    assert_eq!(
        cookie_url(&plain).unwrap(),
        "http://miloco/api/miot/ws/video_stream?camera_id=1190866232&channel=1"
    );
}

#[test]
fn failed_logins_are_reported() {
    assert!(check_login(200, "").is_ok());
    assert!(check_login(299, "").is_ok());
    assert_eq!(
        check_login(401, "no").unwrap_err().message(),
        "login failed: 401 Unauthorized - no"
    );
    assert_eq!(
        check_login(199, "").unwrap_err().message(),
        "login failed: 199 <unknown status code> - "
    );
    assert!(check_login_status(204).is_ok());
    assert_eq!(
        check_login_status(300).unwrap_err().message(),
        "login status check failed: 300 Multiple Choices"
    );
}

#[test]
fn nothing_is_forwarded_before_a_keyframe() {
    let mut bridge = RtspBridge::new(config());
    let payloads: [&[u8]; 5] = [&OTHER_FRAME, &[], &KEYFRAME, &OTHER_FRAME, &[7]];
    let mut passed = Vec::new();
    for payload in payloads {
        let action = bridge.on_socket_event(SocketEvent::Binary(payload.to_vec()));
        if let Some(data) = forwarded(action) {
            passed.push(data);
        }
    }
    assert_eq!(passed, vec![KEYFRAME.to_vec(), OTHER_FRAME.to_vec(), vec![7]]);
    assert_eq!(bridge.config, config());
}

#[test]
fn ffmpeg_is_started_once() {
    let mut bridge = RtspBridge::new(config());
    assert!(!bridge.finish());
    assert!(matches!(
        bridge.on_socket_event(SocketEvent::Binary(KEYFRAME.to_vec())),
        StreamAction::Forward { start_ffmpeg: true, .. }
    ));
    bridge.ffmpeg_started();
    assert!(matches!(
        bridge.on_socket_event(SocketEvent::Binary(vec![1])),
        StreamAction::Forward { start_ffmpeg: false, .. }
    ));
    assert!(bridge.finish());
    assert!(!bridge.finish());
}

#[test]
fn socket_events_end_or_fail_the_stream() {
    let mut bridge = RtspBridge::new(config());
    assert!(matches!(bridge.on_socket_event(SocketEvent::Other), StreamAction::Skip));
    assert!(matches!(bridge.on_socket_event(SocketEvent::Close), StreamAction::Finish));
    assert!(matches!(bridge.on_socket_event(SocketEvent::Ended), StreamAction::Finish));
    assert_eq!(
        failure(bridge.on_socket_event(SocketEvent::TimedOut)),
        "data receive timeout"
    );
    let cause = "reset".to_string();
    assert_eq!(
        failure(bridge.on_socket_event(SocketEvent::Failed { cause })),
        "WebSocket receive error"
    );
    assert!(bridge.waiting_for_keyframe);
}

#[test]
fn a_known_codec_is_kept() {
    let mut bridge = RtspBridge::new(config());
    assert_eq!(forwarded(bridge.on_frame_event(frame("hevc", &KEYFRAME))), Some(KEYFRAME.to_vec()));
    assert_eq!(bridge.config.video_codec, "h264");
}

#[test]
fn auto_takes_the_codec_of_the_first_frame() {
    let mut bridge = RtspBridge::new(BridgeConfig { video_codec: "auto".to_string(), ..config() });
    assert_eq!(forwarded(bridge.on_frame_event(frame("hevc", &KEYFRAME))), None);
    assert_eq!(bridge.config.video_codec, "hevc");
    let hevc_key = [0, 0, 1, 19 << 1];
    assert_eq!(forwarded(bridge.on_frame_event(frame("h264", &hevc_key))), Some(hevc_key.to_vec()));
    assert_eq!(bridge.config, BridgeConfig { video_codec: "hevc".to_string(), ..config() });
    let args = micam_rs::build_ffmpeg_args(&bridge.config.ffmpeg_options());
    assert!(args.contains(&"hevc".to_string()));
}

#[test]
fn native_streams_fail_when_they_end() {
    let mut bridge = RtspBridge::new(config());
    assert_eq!(
        failure(bridge.on_frame_event(FrameEvent::TimedOut)),
        "native MIoT data receive timeout"
    );
    assert_eq!(
        failure(bridge.on_frame_event(FrameEvent::Ended)),
        "native MIoT frame channel closed"
    );
}

#[test]
fn bridge_settings_reach_ffmpeg() {
    let options = config().ffmpeg_options();
    assert_eq!(options.video_codec, "h264");
    assert_eq!(options.rtsp_url, "rtsp://0.0.0.0:8554/live");
    assert!(options.gpu_enabled);
    assert_eq!(options.video_encoder.as_deref(), Some("h264_qsv"));
    assert_eq!(options.hwaccel.as_deref(), Some("qsv"));
    assert_eq!(options.vaapi_device, None);
    assert_eq!(options.extra_args, vec!["-b:v", "2500k"]);
    assert!(options.low_latency);
}

#[test]
fn bridge_settings_reach_the_native_source() {
    let token = MiotToken {
        access_token: "granted".to_string(),
        refresh_token: "refresh".to_string(),
        expires_ts: 1,
    };
    let channel = config().native_channel().unwrap();
    assert_eq!(channel, 1);
    let native = config().native_config(channel, token.clone());
    assert_eq!(native.lib_path, PathBuf::from("/lib/camera.so"));
    assert_eq!(native.cloud_server, "de");
    assert_eq!(native.access_token, "granted");
    assert_eq!(native.camera_id, "1190866232");
    assert_eq!(native.camera_model, "model");
    assert_eq!(native.channel_count, 2);
    assert_eq!(native.channel, 1);
    assert_eq!(native.video_quality, 3);
    assert!(native.enable_audio);
    assert_eq!(native.pin_code.as_deref(), Some("1234"));
    assert_eq!(native.queue_capacity, 5);
    let bare = BridgeConfig { miot_camera_model: None, ..config() };
    assert_eq!(bare.native_config(0, token).camera_model, "");

    let resolver = config().token_resolver();
    assert_eq!(resolver.cloud_server, "de");
    assert_eq!(resolver.redirect_uri, "redirect");
    assert_eq!(resolver.token_file, Some(PathBuf::from("/config/t.json")));
    assert_eq!(resolver.access_token.as_deref(), Some("access"));
    assert_eq!(resolver.refresh_token, None);
    assert_eq!(resolver.refresh_margin_seconds, 60);
}

#[test]
fn native_channels_are_bytes() {
    let channel = |text: &str| {
        let bridge = BridgeConfig { channel: text.to_string(), ..config() };
        bridge.native_channel()
    };
    assert_eq!(channel("+255").unwrap(), 255);
    match channel("256") {
        Err(BridgeError::InvalidChannel(cause)) => assert_eq!(cause, IntegerError::TooLarge),
        _ => panic!("too large"),
    }
    assert_eq!(
        channel(" 1").unwrap_err().message(),
        "STREAM_CHANNEL must be an integer for native mode"
    );
}

#[test]
fn ffmpeg_failures_are_reported() {
    let said = |text: &str| Some(text.to_string());
    assert_eq!(ffmpeg_exit_report(true, "exit status: 0", &said("x")), None);
    assert_eq!(
        ffmpeg_exit_report(false, "exit status: 1", &said("bad\n")).as_deref(),
        Some("FFmpeg exited with exit status: 1. stderr: bad\n")
    );
    assert_eq!(
        ffmpeg_exit_report(false, "exit status: 1", &said(" \n")).as_deref(),
        Some("FFmpeg exited with exit status: 1")
    );
    assert_eq!(
        ffmpeg_exit_report(false, "signal: 9", &None).as_deref(),
        Some("FFmpeg exited with signal: 9")
    );
}
