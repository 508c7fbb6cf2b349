//! Settings, the login helper and the probes.
use std::path::PathBuf;

use micam_rs::cli::{parse_extra_args, parse_mode, CliError, CliOptions};
use micam_rs::exchange_flow::{ExchangeAction, ExchangeEvent, ExchangeFlow, ExchangeStage};
use micam_rs::link::Link;
use micam_rs::native_miot::NativeMiotSource;
use micam_rs::oauth::{access_token_payload, build_auth_url, oauth_state, MiotToken, TokenRequest};
use micam_rs::oauth_server::{
    env_bool, request_path, request_target, ExchangeOutcome, HelperStep, OAuthServerConfig,
    OAuthSettings,
};
use micam_rs::pages::{escape_html, html_response, render_error, render_index, render_success};
use micam_rs::probe::{
    audio_wanted, byte_or, required_env, seconds_or, size_or, NativeProbeSettings, ProbeCount,
    StreamProbe,
};
use micam_rs::BridgeMode;

const GRANT: &str =
    r#"{"code":0,"result":{"access_token":"n","refresh_token":"m","expires_in":10}}"#;

fn options() -> CliOptions {
    CliOptions {
        mode: " Native ".to_string(),
        base_url: "https://miloco:8000".to_string(),
        username: "admin".to_string(),
        password: String::new(),
        camera_id: "1".to_string(),
        channel: "0".to_string(),
        video_codec: "h264".to_string(),
        rtsp_url: "rtsp://0.0.0.0:8554/live".to_string(),
        ffmpeg_gpu_enabled: false,
        ffmpeg_video_encoder: Some("h264_qsv".to_string()),
        ffmpeg_hwaccel: Some("qsv".to_string()),
        ffmpeg_vaapi_device: None,
        ffmpeg_extra_args: " -b:v '2500 k' ".to_string(),
        ffmpeg_low_latency: true,
        miot_access_token: None,
        miot_refresh_token: Some("refresh".to_string()),
        miot_token_file: None,
        miot_oauth_redirect_uri: "redirect".to_string(),
        miot_refresh_margin_seconds: 1_800,
        miot_cloud_server: "cn".to_string(),
        miot_camera_model: Some("model".to_string()),
        miot_channel_count: 1,
        miot_video_quality: 2,
        miot_enable_audio: false,
        miot_pin_code: None,
        miot_lib_path: None,
        miot_queue_capacity: 8,
    }
}

fn refusal(change: fn(&mut CliOptions)) -> String {
    let mut changed = options();
    change(&mut changed);
    changed.into_config().unwrap_err().message()
}

fn text(value: &str) -> Option<String> {
    Some(value.to_string())
}

fn no_settings() -> OAuthSettings {
    OAuthSettings {
        bind: None,
        public_base_url: None,
        callback_path: None,
        cloud_server: None,
        redirect_uri: None,
        uuid: None,
        token_file: None,
        skip_confirm: None,
    }
}

fn helper() -> OAuthServerConfig {
    OAuthServerConfig::from_settings(OAuthSettings { uuid: text("abc123"), ..no_settings() })
}

fn answer(step: HelperStep) -> String {
    match step {
        HelperStep::Answer(response) => response,
        HelperStep::Exchange(_) => panic!("no exchange"),
    }
}

fn exchange(step: HelperStep) -> TokenRequest {
    match step {
        HelperStep::Exchange(request) => request,
        HelperStep::Answer(response) => panic!("answered {response}"),
    }
}

fn probe_settings() -> NativeProbeSettings {
    NativeProbeSettings {
        lib_path: None,
        cloud_server: None,
        redirect_uri: None,
        token_file: None,
        access_token: None,
        refresh_token: None,
        refresh_margin_seconds: None,
        camera_id: text("1"),
        camera_model: text("model"),
        channel_count: None,
        channel: None,
        video_quality: None,
        enable_audio: None,
        pin_code: None,
        queue_capacity: None,
    }
}

fn token() -> MiotToken {
    MiotToken {
        access_token: "granted".to_string(),
        refresh_token: "refresh".to_string(),
        expires_ts: 1,
    }
}

#[test]
fn modes_have_two_names_each() {
    assert_eq!(parse_mode(" REMOTE\n").unwrap(), BridgeMode::Remote);
    assert_eq!(parse_mode("miloco").unwrap(), BridgeMode::Remote);
    assert_eq!(parse_mode("Native").unwrap(), BridgeMode::Native);
    assert_eq!(parse_mode("miot").unwrap(), BridgeMode::Native);
    match parse_mode(" Other ") {
        Err(CliError::InvalidMode(mode)) => assert_eq!(mode, "other"),
        _ => panic!("no such mode"),
    }
    assert_eq!(
        parse_mode("").unwrap_err().message(),
        "invalid MILOCO_MODE: ; expected native or remote"
    );
}

#[test]
fn extra_args_are_split_as_a_shell_does() {
    assert_eq!(parse_extra_args(" \t").unwrap(), Vec::<String>::new());
    assert_eq!(
        parse_extra_args(" -b:v 2500k  -maxrate 3000k").unwrap(),
        vec!["-b:v", "2500k", "-maxrate", "3000k"]
    );
    assert_eq!(
        parse_extra_args(r#"-metadata "title=a b" c\ d"#).unwrap(),
        vec!["-metadata", "title=a b", "c d"]
    );
    assert_eq!(
        parse_extra_args("-x 'open").unwrap_err().message(),
        "invalid FFMPEG_EXTRA_ARGS: missing closing quote"
    );
}

#[test]
fn complete_settings_make_a_configuration() {
    let config = options().into_config().unwrap();
    assert_eq!(config.mode, BridgeMode::Native);
    assert_eq!(config.base_url, "https://miloco:8000");
    assert_eq!(config.ffmpeg_extra_args, vec!["-b:v", "2500 k"]);
    assert_eq!(config.miot_token_file, Some(PathBuf::from("/config/miot_token.json")));
    assert_eq!(
        config.miot_lib_path,
        PathBuf::from("/usr/local/lib/libmiot_camera_lite.so")
    );
    assert_eq!(config.miot_refresh_token.as_deref(), Some("refresh"));

    let mut set = options();
    set.mode = "remote".to_string();
    set.password = "secret".to_string();
    set.miot_camera_model = None;
    set.miot_token_file = Some(PathBuf::from("/t.json"));
    set.miot_lib_path = Some(PathBuf::from("/l.so"));
    let config = set.into_config().unwrap();
    assert_eq!(config.mode, BridgeMode::Remote);
    assert_eq!(config.password, "secret");
    assert_eq!(config.miot_token_file, Some(PathBuf::from("/t.json")));
    assert_eq!(config.miot_lib_path, PathBuf::from("/l.so"));
}

#[test]
fn native_settings_suffice_for_a_start() {
    let config = options().into_config().unwrap();
    let channel = config.native_channel().unwrap();
    let native = config.native_config(channel, token());
    assert!(NativeMiotSource::start(native).is_ok());
    assert!(NativeMiotSource::start(config.native_config(1, token())).is_err());
}

#[test]
fn incomplete_settings_are_refused_in_order() {
    assert_eq!(
        refusal(|o| {
            o.mode = "x".to_string();
            o.camera_id = String::new();
        }),
        "invalid MILOCO_MODE: x; expected native or remote"
    );
    assert_eq!(
        refusal(|o| {
            o.mode = "remote".to_string();
            o.password = " ".to_string();
            o.camera_id = String::new();
        }),
        "MILOCO_PASSWORD is required"
    );
    assert_eq!(
        refusal(|o| {
            o.camera_id = " ".to_string();
            o.miot_camera_model = None;
        }),
        "CAMERA_ID is required"
    );
    assert_eq!(
        refusal(|o| {
            o.miot_camera_model = Some(" ".to_string());
            o.ffmpeg_extra_args = "'".to_string();
        }),
        "MIOT_CAMERA_MODEL is required when MILOCO_MODE=native"
    );
    assert_eq!(
        refusal(|o| o.ffmpeg_extra_args = "\"".to_string()),
        "invalid FFMPEG_EXTRA_ARGS: missing closing quote"
    );
}

#[test]
fn helper_has_usual_settings() {
    let config = OAuthServerConfig::from_settings(no_settings());
    assert_eq!(config.bind, "0.0.0.0:18080");
    assert_eq!(config.public_base_url, "http://127.0.0.1:18080");
    assert_eq!(config.callback_path, "/api/miot/xiaomi_home_callback");
    assert_eq!(config.cloud_server, "cn");
    assert_eq!(config.redirect_uri, "https://mico.api.mijia.tech/login_redirect");
    assert_eq!(config.uuid, "micam-rs");
    assert_eq!(config.token_file, Some(PathBuf::from("/config/miot_token.json")));
    assert!(!config.skip_confirm);
    assert_eq!(
        config.callback_url(),
        "http://127.0.0.1:18080/api/miot/xiaomi_home_callback"
    );
}

#[test]
fn helper_settings_are_kept() {
    let config = OAuthServerConfig::from_settings(OAuthSettings {
        bind: text("b"),
        public_base_url: text("http://h//"),
        callback_path: text("/cb"),
        cloud_server: text(""),
        redirect_uri: text("r"),
        uuid: text("u"),
        token_file: Some(PathBuf::from("/t")),
        skip_confirm: text("YES"),
    });
    assert_eq!(config.bind, "b");
    assert_eq!(config.cloud_server, "");
    assert_eq!(config.redirect_uri, "r");
    assert_eq!(config.token_file, Some(PathBuf::from("/t")));
    assert!(config.skip_confirm);
    assert_eq!(config.callback_url(), "http://h/cb");
}

#[test]
fn yes_has_five_spellings() {
    for yes in ["1", "true", "TRUE", "yes", "YES"] {
        assert!(env_bool(&text(yes), false));
    }
    for no in ["", "0", "True", "on", " yes"] {
        assert!(!env_bool(&text(no), true));
    }
    assert!(env_bool(&None, true));
    assert!(!env_bool(&None, false));
}

#[test]
fn requests_name_a_path() {
    assert_eq!(request_target("GET /a?b=c HTTP/1.1\r\nHost: x\r\n\r\n"), "/a?b=c");
    assert_eq!(request_target("  GET\t/x\r"), "/x");
    assert_eq!(request_target("GET \n/later"), "/");
    assert_eq!(request_target(""), "/");
    assert_eq!(request_path(b"GET /ok HTTP/1.1\r\n"), "/ok");
    assert_eq!(request_path(b"GET /\xff HTTP/1.1\r\n"), "/\u{fffd}");
    assert_eq!(request_path("GET /é HTTP/1.1".as_bytes()), "/é");
}

#[test]
fn responses_count_bytes() {
    assert_eq!(
        html_response(200, "é<"),
        "HTTP/1.1 200 OK\r\ncontent-type: text/html; charset=utf-8\r\ncontent-length: 3\r\n\
         connection: close\r\n\r\né<"
    );
    assert!(html_response(400, "").starts_with("HTTP/1.1 400 Bad Request\r\n"));
    assert!(html_response(502, "").starts_with("HTTP/1.1 502 Bad Gateway\r\n"));
    assert!(html_response(500, "").starts_with("HTTP/1.1 500 Internal Server Error\r\n"));
    assert!(html_response(204, "").starts_with("HTTP/1.1 204 Internal Server Error\r\n"));
}

#[test]
fn html_is_escaped() {
    assert_eq!(
        escape_html("<a href=\"x&y\">'é'</a>"),
        "&lt;a href=&quot;x&amp;y&quot;&gt;'é'&lt;/a&gt;"
    );
    assert_eq!(escape_html("&lt;"), "&amp;lt;");
    assert_eq!(escape_html(""), "");
    assert_ne!(escape_html("&amp;"), escape_html("&"));
}

#[test]
fn error_page_is_exact() {
    assert_eq!(
        render_error("T<", "m&"),
        "<!doctype html>\n<html lang=\"zh-CN\">\n<head><meta charset=\"utf-8\">\
         <meta name=\"viewport\" content=\"width=device-width,initial-scale=1\">\
         <title>T&lt;</title></head>\n\
         <body style=\"margin:0;font-family:system-ui,-apple-system,BlinkMacSystemFont,'Segoe UI',\
         sans-serif;background:#fff7f7;color:#2d1f1f\">\n  \
         <main style=\"min-height:100vh;display:grid;place-items:center;padding:24px;\
         box-sizing:border-box\">\n    <section style=\"width:min(760px,100%)\">\n      \
         <h1 style=\"margin:0 0 14px;font-size:28px\">T&lt;</h1>\n      \
         <p style=\"line-height:1.6;overflow-wrap:anywhere\"><code>m&amp;</code></p>\n    \
         </section>\n  </main>\n</body>\n</html>"
    );
}

#[test]
fn success_page_names_the_file_and_the_expiry() {
    let page = render_success(&Some(PathBuf::from("/a<b")), -7);
    assert!(page.contains("Token 已写入 <code>/a&lt;b</code>，后续 micam-rs 会自动 refresh。"));
    assert!(page.contains("expires_ts: <code>-7</code>"));
    assert!(page.starts_with("<!doctype html>\n") && page.ends_with("</html>"));
    assert!(render_success(&None, 0).contains("<code>not saved</code>"));
}

#[test]
fn first_page_names_the_login() {
    let page = render_index("https://a?b&c", "http://l", "r", "\"u\"");
    assert!(page.contains("href=\"https://a?b&amp;c\">打开小米 OAuth 登录</a>"));
    assert!(page.contains("<dt>本地回调</dt><dd><code>http://l</code></dd>"));
    assert!(page.contains("<dt>OAuth redirect_uri</dt><dd><code>r</code></dd>"));
    assert!(page.contains("<dt>OAuth uuid</dt><dd><code>&quot;u&quot;</code></dd>"));
    assert!(page.contains("body { margin: 0; font-family"));
    assert!(page.starts_with("<!doctype html>\n") && page.ends_with("</html>"));
}

#[test]
fn other_paths_show_the_first_page() {
    let config = helper();
    let expected = html_response(200, &render_index("auth", "back", &config.redirect_uri, "abc123"));
    for path in ["/", "/api/miot/xiaomi_home_callback/x?code=1"] {
        assert_eq!(answer(config.handle_request(path, "auth", "back")), expected);
    }
}

#[test]
fn unreadable_paths_are_refused() {
    let response = answer(helper().handle_request(":port/", "auth", "back"));
    assert_eq!(
        response,
        html_response(
            400,
            &render_error("请求无法解析", "invalid request path: invalid port number")
        )
    );
    let failed = helper().handle_link(Err(url::ParseError::IdnaError), "auth", "back");
    assert!(answer(failed).contains("invalid request path: invalid international domain name"));
}

#[test]
fn a_callback_with_the_login_state_is_exchanged() {
    let config = helper();
    let state = oauth_state("abc123");
    let path = format!("{}?code=first&code=c%20d&state={state}", config.callback_path);
    let request = exchange(config.handle_request(&path, "auth", "back"));
    assert_eq!(
        request.url,
        "https://mico.api.mijia.tech/app/v2/mico/oauth/get_token"
    );
    let data: serde_json::Value = serde_json::from_str(&request.data).unwrap();
    assert_eq!(data, access_token_payload(&config.redirect_uri, "abc123", "c d"));
    let auth_url = build_auth_url(&config.redirect_uri, "abc123", config.skip_confirm).unwrap();
    assert!(auth_url.contains(&format!("&state={state}&")));
}

#[test]
fn other_callbacks_are_refused() {
    let config = helper();
    let refused = |query: &str| {
        let path = format!("{}{query}", config.callback_path);
        answer(config.handle_request(&path, "auth", "back"))
    };
    let page = |message: &str| html_response(400, &render_error("授权失败", message));
    assert_eq!(refused(""), page("OAuth callback missing code"));
    assert_eq!(refused("?code=a&code=+"), page("OAuth callback missing code"));
    assert_eq!(refused("?code=a"), page("OAuth callback missing state"));
    assert_eq!(
        refused("?code=a&state=%3Cb"),
        page("state mismatch; expected 9bad2f560cfe536050e4eb68dbd157036ac74cde, got <b")
    );
}

#[test]
fn callbacks_are_decided_by_their_query() {
    let callback = Link {
        text: String::new(),
        scheme: "http".to_string(),
        host: None,
        port: None,
        path: "/x".to_string(),
        query_pairs: vec![
            ("state".to_string(), oauth_state("abc123")),
            ("code".to_string(), "c".to_string()),
        ],
    };
    assert!(matches!(helper().handle_callback(&callback), HelperStep::Exchange(_)));
    let mut elsewhere = helper();
    elsewhere.uuid = "other".to_string();
    assert!(matches!(elsewhere.handle_callback(&callback), HelperStep::Answer(_)));
}

#[test]
fn exchanges_end_with_a_page() {
    let config = helper();
    assert_eq!(
        config.exchange_response(&ExchangeOutcome::Stored { expires_ts: 9 }),
        html_response(200, &render_success(&config.token_file, 9))
    );
    assert_eq!(
        config.exchange_response(&ExchangeOutcome::NotStored { cause: "full".to_string() }),
        html_response(500, &render_error("Token 已获取但保存失败", "full"))
    );
    assert_eq!(
        config.exchange_response(&ExchangeOutcome::Failed { cause: "down".to_string() }),
        html_response(502, &render_error("Token 获取失败", "down"))
    );
}

#[test]
fn success_is_shown_once_the_token_is_stored() {
    let config = helper();
    let mut flow = ExchangeFlow::begin();
    assert!(!flow.expects(&ExchangeEvent::Stored));
    let replied = ExchangeEvent::Replied { reply: GRANT.to_string(), now_ts: 1_000 };
    assert!(flow.expects(&replied));
    match flow.advance(&config, replied) {
        ExchangeAction::Store(granted) => {
            assert_eq!(granted.token.access_token, "n");
            assert_eq!(granted.token.expires_ts, 1_007);
            assert_eq!(granted.file, config.token_file);
        }
        _ => panic!("a token was granted"),
    }
    assert!(flow.expects(&ExchangeEvent::Stored));
    match flow.advance(&config, ExchangeEvent::Stored) {
        ExchangeAction::Answer(response) => assert_eq!(
            response,
            html_response(200, &render_success(&config.token_file, 1_007))
        ),
        _ => panic!("the token was stored"),
    }
    assert!(!flow.expects(&ExchangeEvent::Stored));
}

#[test]
fn failed_exchanges_are_shown() {
    let config = helper();
    let page = |status: u16, title: &str, message: &str| {
        html_response(status, &render_error(title, message))
    };
    let first = |event: ExchangeEvent| match ExchangeFlow::begin().advance(&config, event) {
        ExchangeAction::Answer(response) => response,
        _ => panic!("no token"),
    };
    let cause = "down".to_string();
    assert_eq!(
        first(ExchangeEvent::RequestFailed { cause }),
        page(502, "Token 获取失败", "down")
    );
    let reply = "{}".to_string();
    assert_eq!(
        first(ExchangeEvent::Replied { reply, now_ts: 0 }),
        page(502, "Token 获取失败", "MIoT OAuth token request failed: {}")
    );
    let reply = "x".to_string();
    assert_eq!(
        first(ExchangeEvent::Replied { reply, now_ts: 0 }),
        page(
            502,
            "Token 获取失败",
            "invalid MIoT OAuth response: x: expected value at line 1 column 1"
        )
    );
    let reply = GRANT.to_string();
    assert!(matches!(
        ExchangeFlow::begin().advance(&config, ExchangeEvent::Replied { reply, now_ts: i64::MAX }),
        ExchangeAction::OutOfRange
    ));
    let mut flow = ExchangeFlow { stage: ExchangeStage::Storing { expires_ts: 1 } };
    let cause = "full".to_string();
    match flow.advance(&config, ExchangeEvent::NotStored { cause }) {
        ExchangeAction::Answer(response) => {
            assert_eq!(response, page(500, "Token 已获取但保存失败", "full"))
        }
        _ => panic!("not stored"),
    }
    assert_eq!(flow.stage, ExchangeStage::Over);
}

#[test]
fn numbers_in_settings_fall_back() {
    assert_eq!(byte_or(&text("+7"), 1), 7);
    assert_eq!(byte_or(&text("256"), 1), 1);
    assert_eq!(byte_or(&text(" 7"), 1), 1);
    assert_eq!(byte_or(&None, 1), 1);
    assert_eq!(size_or(&text("18446744073709551615"), 8), usize::MAX);
    assert_eq!(size_or(&text("18446744073709551616"), 8), 8);
    assert_eq!(seconds_or(&text("-9223372036854775808"), 5), i64::MIN);
    assert_eq!(seconds_or(&text("9223372036854775808"), 5), 5);
    assert_eq!(seconds_or(&None, 5), 5);
    assert!(audio_wanted(&text("yes")));
    assert!(!audio_wanted(&text("YES")));
    assert!(!audio_wanted(&None));
}

#[test]
fn probe_settings_make_a_configuration() {
    let config = probe_settings().native_config(token()).unwrap();
    assert_eq!(config.lib_path, PathBuf::from("/usr/local/lib/libmiot_camera_lite.so"));
    assert_eq!(config.cloud_server, "cn");
    assert_eq!(config.access_token, "granted");
    assert_eq!(config.camera_id, "1");
    assert_eq!(config.camera_model, "model");
    assert_eq!(config.channel_count, 1);
    assert_eq!(config.channel, 0);
    assert_eq!(config.video_quality, 2);
    assert!(!config.enable_audio);
    assert_eq!(config.pin_code, None);
    assert_eq!(config.queue_capacity, 8);

    let mut given = probe_settings();
    given.lib_path = Some(PathBuf::from("/l.so"));
    given.refresh_margin_seconds = text("-1");
    given.token_file = Some(PathBuf::from("/t.json"));
    given.access_token = text("a");
    assert_eq!(given.library(), PathBuf::from("/l.so"));
    let resolver = given.token_resolver();
    assert_eq!(resolver.refresh_margin_seconds, -1);
    assert_eq!(resolver.token_file, Some(PathBuf::from("/t.json")));
    assert_eq!(resolver.access_token.as_deref(), Some("a"));
    assert_eq!(resolver.redirect_uri, "https://mico.api.mijia.tech/login_redirect");
    assert_eq!(probe_settings().token_resolver().refresh_margin_seconds, 1_800);
}

#[test]
fn probe_needs_a_camera_and_its_model() {
    let mut settings = probe_settings();
    settings.camera_model = None;
    assert_eq!(
        settings.clone().native_config(token()).unwrap_err().message(),
        "MIOT_CAMERA_MODEL is required"
    );
    settings.camera_id = None;
    assert_eq!(
        settings.native_config(token()).unwrap_err().message(),
        "CAMERA_ID is required"
    );
    assert_eq!(required_env("X", text("v")).unwrap(), "v");
}

#[test]
fn stream_probe_has_usual_settings() {
    let probe = StreamProbe::from_settings(None, None, text("x"));
    assert_eq!(probe.base_url, "https://miloco:8000");
    assert_eq!(probe.username, "admin");
    assert_eq!(probe.channel, 0);
    let probe = StreamProbe::from_settings(text("http://m"), text("u"), text("3"));
    assert_eq!(probe.base_url, "http://m");
    assert_eq!(probe.username, "u");
    assert_eq!(probe.channel, 3);
}

#[test]
fn probes_report_now_and_then() {
    let mut seen = ProbeCount::new();
    let mut reported = Vec::new();
    for _ in 0..200 {
        seen.note(10);
        if seen.stream_report_due() {
            reported.push(seen.frames);
        }
    }
    assert_eq!(reported, vec![1, 2, 3, 4, 5, 6, 7, 8, 9, 10, 100, 200]);
    assert_eq!(seen.bytes, 2_000);
    assert!(!seen.native_report_due(4));
    assert!(seen.native_report_due(5));
    let mut last = ProbeCount { frames: u64::MAX, bytes: 1 };
    last.note(1);
    assert_eq!(last.frames, 0);
    assert_eq!(last.bytes, 2);
}
