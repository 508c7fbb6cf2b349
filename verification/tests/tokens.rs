//! OAuth tokens: decisions, requests and replies.
use std::collections::HashMap;
use std::path::PathBuf;

use micam_rs::lifetime::used_seconds;
use micam_rs::oauth::{
    access_token_payload, build_auth_url, default_redirect_uri, default_refresh_margin_seconds,
    default_token_file, device_id, exchange_code_for_token, holds_token, oauth_host, oauth_state,
    parse_token_response, refresh_access_token, refresh_payload, resolve_access_token,
    save_token_file, times_in_range, try_parse_token_response, MiotToken, OauthError, TokenDecision, TokenFault,
    TokenResolverConfig, OAUTH2_AUTH_URL, OAUTH2_CLIENT_ID, OAUTH2_OFFICIAL_REDIRECT_URI,
};
use micam_rs::token_flow::{
    after_refresh, read_granted, Refreshed, ResolveAction, ResolveEvent, ResolveFailure,
    TokenResolution,
};
use url::Url;

const GRANT: &str =
    r#"{"code":0,"result":{"access_token":"n","refresh_token":"m","expires_in":10}}"#;

fn token(access_token: &str, refresh_token: &str, expires_ts: i64) -> MiotToken {
    MiotToken {
        access_token: access_token.to_string(),
        refresh_token: refresh_token.to_string(),
        expires_ts,
    }
}

fn config(access_token: Option<&str>, refresh_token: Option<&str>) -> TokenResolverConfig {
    TokenResolverConfig {
        cloud_server: "cn".to_string(),
        redirect_uri: "redirect".to_string(),
        token_file: None,
        access_token: access_token.map(str::to_string),
        refresh_token: refresh_token.map(str::to_string),
        refresh_margin_seconds: 1_800,
    }
}

fn contents_of(token: &MiotToken) -> String {
    format!(
        "{{\n  \"access_token\": {:?},\n  \"refresh_token\": {:?},\n  \"expires_ts\": {}\n}}",
        token.access_token, token.refresh_token, token.expires_ts
    )
}

fn fault_of(reply: &str) -> TokenFault {
    match parse_token_response(reply, 1_000) {
        Err(OauthError::BadReply { fault, text }) => {
            assert_eq!(text, reply);
            fault
        }
        other => panic!("{reply} read as {other:?}"),
    }
}

#[test]
fn refreshes_when_token_is_inside_margin() {
    let token = MiotToken {
        access_token: "access".to_string(),
        refresh_token: "refresh".to_string(),
        expires_ts: 1_900,
    };

    assert!(token.needs_refresh(200, 1_800));
    assert!(!token.needs_refresh(99, 1_800));
}

#[test]
fn builds_cn_and_global_oauth_hosts() {
    assert_eq!(oauth_host("cn"), "mico.api.mijia.tech");
    assert_eq!(oauth_host("de"), "de.mico.api.mijia.tech");
}

#[test]
fn regions_are_trimmed() {
    assert_eq!(oauth_host(" cn\t"), "mico.api.mijia.tech");
    assert_eq!(oauth_host("  "), "mico.api.mijia.tech");
    assert_eq!(oauth_host(" sg\n"), "sg.mico.api.mijia.tech");
}

#[test]
fn builds_refresh_payload_without_device_id() {
    let payload = refresh_payload("redirect", "refresh");

    assert_eq!(payload["client_id"], OAUTH2_CLIENT_ID);
    assert_eq!(payload["redirect_uri"], "redirect");
    assert_eq!(payload["refresh_token"], "refresh");
    assert!(payload.get("device_id").is_none());
}

#[test]
fn builds_miloco_compatible_device_id_and_state() {
    assert_eq!(device_id("abc123"), "mico.abc123");
    assert_eq!(
        oauth_state("abc123"),
        "9bad2f560cfe536050e4eb68dbd157036ac74cde"
    );
}

#[test]
fn builds_miloco_compatible_auth_url() {
    let url = build_auth_url(OAUTH2_OFFICIAL_REDIRECT_URI, "abc123", false).unwrap();
    let parsed = Url::parse(&url).unwrap();
    let pairs: HashMap<_, _> = parsed.query_pairs().into_owned().collect();

    assert_eq!(parsed.as_str().split('?').next(), Some(OAUTH2_AUTH_URL));
    assert_eq!(
        pairs.get("redirect_uri"),
        Some(&OAUTH2_OFFICIAL_REDIRECT_URI.to_string())
    );
    assert_eq!(pairs.get("client_id"), Some(&OAUTH2_CLIENT_ID.to_string()));
    assert_eq!(pairs.get("response_type"), Some(&"code".to_string()));
    assert_eq!(pairs.get("device_id"), Some(&"mico.abc123".to_string()));
    assert_eq!(pairs.get("state"), Some(&oauth_state("abc123")));
    assert_eq!(pairs.get("skip_confirm"), Some(&"false".to_string()));
}

#[test]
fn auth_url_is_exact() {
    assert_eq!(
        build_auth_url("https://a.b/c d?é=*-._~", " abc123 ", true).unwrap(),
        "https://account.xiaomi.com/oauth2/authorize\
         ?redirect_uri=https%3A%2F%2Fa.b%2Fc+d%3F%C3%A9%3D*-._%7E\
         &client_id=2882303761520431603&response_type=code&device_id=mico.abc123\
         &state=9bad2f560cfe536050e4eb68dbd157036ac74cde&skip_confirm=true"
    );
}

#[test]
fn builds_code_exchange_payload_with_device_id() {
    let payload = access_token_payload("redirect", "abc123", "code");

    assert_eq!(payload["client_id"], OAUTH2_CLIENT_ID);
    assert_eq!(payload["redirect_uri"], "redirect");
    assert_eq!(payload["code"], "code");
    assert_eq!(payload["device_id"], "mico.abc123");
    assert!(payload.get("refresh_token").is_none());
}

#[test]
fn refresh_request_carries_its_payload() {
    let request = refresh_access_token("de", "redirect", "re\"fresh").unwrap();

    assert_eq!(
        request.url,
        "https://de.mico.api.mijia.tech/app/v2/mico/oauth/get_token"
    );
    let data: serde_json::Value = serde_json::from_str(&request.data).unwrap();
    assert_eq!(data, refresh_payload("redirect", "re\"fresh"));
    assert!(matches!(
        refresh_access_token("de", "redirect", " \t"),
        Err(OauthError::MissingRefreshToken)
    ));
}

#[test]
fn code_request_carries_its_payload() {
    let request = exchange_code_for_token("cn", "redirect", "abc123", "code").unwrap();

    assert_eq!(
        request.url,
        "https://mico.api.mijia.tech/app/v2/mico/oauth/get_token"
    );
    let data: serde_json::Value = serde_json::from_str(&request.data).unwrap();
    assert_eq!(data, access_token_payload("redirect", "abc123", "code"));
    assert!(matches!(
        exchange_code_for_token("cn", "redirect", "abc123", ""),
        Err(OauthError::MissingCode)
    ));
}

#[test]
fn usable_tokens_have_both_parts() {
    assert!(token("a", "r", 0).is_usable());
    assert!(!token(" ", "r", 0).is_usable());
    assert!(!token("a", "\u{3000}", 0).is_usable());
}

#[test]
fn valid_stored_token_is_used_without_refresh() {
    let stored = token("a", "r", 5_000);
    let decided = resolve_access_token(&config(Some("x"), Some("y")), Some(stored.clone()), 3_199);

    assert!(matches!(decided, TokenDecision::Use(t) if t == stored));
}

#[test]
fn expiring_stored_token_is_refreshed_with_its_own_refresh_token() {
    let stored = token("a", "r", 5_000);
    let decided = resolve_access_token(&config(Some("x"), Some("y")), Some(stored), 3_200);

    assert!(matches!(decided, TokenDecision::Refresh { refresh_token } if refresh_token == "r"));
}

#[test]
fn unusable_stored_token_is_refreshed() {
    let stored = token("", "r", i64::MAX);
    let decided = resolve_access_token(&config(None, None), Some(stored), 0);

    assert!(matches!(decided, TokenDecision::Refresh { refresh_token } if refresh_token == "r"));
}

#[test]
fn configured_pair_stands_in_for_a_stored_token() {
    let decided = resolve_access_token(&config(Some(" x "), Some(" y ")), None, 100);
    match decided {
        TokenDecision::Use(t) => assert_eq!(t, token("x", "y", 1_901)),
        _ => panic!("the pair is fresh"),
    }

    let mut without_margin = config(Some("x"), Some("y"));
    without_margin.refresh_margin_seconds = -5;
    match resolve_access_token(&without_margin, None, 100) {
        TokenDecision::Use(t) => assert_eq!(t.expires_ts, 102),
        _ => panic!("the pair is fresh"),
    }
}

#[test]
fn times_out_of_range_are_noticed() {
    let pair = config(Some("x"), Some("y"));
    assert!(times_in_range(&pair, &None, 100));
    assert!(!times_in_range(&pair, &None, i64::MAX - 1_800));
    assert!(times_in_range(&pair, &None, i64::MAX - 1_801));
    let mut endless = pair.clone();
    endless.refresh_margin_seconds = i64::MAX;
    assert!(!times_in_range(&endless, &None, -5));
    assert!(times_in_range(&config(None, Some("y")), &None, i64::MAX));
    assert!(times_in_range(&pair, &Some(token("a", "r", i64::MIN)), 0));
    assert!(!times_in_range(&pair, &Some(token("a", "r", i64::MIN)), 1));
    assert!(times_in_range(&pair, &Some(token("", "r", i64::MIN)), 1));
}

#[test]
fn lone_refresh_token_is_refreshed() {
    let decided = resolve_access_token(&config(Some("  "), Some("y ")), None, 100);

    assert!(matches!(decided, TokenDecision::Refresh { refresh_token } if refresh_token == "y"));
}

#[test]
fn without_a_refresh_token_there_is_no_token() {
    assert!(matches!(
        resolve_access_token(&config(Some("x"), None), None, 100),
        TokenDecision::Missing
    ));
    assert_eq!(
        OauthError::MissingToken.message(),
        "MIOT_ACCESS_TOKEN or MIOT_REFRESH_TOKEN or MIOT_TOKEN_FILE is required in native mode"
    );
}

#[test]
fn reads_a_token_reply() {
    let reply = r#"{"code":0,"result":{"access_token":" a ","refresh_token":"r","expires_in":259200}}"#;

    let read = parse_token_response(reply, 1_000).unwrap();
    assert_eq!(read, token(" a ", "r", 182_440));
    assert!(read.is_usable());
    let tried = try_parse_token_response(reply, 1_000);
    assert!(matches!(tried, Some(Ok(t)) if t == token(" a ", "r", 182_440)));
    assert!(try_parse_token_response(reply, i64::MAX - 1_000).is_none());
}

#[test]
fn names_what_is_wrong_with_a_reply() {
    assert_eq!(fault_of("[]"), TokenFault::Refused);
    assert_eq!(fault_of(r#"{"code":1}"#), TokenFault::Refused);
    assert_eq!(fault_of(r#"{"code":0.0}"#), TokenFault::Refused);
    assert_eq!(fault_of(r#"{"code":"0"}"#), TokenFault::Refused);
    assert_eq!(fault_of(r#"{"code":0}"#), TokenFault::MissingResult);
    assert_eq!(
        fault_of(r#"{"code":0,"result":null}"#),
        TokenFault::MissingAccessToken
    );
    assert_eq!(
        fault_of(r#"{"code":0,"result":{"access_token":" "}}"#),
        TokenFault::MissingAccessToken
    );
    assert_eq!(
        fault_of(r#"{"code":0,"result":{"access_token":"a","refresh_token":7}}"#),
        TokenFault::MissingRefreshToken
    );
    assert_eq!(
        fault_of(r#"{"code":0,"result":{"access_token":"a","refresh_token":"r"}}"#),
        TokenFault::MissingExpiresIn
    );
    assert_eq!(
        fault_of(
            r#"{"code":0,"result":{"access_token":"a","refresh_token":"r","expires_in":18446744073709551615}}"#
        ),
        TokenFault::MissingExpiresIn
    );
}

#[test]
fn reply_errors_have_messages() {
    let message = |reply: &str| parse_token_response(reply, 0).unwrap_err().message();

    assert_eq!(message("nonsense"), "invalid MIoT OAuth response: nonsense");
    assert_eq!(message("{}"), "MIoT OAuth token request failed: {}");
    assert_eq!(
        message(r#"{"code":0}"#),
        r#"MIoT OAuth response missing result: {"code":0}"#
    );
    assert_eq!(
        message(r#"{"code":0,"result":{}}"#),
        "MIoT OAuth response missing access_token"
    );
    assert_eq!(
        message(r#"{"code":0,"result":{"access_token":"a"}}"#),
        "MIoT OAuth response missing refresh_token"
    );
    assert_eq!(
        message(r#"{"code":0,"result":{"access_token":"a","refresh_token":"r"}}"#),
        "MIoT OAuth response missing expires_in"
    );
    assert_eq!(
        OauthError::MissingRefreshToken.message(),
        "MIOT_REFRESH_TOKEN is required to refresh OAuth token"
    );
    assert_eq!(
        OauthError::MissingCode.message(),
        "OAuth callback missing code"
    );
}

#[test]
fn seven_tenths_of_a_lifetime_are_those_of_a_double() {
    let mut values: Vec<i64> = vec![0, 1, 10, 3_600, 259_200, i64::MAX, i64::MIN, i64::MIN + 1];
    for shift in 0..63 {
        for offset in -3i64..=3 {
            values.push((1i64 << shift).wrapping_add(offset));
        }
    }
    let mut x: i64 = 1;
    for _ in 0..20_000 {
        x = x.wrapping_mul(6_364_136_223_846_793_005).wrapping_add(1_442_695_040_888_963_407);
        values.push(x);
        values.push(x >> 9);
        values.push(x >> 31);
        values.push(x >> 45);
    }
    for value in values {
        assert_eq!(used_seconds(value), (value as f64 * 0.7) as i64, "{value}");
    }
    assert_eq!(used_seconds(10), 7);
    assert_eq!(used_seconds(259_200), 181_440);
}

#[test]
fn token_file_is_written_below_its_directory() {
    let kept = token("a\"b", "r", 7);
    let path = Some(PathBuf::from("/config/x/t.json"));
    let write = save_token_file(&path, &kept, contents_of(&kept)).unwrap().unwrap();
    assert_eq!(write.directory, Some(PathBuf::from("/config/x")));
    assert_eq!(write.file, PathBuf::from("/config/x/t.json"));
    assert_eq!(write.contents, contents_of(&kept));

    let bare = Some(PathBuf::from("t.json"));
    let write = save_token_file(&bare, &kept, contents_of(&kept)).unwrap().unwrap();
    assert_eq!(write.directory, None);
    assert_eq!(write.file, PathBuf::from("t.json"));

    let root = Some(PathBuf::from("/"));
    let write = save_token_file(&root, &kept, contents_of(&kept)).unwrap().unwrap();
    assert_eq!(write.directory, None);
    assert!(save_token_file(&None, &kept, String::new()).unwrap().is_none());
}

#[test]
fn token_file_gets_no_other_text() {
    let kept = token("a", "r", 7);
    let path = Some(PathBuf::from("t.json"));
    let others = [
        String::new(),
        "[]".to_string(),
        contents_of(&token("b", "r", 7)),
        contents_of(&token("a", "s", 7)),
        contents_of(&token("a", "r", 8)),
        r#"{"access_token":"a","refresh_token":"r"}"#.to_string(),
    ];
    for other in others {
        match save_token_file(&path, &kept, other) {
            Err(error) => assert_eq!(
                error.message(),
                "MIoT token file contents do not hold the token"
            ),
            Ok(_) => panic!("the text does not hold the token"),
        }
    }
    let document: serde_json::Value = serde_json::from_str(&contents_of(&kept)).unwrap();
    assert!(holds_token(&document, &kept));
    assert!(!holds_token(&document, &token("a", "r", -7)));
}

#[test]
fn an_expiring_token_is_rotated() {
    let mut given = config(Some("x"), Some("y"));
    given.token_file = Some(PathBuf::from("/t.json"));
    let (mut resolution, action) =
        TokenResolution::begin(given.clone(), Some(token("a", "r", 5_000)), 3_200);
    match action {
        ResolveAction::Send(request) => {
            let data: serde_json::Value = serde_json::from_str(&request.data).unwrap();
            assert_eq!(data, refresh_payload("redirect", "r"));
        }
        _ => panic!("a request is due"),
    }
    assert!(!resolution.expects(&ResolveEvent::Stored));

    let replied = ResolveEvent::Replied { reply: GRANT.to_string(), now_ts: 1_000 };
    assert!(resolution.expects(&replied));
    match resolution.advance(replied) {
        ResolveAction::Store(refreshed) => {
            assert_eq!(refreshed.token, token("n", "m", 1_007));
            assert_eq!(refreshed.file, given.token_file);
        }
        _ => panic!("a token was granted"),
    }
    assert!(resolution.expects(&ResolveEvent::NotStored));
    match resolution.advance(ResolveEvent::Stored) {
        ResolveAction::Return(returned) => assert_eq!(returned, token("n", "m", 1_007)),
        _ => panic!("the token was stored"),
    }
    assert!(!resolution.expects(&ResolveEvent::Stored));
}

#[test]
fn a_failed_refresh_stores_nothing() {
    let answer = |event: ResolveEvent| {
        let stored = Some(token("", "r", i64::MAX));
        let (mut resolution, action) = TokenResolution::begin(config(None, None), stored, 0);
        assert!(matches!(action, ResolveAction::Send(_)));
        let action = resolution.advance(event);
        assert!(!resolution.expects(&ResolveEvent::Stored));
        action
    };
    let replied = |reply: &str, now_ts: i64| ResolveEvent::Replied { reply: reply.to_string(), now_ts };

    assert!(matches!(
        answer(ResolveEvent::RequestFailed),
        ResolveAction::Fail(ResolveFailure::Undone)
    ));
    assert!(matches!(
        answer(replied("{}", 0)),
        ResolveAction::Fail(ResolveFailure::Oauth(OauthError::BadReply {
            fault: TokenFault::Refused,
            ..
        }))
    ));
    assert!(matches!(
        answer(replied("", 0)),
        ResolveAction::Fail(ResolveFailure::Oauth(OauthError::InvalidResponse { .. }))
    ));
    assert!(matches!(
        answer(replied(GRANT, i64::MAX)),
        ResolveAction::Fail(ResolveFailure::OutOfRange)
    ));
}

#[test]
fn a_token_that_is_not_stored_is_not_returned() {
    let (mut resolution, _) = TokenResolution::begin(config(None, Some("y")), None, 0);
    let replied = ResolveEvent::Replied { reply: GRANT.to_string(), now_ts: 0 };
    assert!(matches!(resolution.advance(replied), ResolveAction::Store(_)));
    assert!(matches!(
        resolution.advance(ResolveEvent::NotStored),
        ResolveAction::Fail(ResolveFailure::Undone)
    ));
}

#[test]
fn a_resolution_may_end_at_once() {
    let stored = token("a", "r", 5_000);
    let begin = |given: TokenResolverConfig, stored: Option<MiotToken>| {
        TokenResolution::begin(given, stored, 0).1
    };
    assert!(matches!(
        begin(config(None, None), Some(stored.clone())),
        ResolveAction::Return(t) if t == stored
    ));
    assert!(matches!(
        begin(config(None, None), None),
        ResolveAction::Fail(ResolveFailure::Oauth(OauthError::MissingToken))
    ));
    assert!(matches!(
        begin(config(None, Some("y")), Some(token("a", " ", 5_000))),
        ResolveAction::Fail(ResolveFailure::Oauth(OauthError::MissingRefreshToken))
    ));
}

#[test]
fn granted_tokens_go_to_their_file() {
    let file = Some(PathBuf::from("/t.json"));
    let granted = read_granted(&file, GRANT, 0).unwrap().unwrap();
    assert_eq!(granted, Refreshed { token: token("n", "m", 7), file: file.clone() });
    let mut given = config(None, None);
    given.token_file = file;
    assert_eq!(after_refresh(&given, GRANT, 0).unwrap().unwrap(), granted);
    assert!(after_refresh(&given, "{}", 0).unwrap().is_err());
    assert!(after_refresh(&given, GRANT, i64::MAX).is_none());
}

#[test]
fn usual_token_settings() {
    assert_eq!(default_token_file(), PathBuf::from("/config/miot_token.json"));
    assert_eq!(
        default_redirect_uri(),
        "https://mico.api.mijia.tech/login_redirect"
    );
    assert_eq!(default_refresh_margin_seconds(), 1_800);
}
