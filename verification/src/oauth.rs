//! OAuth tokens of the Xiaomi cloud: when a token is used or refreshed, what is sent for a new one,
//! and how the reply is read.
use serde_json::Value;
use std::path::PathBuf;
use vstd::prelude::*;
use vstd::string::*;

use crate::digest;
use crate::json;
use crate::lifetime;
use crate::link;
use crate::paths;
use crate::text;

verus! {

pub const OAUTH2_CLIENT_ID: &'static str = "2882303761520431603";

pub const OAUTH2_AUTH_URL: &'static str = "https://account.xiaomi.com/oauth2/authorize";

pub const OAUTH2_OFFICIAL_REDIRECT_URI: &'static str =
    "https://mico.api.mijia.tech/login_redirect";

/// Seconds before its expiry at which a token is refreshed, where none are configured.
pub const DEFAULT_REFRESH_MARGIN_SECONDS: i64 = 1_800;

/// A pair of tokens, and when the access token is to be replaced.
#[derive(Debug, Clone, PartialEq, Eq)]
pub struct MiotToken {
    pub access_token: String,
    pub refresh_token: String,
    pub expires_ts: i64,
}

/// The value of a [`MiotToken`].
pub struct TokenView {
    pub access_token: Seq<char>,
    pub refresh_token: Seq<char>,
    pub expires_ts: int,
}

impl View for MiotToken {
    type V = TokenView;

    open spec fn view(&self) -> TokenView {
        TokenView {
            access_token: self.access_token@,
            refresh_token: self.refresh_token@,
            expires_ts: self.expires_ts as int,
        }
    }
}

impl TokenView {
    /// Neither token is blank.
    pub open spec fn usable(self) -> bool {
        !text::is_blank(self.access_token) && !text::is_blank(self.refresh_token)
    }

    /// At most `margin` seconds are left.
    pub open spec fn expiring(self, now_ts: int, margin: int) -> bool {
        self.expires_ts - now_ts <= margin
    }
}

/// Within 64 bits with a sign.
pub open spec fn fits(n: int) -> bool {
    i64::MIN <= n <= i64::MAX
}

impl MiotToken {
    /// Whether the token is to be refreshed: at most `margin_seconds` are left.
    pub fn needs_refresh(&self, now_ts: i64, margin_seconds: i64) -> (r: bool)
        requires
            fits(self.expires_ts - now_ts),
        ensures
            r == self@.expiring(now_ts as int, margin_seconds as int),
            r <==> self.expires_ts <= now_ts + margin_seconds,
    {
        self.expires_ts - now_ts <= margin_seconds
    }

    /// Whether both tokens have content.
    pub fn is_usable(&self) -> (r: bool)
        ensures
            r == self@.usable(),
            r <==> !text::is_blank(self.access_token@) && !text::is_blank(self.refresh_token@),
    {
        !text::blank(self.access_token.as_str()) && !text::blank(self.refresh_token.as_str())
    }
}

/// Where a token may come from.
#[derive(Debug, Clone, PartialEq, Eq)]
pub struct TokenResolverConfig {
    pub cloud_server: String,
    pub redirect_uri: String,
    pub token_file: Option<PathBuf>,
    pub access_token: Option<String>,
    pub refresh_token: Option<String>,
    pub refresh_margin_seconds: i64,
}

/// What is to be done for a token.
pub enum TokenDecision {
    /// Use this token.
    Use(MiotToken),
    /// Ask for a new one.
    Refresh { refresh_token: String },
    /// There is none, and none can be had.
    Missing,
}

/// The value of a [`TokenDecision`].
pub enum TokenDecisionView {
    Use(TokenView),
    Refresh { refresh_token: Seq<char> },
    Missing,
}

impl View for TokenDecision {
    type V = TokenDecisionView;

    open spec fn view(&self) -> TokenDecisionView {
        match *self {
            TokenDecision::Use(t) => TokenDecisionView::Use(t@),
            TokenDecision::Refresh { refresh_token } => TokenDecisionView::Refresh {
                refresh_token: refresh_token@,
            },
            TokenDecision::Missing => TokenDecisionView::Missing,
        }
    }
}

/// The value of an optional token.
pub open spec fn opt_token(token: Option<MiotToken>) -> Option<TokenView> {
    match token {
        Some(t) => Some(t@),
        None => None,
    }
}

impl TokenResolverConfig {
    /// The margin, at least one second.
    pub open spec fn margin(self) -> int {
        if self.refresh_margin_seconds < 1 {
            1
        } else {
            self.refresh_margin_seconds as int
        }
    }

    /// The token to start from: the stored one; else the configured pair, which counts as fresh;
    /// else a token of which only the refresh token is known.
    pub open spec fn starting_token(self, stored: Option<TokenView>, now_ts: int) -> Option<
        TokenView,
    > {
        match stored {
            Some(t) => Some(t),
            None => match (text::content(self.access_token), text::content(self.refresh_token)) {
                (Some(access_token), Some(refresh_token)) => Some(
                    TokenView {
                        access_token,
                        refresh_token,
                        expires_ts: now_ts + self.margin() + 1,
                    },
                ),
                (None, Some(refresh_token)) => Some(
                    TokenView { access_token: seq![], refresh_token, expires_ts: 0 },
                ),
                (_, None) => None,
            },
        }
    }

    /// The token is used while it is usable and not about to expire, and is refreshed otherwise.
    pub open spec fn decision(self, stored: Option<TokenView>, now_ts: int) -> TokenDecisionView {
        match self.starting_token(stored, now_ts) {
            Some(t) => if t.usable() && !t.expiring(now_ts, self.refresh_margin_seconds as int) {
                TokenDecisionView::Use(t)
            } else {
                TokenDecisionView::Refresh { refresh_token: t.refresh_token }
            },
            None => TokenDecisionView::Missing,
        }
    }

    /// The times that are reckoned with fit in 64 bits.
    pub open spec fn times_fit(self, stored: Option<TokenView>, now_ts: int) -> bool {
        match stored {
            Some(t) => t.usable() ==> fits(t.expires_ts - now_ts),
            None => text::content(self.access_token) is Some && text::content(self.refresh_token)
                is Some ==> fits(now_ts + self.margin() + 1) && fits(self.margin() + 1),
        }
    }
}

/// Whether the times that a decision reckons with fit in 64 bits.
pub fn times_in_range(
    config: &TokenResolverConfig,
    stored: &Option<MiotToken>,
    now_ts: i64,
) -> (r: bool)
    ensures
        r == config.times_fit(opt_token(*stored), now_ts as int),
{
    match stored {
        Some(t) => !t.is_usable() || t.expires_ts.checked_sub(now_ts).is_some(),
        None => if non_empty(&config.access_token).is_none() || non_empty(
            &config.refresh_token,
        ).is_none() {
            true
        } else if config.refresh_margin_seconds == i64::MAX {
            false
        } else {
            let margin: i64 = if config.refresh_margin_seconds < 1 {
                1
            } else {
                config.refresh_margin_seconds
            };
            now_ts.checked_add(margin + 1).is_some()
        },
    }
}

/// Decides what is to be done for a token, given the stored one.
pub fn resolve_access_token(
    config: &TokenResolverConfig,
    stored: Option<MiotToken>,
    now_ts: i64,
) -> (r: TokenDecision)
    requires
        config.times_fit(opt_token(stored), now_ts as int),
    ensures
        r@ == config.decision(opt_token(stored), now_ts as int),
{
    let token: MiotToken = match stored {
        Some(t) => t,
        None => match (non_empty(&config.access_token), non_empty(&config.refresh_token)) {
            (Some(access_token), Some(refresh_token)) => {
                let margin: i64 = if config.refresh_margin_seconds < 1 {
                    1
                } else {
                    config.refresh_margin_seconds
                };
                MiotToken {
                    access_token: access_token.to_owned(),
                    refresh_token: refresh_token.to_owned(),
                    expires_ts: now_ts + margin + 1,
                }
            },
            (None, Some(refresh_token)) => {
                MiotToken {
                    access_token: String::new(),
                    refresh_token: refresh_token.to_owned(),
                    expires_ts: 0,
                }
            },
            (_, None) => {
                return TokenDecision::Missing;
            },
        },
    };
    if token.is_usable() && !token.needs_refresh(now_ts, config.refresh_margin_seconds) {
        TokenDecision::Use(token)
    } else {
        TokenDecision::Refresh { refresh_token: token.refresh_token }
    }
}

/// A stored token that is usable and not about to expire is used as it is, without a refresh.
pub proof fn law_valid_stored_token_is_used(
    config: TokenResolverConfig,
    stored: TokenView,
    now_ts: int,
)
    requires
        stored.usable(),
        !stored.expiring(now_ts, config.refresh_margin_seconds as int),
    ensures
        config.decision(Some(stored), now_ts) == TokenDecisionView::Use(stored),
{
}

/// A stored token that is about to expire is refreshed with its own refresh token.
pub proof fn law_expiring_stored_token_is_refreshed(
    config: TokenResolverConfig,
    stored: TokenView,
    now_ts: int,
)
    requires
        stored.expiring(now_ts, config.refresh_margin_seconds as int),
    ensures
        config.decision(Some(stored), now_ts) == (TokenDecisionView::Refresh {
            refresh_token: stored.refresh_token,
        }),
{
}

/// The configured tokens count only while no token is stored.
pub proof fn law_stored_token_outranks_configuration(
    config: TokenResolverConfig,
    other: TokenResolverConfig,
    stored: TokenView,
    now_ts: int,
)
    requires
        config.refresh_margin_seconds == other.refresh_margin_seconds,
    ensures
        config.decision(Some(stored), now_ts) == other.decision(Some(stored), now_ts),
{
}

/// Without a stored token, a configured pair is used as it is, a lone refresh token is refreshed,
/// and without a refresh token there is nothing to use.
pub proof fn law_configuration_stands_in(config: TokenResolverConfig, now_ts: int)
    ensures
        match (text::content(config.access_token), text::content(config.refresh_token)) {
            (Some(a), Some(r)) => config.decision(None, now_ts) matches TokenDecisionView::Use(t)
                && t.access_token == a && t.refresh_token == r,
            (None, Some(r)) => config.decision(None, now_ts) == (TokenDecisionView::Refresh {
                refresh_token: r,
            }),
            (_, None) => config.decision(None, now_ts) is Missing,
        },
{
    text::lemma_content_is_not_blank(config.access_token);
    text::lemma_content_is_not_blank(config.refresh_token);
}

/// A token that is used is usable and not about to expire.
pub proof fn law_used_token_is_good(
    config: TokenResolverConfig,
    stored: Option<TokenView>,
    now_ts: int,
)
    ensures
        config.decision(stored, now_ts) matches TokenDecisionView::Use(t) ==> t.usable()
            && !t.expiring(now_ts, config.refresh_margin_seconds as int),
{
}

/// The trimmed text of an optional setting, where it is not blank.
pub fn non_empty(value: &Option<String>) -> (r: Option<&str>)
    ensures
        match r {
            Some(s) => text::content(*value) == Some(s@),
            None => text::content(*value) is None,
        },
{
    text::content_of(value)
}

/// What is wrong with the reply to a token request.
#[derive(Debug, Clone, Copy, PartialEq, Eq, Structural)]
pub enum TokenFault {
    Refused,
    MissingResult,
    MissingAccessToken,
    MissingRefreshToken,
    MissingExpiresIn,
}

/// What is said of a reply that grants no token.
pub open spec fn fault_text(fault: TokenFault, reply: Seq<char>) -> Seq<char> {
    match fault {
        TokenFault::Refused => "MIoT OAuth token request failed: "@ + reply,
        TokenFault::MissingResult => "MIoT OAuth response missing result: "@ + reply,
        TokenFault::MissingAccessToken => "MIoT OAuth response missing access_token"@,
        TokenFault::MissingRefreshToken => "MIoT OAuth response missing refresh_token"@,
        TokenFault::MissingExpiresIn => "MIoT OAuth response missing expires_in"@,
    }
}

/// Why there is no token.
#[derive(Debug)]
pub enum OauthError {
    /// Neither configured nor stored.
    MissingToken,
    /// Nothing to refresh with.
    MissingRefreshToken,
    /// Nothing to exchange.
    MissingCode,
    /// The reply is no JSON document.
    InvalidResponse { text: String, cause: serde_json::Error },
    /// The reply grants no token.
    BadReply { fault: TokenFault, text: String },
    /// The text for the token file does not hold the token.
    WrongContents,
}

impl OauthError {
    /// The message for a reader.
    pub open spec fn text(self) -> Seq<char> {
        match self {
            OauthError::MissingToken =>
            "MIOT_ACCESS_TOKEN or MIOT_REFRESH_TOKEN or MIOT_TOKEN_FILE is required in native mode"@,
            OauthError::MissingRefreshToken =>
            "MIOT_REFRESH_TOKEN is required to refresh OAuth token"@,
            OauthError::MissingCode => "OAuth callback missing code"@,
            OauthError::InvalidResponse { text, cause: _ } => "invalid MIoT OAuth response: "@
                + text@,
            OauthError::BadReply { fault, text } => fault_text(fault, text@),
            OauthError::WrongContents => "MIoT token file contents do not hold the token"@,
        }
    }

    /// The message for a reader.
    pub fn message(&self) -> (r: String)
        ensures
            r@ == self.text(),
    {
        match self {
            OauthError::MissingToken => {
                "MIOT_ACCESS_TOKEN or MIOT_REFRESH_TOKEN or MIOT_TOKEN_FILE is required in native mode".to_owned()
            },
            OauthError::MissingRefreshToken => {
                "MIOT_REFRESH_TOKEN is required to refresh OAuth token".to_owned()
            },
            OauthError::MissingCode => "OAuth callback missing code".to_owned(),
            OauthError::InvalidResponse { text, cause: _ } => {
                text::join("invalid MIoT OAuth response: ", text.as_str())
            },
            OauthError::BadReply { fault, text } => match fault {
                TokenFault::Refused => {
                    text::join("MIoT OAuth token request failed: ", text.as_str())
                },
                TokenFault::MissingResult => {
                    text::join("MIoT OAuth response missing result: ", text.as_str())
                },
                TokenFault::MissingAccessToken => {
                    "MIoT OAuth response missing access_token".to_owned()
                },
                TokenFault::MissingRefreshToken => {
                    "MIoT OAuth response missing refresh_token".to_owned()
                },
                TokenFault::MissingExpiresIn => "MIoT OAuth response missing expires_in".to_owned(),
            },
            OauthError::WrongContents => {
                "MIoT token file contents do not hold the token".to_owned()
            },
        }
    }
}

impl OauthError {
    /// The message for a reader, with the cause where there is one.
    pub open spec fn full_text(self) -> Seq<char> {
        match self {
            OauthError::InvalidResponse { text: _, cause } => self.text() + ": "@
                + json::json_error_text(cause),
            _ => self.text(),
        }
    }

    /// The message for a reader, with the cause where there is one.
    pub fn full_message(&self) -> (r: String)
        ensures
            r@ == self.full_text(),
    {
        let mut out = self.message();
        if let OauthError::InvalidResponse { text: _, cause } = self {
            out.append(": ");
            out.append(json::show_json_error(cause).as_str());
        }
        out
    }
}

/// The cloud host of a region: the mainland host for `cn` or no region, else a host of its own.
pub open spec fn cloud_host(cloud_server: Seq<char>) -> Seq<char> {
    let server = text::trimmed(cloud_server);
    if server.len() == 0 || server == "cn"@ {
        "mico.api.mijia.tech"@
    } else {
        server + ".mico.api.mijia.tech"@
    }
}

/// The cloud host of a region.
pub fn oauth_host(cloud_server: &str) -> (r: String)
    ensures
        r@ == cloud_host(cloud_server@),
{
    let server = text::trim(cloud_server);
    if server.is_empty() || text::same(server, "cn") {
        "mico.api.mijia.tech".to_owned()
    } else {
        text::join(server, ".mico.api.mijia.tech")
    }
}

/// The device of an installation.
pub open spec fn device_of(uuid: Seq<char>) -> Seq<char> {
    "mico."@ + text::trimmed(uuid)
}

/// The state that a login of an installation carries: the digest of its device.
pub open spec fn state_of(uuid: Seq<char>) -> Seq<char> {
    digest::hex(digest::sha1_of(vstd::utf8::encode_utf8("d="@ + device_of(uuid))))
}

/// The device of an installation.
pub fn device_id(uuid: &str) -> (r: String)
    ensures
        r@ == device_of(uuid@),
{
    text::join("mico.", text::trim(uuid))
}

/// The state that a login of an installation carries: forty hexadecimal digits.
pub fn oauth_state(uuid: &str) -> (r: String)
    ensures
        r@ == state_of(uuid@),
        r@.len() == 40,
{
    let device = text::join("d=", device_id(uuid).as_str());
    digest::hex_text(&digest::sha1_digest(device.as_str().as_bytes()))
}

/// The parameters of the login page, in order.
pub open spec fn auth_params(
    redirect_uri: Seq<char>,
    uuid: Seq<char>,
    skip_confirm: bool,
) -> Seq<(Seq<char>, Seq<char>)> {
    seq![
        ("redirect_uri"@, redirect_uri),
        ("client_id"@, OAUTH2_CLIENT_ID@),
        ("response_type"@, "code"@),
        ("device_id"@, device_of(uuid)),
        ("state"@, state_of(uuid)),
        (
            "skip_confirm"@,
            if skip_confirm {
                "true"@
            } else {
                "false"@
            },
        ),
    ]
}

fn push_pair(pairs: &mut Vec<(String, String)>, name: &str, value: &str)
    ensures
        link::pair_texts(final(pairs)@) == link::pair_texts(old(pairs)@).push((name@, value@)),
{
    pairs.push((name.to_owned(), value.to_owned()));
    assert(link::pair_texts(pairs@) =~= link::pair_texts(old(pairs)@).push((name@, value@)));
}

/// The address of the login page.
pub fn build_auth_url(redirect_uri: &str, uuid: &str, skip_confirm: bool) -> (r: Result<
    String,
    url::ParseError,
>)
    ensures
        r matches Ok(s) && s@ == OAUTH2_AUTH_URL@ + "?"@ + link::form_text(
            auth_params(redirect_uri@, uuid@, skip_confirm),
        ),
{
    let mut pairs: Vec<(String, String)> = Vec::new();
    push_pair(&mut pairs, "redirect_uri", redirect_uri);
    push_pair(&mut pairs, "client_id", OAUTH2_CLIENT_ID);
    push_pair(&mut pairs, "response_type", "code");
    push_pair(&mut pairs, "device_id", device_id(uuid).as_str());
    push_pair(&mut pairs, "state", oauth_state(uuid).as_str());
    push_pair(
        &mut pairs,
        "skip_confirm",
        if skip_confirm {
            "true"
        } else {
            "false"
        },
    );
    proof {
        assert(link::pair_texts(pairs@) =~= auth_params(redirect_uri@, uuid@, skip_confirm));
    }
    link::append_params(OAUTH2_AUTH_URL, &pairs)
}

/// The fields that exchange a code for tokens.
pub open spec fn access_token_fields(
    redirect_uri: Seq<char>,
    uuid: Seq<char>,
    code: Seq<char>,
) -> Seq<(Seq<char>, Seq<char>)> {
    seq![
        ("client_id"@, OAUTH2_CLIENT_ID@),
        ("redirect_uri"@, redirect_uri),
        ("code"@, code),
        ("device_id"@, device_of(uuid)),
    ]
}

/// The fields that exchange a refresh token for tokens.
pub open spec fn refresh_fields(redirect_uri: Seq<char>, refresh_token: Seq<char>) -> Seq<
    (Seq<char>, Seq<char>),
> {
    seq![
        ("client_id"@, OAUTH2_CLIENT_ID@),
        ("redirect_uri"@, redirect_uri),
        ("refresh_token"@, refresh_token),
    ]
}

proof fn lemma_field_names_differ()
    ensures
        "client_id"@ != "redirect_uri"@,
        "client_id"@ != "code"@,
        "client_id"@ != "device_id"@,
        "client_id"@ != "refresh_token"@,
        "redirect_uri"@ != "code"@,
        "redirect_uri"@ != "device_id"@,
        "redirect_uri"@ != "refresh_token"@,
        "code"@ != "device_id"@,
        "code"@ != "refresh_token"@,
        "device_id"@ != "refresh_token"@,
{
    reveal_strlit("client_id");
    reveal_strlit("redirect_uri");
    reveal_strlit("code");
    reveal_strlit("device_id");
    reveal_strlit("refresh_token");
    assert("client_id"@.len() == 9 && "client_id"@[0] == 'c');
    assert("redirect_uri"@.len() == 12);
    assert("code"@.len() == 4);
    assert("device_id"@.len() == 9 && "device_id"@[0] == 'd');
    assert("refresh_token"@.len() == 13);
}

/// What exchanges a code for tokens.
pub fn access_token_payload(redirect_uri: &str, uuid: &str, code: &str) -> (r: Value)
    ensures
        json::json_of(r) == json::object_of(access_token_fields(redirect_uri@, uuid@, code@)),
{
    let fields: Vec<(&'static str, String)> = vec![
        ("client_id", OAUTH2_CLIENT_ID.to_owned()),
        ("redirect_uri", redirect_uri.to_owned()),
        ("code", code.to_owned()),
        ("device_id", device_id(uuid)),
    ];
    proof {
        lemma_field_names_differ();
        assert(json::field_texts(fields@) =~= access_token_fields(redirect_uri@, uuid@, code@));
    }
    json::object(fields)
}

/// What exchanges a refresh token for tokens.
pub fn refresh_payload(redirect_uri: &str, refresh_token: &str) -> (r: Value)
    ensures
        json::json_of(r) == json::object_of(refresh_fields(redirect_uri@, refresh_token@)),
{
    let fields: Vec<(&'static str, String)> = vec![
        ("client_id", OAUTH2_CLIENT_ID.to_owned()),
        ("redirect_uri", redirect_uri.to_owned()),
        ("refresh_token", refresh_token.to_owned()),
    ];
    proof {
        lemma_field_names_differ();
        assert(json::field_texts(fields@) =~= refresh_fields(redirect_uri@, refresh_token@));
    }
    json::object(fields)
}

/// A refresh request carries the client, the redirect address and the refresh token, and no device.
pub proof fn law_refresh_payload_has_no_device(redirect_uri: Seq<char>, refresh_token: Seq<char>)
    ensures
        ({
            let payload = json::object_of(refresh_fields(redirect_uri, refresh_token));
            &&& payload.member_text("client_id"@) == Some(OAUTH2_CLIENT_ID@)
            &&& payload.member_text("redirect_uri"@) == Some(redirect_uri)
            &&& payload.member_text("refresh_token"@) == Some(refresh_token)
            &&& payload.member("device_id"@) is None
        }),
{
    lemma_field_names_differ();
    let fields = refresh_fields(redirect_uri, refresh_token);
    assert(fields[0].0 == "client_id"@);
    assert(fields[1].0 == "redirect_uri"@);
    assert(fields[2].0 == "refresh_token"@);
    json::lemma_members_of(fields, "client_id"@);
    json::lemma_members_of(fields, "redirect_uri"@);
    json::lemma_members_of(fields, "refresh_token"@);
    json::lemma_members_of(fields, "device_id"@);
}

/// A code exchange carries the client, the redirect address, the code and the device, and no refresh
/// token.
pub proof fn law_code_payload_has_device(
    redirect_uri: Seq<char>,
    uuid: Seq<char>,
    code: Seq<char>,
)
    ensures
        ({
            let payload = json::object_of(access_token_fields(redirect_uri, uuid, code));
            &&& payload.member_text("client_id"@) == Some(OAUTH2_CLIENT_ID@)
            &&& payload.member_text("redirect_uri"@) == Some(redirect_uri)
            &&& payload.member_text("code"@) == Some(code)
            &&& payload.member_text("device_id"@) == Some("mico."@ + text::trimmed(uuid))
            &&& payload.member("refresh_token"@) is None
        }),
{
    lemma_field_names_differ();
    let fields = access_token_fields(redirect_uri, uuid, code);
    assert(fields[0].0 == "client_id"@);
    assert(fields[1].0 == "redirect_uri"@);
    assert(fields[2].0 == "code"@);
    assert(fields[3].0 == "device_id"@);
    json::lemma_members_of(fields, "client_id"@);
    json::lemma_members_of(fields, "redirect_uri"@);
    json::lemma_members_of(fields, "code"@);
    json::lemma_members_of(fields, "device_id"@);
    json::lemma_members_of(fields, "refresh_token"@);
}

/// A request for tokens.
#[derive(Debug, Clone, PartialEq, Eq)]
pub struct TokenRequest {
    pub url: String,
    /// The query parameter `data`.
    pub data: String,
}

/// Where a region's tokens are requested.
pub open spec fn token_url(cloud_server: Seq<char>) -> Seq<char> {
    "https://"@ + cloud_host(cloud_server) + "/app/v2/mico/oauth/get_token"@
}

fn token_address(cloud_server: &str) -> (r: String)
    ensures
        r@ == token_url(cloud_server@),
{
    let mut url = "https://".to_owned();
    url.append(oauth_host(cloud_server).as_str());
    url.append("/app/v2/mico/oauth/get_token");
    url
}

impl TokenRequest {
    /// The request goes to the region's host and carries the fields as a JSON object.
    pub open spec fn carries(
        self,
        cloud_server: Seq<char>,
        fields: Seq<(Seq<char>, Seq<char>)>,
    ) -> bool {
        &&& self.url@ == token_url(cloud_server)
        &&& self.data@ == json::json_text(json::object_of(fields))
        &&& json::json_document(self.data@) == Some(json::object_of(fields))
    }
}

/// The request that exchanges a refresh token for tokens.
pub fn refresh_access_token(cloud_server: &str, redirect_uri: &str, refresh_token: &str) -> (r:
    Result<TokenRequest, OauthError>)
    ensures
        match r {
            Ok(request) => !text::is_blank(refresh_token@) && request.carries(
                cloud_server@,
                refresh_fields(redirect_uri@, refresh_token@),
            ),
            Err(e) => text::is_blank(refresh_token@) && e is MissingRefreshToken,
        },
{
    if text::blank(refresh_token) {
        return Err(OauthError::MissingRefreshToken);
    }
    let payload = refresh_payload(redirect_uri, refresh_token);
    proof {
        json::lemma_object_of_texts(refresh_fields(redirect_uri@, refresh_token@));
    }
    Ok(TokenRequest { url: token_address(cloud_server), data: json::show_json(&payload) })
}

/// The request that exchanges a code for tokens.
pub fn exchange_code_for_token(
    cloud_server: &str,
    redirect_uri: &str,
    uuid: &str,
    code: &str,
) -> (r: Result<TokenRequest, OauthError>)
    ensures
        match r {
            Ok(request) => !text::is_blank(code@) && request.carries(
                cloud_server@,
                access_token_fields(redirect_uri@, uuid@, code@),
            ),
            Err(e) => text::is_blank(code@) && e is MissingCode,
        },
{
    if text::blank(code) {
        return Err(OauthError::MissingCode);
    }
    let payload = access_token_payload(redirect_uri, uuid, code);
    proof {
        json::lemma_object_of_texts(access_token_fields(redirect_uri@, uuid@, code@));
    }
    Ok(TokenRequest { url: token_address(cloud_server), data: json::show_json(&payload) })
}

/// The tokens that a reply grants.
#[derive(Debug, Clone, PartialEq, Eq)]
pub struct TokenGrant {
    pub access_token: String,
    pub refresh_token: String,
    pub expires_in: i64,
}

/// The value of a [`TokenGrant`].
pub struct GrantView {
    pub access_token: Seq<char>,
    pub refresh_token: Seq<char>,
    pub expires_in: int,
}

impl View for TokenGrant {
    type V = GrantView;

    open spec fn view(&self) -> GrantView {
        GrantView {
            access_token: self.access_token@,
            refresh_token: self.refresh_token@,
            expires_in: self.expires_in as int,
        }
    }
}

/// The member `key` of an object, where it is a string that is not blank.
pub open spec fn content_member(doc: json::JsonTree, key: Seq<char>) -> Option<Seq<char>> {
    match doc.member_text(key) {
        Some(s) => if text::is_blank(s) {
            None
        } else {
            Some(s)
        },
        None => None,
    }
}

/// What a reply grants: its code is zero, and its result holds both tokens and their lifetime.
pub open spec fn grant_of(doc: json::JsonTree) -> Result<GrantView, TokenFault> {
    if doc.member_integer("code"@) != Some(0i64) {
        Err(TokenFault::Refused)
    } else {
        match doc.member("result"@) {
            None => Err(TokenFault::MissingResult),
            Some(result) => if content_member(result, "access_token"@) is None {
                Err(TokenFault::MissingAccessToken)
            } else if content_member(result, "refresh_token"@) is None {
                Err(TokenFault::MissingRefreshToken)
            } else if result.member_integer("expires_in"@) is None {
                Err(TokenFault::MissingExpiresIn)
            } else {
                Ok(
                    GrantView {
                        access_token: content_member(result, "access_token"@)->0,
                        refresh_token: content_member(result, "refresh_token"@)->0,
                        expires_in: result.member_integer("expires_in"@)->0 as int,
                    },
                )
            },
        }
    }
}

fn read_content<'a>(doc: &'a Value, key: &str) -> (r: Option<&'a str>)
    ensures
        match r {
            Some(s) => content_member(json::json_of(*doc), key@) == Some(s@),
            None => content_member(json::json_of(*doc), key@) is None,
        },
{
    match json::text_member(doc, key) {
        Some(s) => if text::blank(s) {
            None
        } else {
            Some(s)
        },
        None => None,
    }
}

/// Reads what a reply grants.
pub fn read_grant(reply: &Value) -> (r: Result<TokenGrant, TokenFault>)
    ensures
        match r {
            Ok(g) => grant_of(json::json_of(*reply)) == Ok::<GrantView, TokenFault>(g@),
            Err(e) => grant_of(json::json_of(*reply)) == Err::<GrantView, TokenFault>(e),
        },
{
    match json::integer_member(reply, "code") {
        Some(code) => if code != 0 {
            return Err(TokenFault::Refused);
        },
        None => {
            return Err(TokenFault::Refused);
        },
    }
    let result = match json::member(reply, "result") {
        Some(result) => result,
        None => {
            return Err(TokenFault::MissingResult);
        },
    };
    let access_token = match read_content(result, "access_token") {
        Some(s) => s,
        None => {
            return Err(TokenFault::MissingAccessToken);
        },
    };
    let refresh_token = match read_content(result, "refresh_token") {
        Some(s) => s,
        None => {
            return Err(TokenFault::MissingRefreshToken);
        },
    };
    match json::integer_member(result, "expires_in") {
        Some(expires_in) => Ok(
            TokenGrant {
                access_token: access_token.to_owned(),
                refresh_token: refresh_token.to_owned(),
                expires_in,
            },
        ),
        None => Err(TokenFault::MissingExpiresIn),
    }
}

impl GrantView {
    /// The token that is granted at `now_ts`: it is kept for seven tenths of its lifetime.
    pub open spec fn token(self, now_ts: int) -> TokenView {
        TokenView {
            access_token: self.access_token,
            refresh_token: self.refresh_token,
            expires_ts: now_ts + lifetime::used_lifetime(self.expires_in),
        }
    }
}

impl TokenGrant {
    /// The token that is granted at `now_ts`.
    pub fn into_token(self, now_ts: i64) -> (r: MiotToken)
        requires
            fits(self@.token(now_ts as int).expires_ts),
        ensures
            r@ == self@.token(now_ts as int),
    {
        MiotToken {
            access_token: self.access_token,
            refresh_token: self.refresh_token,
            expires_ts: now_ts + lifetime::used_seconds(self.expires_in),
        }
    }
}

/// The expiry that a reply leads to fits in 64 bits.
pub open spec fn reply_fits(doc: Option<json::JsonTree>, now_ts: int) -> bool {
    match doc {
        Some(t) => grant_of(t) matches Ok(g) ==> fits(g.token(now_ts).expires_ts),
        None => true,
    }
}

/// What a reply is read as: a token, or the error that says what is wrong with the text.
pub open spec fn reply_read_as(
    reply: Seq<char>,
    now_ts: int,
    r: Result<MiotToken, OauthError>,
) -> bool {
    match json::json_read(reply) {
        Err(wrong) => r matches Err(OauthError::InvalidResponse { text, cause }) && text@ == reply
            && cause == wrong,
        Ok(t) => match grant_of(t) {
            Err(wrong) => r matches Err(OauthError::BadReply { fault, text }) && fault == wrong
                && text@ == reply,
            Ok(g) => r matches Ok(token) && token@ == g.token(now_ts),
        },
    }
}

/// Reads the reply to a token request that came at `now_ts`.
pub fn parse_token_response(reply: &str, now_ts: i64) -> (r: Result<MiotToken, OauthError>)
    requires
        reply_fits(json::json_document(reply@), now_ts as int),
    ensures
        reply_read_as(reply@, now_ts as int, r),
{
    match json::parse_json(reply) {
        Ok(doc) => match read_grant(&doc) {
            Ok(grant) => Ok(grant.into_token(now_ts)),
            Err(fault) => Err(OauthError::BadReply { fault, text: reply.to_owned() }),
        },
        Err(cause) => Err(OauthError::InvalidResponse { text: reply.to_owned(), cause }),
    }
}

/// Reads the reply to a token request, unless the expiry that it leads to is out of range.
pub fn try_parse_token_response(reply: &str, now_ts: i64) -> (r: Option<
    Result<MiotToken, OauthError>,
>)
    ensures
        match r {
            Some(read) => reply_fits(json::json_document(reply@), now_ts as int) && reply_read_as(
                reply@,
                now_ts as int,
                read,
            ),
            None => !reply_fits(json::json_document(reply@), now_ts as int),
        },
{
    if let Ok(doc) = json::parse_json(reply) {
        if let Ok(grant) = read_grant(&doc) {
            let used: i64 = lifetime::used_seconds(grant.expires_in);
            if now_ts.checked_add(used).is_none() {
                return None;
            }
        }
    }
    Some(parse_token_response(reply, now_ts))
}

/// A token that is granted can be used: neither of its parts is blank.
pub proof fn law_granted_token_is_usable(doc: json::JsonTree, now_ts: int)
    ensures
        grant_of(doc) matches Ok(g) ==> g.token(now_ts).usable(),
{
}

/// Where the token file is, where none is configured.
pub fn default_token_file() -> (r: PathBuf)
    ensures
        paths::path_text(r) == "/config/miot_token.json"@,
{
    paths::path_of("/config/miot_token.json")
}

/// The redirect address that the login page is given, where none is configured.
pub fn default_redirect_uri() -> (r: &'static str)
    ensures
        r@ == "https://mico.api.mijia.tech/login_redirect"@,
{
    OAUTH2_OFFICIAL_REDIRECT_URI
}

/// Seconds before its expiry at which a token is refreshed, where none are configured.
pub fn default_refresh_margin_seconds() -> (r: i64)
    ensures
        r == 1800,
{
    DEFAULT_REFRESH_MARGIN_SECONDS
}

/// The token that a document holds: two strings and a whole number.
pub open spec fn document_token(doc: json::JsonTree) -> Option<TokenView> {
    match (
        doc.member_text("access_token"@),
        doc.member_text("refresh_token"@),
        doc.member_integer("expires_ts"@),
    ) {
        (Some(access_token), Some(refresh_token), Some(expires_ts)) => Some(
            TokenView { access_token, refresh_token, expires_ts: expires_ts as int },
        ),
        _ => None,
    }
}

/// The token that a text holds.
pub open spec fn token_in(contents: Seq<char>) -> Option<TokenView> {
    match json::json_document(contents) {
        Some(doc) => document_token(doc),
        None => None,
    }
}

/// Whether a document holds this token.
pub fn holds_token(doc: &Value, token: &MiotToken) -> (r: bool)
    ensures
        r == (document_token(json::json_of(*doc)) == Some(token@)),
{
    match (
        json::text_member(doc, "access_token"),
        json::text_member(doc, "refresh_token"),
        json::integer_member(doc, "expires_ts"),
    ) {
        (Some(access_token), Some(refresh_token), Some(expires_ts)) => text::same(
            access_token,
            token.access_token.as_str(),
        ) && text::same(refresh_token, token.refresh_token.as_str()) && expires_ts
            == token.expires_ts,
        _ => false,
    }
}

/// A file to be written, and the directory to be made for it.
pub struct TokenWrite {
    pub directory: Option<PathBuf>,
    pub file: PathBuf,
    pub contents: String,
}

/// The directory that is made for a file, where the path names one.
pub open spec fn directory_of(file: PathBuf) -> Option<PathBuf> {
    match paths::path_parent(file) {
        Some(d) => if paths::path_text(d).len() == 0 {
            None
        } else {
            Some(d)
        },
        None => None,
    }
}

/// What is to be written to store a token: nothing where no file is configured; else the file with
/// a text that holds the token.
pub fn save_token_file(path: &Option<PathBuf>, token: &MiotToken, contents: String) -> (r: Result<
    Option<TokenWrite>,
    OauthError,
>)
    ensures
        match *path {
            None => r matches Ok(w) && w is None,
            Some(file) => if token_in(contents@) == Some(token@) {
                &&& r matches Ok(Some(w))
                &&& w.file == file
                &&& w.contents == contents
                &&& w.directory == directory_of(file)
            } else {
                r matches Err(e) && e is WrongContents
            },
        },
{
    let file = match path {
        None => {
            return Ok(None);
        },
        Some(file) => file,
    };
    match json::parse_json(contents.as_str()) {
        Ok(doc) => if !holds_token(&doc, token) {
            return Err(OauthError::WrongContents);
        },
        Err(_) => {
            return Err(OauthError::WrongContents);
        },
    }
    let directory = match paths::parent_of(file) {
        Some(d) => if paths::show_path(&d).as_str().is_empty() {
            None
        } else {
            Some(d)
        },
        None => None,
    };
    Ok(Some(TokenWrite { directory, file: file.clone(), contents }))
}

/// A token that is used has both parts and outlives the margin: it expires later than so many
/// seconds from now.
pub proof fn law_used_token_outlives_the_margin(
    config: TokenResolverConfig,
    stored: Option<TokenView>,
    now_ts: int,
)
    ensures
        config.decision(stored, now_ts) matches TokenDecisionView::Use(t) ==> {
            &&& now_ts + config.refresh_margin_seconds < t.expires_ts
            &&& !text::is_blank(t.access_token)
            &&& !text::is_blank(t.refresh_token)
        },
{
}

/// A stored token is used exactly where it has both parts and outlives the margin; in every other
/// case its refresh token is what a new one is asked for with. The configured tokens play no part.
pub proof fn law_stored_token_is_used_or_refreshed(
    config: TokenResolverConfig,
    stored: TokenView,
    now_ts: int,
)
    ensures
        config.decision(Some(stored), now_ts) == (if !text::is_blank(stored.access_token)
            && !text::is_blank(stored.refresh_token) && now_ts + config.refresh_margin_seconds
            < stored.expires_ts {
            TokenDecisionView::Use(stored)
        } else {
            TokenDecisionView::Refresh { refresh_token: stored.refresh_token }
        }),
{
}

/// The need for a refresh is monotone: a token that needs one needs one at every later time and
/// with every greater margin, and an expired token needs one with any margin from zero on.
pub proof fn law_need_for_refresh_grows(
    token: TokenView,
    now_ts: int,
    later: int,
    margin: int,
    greater: int,
)
    requires
        now_ts <= later,
        margin <= greater,
    ensures
        token.expiring(now_ts, margin) ==> token.expiring(later, greater),
        token.expires_ts <= now_ts && 0 <= margin ==> token.expiring(now_ts, margin),
        token.expiring(now_ts, margin) <==> token.expires_ts <= now_ts + margin,
{
}

/// A configured pair is used as it is trimmed, and is reckoned to outlive the margin by a second;
/// the margin counts as at least one second there.
pub proof fn law_configured_pair_is_fresh(
    config: TokenResolverConfig,
    now_ts: int,
    access_token: Seq<char>,
    refresh_token: Seq<char>,
)
    requires
        text::content(config.access_token) == Some(access_token),
        text::content(config.refresh_token) == Some(refresh_token),
    ensures
        config.refresh_margin_seconds >= 1 ==> config.decision(None, now_ts)
            == TokenDecisionView::Use(
            TokenView {
                access_token,
                refresh_token,
                expires_ts: now_ts + config.refresh_margin_seconds + 1,
            },
        ),
        config.refresh_margin_seconds < 1 ==> config.decision(None, now_ts)
            == TokenDecisionView::Use(
            TokenView { access_token, refresh_token, expires_ts: now_ts + 2 },
        ),
{
    text::lemma_content_is_not_blank(config.access_token);
    text::lemma_content_is_not_blank(config.refresh_token);
}

/// A region's host is the mainland's for no region or `cn`, and else the mainland's with the region
/// before it; white space around the region makes no difference.
pub proof fn law_hosts_of_regions(region: Seq<char>)
    ensures
        text::is_blank(region) || text::trimmed(region) == "cn"@ ==> cloud_host(region)
            == "mico.api.mijia.tech"@,
        !text::is_blank(region) && text::trimmed(region) != "cn"@ ==> cloud_host(region)
            == text::trimmed(region) + "."@ + "mico.api.mijia.tech"@,
{
    text::lemma_blank_iff_trimmed_empty(region);
    reveal_strlit(".mico.api.mijia.tech");
    reveal_strlit("mico.api.mijia.tech");
    reveal_strlit(".");
    assert("."@ + "mico.api.mijia.tech"@ =~= ".mico.api.mijia.tech"@);
    assert(text::trimmed(region) + "."@ + "mico.api.mijia.tech"@ =~= text::trimmed(region) + ("."@
        + "mico.api.mijia.tech"@));
}

/// The device is `mico.` and the installation, white space around it aside; the state is the SHA-1
/// digest of `d=` and the device, in hexadecimal.
pub proof fn law_device_and_state(uuid: Seq<char>, device: Seq<char>)
    requires
        device == "mico."@ + text::trimmed(uuid),
    ensures
        device_of(uuid) == device,
        state_of(uuid) == digest::hex(
            digest::sha1_of(vstd::utf8::encode_utf8("d="@ + device)),
        ),
{
}

/// The login page is told where to redirect to, the client, that a code is wanted, the device, the
/// state, and whether to skip the confirmation.
pub proof fn law_login_page_parameters(
    redirect_uri: Seq<char>,
    uuid: Seq<char>,
    skip_confirm: bool,
)
    ensures
        auth_params(redirect_uri, uuid, skip_confirm) == seq![
            ("redirect_uri"@, redirect_uri),
            ("client_id"@, "2882303761520431603"@),
            ("response_type"@, "code"@),
            ("device_id"@, device_of(uuid)),
            ("state"@, state_of(uuid)),
            (
                "skip_confirm"@,
                if skip_confirm {
                    "true"@
                } else {
                    "false"@
                },
            ),
        ],
{
}

/// A refresh is asked for with the client, the redirect address and the refresh token, and with
/// nothing else.
pub proof fn law_refresh_payload(
    redirect_uri: Seq<char>,
    refresh_token: Seq<char>,
    key: Seq<char>,
)
    ensures
        ({
            let sent = json::object_of(refresh_fields(redirect_uri, refresh_token));
            sent.member(key) == (if key == "client_id"@ {
                Some(json::JsonTree::Text("2882303761520431603"@))
            } else if key == "redirect_uri"@ {
                Some(json::JsonTree::Text(redirect_uri))
            } else if key == "refresh_token"@ {
                Some(json::JsonTree::Text(refresh_token))
            } else {
                None
            })
        }),
{
    reveal_strlit("client_id");
    reveal_strlit("redirect_uri");
    reveal_strlit("refresh_token");
    let fields = refresh_fields(redirect_uri, refresh_token);
    assert("client_id"@.len() != "redirect_uri"@.len());
    assert("client_id"@.len() != "refresh_token"@.len());
    assert("redirect_uri"@.len() != "refresh_token"@.len());
    assert(fields.len() == 3);
    assert(fields[0].0 == "client_id"@ && fields[1].0 == "redirect_uri"@ && fields[2].0
        == "refresh_token"@);
    json::lemma_members_of(fields, key);
}

/// A code is exchanged with the client, the redirect address, the code and the device, and with
/// nothing else.
pub proof fn law_code_payload(
    redirect_uri: Seq<char>,
    uuid: Seq<char>,
    code: Seq<char>,
    key: Seq<char>,
)
    ensures
        ({
            let sent = json::object_of(access_token_fields(redirect_uri, uuid, code));
            sent.member(key) == (if key == "client_id"@ {
                Some(json::JsonTree::Text("2882303761520431603"@))
            } else if key == "redirect_uri"@ {
                Some(json::JsonTree::Text(redirect_uri))
            } else if key == "code"@ {
                Some(json::JsonTree::Text(code))
            } else if key == "device_id"@ {
                Some(json::JsonTree::Text("mico."@ + text::trimmed(uuid)))
            } else {
                None
            })
        }),
{
    reveal_strlit("client_id");
    reveal_strlit("redirect_uri");
    reveal_strlit("code");
    reveal_strlit("device_id");
    let fields = access_token_fields(redirect_uri, uuid, code);
    assert("client_id"@[0] != "device_id"@[0]);
    assert("client_id"@.len() != "redirect_uri"@.len());
    assert("client_id"@.len() != "code"@.len());
    assert("redirect_uri"@.len() != "code"@.len());
    assert("redirect_uri"@.len() != "device_id"@.len());
    assert("code"@.len() != "device_id"@.len());
    assert(fields.len() == 4);
    assert(fields[0].0 == "client_id"@ && fields[1].0 == "redirect_uri"@ && fields[2].0 == "code"@
        && fields[3].0 == "device_id"@);
    json::lemma_members_of(fields, key);
}

/// A request goes to the region's host over HTTPS and carries the payload as JSON.
pub proof fn law_request_goes_to_the_region(
    request: TokenRequest,
    region: Seq<char>,
    fields: Seq<(Seq<char>, Seq<char>)>,
)
    requires
        request.carries(region, fields),
    ensures
        request.url@ == "https://"@ + cloud_host(region) + "/app/v2/mico/oauth/get_token"@,
        json::json_document(request.data@) == Some(json::object_of(fields)),
{
}

/// A reply grants a token exactly where its code is zero and its result holds an access token and
/// a refresh token that are not blank, and a lifetime; the token is made of these.
pub proof fn law_what_a_reply_grants(doc: json::JsonTree, result: json::JsonTree)
    requires
        doc.member("result"@) == Some(result),
    ensures
        grant_of(doc) is Ok <==> {
            &&& doc.member_integer("code"@) == Some(0i64)
            &&& result.member_text("access_token"@) is Some && !text::is_blank(
                result.member_text("access_token"@)->0,
            )
            &&& result.member_text("refresh_token"@) is Some && !text::is_blank(
                result.member_text("refresh_token"@)->0,
            )
            &&& result.member_integer("expires_in"@) is Some
        },
        grant_of(doc) matches Ok(g) ==> {
            &&& Some(g.access_token) == result.member_text("access_token"@)
            &&& Some(g.refresh_token) == result.member_text("refresh_token"@)
            &&& g.expires_in == result.member_integer("expires_in"@)->0
        },
{
}

/// The first thing that is wrong with a reply is what it is refused for.
pub proof fn law_why_a_reply_is_refused(doc: json::JsonTree)
    ensures
        doc.member_integer("code"@) != Some(0i64) <==> grant_of(doc) == Err::<
            GrantView,
            TokenFault,
        >(TokenFault::Refused),
        doc.member_integer("code"@) == Some(0i64) && doc.member("result"@) is None <==> grant_of(
            doc,
        ) == Err::<GrantView, TokenFault>(TokenFault::MissingResult),
        grant_of(doc) == Err::<GrantView, TokenFault>(TokenFault::MissingAccessToken) ==> (
        doc.member("result"@)->0.member_text("access_token"@) matches Some(t) ==> text::is_blank(t)),
        grant_of(doc) == Err::<GrantView, TokenFault>(TokenFault::MissingRefreshToken) ==> (
        doc.member("result"@)->0.member_text("refresh_token"@) matches Some(t) ==> text::is_blank(
            t,
        )) && !text::is_blank(doc.member("result"@)->0.member_text("access_token"@)->0),
        grant_of(doc) == Err::<GrantView, TokenFault>(TokenFault::MissingExpiresIn) ==> doc.member(
            "result"@,
        )->0.member_integer("expires_in"@) is None && !text::is_blank(
            doc.member("result"@)->0.member_text("refresh_token"@)->0,
        ),
{
}

/// A granted token has the tokens of the grant, and expires with the used part of its lifetime
/// behind now: later for a positive lifetime of some seconds, never after the whole of it.
pub proof fn law_granted_token_expires_early(g: GrantView, now_ts: int)
    requires
        0 <= g.expires_in <= 0x1_0000_0000,
    ensures
        g.token(now_ts).access_token == g.access_token,
        g.token(now_ts).refresh_token == g.refresh_token,
        g.token(now_ts).expires_ts <= now_ts + g.expires_in,
        7 * g.expires_in - 10 <= 10 * (g.token(now_ts).expires_ts - now_ts) <= 7 * g.expires_in,
{
    lifetime::law_seven_tenths_are_used(g.expires_in);
}

/// A text is stored exactly where it is JSON whose three members are the token's.
pub proof fn law_stored_text_holds_the_token(doc: json::JsonTree, token: TokenView)
    requires
        i64::MIN <= token.expires_ts <= i64::MAX,
    ensures
        document_token(doc) == Some(token) <==> {
            &&& doc.member_text("access_token"@) == Some(token.access_token)
            &&& doc.member_text("refresh_token"@) == Some(token.refresh_token)
            &&& doc.member_integer("expires_ts"@) == Some(token.expires_ts as i64)
        },
{
}

/// A failure is told with the reply that it concerns, where there is one; one that could not be
/// read is told with its cause behind it.
pub proof fn law_failures_are_told(reply: Seq<char>, text: String, cause: serde_json::Error)
    ensures
        fault_text(TokenFault::Refused, reply) == "MIoT OAuth token request failed: "@ + reply,
        fault_text(TokenFault::MissingResult, reply) == "MIoT OAuth response missing result: "@
            + reply,
        fault_text(TokenFault::MissingAccessToken, reply)
            == "MIoT OAuth response missing access_token"@,
        fault_text(TokenFault::MissingRefreshToken, reply)
            == "MIoT OAuth response missing refresh_token"@,
        fault_text(TokenFault::MissingExpiresIn, reply)
            == "MIoT OAuth response missing expires_in"@,
        (OauthError::InvalidResponse { text, cause }).text() == "invalid MIoT OAuth response: "@
            + text@,
        (OauthError::InvalidResponse { text, cause }).full_text()
            == "invalid MIoT OAuth response: "@ + text@ + ": "@ + json::json_error_text(cause),
{
}

/// A fault of a reply is told the same way with its cause and without: it has none.
pub proof fn law_faults_have_no_cause(fault: TokenFault, text: String)
    ensures
        (OauthError::BadReply { fault, text }).text() == fault_text(fault, text@),
        (OauthError::BadReply { fault, text }).full_text() == fault_text(fault, text@),
        OauthError::MissingToken.text()
            == "MIOT_ACCESS_TOKEN or MIOT_REFRESH_TOKEN or MIOT_TOKEN_FILE is required in native mode"@,
        OauthError::MissingRefreshToken.text()
            == "MIOT_REFRESH_TOKEN is required to refresh OAuth token"@,
        OauthError::MissingCode.text() == "OAuth callback missing code"@,
{
}

/// The directory of a token file is the path above it, unless that is empty or there is none.
pub proof fn law_directory_stands_above_the_file(file: PathBuf)
    ensures
        directory_of(file) is Some <==> paths::path_parent(file) is Some && paths::path_text(
            paths::path_parent(file)->0,
        ) != Seq::<char>::empty(),
        directory_of(file) is Some ==> directory_of(file) == paths::path_parent(file),
{
    if paths::path_parent(file) is Some {
        let above = paths::path_text(paths::path_parent(file)->0);
        if above.len() == 0 {
            assert(above =~= Seq::<char>::empty());
        }
    }
}

} // verus!
