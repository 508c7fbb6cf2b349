//! A client of the Miloco service: what it asks for, and how it reads the answers.
use http::HeaderMap;
use serde_json::Value;
use vstd::prelude::*;
use vstd::string::*;

use crate::bridge;
use crate::headers;
use crate::json;
use crate::numbers;
use crate::text;

verus! {

/// An answer of the service.
#[derive(Debug)]
pub struct NormalResponse<T> {
    pub code: i32,
    pub message: String,
    pub data: Option<T>,
}

/// What a login returns.
#[derive(Debug)]
pub struct LoginData {
    pub username: String,
}

/// Whether the service has a user.
#[derive(Debug)]
pub struct RegisterStatusData {
    pub is_registered: bool,
}

/// A camera that the service knows.
#[derive(Debug)]
pub struct CameraInfo {
    pub did: String,
    pub name: Option<String>,
    pub model: Option<String>,
    pub channel_count: Option<u8>,
}

/// What the client cannot work with.
#[derive(Debug)]
pub enum MilocoError {
    Api { code: i32, message: String },
    MissingAccessCookie,
    InvalidBaseUrl(String),
}

impl MilocoError {
    /// The message for a reader.
    pub open spec fn text(self) -> Seq<char> {
        match self {
            MilocoError::Api { code, message } => "Miloco API error "@ + numbers::signed_decimal(
                code as int,
            ) + ": "@ + message@,
            MilocoError::MissingAccessCookie =>
                "Miloco login did not return access_token cookie"@,
            MilocoError::InvalidBaseUrl(url) => "invalid Miloco base URL: "@ + url@,
        }
    }

    /// The message for a reader.
    pub fn message(&self) -> (r: String)
        ensures
            r@ == self.text(),
    {
        match self {
            MilocoError::Api { code, message } => {
                let mut out = "Miloco API error ".to_owned();
                out.append(numbers::integer_text(*code as i64).as_str());
                out.append(": ");
                out.append(message.as_str());
                out
            },
            MilocoError::MissingAccessCookie => {
                "Miloco login did not return access_token cookie".to_owned()
            },
            MilocoError::InvalidBaseUrl(url) => {
                text::join("invalid Miloco base URL: ", url.as_str())
            },
        }
    }
}

/// Why the header fields of an answer give no access cookie.
#[derive(Debug)]
pub enum CookieError {
    /// A `set-cookie` field is not text.
    HeaderNotText,
    Miloco(MilocoError),
}

/// The data of an answer, where the service reports success and sent some.
pub fn into_data<T>(body: NormalResponse<T>) -> (r: Result<T, MilocoError>)
    ensures
        if body.code != 0 {
            r == Err::<T, MilocoError>(
                MilocoError::Api { code: body.code, message: body.message },
            )
        } else {
            match body.data {
                Some(data) => r == Ok::<T, MilocoError>(data),
                None => r matches Err(MilocoError::Api { code, message }) && code == 0 && message@
                    == "Miloco response data is empty"@,
            }
        },
{
    if body.code != 0 {
        return Err(MilocoError::Api { code: body.code, message: body.message });
    }
    match body.data {
        Some(data) => Ok(data),
        None => Err(
            MilocoError::Api {
                code: body.code,
                message: "Miloco response data is empty".to_owned(),
            },
        ),
    }
}

/// What the `set-cookie` fields of an answer give.
pub enum CookieView {
    NotText,
    Missing,
    Token(Seq<char>),
}

/// The part of a cookie before its attributes.
pub open spec fn cookie_pair(field: Seq<char>) -> Seq<char> {
    field.subrange(0, text::first_position(field, ';'))
}

/// The first cookie that is an access token; a field before it that is not text hides it.
pub open spec fn access_cookie_in(fields: Seq<Seq<u8>>) -> CookieView
    decreases fields.len(),
{
    if fields.len() == 0 {
        CookieView::Missing
    } else {
        match headers::header_text(fields[0]) {
            None => CookieView::NotText,
            Some(field) => if "access_token="@.is_prefix_of(cookie_pair(field)) {
                CookieView::Token(cookie_pair(field))
            } else {
                access_cookie_in(fields.subrange(1, fields.len() as int))
            },
        }
    }
}

impl CookieView {
    /// A result that reports this.
    pub open spec fn reported_as(self, r: Result<String, CookieError>) -> bool {
        match self {
            CookieView::NotText => r matches Err(e) && e is HeaderNotText,
            CookieView::Missing => r matches Err(CookieError::Miloco(e)) && e
                is MissingAccessCookie,
            CookieView::Token(token) => r matches Ok(cookie) && cookie@ == token,
        }
    }
}

/// Finds the access cookie in the `set-cookie` fields of an answer.
pub fn find_access_cookie(fields: &Vec<Vec<u8>>) -> (r: Result<String, CookieError>)
    ensures
        access_cookie_in(headers::byte_strings(fields@)).reported_as(r),
{
    let ghost all = headers::byte_strings(fields@);
    let mut i: usize = 0;
    assert(all.subrange(0, all.len() as int) =~= all);
    while i < fields.len()
        invariant
            i <= fields@.len(),
            all == headers::byte_strings(fields@),
            access_cookie_in(all) == access_cookie_in(all.subrange(i as int, all.len() as int)),
        decreases fields@.len() - i,
    {
        let ghost rest = all.subrange(i as int, all.len() as int);
        assert(rest[0] == fields@[i as int]@);
        assert(rest.subrange(1, rest.len() as int) =~= all.subrange(i + 1, all.len() as int));
        let field = match headers::read_header_text(&fields[i]) {
            Some(field) => field,
            None => {
                return Err(CookieError::HeaderNotText);
            },
        };
        let end: usize = text::find_char(field.as_str(), ';');
        let pair = field.as_str().substring_char(0, end);
        if text::starts_with(pair, "access_token=") {
            return Ok(pair.to_owned());
        }
        i = i + 1;
    }
    Err(CookieError::Miloco(MilocoError::MissingAccessCookie))
}

/// The access cookie that an answer sets.
pub fn extract_access_cookie(headers: &HeaderMap) -> (r: Result<String, CookieError>)
    ensures
        access_cookie_in(headers::header_values(*headers, "set-cookie"@)).reported_as(r),
{
    let fields = headers::values_of(headers, "set-cookie");
    find_access_cookie(&fields)
}

/// An access cookie is the access token and nothing else: no attribute comes with it.
pub proof fn law_access_cookie_is_the_token(fields: Seq<Seq<u8>>)
    ensures
        access_cookie_in(fields) matches CookieView::Token(token) ==> {
            &&& "access_token="@.is_prefix_of(token)
            &&& !token.contains(';')
        },
    decreases fields.len(),
{
    if fields.len() > 0 {
        law_access_cookie_is_the_token(fields.subrange(1, fields.len() as int));
        if let Some(field) = headers::header_text(fields[0]) {
            lemma_pair_has_no_semicolon(field);
        }
    }
}

proof fn lemma_pair_has_no_semicolon(field: Seq<char>)
    ensures
        0 <= text::first_position(field, ';') <= field.len(),
        !cookie_pair(field).contains(';'),
    decreases field.len(),
{
    if field.len() > 0 && field[0] != ';' {
        let rest = field.subrange(1, field.len() as int);
        lemma_pair_has_no_semicolon(rest);
        let pair = cookie_pair(field);
        assert forall|i: int| 0 <= i < pair.len() implies pair[i] != ';' by {
            if i > 0 {
                assert(pair[i] == cookie_pair(rest)[i - 1]);
                assert(cookie_pair(rest).contains(pair[i]));
            }
        }
    }
}

/// A question to the service.
pub struct GetRequest {
    pub url: String,
    pub cookie: Option<String>,
}

/// What a login sends.
pub struct LoginRequest {
    pub url: String,
    pub payload: Value,
}

/// How a video stream is opened.
pub struct StreamRequest {
    pub url: String,
    pub cookie: String,
}

/// A client of the service.
#[derive(Clone, Debug)]
pub struct MilocoClient {
    base_url: String,
    access_cookie: Option<String>,
}

/// The value of a [`MilocoClient`].
pub struct ClientView {
    pub base_url: Seq<char>,
    pub access_cookie: Option<Seq<char>>,
}

impl View for MilocoClient {
    type V = ClientView;

    closed spec fn view(&self) -> ClientView {
        ClientView { base_url: self.base_url@, access_cookie: text::opt_text(self.access_cookie) }
    }
}

impl ClientView {
    /// The base URL has no trailing slash, so that a path can follow it.
    pub open spec fn valid(self) -> bool {
        self.base_url.len() > 0 ==> self.base_url.last() != '/'
    }

    /// The address of a camera's video stream; there is one for HTTP base URLs.
    pub open spec fn stream_url(self, camera_id: Seq<char>, channel: u8) -> Option<Seq<char>> {
        let rest = "/api/miot/ws/video_stream?camera_id="@ + camera_id + "&channel="@
            + numbers::decimal(channel as nat);
        if "https://"@.is_prefix_of(self.base_url) {
            Some("wss://"@ + self.base_url.subrange(8, self.base_url.len() as int) + rest)
        } else if "http://"@.is_prefix_of(self.base_url) {
            Some("ws://"@ + self.base_url.subrange(7, self.base_url.len() as int) + rest)
        } else {
            None
        }
    }
}

/// Why a login did not succeed.
#[derive(Debug)]
pub enum LoginError<E> {
    /// A `set-cookie` field is not text.
    HeaderNotText,
    Miloco(MilocoError),
    /// The body could not be read.
    Body(E),
}

/// What a login leads to: without an access cookie in the answer, without a body or with a body
/// that reports no success the client stays as it was; else it keeps that cookie.
pub open spec fn login_answered<E>(
    found: CookieView,
    body: Result<NormalResponse<LoginData>, E>,
    before: ClientView,
    after: ClientView,
    r: Result<LoginData, LoginError<E>>,
) -> bool {
    match (found, body) {
        (CookieView::NotText, _) => after == before && (r matches Err(e) && e is HeaderNotText),
        (CookieView::Missing, _) => after == before && (r matches Err(LoginError::Miloco(e)) && e
            is MissingAccessCookie),
        (CookieView::Token(_), Err(unread)) => after == before && (r matches Err(
            LoginError::Body(e),
        ) && e == unread),
        (CookieView::Token(cookie), Ok(answer)) => if answer.code != 0 {
            after == before && r == Err::<LoginData, LoginError<E>>(
                LoginError::Miloco(
                    MilocoError::Api { code: answer.code, message: answer.message },
                ),
            )
        } else {
            match answer.data {
                Some(data) => r == Ok::<LoginData, LoginError<E>>(data) && after == (ClientView {
                    access_cookie: Some(cookie),
                    ..before
                }),
                None => after == before && (r matches Err(
                    LoginError::Miloco(MilocoError::Api { code, message }),
                ) && code == 0 && message@ == "Miloco response data is empty"@),
            }
        },
    }
}

/// A login succeeds only with an access cookie in its answer, which the client then keeps; a login
/// that fails leaves the client as it was.
pub proof fn law_login_keeps_the_answers_cookie<E>(
    found: CookieView,
    body: Result<NormalResponse<LoginData>, E>,
    before: ClientView,
    after: ClientView,
    r: Result<LoginData, LoginError<E>>,
)
    requires
        login_answered(found, body, before, after, r),
    ensures
        r is Ok ==> (found matches CookieView::Token(cookie) && after.access_cookie == Some(cookie))
            && after.base_url == before.base_url,
        r is Err ==> after == before,
{
}

/// A login succeeds exactly where the answer has a cookie, its body could be read, the code in it
/// is zero and it holds data, which is what the login gives.
pub proof fn law_when_a_login_succeeds<E>(
    found: CookieView,
    body: Result<NormalResponse<LoginData>, E>,
    before: ClientView,
    after: ClientView,
    r: Result<LoginData, LoginError<E>>,
)
    requires
        login_answered(found, body, before, after, r),
    ensures
        r is Ok <==> found is Token && body is Ok && body->Ok_0.code == 0 && body->Ok_0.data
            is Some,
        r is Ok ==> r->Ok_0 == body->Ok_0.data->0,
{
}

/// A login that fails says why: a field that is no text, a missing cookie, a body that could not be
/// read, and a code other than zero with its message, in this order.
pub proof fn law_why_a_login_fails<E>(
    found: CookieView,
    body: Result<NormalResponse<LoginData>, E>,
    before: ClientView,
    after: ClientView,
    r: Result<LoginData, LoginError<E>>,
)
    requires
        login_answered(found, body, before, after, r),
    ensures
        found is NotText ==> r is Err && r->Err_0 is HeaderNotText,
        found is Missing ==> r is Err && r->Err_0 is Miloco && r->Err_0->Miloco_0
            is MissingAccessCookie,
        found is Token && body is Err ==> r is Err && r->Err_0 is Body && r->Err_0->Body_0
            == body->Err_0,
        found is Token && body is Ok && body->Ok_0.code != 0 ==> r is Err && r->Err_0 is Miloco
            && r->Err_0->Miloco_0 == (MilocoError::Api {
            code: body->Ok_0.code,
            message: body->Ok_0.message,
        }),
{
}

proof fn lemma_no_trailing_slash(s: Seq<char>)
    ensures
        text::without_trailing_slashes(s).len() > 0 ==> text::without_trailing_slashes(s).last()
            != '/',
    decreases s.len(),
{
    if s.len() > 0 && s.last() == '/' {
        lemma_no_trailing_slash(s.drop_last());
    }
}

impl MilocoClient {
    /// A client that is not logged in.
    pub fn new(base_url: &str) -> (r: MilocoClient)
        ensures
            r@.base_url == text::without_trailing_slashes(base_url@),
            r@.access_cookie is None,
            r@.valid(),
    {
        proof {
            lemma_no_trailing_slash(base_url@);
        }
        MilocoClient {
            base_url: text::trim_trailing_slashes(base_url).to_owned(),
            access_cookie: None,
        }
    }

    /// Where the service takes the result of a Xiaomi login.
    pub fn oauth_callback_url(&self) -> (r: String)
        ensures
            r@ == self@.base_url + "/api/miot/xiaomi_home_callback"@,
    {
        text::join(self.base_url.as_str(), "/api/miot/xiaomi_home_callback")
    }

    /// A question that goes with the access cookie, where there is one.
    fn get_request(&self, path: &str) -> (r: GetRequest)
        ensures
            r.url@ == self@.base_url + path@,
            text::opt_text(r.cookie) == self@.access_cookie,
    {
        GetRequest {
            url: text::join(self.base_url.as_str(), path),
            cookie: self.access_cookie.clone(),
        }
    }

    /// Asks whether the service has a user.
    pub fn register_status(&self) -> (r: GetRequest)
        ensures
            r.url@ == self@.base_url + "/api/auth/register-status"@,
            text::opt_text(r.cookie) == self@.access_cookie,
    {
        self.get_request("/api/auth/register-status")
    }

    /// Asks for the cameras.
    pub fn camera_list(&self) -> (r: GetRequest)
        ensures
            r.url@ == self@.base_url + "/api/miot/camera_list"@,
            text::opt_text(r.cookie) == self@.access_cookie,
    {
        self.get_request("/api/miot/camera_list")
    }

    /// Asks to log in.
    pub fn login_request(&self, username: &str, password: &str) -> (r: LoginRequest)
        ensures
            r.url@ == self@.base_url + "/api/auth/login"@,
            json::json_of(r.payload) == json::object_of(
                bridge::login_fields(username@, password@),
            ),
    {
        LoginRequest {
            url: text::join(self.base_url.as_str(), "/api/auth/login"),
            payload: bridge::login_payload(username, password),
        }
    }

    /// Takes the answer to a login: its `set-cookie` fields and its body. The access cookie among
    /// the fields is kept, and only where the service reports success.
    pub fn login_with<E>(
        &mut self,
        fields: &Vec<Vec<u8>>,
        body: Result<NormalResponse<LoginData>, E>,
    ) -> (r: Result<LoginData, LoginError<E>>)
        ensures
            login_answered(
                access_cookie_in(headers::byte_strings(fields@)),
                body,
                old(self)@,
                final(self)@,
                r,
            ),
    {
        let cookie = match find_access_cookie(fields) {
            Ok(cookie) => cookie,
            Err(CookieError::HeaderNotText) => {
                return Err(LoginError::HeaderNotText);
            },
            Err(CookieError::Miloco(e)) => {
                return Err(LoginError::Miloco(e));
            },
        };
        match body {
            Err(e) => Err(LoginError::Body(e)),
            Ok(answer) => match into_data(answer) {
                Ok(data) => {
                    self.access_cookie = Some(cookie);
                    Ok(data)
                },
                Err(e) => Err(LoginError::Miloco(e)),
            },
        }
    }

    /// Takes the answer to a login: its header fields and its body, where one was read. The access
    /// cookie that the answer sets is kept, and only where the service reports success.
    pub fn login<E>(
        &mut self,
        headers: &HeaderMap,
        body: Result<NormalResponse<LoginData>, E>,
    ) -> (r: Result<LoginData, LoginError<E>>)
        ensures
            login_answered(
                access_cookie_in(headers::header_values(*headers, "set-cookie"@)),
                body,
                old(self)@,
                final(self)@,
                r,
            ),
    {
        let fields = headers::values_of(headers, "set-cookie");
        self.login_with(&fields, body)
    }

    /// Where the video stream of a camera is.
    pub fn websocket_url(&self, camera_id: &str, channel: u8) -> (r: Result<String, MilocoError>)
        ensures
            match self@.stream_url(camera_id@, channel) {
                Some(url) => r matches Ok(found) && found@ == url,
                None => r matches Err(MilocoError::InvalidBaseUrl(url)) && url@ == self@.base_url,
            },
    {
        let base = self.base_url.as_str();
        proof {
            reveal_strlit("https://");
            reveal_strlit("http://");
        }
        let mut url;
        if text::starts_with(base, "https://") {
            url = "wss://".to_owned();
            url.append(base.substring_char(8, base.unicode_len()));
        } else if text::starts_with(base, "http://") {
            url = "ws://".to_owned();
            url.append(base.substring_char(7, base.unicode_len()));
        } else {
            return Err(MilocoError::InvalidBaseUrl(self.base_url.clone()));
        }
        let mut rest = "/api/miot/ws/video_stream?camera_id=".to_owned();
        rest.append(camera_id);
        rest.append("&channel=");
        rest.append(numbers::natural_text(channel as u64).as_str());
        url.append(rest.as_str());
        Ok(url)
    }

    /// Asks for a camera's raw video.
    pub fn stream_raw_video(&self, camera_id: &str, channel: u8) -> (r: Result<
        StreamRequest,
        MilocoError,
    >)
        ensures
            match (self@.access_cookie, self@.stream_url(camera_id@, channel)) {
                (None, _) => r matches Err(e) && e is MissingAccessCookie,
                (Some(_), None) => r matches Err(MilocoError::InvalidBaseUrl(url)) && url@
                    == self@.base_url,
                (Some(cookie), Some(url)) => r matches Ok(request) && request.url@ == url
                    && request.cookie@ == cookie,
            },
    {
        match &self.access_cookie {
            None => Err(MilocoError::MissingAccessCookie),
            Some(cookie) => match self.websocket_url(camera_id, channel) {
                Ok(url) => Ok(StreamRequest { url, cookie: cookie.clone() }),
                Err(e) => Err(e),
            },
        }
    }
}

/// What arrives on a video stream.
pub enum StreamMessage {
    Binary(Vec<u8>),
    Ping(Vec<u8>),
    Close,
    /// Text and the other control frames.
    Other,
}

/// What is done with it.
pub enum MessageAction {
    /// Hands the frame on.
    Deliver(Vec<u8>),
    /// Answers a ping with the same payload.
    Pong(Vec<u8>),
    Stop,
    Ignore,
}

/// What is done with something that arrived on a video stream.
pub fn message_action(message: StreamMessage) -> (r: MessageAction)
    ensures
        match message {
            StreamMessage::Binary(data) => r == MessageAction::Deliver(data),
            StreamMessage::Ping(payload) => r == MessageAction::Pong(payload),
            StreamMessage::Close => r is Stop,
            StreamMessage::Other => r is Ignore,
        },
{
    match message {
        StreamMessage::Binary(data) => MessageAction::Deliver(data),
        StreamMessage::Ping(payload) => MessageAction::Pong(payload),
        StreamMessage::Close => MessageAction::Stop,
        StreamMessage::Other => MessageAction::Ignore,
    }
}

/// A base URL for HTTP always has a video stream, and the stream is encrypted exactly where the
/// service is.
pub proof fn law_stream_is_as_safe_as_the_service(
    client: ClientView,
    camera_id: Seq<char>,
    channel: u8,
)
    ensures
        client.stream_url(camera_id, channel) is Some <==> ("https://"@.is_prefix_of(
            client.base_url,
        ) || "http://"@.is_prefix_of(client.base_url)),
        client.stream_url(camera_id, channel) matches Some(url) ==> ("wss://"@.is_prefix_of(url)
            <==> "https://"@.is_prefix_of(client.base_url)),
{
    reveal_strlit("https://");
    reveal_strlit("http://");
    reveal_strlit("wss://");
    reveal_strlit("ws://");
    if let Some(url) = client.stream_url(camera_id, channel) {
        if "https://"@.is_prefix_of(client.base_url) {
            assert("wss://"@ =~= url.subrange(0, 6));
        } else {
            assert(url[1] == "ws://"@[1]);
            if "wss://"@.is_prefix_of(url) {
                assert(url.subrange(0, 6)[1] == "wss://"@[1]);
                assert(url[2] == "ws://"@[2]);
                assert(url.subrange(0, 6)[2] == "wss://"@[2]);
            }
        }
    }
}

/// The access cookie is that of the first field that sets one: every field before it is text and
/// sets another cookie. It is missing where all fields are such, and hidden by a field that is not
/// text.
pub proof fn law_first_access_cookie_counts(fields: Seq<Seq<u8>>, k: int)
    requires
        0 <= k <= fields.len(),
        forall|i: int|
            0 <= i < k ==> {
                let field = headers::header_text(#[trigger] fields[i]);
                field is Some && !"access_token="@.is_prefix_of(cookie_pair(field->0))
            },
    ensures
        k == fields.len() ==> access_cookie_in(fields) is Missing,
        k < fields.len() && headers::header_text(fields[k]) is None ==> access_cookie_in(fields)
            is NotText,
        k < fields.len() && headers::header_text(fields[k]) is Some
            && "access_token="@.is_prefix_of(cookie_pair(headers::header_text(fields[k])->0))
            ==> access_cookie_in(fields) == CookieView::Token(cookie_pair(headers::header_text(fields[k])->0)),
    decreases fields.len(),
{
    if k > 0 {
        let rest = fields.subrange(1, fields.len() as int);
        assert(headers::header_text(fields[0]) is Some);
        assert forall|i: int| 0 <= i < k - 1 implies ({
            let field = headers::header_text(#[trigger] rest[i]);
            field is Some && !"access_token="@.is_prefix_of(cookie_pair(field->0))
        }) by {
            assert(rest[i] == fields[i + 1]);
        }
        law_first_access_cookie_counts(rest, k - 1);
        if k < fields.len() {
            assert(rest[k - 1] == fields[k]);
        }
    }
}

/// What a cookie is before its attributes: everything before the first semicolon.
pub proof fn law_cookie_ends_at_the_semicolon(pair: Seq<char>, attributes: Seq<char>)
    requires
        !pair.contains(';'),
    ensures
        cookie_pair(pair + seq![';'] + attributes) == pair,
        cookie_pair(pair) == pair,
{
    lemma_first_position(pair, seq![';'] + attributes);
    lemma_first_position(pair, seq![]);
    assert(pair + seq![';'] + attributes =~= pair + (seq![';'] + attributes));
    assert(pair + Seq::<char>::empty() =~= pair);
    assert((pair + (seq![';'] + attributes)).subrange(0, pair.len() as int) =~= pair);
    assert(pair.subrange(0, pair.len() as int) =~= pair);
}

proof fn lemma_first_position(front: Seq<char>, tail: Seq<char>)
    requires
        !front.contains(';'),
        tail.len() > 0 ==> tail[0] == ';',
    ensures
        text::first_position(front + tail, ';') == front.len(),
    decreases front.len(),
{
    let s = front + tail;
    if front.len() > 0 {
        let rest = front.subrange(1, front.len() as int);
        assert(front.contains(front[0]));
        assert forall|i: int| 0 <= i < rest.len() implies rest[i] != ';' by {
            assert(front.contains(front[i + 1]));
        }
        assert(s[0] == front[0]);
        assert(s.subrange(1, s.len() as int) =~= rest + tail);
        lemma_first_position(rest, tail);
    } else {
        assert(s =~= tail);
    }
}

/// The address of a camera's stream: that of the service with its scheme replaced by that of its
/// socket, the camera and the channel in the query.
pub proof fn law_stream_url(
    rest: Seq<char>,
    camera_id: Seq<char>,
    channel: u8,
    cookie: Option<Seq<char>>,
)
    ensures
        (ClientView { base_url: "https://"@ + rest, access_cookie: cookie }).stream_url(
            camera_id,
            channel,
        ) == Some(
            "wss://"@ + rest + ("/api/miot/ws/video_stream?camera_id="@ + camera_id + "&channel="@
                + numbers::decimal(channel as nat)),
        ),
        (ClientView { base_url: "http://"@ + rest, access_cookie: cookie }).stream_url(
            camera_id,
            channel,
        ) == Some(
            "ws://"@ + rest + ("/api/miot/ws/video_stream?camera_id="@ + camera_id + "&channel="@
                + numbers::decimal(channel as nat)),
        ),
{
    reveal_strlit("https://");
    reveal_strlit("http://");
    let secure = "https://"@ + rest;
    let plain = "http://"@ + rest;
    assert("https://"@.is_prefix_of(secure));
    assert(secure.subrange(8, secure.len() as int) =~= rest);
    assert("http://"@.is_prefix_of(plain));
    assert(!"https://"@.is_prefix_of(plain)) by {
        assert(plain[4] == ':' && "https://"@[4] == 's');
        assert(plain.len() >= 8 ==> plain.subrange(0, 8)[4] == plain[4]);
    }
    assert(plain.subrange(7, plain.len() as int) =~= rest);
}

/// What a client is told of an error.
pub proof fn law_errors_are_told(code: i32, message: String, url: String)
    ensures
        (MilocoError::Api { code, message }).text() == "Miloco API error "@
            + numbers::signed_decimal(code as int) + ": "@ + message@,
        MilocoError::InvalidBaseUrl(url).text() == "invalid Miloco base URL: "@ + url@,
{
}

} // verus!
