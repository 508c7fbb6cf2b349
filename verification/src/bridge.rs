//! The bridge: its configuration, the addresses that it talks to, and what it does with each thing
//! that arrives.
use serde_json::Value;
use std::path::PathBuf;
use vstd::prelude::*;
use vstd::string::*;

use crate::ffmpeg::FfmpegOptions;
use crate::headers;
use crate::json;
use crate::link;
use crate::link::Link;
use crate::nal;
use crate::native_miot::{NativeFrame, NativeMiotConfig};
use crate::numbers;
use crate::numbers::IntegerError;
use crate::oauth::{MiotToken, TokenResolverConfig};
use crate::text;

verus! {

/// What the bridge needs to know.
#[derive(Debug, Clone, PartialEq, Eq)]
pub struct BridgeConfig {
    pub mode: BridgeMode,
    pub base_url: String,
    pub username: String,
    pub password: String,
    pub camera_id: String,
    pub channel: String,
    pub video_codec: String,
    pub rtsp_url: String,
    pub ffmpeg_gpu_enabled: bool,
    pub ffmpeg_video_encoder: Option<String>,
    pub ffmpeg_hwaccel: Option<String>,
    pub ffmpeg_vaapi_device: Option<String>,
    pub ffmpeg_extra_args: Vec<String>,
    pub ffmpeg_low_latency: bool,
    pub miot_access_token: Option<String>,
    pub miot_refresh_token: Option<String>,
    pub miot_token_file: Option<PathBuf>,
    pub miot_oauth_redirect_uri: String,
    pub miot_refresh_margin_seconds: i64,
    pub miot_cloud_server: String,
    pub miot_camera_model: Option<String>,
    pub miot_channel_count: u8,
    pub miot_video_quality: u8,
    pub miot_enable_audio: bool,
    pub miot_pin_code: Option<String>,
    pub miot_lib_path: PathBuf,
    pub miot_queue_capacity: usize,
}

/// Where the video comes from.
#[derive(Debug, Clone, Copy, PartialEq, Eq, Structural)]
pub enum BridgeMode {
    /// From a Miloco service, over its WebSocket.
    Remote,
    /// From the camera library.
    Native,
}

/// Why the bridge stopped.
#[derive(Debug)]
pub enum BridgeError {
    InvalidChannel(IntegerError),
    InvalidBaseUrl(url::ParseError),
    UnsupportedScheme(String),
    MissingHost,
    InvalidWebSocketUrl(url::ParseError),
    LoginFailed { status: String, body: String },
    LoginStatusFailed { status: String },
    ReceiveFailed { cause: String },
    ReceiveTimeout,
    NativeReceiveTimeout,
    NativeChannelClosed,
}

impl BridgeError {
    /// The message for a reader.
    pub open spec fn text(self) -> Seq<char> {
        match self {
            BridgeError::InvalidChannel(_) => "STREAM_CHANNEL must be an integer for native mode"@,
            BridgeError::InvalidBaseUrl(_) => "invalid Miloco base URL"@,
            BridgeError::UnsupportedScheme(scheme) => "unsupported Miloco URL scheme: "@ + scheme@,
            BridgeError::MissingHost => "Miloco base URL has no host"@,
            BridgeError::InvalidWebSocketUrl(_) => "failed to build WebSocket URL"@,
            BridgeError::LoginFailed { status, body } => "login failed: "@ + status@ + " - "@
                + body@,
            BridgeError::LoginStatusFailed { status } => "login status check failed: "@ + status@,
            BridgeError::ReceiveFailed { cause: _ } => "WebSocket receive error"@,
            BridgeError::ReceiveTimeout => "data receive timeout"@,
            BridgeError::NativeReceiveTimeout => "native MIoT data receive timeout"@,
            BridgeError::NativeChannelClosed => "native MIoT frame channel closed"@,
        }
    }

    /// The message for a reader.
    pub fn message(&self) -> (r: String)
        ensures
            r@ == self.text(),
    {
        match self {
            BridgeError::InvalidChannel(_) => {
                "STREAM_CHANNEL must be an integer for native mode".to_owned()
            },
            BridgeError::InvalidBaseUrl(_) => "invalid Miloco base URL".to_owned(),
            BridgeError::UnsupportedScheme(scheme) => {
                text::join("unsupported Miloco URL scheme: ", scheme.as_str())
            },
            BridgeError::MissingHost => "Miloco base URL has no host".to_owned(),
            BridgeError::InvalidWebSocketUrl(_) => "failed to build WebSocket URL".to_owned(),
            BridgeError::LoginFailed { status, body } => {
                let mut out = "login failed: ".to_owned();
                out.append(status.as_str());
                out.append(" - ");
                out.append(body.as_str());
                out
            },
            BridgeError::LoginStatusFailed { status } => {
                text::join("login status check failed: ", status.as_str())
            },
            BridgeError::ReceiveFailed { cause: _ } => "WebSocket receive error".to_owned(),
            BridgeError::ReceiveTimeout => "data receive timeout".to_owned(),
            BridgeError::NativeReceiveTimeout => "native MIoT data receive timeout".to_owned(),
            BridgeError::NativeChannelClosed => "native MIoT frame channel closed".to_owned(),
        }
    }
}

/// The copies of a list of strings.
fn copy_strings(list: &Vec<String>) -> (r: Vec<String>)
    ensures
        text::texts(r@) == text::texts(list@),
{
    let mut out: Vec<String> = Vec::new();
    let mut i: usize = 0;
    while i < list.len()
        invariant
            i <= list@.len(),
            text::texts(out@) == text::texts(list@).subrange(0, i as int),
        decreases list@.len() - i,
    {
        text::push_text(&mut out, list[i].as_str());
        i = i + 1;
        assert(text::texts(out@) =~= text::texts(list@).subrange(0, i as int));
    }
    assert(text::texts(list@).subrange(0, i as int) =~= text::texts(list@));
    out
}

impl BridgeConfig {
    /// What the FFmpeg command line depends on.
    pub fn ffmpeg_options(&self) -> (r: FfmpegOptions)
        ensures
            r.video_codec@ == self.video_codec@,
            r.rtsp_url@ == self.rtsp_url@,
            r.gpu_enabled == self.ffmpeg_gpu_enabled,
            text::opt_text(r.video_encoder) == text::opt_text(self.ffmpeg_video_encoder),
            text::opt_text(r.hwaccel) == text::opt_text(self.ffmpeg_hwaccel),
            text::opt_text(r.vaapi_device) == text::opt_text(self.ffmpeg_vaapi_device),
            text::texts(r.extra_args@) == text::texts(self.ffmpeg_extra_args@),
            r.low_latency == self.ffmpeg_low_latency,
    {
        FfmpegOptions {
            video_codec: self.video_codec.clone(),
            rtsp_url: self.rtsp_url.clone(),
            gpu_enabled: self.ffmpeg_gpu_enabled,
            video_encoder: self.ffmpeg_video_encoder.clone(),
            hwaccel: self.ffmpeg_hwaccel.clone(),
            vaapi_device: self.ffmpeg_vaapi_device.clone(),
            extra_args: copy_strings(&self.ffmpeg_extra_args),
            low_latency: self.ffmpeg_low_latency,
        }
    }

    /// The stream's channel as a number, as the native source needs it.
    pub fn native_channel(&self) -> (r: Result<u8, BridgeError>)
        ensures
            match numbers::natural_of(self.channel@, 255) {
                Ok(n) => r matches Ok(channel) && channel == n,
                Err(wrong) => r matches Err(BridgeError::InvalidChannel(e)) && e == wrong,
            },
    {
        match numbers::parse_natural(self.channel.as_str(), 255) {
            Ok(n) => Ok(n as u8),
            Err(e) => Err(BridgeError::InvalidChannel(e)),
        }
    }

    /// Where the native source's token may come from.
    pub fn token_resolver(&self) -> (r: TokenResolverConfig)
        ensures
            r.cloud_server@ == self.miot_cloud_server@,
            r.redirect_uri@ == self.miot_oauth_redirect_uri@,
            r.token_file == self.miot_token_file,
            text::opt_text(r.access_token) == text::opt_text(self.miot_access_token),
            text::opt_text(r.refresh_token) == text::opt_text(self.miot_refresh_token),
            r.refresh_margin_seconds == self.miot_refresh_margin_seconds,
    {
        TokenResolverConfig {
            cloud_server: self.miot_cloud_server.clone(),
            redirect_uri: self.miot_oauth_redirect_uri.clone(),
            token_file: self.miot_token_file.clone(),
            access_token: self.miot_access_token.clone(),
            refresh_token: self.miot_refresh_token.clone(),
            refresh_margin_seconds: self.miot_refresh_margin_seconds,
        }
    }

    /// The configuration that the native source gets with a channel and an access token.
    pub open spec fn configures_native(
        self,
        channel: u8,
        access_token: Seq<char>,
        native: NativeMiotConfig,
    ) -> bool {
        &&& native.lib_path == self.miot_lib_path
        &&& native.cloud_server@ == self.miot_cloud_server@
        &&& native.access_token@ == access_token
        &&& native.camera_id@ == self.camera_id@
        &&& native.camera_model@ == text::text_or(self.miot_camera_model, seq![])
        &&& native.channel_count == self.miot_channel_count
        &&& native.channel == channel
        &&& native.video_quality == self.miot_video_quality
        &&& native.enable_audio == self.miot_enable_audio
        &&& text::opt_text(native.pin_code) == text::opt_text(self.miot_pin_code)
        &&& native.queue_capacity == self.miot_queue_capacity
    }

    /// What the native source needs to know, once the channel is read and the token is there.
    pub fn native_config(&self, channel: u8, token: MiotToken) -> (r: NativeMiotConfig)
        ensures
            self.configures_native(channel, token.access_token@, r),
            r.lib_path == self.miot_lib_path,
            r.cloud_server@ == self.miot_cloud_server@,
            r.access_token@ == token.access_token@,
            r.camera_id@ == self.camera_id@,
            r.camera_model@ == (match self.miot_camera_model {
                Some(model) => model@,
                None => seq![],
            }),
            r.channel_count == self.miot_channel_count,
            r.channel == channel,
            r.video_quality == self.miot_video_quality,
            r.enable_audio == self.miot_enable_audio,
            text::opt_text(r.pin_code) == text::opt_text(self.miot_pin_code),
            r.queue_capacity == self.miot_queue_capacity,
    {
        NativeMiotConfig {
            lib_path: self.miot_lib_path.clone(),
            cloud_server: self.miot_cloud_server.clone(),
            access_token: token.access_token,
            camera_id: self.camera_id.clone(),
            camera_model: match &self.miot_camera_model {
                Some(model) => model.clone(),
                None => String::new(),
            },
            channel_count: self.miot_channel_count,
            channel,
            video_quality: self.miot_video_quality,
            enable_audio: self.miot_enable_audio,
            pin_code: self.miot_pin_code.clone(),
            queue_capacity: self.miot_queue_capacity,
        }
    }
}

/// What arrives on the WebSocket.
pub enum SocketEvent {
    Binary(Vec<u8>),
    Close,
    /// Text and control frames.
    Other,
    /// The connection is over.
    Ended,
    Failed { cause: String },
    TimedOut,
}

/// What arrives from the native source.
pub enum FrameEvent {
    Frame(NativeFrame),
    TimedOut,
    /// The source is gone.
    Ended,
}

/// What the bridge does next.
pub enum StreamAction {
    /// Wait for more.
    Skip,
    /// Write the data to FFmpeg, which is started before if it is not running.
    Forward { data: Vec<u8>, start_ffmpeg: bool },
    /// The stream is over.
    Finish,
    Fail(BridgeError),
}

/// A payload passes once a keyframe came.
pub open spec fn passes(video_codec: Seq<char>, waiting: bool, data: Seq<u8>) -> bool {
    !waiting || nal::keyframe(video_codec, data)
}

/// The codec that is used from a payload on: a configured `auto` becomes the payload's, where that
/// is known.
pub open spec fn codec_after(video_codec: Seq<char>, codec: Option<Seq<char>>) -> Seq<char> {
    match codec {
        Some(c) => if video_codec == "auto"@ {
            c
        } else {
            video_codec
        },
        None => video_codec,
    }
}

/// What an event means for the stream.
pub enum ArrivalView {
    /// Video, and its codec where the source tells it.
    Payload { codec: Option<Seq<char>>, data: Seq<u8> },
    /// Nothing that concerns the stream.
    Nothing,
    End,
    Failure(BridgeError),
}

impl SocketEvent {
    pub open spec fn arrival(self) -> ArrivalView {
        match self {
            SocketEvent::Binary(data) => ArrivalView::Payload { codec: None, data: data@ },
            SocketEvent::Other => ArrivalView::Nothing,
            SocketEvent::Close | SocketEvent::Ended => ArrivalView::End,
            SocketEvent::Failed { cause } => ArrivalView::Failure(
                BridgeError::ReceiveFailed { cause },
            ),
            SocketEvent::TimedOut => ArrivalView::Failure(BridgeError::ReceiveTimeout),
        }
    }
}

impl FrameEvent {
    pub open spec fn arrival(self) -> ArrivalView {
        match self {
            FrameEvent::Frame(frame) => ArrivalView::Payload {
                codec: Some(frame.codec@),
                data: frame.data@,
            },
            FrameEvent::TimedOut => ArrivalView::Failure(BridgeError::NativeReceiveTimeout),
            FrameEvent::Ended => ArrivalView::Failure(BridgeError::NativeChannelClosed),
        }
    }
}

/// The value of a [`StreamAction`].
pub enum StreamActionView {
    Skip,
    Forward { data: Seq<u8>, start_ffmpeg: bool },
    Finish,
    Fail(BridgeError),
}

impl View for StreamAction {
    type V = StreamActionView;

    open spec fn view(&self) -> StreamActionView {
        match *self {
            StreamAction::Skip => StreamActionView::Skip,
            StreamAction::Forward { data, start_ffmpeg } => StreamActionView::Forward {
                data: data@,
                start_ffmpeg,
            },
            StreamAction::Finish => StreamActionView::Finish,
            StreamAction::Fail(e) => StreamActionView::Fail(e),
        }
    }
}

/// What the stream's steps depend on.
pub struct StreamState {
    pub video_codec: Seq<char>,
    pub waiting_for_keyframe: bool,
    pub ffmpeg_running: bool,
}

/// What one arrival leads to. A payload is forwarded once a keyframe came, and skipped before.
pub open spec fn stream_step(state: StreamState, arrival: ArrivalView) -> (
    StreamActionView,
    StreamState,
) {
    match arrival {
        ArrivalView::Payload { codec, data } => {
            let video_codec = codec_after(state.video_codec, codec);
            if passes(video_codec, state.waiting_for_keyframe, data) {
                (
                    StreamActionView::Forward { data, start_ffmpeg: !state.ffmpeg_running },
                    StreamState { video_codec, waiting_for_keyframe: false, ..state },
                )
            } else {
                (StreamActionView::Skip, StreamState { video_codec, ..state })
            }
        },
        ArrivalView::Nothing => (StreamActionView::Skip, state),
        ArrivalView::End => (StreamActionView::Finish, state),
        ArrivalView::Failure(e) => (StreamActionView::Fail(e), state),
    }
}

/// The bridge between a camera and FFmpeg.
pub struct RtspBridge {
    pub config: BridgeConfig,
    pub waiting_for_keyframe: bool,
    pub ffmpeg_running: bool,
}

/// `https` is `wss`, and `http` is `ws`.
pub open spec fn socket_scheme(scheme: Seq<char>) -> Option<Seq<char>> {
    if scheme == "https"@ {
        Some("wss"@)
    } else if scheme == "http"@ {
        Some("ws"@)
    } else {
        None
    }
}

/// The host of a URL, and its port where that is not the scheme's own.
pub open spec fn host_port(host: Seq<char>, port: Option<u16>) -> Seq<char> {
    match port {
        Some(p) => host + ":"@ + numbers::decimal(p as nat),
        None => host,
    }
}

/// The address of a video stream.
pub open spec fn stream_address(
    socket: Seq<char>,
    host: Seq<char>,
    port: Option<u16>,
    camera_id: Seq<char>,
    channel: Seq<char>,
) -> Seq<char> {
    socket + "://"@ + host_port(host, port) + "/api/miot/ws/video_stream?camera_id="@ + camera_id
        + "&channel="@ + channel
}

/// The address of a camera's video stream at a Miloco service.
pub fn stream_address_at(base: &Link, camera_id: &str, channel: &str) -> (r: Result<
    String,
    BridgeError,
>)
    ensures
        match socket_scheme(base@.scheme) {
            None => r matches Err(BridgeError::UnsupportedScheme(scheme)) && scheme@
                == base@.scheme,
            Some(socket) => match base@.host {
                None => r matches Err(e) && e is MissingHost,
                Some(host) => r matches Ok(address) && address@ == stream_address(
                    socket,
                    host,
                    base@.port,
                    camera_id@,
                    channel@,
                ),
            },
        },
{
    proof {
        reveal_strlit("https");
        reveal_strlit("http");
        assert("https"@.len() != "http"@.len());
    }
    let socket = if text::same(base.scheme.as_str(), "https") {
        "wss"
    } else if text::same(base.scheme.as_str(), "http") {
        "ws"
    } else {
        return Err(BridgeError::UnsupportedScheme(base.scheme.clone()));
    };
    let host = match &base.host {
        Some(host) => host,
        None => {
            return Err(BridgeError::MissingHost);
        },
    };
    let mut authority = host.clone();
    if let Some(port) = base.port {
        authority.append(":");
        authority.append(numbers::natural_text(port as u64).as_str());
    }
    let mut address = socket.to_owned();
    address.append("://");
    address.append(authority.as_str());
    address.append("/api/miot/ws/video_stream?camera_id=");
    address.append(camera_id);
    address.append("&channel=");
    address.append(channel);
    Ok(address)
}

/// The URL whose cookies go with a WebSocket: the same one over HTTP.
pub fn cookie_url(ws_url: &Link) -> (r: Option<String>)
    requires
        ws_url@.text.len() <= 0x1000_0000,
    ensures
        text::opt_text(r) == link::url_with_scheme(
            ws_url@.text,
            if ws_url@.scheme == "wss"@ {
                "https"@
            } else {
                "http"@
            },
        ),
{
    proof {
        reveal_strlit("https");
        reveal_strlit("http");
    }
    let scheme = if text::same(ws_url.scheme.as_str(), "wss") {
        "https"
    } else {
        "http"
    };
    link::replace_scheme(ws_url.text.as_str(), scheme)
}

/// Whether an HTTP status reports success.
pub open spec fn is_success(status: u16) -> bool {
    200 <= status < 300
}

/// Looks at the answer to a login.
pub fn check_login(status: u16, body: &str) -> (r: Result<(), BridgeError>)
    requires
        100 <= status < 1000,
    ensures
        r is Ok <==> 200 <= status < 300,
        if is_success(status) {
            r is Ok
        } else {
            r matches Err(BridgeError::LoginFailed { status: shown, body: said }) && shown@
                == headers::status_text(status) && said@ == body@
        },
{
    if 200 <= status && status < 300 {
        Ok(())
    } else {
        Err(
            BridgeError::LoginFailed { status: headers::show_status(status), body: body.to_owned() },
        )
    }
}

/// Looks at the answer to a question for the login's status.
pub fn check_login_status(status: u16) -> (r: Result<(), BridgeError>)
    requires
        100 <= status < 1000,
    ensures
        r is Ok <==> 200 <= status < 300,
        if is_success(status) {
            r is Ok
        } else {
            r matches Err(BridgeError::LoginStatusFailed { status: shown }) && shown@
                == headers::status_text(status)
        },
{
    if 200 <= status && status < 300 {
        Ok(())
    } else {
        Err(BridgeError::LoginStatusFailed { status: headers::show_status(status) })
    }
}

/// The fields of a login.
pub open spec fn login_fields(username: Seq<char>, password: Seq<char>) -> Seq<
    (Seq<char>, Seq<char>),
> {
    seq![("username"@, username), ("password"@, password)]
}

/// What a login sends.
pub fn login_payload(username: &str, password: &str) -> (r: Value)
    ensures
        json::json_of(r) == json::object_of(login_fields(username@, password@)),
{
    let fields: Vec<(&'static str, String)> = vec![
        ("username", username.to_owned()),
        ("password", password.to_owned()),
    ];
    proof {
        reveal_strlit("username");
        reveal_strlit("password");
        assert("username"@[0] != "password"@[0]);
        assert(json::field_texts(fields@) =~= login_fields(username@, password@));
    }
    json::object(fields)
}

impl RtspBridge {
    /// A bridge that waits for a keyframe.
    pub fn new(config: BridgeConfig) -> (r: RtspBridge)
        ensures
            r.config == config,
            r.waiting_for_keyframe,
            !r.ffmpeg_running,
    {
        RtspBridge { config, waiting_for_keyframe: true, ffmpeg_running: false }
    }

    /// Where the bridge logs in.
    pub fn login_url(&self) -> (r: String)
        ensures
            r@ == text::without_trailing_slashes(self.config.base_url@) + "/api/auth/login"@,
    {
        text::join(
            text::trim_trailing_slashes(self.config.base_url.as_str()),
            "/api/auth/login",
        )
    }

    /// Where the bridge asks whether the login holds.
    pub fn login_status_url(&self) -> (r: String)
        ensures
            r@ == text::without_trailing_slashes(self.config.base_url@)
                + "/api/miot/login_status"@,
    {
        text::join(
            text::trim_trailing_slashes(self.config.base_url.as_str()),
            "/api/miot/login_status",
        )
    }

    /// What the bridge sends to log in.
    pub fn login_request(&self) -> (r: Value)
        ensures
            json::json_of(r) == json::object_of(
                login_fields(self.config.username@, self.config.password@),
            ),
    {
        login_payload(self.config.username.as_str(), self.config.password.as_str())
    }

    /// Where the video stream is.
    pub fn ws_url(&self) -> (r: Result<Link, BridgeError>)
        ensures
            match link::parsed_url(self.config.base_url@) {
                Err(wrong) => r matches Err(BridgeError::InvalidBaseUrl(e)) && e == wrong,
                Ok(base) => match (socket_scheme(base.scheme), base.host) {
                    (None, _) => r matches Err(BridgeError::UnsupportedScheme(scheme)) && scheme@
                        == base.scheme,
                    (Some(_), None) => r matches Err(e) && e is MissingHost,
                    (Some(socket), Some(host)) => match link::parsed_url(
                        stream_address(
                            socket,
                            host,
                            base.port,
                            self.config.camera_id@,
                            self.config.channel@,
                        ),
                    ) {
                        Err(wrong) => r matches Err(BridgeError::InvalidWebSocketUrl(e)) && e
                            == wrong,
                        Ok(ws) => r matches Ok(found) && found@ == ws,
                    },
                },
            },
    {
        let base = match link::parse_url(self.config.base_url.as_str()) {
            Ok(base) => base,
            Err(e) => {
                return Err(BridgeError::InvalidBaseUrl(e));
            },
        };
        match stream_address_at(
            &base,
            self.config.camera_id.as_str(),
            self.config.channel.as_str(),
        ) {
            Ok(address) => match link::parse_url(address.as_str()) {
                Ok(ws) => Ok(ws),
                Err(e) => Err(BridgeError::InvalidWebSocketUrl(e)),
            },
            Err(e) => Err(e),
        }
    }

    /// What the stream's steps depend on.
    pub open spec fn state(self) -> StreamState {
        StreamState {
            video_codec: self.config.video_codec@,
            waiting_for_keyframe: self.waiting_for_keyframe,
            ffmpeg_running: self.ffmpeg_running,
        }
    }

    /// Forwards a payload, or skips it while no keyframe came.
    fn on_payload(&mut self, data: Vec<u8>) -> (r: StreamAction)
        ensures
            final(self).config == old(self).config,
            (r@, final(self).state()) == stream_step(
                old(self).state(),
                ArrivalView::Payload { codec: None, data: data@ },
            ),
            r is Skip || (r matches StreamAction::Forward { data: given, start_ffmpeg: _ } && given
                == data),
    {
        if self.waiting_for_keyframe {
            if nal::is_keyframe(self.config.video_codec.as_str(), data.as_slice()) {
                self.waiting_for_keyframe = false;
            } else {
                return StreamAction::Skip;
            }
        }
        StreamAction::Forward { data, start_ffmpeg: !self.ffmpeg_running }
    }

    /// Decides what follows from something that arrived on the WebSocket.
    pub fn on_socket_event(&mut self, event: SocketEvent) -> (r: StreamAction)
        ensures
            (r@, final(self).state()) == stream_step(old(self).state(), event.arrival()),
            final(self).config == old(self).config,
            final(self).ffmpeg_running == old(self).ffmpeg_running,
            event matches SocketEvent::Binary(data) ==> if !old(self).waiting_for_keyframe
                || nal::keyframe(old(self).config.video_codec@, data@) {
                &&& r == (StreamAction::Forward { data, start_ffmpeg: !old(self).ffmpeg_running })
                &&& !final(self).waiting_for_keyframe
            } else {
                &&& r is Skip
                &&& final(self).waiting_for_keyframe
            },
            !(event is Binary) ==> *final(self) == *old(self),
            event is Close || event is Ended ==> r is Finish,
            event is Other ==> r is Skip,
            event is TimedOut ==> r == StreamAction::Fail(BridgeError::ReceiveTimeout),
            event matches SocketEvent::Failed { cause } ==> r == StreamAction::Fail(
                BridgeError::ReceiveFailed { cause },
            ),
    {
        match event {
            SocketEvent::Binary(data) => self.on_payload(data),
            SocketEvent::Close => StreamAction::Finish,
            SocketEvent::Other => StreamAction::Skip,
            SocketEvent::Ended => StreamAction::Finish,
            SocketEvent::Failed { cause } => {
                StreamAction::Fail(BridgeError::ReceiveFailed { cause })
            },
            SocketEvent::TimedOut => StreamAction::Fail(BridgeError::ReceiveTimeout),
        }
    }

    /// Decides what follows from something that arrived from the native source.
    pub fn on_frame_event(&mut self, event: FrameEvent) -> (r: StreamAction)
        ensures
            (r@, final(self).state()) == stream_step(old(self).state(), event.arrival()),
            final(self).config == (BridgeConfig {
                video_codec: final(self).config.video_codec,
                ..old(self).config
            }),
            final(self).ffmpeg_running == old(self).ffmpeg_running,
            event matches FrameEvent::Frame(frame) ==> {
                &&& final(self).config.video_codec@ == (if old(self).config.video_codec@
                    == "auto"@ {
                    frame.codec@
                } else {
                    old(self).config.video_codec@
                })
                &&& if !old(self).waiting_for_keyframe || nal::keyframe(
                    final(self).config.video_codec@,
                    frame.data@,
                ) {
                    &&& r == (StreamAction::Forward {
                        data: frame.data,
                        start_ffmpeg: !old(self).ffmpeg_running,
                    })
                    &&& !final(self).waiting_for_keyframe
                } else {
                    &&& r is Skip
                    &&& final(self).waiting_for_keyframe
                }
            },
            !(event is Frame) ==> *final(self) == *old(self),
            event is TimedOut ==> r == StreamAction::Fail(BridgeError::NativeReceiveTimeout),
            event is Ended ==> r == StreamAction::Fail(BridgeError::NativeChannelClosed),
    {
        match event {
            FrameEvent::Frame(frame) => {
                if text::same(self.config.video_codec.as_str(), "auto") {
                    self.config.video_codec = frame.codec.to_owned();
                }
                self.on_payload(frame.data)
            },
            FrameEvent::TimedOut => StreamAction::Fail(BridgeError::NativeReceiveTimeout),
            FrameEvent::Ended => StreamAction::Fail(BridgeError::NativeChannelClosed),
        }
    }

    /// Notes that FFmpeg was started.
    pub fn ffmpeg_started(&mut self)
        ensures
            *final(self) == (RtspBridge { ffmpeg_running: true, ..*old(self) }),
    {
        self.ffmpeg_running = true;
    }

    /// Ends the run. Returns whether FFmpeg is to be stopped.
    pub fn finish(&mut self) -> (r: bool)
        ensures
            r == old(self).ffmpeg_running,
            *final(self) == (RtspBridge { ffmpeg_running: false, ..*old(self) }),
    {
        let running = self.ffmpeg_running;
        self.ffmpeg_running = false;
        running
    }
}

/// What is forwarded out of a list of arrivals; the end of the stream and a failure stop it.
pub open spec fn forwarded(state: StreamState, arrivals: Seq<ArrivalView>) -> Seq<Seq<u8>>
    decreases arrivals.len(),
{
    if arrivals.len() == 0 {
        seq![]
    } else {
        let (action, next) = stream_step(state, arrivals[0]);
        let rest = arrivals.subrange(1, arrivals.len() as int);
        match action {
            StreamActionView::Skip => forwarded(next, rest),
            StreamActionView::Forward { data, start_ffmpeg: _ } => seq![data] + forwarded(
                next,
                rest,
            ),
            _ => seq![],
        }
    }
}

/// The video among a list of arrivals.
pub open spec fn payloads_of(arrivals: Seq<ArrivalView>) -> Seq<Seq<u8>>
    decreases arrivals.len(),
{
    if arrivals.len() == 0 {
        seq![]
    } else {
        let rest = arrivals.subrange(1, arrivals.len() as int);
        match arrivals[0] {
            ArrivalView::Payload { codec: _, data } => seq![data] + payloads_of(rest),
            _ => payloads_of(rest),
        }
    }
}

/// Nothing among the arrivals ends the stream.
pub open spec fn goes_on(arrivals: Seq<ArrivalView>) -> bool {
    forall|i: int|
        0 <= i < arrivals.len() ==> (#[trigger] arrivals[i]) is Payload || arrivals[i] is Nothing
}

/// A keyframe of a codec.
pub open spec fn is_key(video_codec: Seq<char>, arrival: ArrivalView) -> bool {
    arrival matches ArrivalView::Payload { codec: _, data } && nal::keyframe(video_codec, data)
}

proof fn lemma_rest_goes_on(arrivals: Seq<ArrivalView>)
    requires
        arrivals.len() > 0,
        goes_on(arrivals),
    ensures
        goes_on(arrivals.subrange(1, arrivals.len() as int)),
        arrivals[0] is Payload || arrivals[0] is Nothing,
{
    let rest = arrivals.subrange(1, arrivals.len() as int);
    assert forall|i: int| 0 <= i < rest.len() implies (#[trigger] rest[i]) is Payload || rest[i]
        is Nothing by {
        assert(rest[i] == arrivals[i + 1]);
    }
}

/// Once a keyframe came, everything is forwarded.
pub proof fn law_everything_passes_after_a_keyframe(
    state: StreamState,
    arrivals: Seq<ArrivalView>,
)
    requires
        !state.waiting_for_keyframe,
        goes_on(arrivals),
    ensures
        forwarded(state, arrivals) == payloads_of(arrivals),
    decreases arrivals.len(),
{
    if arrivals.len() > 0 {
        lemma_rest_goes_on(arrivals);
        law_everything_passes_after_a_keyframe(
            stream_step(state, arrivals[0]).1,
            arrivals.subrange(1, arrivals.len() as int),
        );
    }
}

/// What is forwarded starts with the first keyframe and leaves out nothing after it; without a
/// keyframe nothing is forwarded.
pub proof fn law_stream_starts_with_a_keyframe(
    state: StreamState,
    arrivals: Seq<ArrivalView>,
    first: int,
)
    requires
        state.waiting_for_keyframe,
        state.video_codec != "auto"@,
        goes_on(arrivals),
        0 <= first <= arrivals.len(),
        forall|i: int| 0 <= i < first ==> !is_key(state.video_codec, #[trigger] arrivals[i]),
        first < arrivals.len() ==> is_key(state.video_codec, arrivals[first]),
    ensures
        forwarded(state, arrivals) == payloads_of(
            arrivals.subrange(first, arrivals.len() as int),
        ),
    decreases arrivals.len(),
{
    if arrivals.len() > 0 {
        let rest = arrivals.subrange(1, arrivals.len() as int);
        let next = stream_step(state, arrivals[0]).1;
        lemma_rest_goes_on(arrivals);
        if first == 0 {
            assert(arrivals.subrange(0, arrivals.len() as int) =~= arrivals);
            law_everything_passes_after_a_keyframe(next, rest);
        } else {
            assert(!is_key(state.video_codec, arrivals[0]));
            assert forall|i: int| 0 <= i < first - 1 implies !is_key(
                state.video_codec,
                #[trigger] rest[i],
            ) by {
                assert(rest[i] == arrivals[i + 1]);
            }
            law_stream_starts_with_a_keyframe(next, rest, first - 1);
            assert(rest.subrange(first - 1, rest.len() as int) =~= arrivals.subrange(
                first,
                arrivals.len() as int,
            ));
        }
    }
}

/// The arrivals without their codecs.
pub open spec fn without_codecs(arrivals: Seq<ArrivalView>) -> Seq<ArrivalView> {
    Seq::new(
        arrivals.len(),
        |i: int|
            match arrivals[i] {
                ArrivalView::Payload { codec: _, data } => ArrivalView::Payload {
                    codec: None,
                    data,
                },
                other => other,
            },
    )
}

/// A codec other than `auto` stays: the codecs that the source tells make no difference.
pub proof fn law_known_codec_stays(state: StreamState, arrivals: Seq<ArrivalView>)
    requires
        state.video_codec != "auto"@,
    ensures
        forwarded(state, arrivals) == forwarded(state, without_codecs(arrivals)),
    decreases arrivals.len(),
{
    if arrivals.len() > 0 {
        let rest = arrivals.subrange(1, arrivals.len() as int);
        let bare = without_codecs(arrivals);
        assert(bare.subrange(1, bare.len() as int) =~= without_codecs(rest));
        assert(stream_step(state, arrivals[0]) == stream_step(state, bare[0]));
        law_known_codec_stays(stream_step(state, arrivals[0]).1, rest);
    }
}

/// With `auto`, the codec of the first frame decides for the whole stream.
pub proof fn law_auto_takes_the_first_codec(
    state: StreamState,
    arrivals: Seq<ArrivalView>,
    codec: Seq<char>,
)
    requires
        state.video_codec == "auto"@,
        codec != "auto"@,
        arrivals.len() > 0,
        arrivals[0] matches ArrivalView::Payload { codec: told, data: _ } && told == Some(codec),
    ensures
        forwarded(state, arrivals) == forwarded(
            StreamState { video_codec: codec, ..state },
            without_codecs(arrivals),
        ),
{
    let known = StreamState { video_codec: codec, ..state };
    assert(stream_step(state, arrivals[0]) == stream_step(known, arrivals[0]));
    law_known_codec_stays(known, arrivals);
}

/// What is reported of FFmpeg's end: nothing where it succeeded.
pub open spec fn exit_report(success: bool, status: Seq<char>, stderr: Option<Seq<char>>) -> Option<
    Seq<char>,
> {
    if success {
        None
    } else {
        match stderr {
            Some(said) => if text::is_blank(said) {
                Some("FFmpeg exited with "@ + status)
            } else {
                Some("FFmpeg exited with "@ + status + ". stderr: "@ + said)
            },
            None => Some("FFmpeg exited with "@ + status),
        }
    }
}

/// What is reported of FFmpeg's end, given what it wrote to its error output.
pub fn ffmpeg_exit_report(success: bool, status: &str, stderr: &Option<String>) -> (r: Option<
    String,
>)
    ensures
        text::opt_text(r) == exit_report(success, status@, text::opt_text(*stderr)),
{
    if success {
        return None;
    }
    let mut out = text::join("FFmpeg exited with ", status);
    if let Some(said) = stderr {
        if !text::blank(said.as_str()) {
            out.append(". stderr: ");
            out.append(said.as_str());
        }
    }
    Some(out)
}

/// Video is forwarded as it came, and then FFmpeg is started exactly where it is not running,
/// whether the source tells the codec or not; what is skipped came while a keyframe was missing.
pub proof fn law_forwarding_starts_ffmpeg(
    state: StreamState,
    codec: Option<Seq<char>>,
    data: Seq<u8>,
)
    ensures
        ({
            let (action, next) = stream_step(state, ArrivalView::Payload { codec, data });
            &&& action is Skip || action == (StreamActionView::Forward {
                data,
                start_ffmpeg: !state.ffmpeg_running,
            })
            &&& action is Forward <==> !state.waiting_for_keyframe || nal::keyframe(
                next.video_codec,
                data,
            )
            &&& next.waiting_for_keyframe <==> action is Skip
            &&& next.ffmpeg_running == state.ffmpeg_running
            &&& next.video_codec == (if state.video_codec == "auto"@ && codec is Some {
                codec->0
            } else {
                state.video_codec
            })
        }),
{
}

/// Whether FFmpeg is started for each thing that is forwarded, over a run that notes each start.
pub open spec fn starts(state: StreamState, arrivals: Seq<ArrivalView>) -> Seq<bool>
    decreases arrivals.len(),
{
    if arrivals.len() == 0 {
        seq![]
    } else {
        let (action, next) = stream_step(state, arrivals[0]);
        let rest = arrivals.subrange(1, arrivals.len() as int);
        match action {
            StreamActionView::Skip => starts(next, rest),
            StreamActionView::Forward { data: _, start_ffmpeg } => seq![start_ffmpeg] + starts(
                StreamState { ffmpeg_running: next.ffmpeg_running || start_ffmpeg, ..next },
                rest,
            ),
            _ => seq![],
        }
    }
}

/// FFmpeg runs whenever something is written to it: it is started for the first thing that is
/// forwarded, unless it is running, and never again. As many things are written as are forwarded.
pub proof fn law_ffmpeg_runs_when_written_to(state: StreamState, arrivals: Seq<ArrivalView>)
    ensures
        starts(state, arrivals).len() == forwarded(state, arrivals).len(),
        starts(state, arrivals).len() > 0 ==> starts(state, arrivals)[0] == !state.ffmpeg_running,
        forall|i: int| 1 <= i < starts(state, arrivals).len() ==> !#[trigger] starts(
            state,
            arrivals,
        )[i],
    decreases arrivals.len(),
{
    if arrivals.len() > 0 {
        let (action, next) = stream_step(state, arrivals[0]);
        let rest = arrivals.subrange(1, arrivals.len() as int);
        match action {
            StreamActionView::Skip => {
                law_ffmpeg_runs_when_written_to(next, rest);
            },
            StreamActionView::Forward { data, start_ffmpeg } => {
                let noted = StreamState {
                    ffmpeg_running: next.ffmpeg_running || start_ffmpeg,
                    ..next
                };
                law_ffmpeg_runs_when_written_to(noted, rest);
                lemma_running_is_no_matter(next, noted, rest);
                let tail = starts(noted, rest);
                assert forall|i: int| 1 <= i < starts(state, arrivals).len() implies !#[trigger] starts(
                    state,
                    arrivals,
                )[i] by {
                    assert(starts(state, arrivals)[i] == tail[i - 1]);
                }
            },
            _ => {},
        }
    }
}

/// Whether FFmpeg runs makes no difference to what is forwarded.
proof fn lemma_running_is_no_matter(a: StreamState, b: StreamState, arrivals: Seq<ArrivalView>)
    requires
        a == (StreamState { ffmpeg_running: a.ffmpeg_running, ..b }),
    ensures
        forwarded(a, arrivals) == forwarded(b, arrivals),
    decreases arrivals.len(),
{
    if arrivals.len() > 0 {
        lemma_running_is_no_matter(
            stream_step(a, arrivals[0]).1,
            stream_step(b, arrivals[0]).1,
            arrivals.subrange(1, arrivals.len() as int),
        );
    }
}

/// Nothing is forwarded once the stream ended or failed, and the failure is the one that came.
pub proof fn law_stream_stops_where_it_ends(
    state: StreamState,
    arrivals: Seq<ArrivalView>,
    later: Seq<ArrivalView>,
    failure: BridgeError,
)
    ensures
        forwarded(state, arrivals + seq![ArrivalView::End] + later) == forwarded(state, arrivals),
        forwarded(state, arrivals + seq![ArrivalView::Failure(failure)] + later) == forwarded(
            state,
            arrivals,
        ),
        stream_step(state, ArrivalView::End) == (StreamActionView::Finish, state),
        stream_step(state, ArrivalView::Failure(failure)) == (
            StreamActionView::Fail(failure),
            state,
        ),
        stream_step(state, ArrivalView::Nothing) == (StreamActionView::Skip, state),
    decreases arrivals.len(),
{
    let ended = arrivals + seq![ArrivalView::End] + later;
    let failed = arrivals + seq![ArrivalView::Failure(failure)] + later;
    if arrivals.len() > 0 {
        let rest = arrivals.subrange(1, arrivals.len() as int);
        law_stream_stops_where_it_ends(stream_step(state, arrivals[0]).1, rest, later, failure);
        assert(ended[0] == arrivals[0] && failed[0] == arrivals[0]);
        assert(ended.subrange(1, ended.len() as int) =~= rest + seq![ArrivalView::End] + later);
        assert(failed.subrange(1, failed.len() as int) =~= rest + seq![
            ArrivalView::Failure(failure),
        ] + later);
    } else {
        assert(ended[0] == ArrivalView::End);
        assert(failed[0] == ArrivalView::Failure(failure));
    }
}

/// The address of a stream: an encrypted service has an encrypted stream, and a plain one a plain
/// stream; a port is told as part of the host; the query names the camera and then the channel.
pub proof fn law_stream_address(
    socket: Seq<char>,
    host: Seq<char>,
    port: u16,
    camera_id: Seq<char>,
    channel: Seq<char>,
)
    ensures
        socket_scheme("https"@) == Some("wss"@),
        socket_scheme("http"@) == Some("ws"@),
        stream_address(socket, host, None, camera_id, channel) == socket + "://"@ + host
            + "/api/miot/ws/video_stream?camera_id="@ + camera_id + "&channel="@ + channel,
        stream_address(socket, host, Some(port), camera_id, channel) == stream_address(
            socket,
            host + ":"@ + numbers::decimal(port as nat),
            None,
            camera_id,
            channel,
        ),
{
    reveal_strlit("https");
    reveal_strlit("http");
    assert("https"@.len() != "http"@.len());
}

/// Any other scheme has no stream.
pub proof fn law_other_schemes_have_no_stream(scheme: Seq<char>)
    requires
        scheme != "https"@,
        scheme != "http"@,
    ensures
        socket_scheme(scheme) is None,
{
}

/// A login is an object of the user's name and password and nothing else.
pub proof fn law_login_carries_name_and_password(username: Seq<char>, password: Seq<char>)
    ensures
        ({
            let sent = json::object_of(login_fields(username, password));
            &&& sent.member_text("username"@) == Some(username)
            &&& sent.member_text("password"@) == Some(password)
            &&& forall|key: Seq<char>|
                key != "username"@ && key != "password"@ ==> (#[trigger] sent.member(key)) is None
        }),
{
    reveal_strlit("username");
    reveal_strlit("password");
    assert("username"@[0] != "password"@[0]);
    let fields = login_fields(username, password);
    let sent = json::object_of(fields);
    assert(fields.len() == 2);
    assert(fields[0] == ("username"@, username) && fields[1] == ("password"@, password));
    json::lemma_members_of(fields, "username"@);
    json::lemma_members_of(fields, "password"@);
    assert(fields[0].0 == "username"@);
    assert(fields[1].0 == "password"@);
    assert forall|key: Seq<char>| key != "username"@ && key != "password"@ implies (
    #[trigger] sent.member(key)) is None by {
        json::lemma_members_of(fields, key);
        assert(forall|i: int| 0 <= i < fields.len() ==> #[trigger] fields[i].0 != key);
    }
}

/// FFmpeg's end is reported exactly where it did not succeed; the report names the status, and ends
/// with what FFmpeg said where that is more than white space.
pub proof fn law_exit_report(success: bool, status: Seq<char>, said: Seq<char>)
    ensures
        exit_report(success, status, Some(said)) is None <==> success,
        exit_report(success, status, None) is None <==> success,
        exit_report(false, status, None) == Some("FFmpeg exited with "@ + status),
        text::is_blank(said) ==> exit_report(false, status, Some(said)) == exit_report(
            false,
            status,
            None,
        ),
        !text::is_blank(said) ==> exit_report(false, status, Some(said)) == Some(
            exit_report(false, status, None)->0 + ". stderr: "@ + said,
        ),
{
}

/// The stream is encrypted exactly where the service is.
pub proof fn law_encryption_is_kept(scheme: Seq<char>)
    ensures
        socket_scheme(scheme) == Some("wss"@) <==> scheme == "https"@,
        socket_scheme(scheme) == Some("ws"@) <==> scheme == "http"@,
        socket_scheme(scheme) is None <==> scheme != "https"@ && scheme != "http"@,
{
    reveal_strlit("wss");
    reveal_strlit("ws");
    reveal_strlit("https");
    reveal_strlit("http");
    assert("wss"@.len() != "ws"@.len());
    assert("https"@.len() != "http"@.len());
}

/// A refusal is told with the status and, at the login, with what the service said; a scheme that
/// has no stream is named.
pub proof fn law_refusals_are_told(status: String, body: String)
    ensures
        (BridgeError::LoginFailed { status, body }).text() == "login failed: "@ + status@ + " - "@
            + body@,
        (BridgeError::LoginStatusFailed { status }).text() == "login status check failed: "@
            + status@,
        BridgeError::UnsupportedScheme(body).text() == "unsupported Miloco URL scheme: "@ + body@,
{
}

/// A stream that stays silent or closes is told apart by its source.
pub proof fn law_silence_is_told()
    ensures
        BridgeError::ReceiveTimeout.text() == "data receive timeout"@,
        BridgeError::NativeReceiveTimeout.text() == "native MIoT data receive timeout"@,
        BridgeError::NativeChannelClosed.text() == "native MIoT frame channel closed"@,
        BridgeError::MissingHost.text() == "Miloco base URL has no host"@,
{
}

/// What failed below is not part of the message of the failure itself.
pub proof fn law_causes_stay_apart(
    cause: String,
    number: IntegerError,
    wrong: url::ParseError,
)
    ensures
        (BridgeError::ReceiveFailed { cause }).text() == "WebSocket receive error"@,
        BridgeError::InvalidChannel(number).text()
            == "STREAM_CHANNEL must be an integer for native mode"@,
        BridgeError::InvalidBaseUrl(wrong).text() == "invalid Miloco base URL"@,
        BridgeError::InvalidWebSocketUrl(wrong).text() == "failed to build WebSocket URL"@,
{
}

} // verus!
