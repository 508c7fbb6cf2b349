//! The settings of the bridge program, and the configuration that they make.
use std::path::PathBuf;
use vstd::prelude::*;
use vstd::string::*;

use crate::bridge::{BridgeConfig, BridgeMode};
use crate::native_miot;
use crate::native_miot::NativeMiotConfig;
use crate::native_start;
use crate::oauth;
use crate::paths;
use crate::text;

verus! {

/// The encoder that the program asks FFmpeg for, where none is set.
pub const DEFAULT_VIDEO_ENCODER: &'static str = "h264_qsv";

/// The hardware acceleration that the program asks FFmpeg for, where none is set.
pub const DEFAULT_HWACCEL: &'static str = "qsv";

/// The settings, as a user gives them.
#[derive(Debug, Clone)]
pub struct CliOptions {
    pub mode: String,
    pub base_url: String,
    pub username: String,
    pub password: String,
    pub camera_id: String,
    pub channel: String,
    pub video_codec: String,
    pub rtsp_url: String,
    pub ffmpeg_gpu_enabled: bool,
    pub ffmpeg_video_encoder: Option<String>,
    pub ffmpeg_hwaccel: Option<String>,
    pub ffmpeg_vaapi_device: Option<String>,
    pub ffmpeg_extra_args: String,
    pub ffmpeg_low_latency: bool,
    pub miot_access_token: Option<String>,
    pub miot_refresh_token: Option<String>,
    pub miot_token_file: Option<PathBuf>,
    pub miot_oauth_redirect_uri: String,
    pub miot_refresh_margin_seconds: i64,
    pub miot_cloud_server: String,
    pub miot_camera_model: Option<String>,
    pub miot_channel_count: u8,
    pub miot_video_quality: u8,
    pub miot_enable_audio: bool,
    pub miot_pin_code: Option<String>,
    pub miot_lib_path: Option<PathBuf>,
    pub miot_queue_capacity: usize,
}

/// Why the settings make no configuration.
#[derive(Debug)]
pub enum CliError {
    /// The mode, trimmed and in lower case, is none.
    InvalidMode(String),
    MissingPassword,
    MissingCameraId,
    MissingCameraModel,
    InvalidExtraArgs { cause: String },
}

/// The value of a [`CliError`].
pub enum CliErrorView {
    InvalidMode(Seq<char>),
    MissingPassword,
    MissingCameraId,
    MissingCameraModel,
    InvalidExtraArgs { cause: Seq<char> },
}

impl View for CliError {
    type V = CliErrorView;

    open spec fn view(&self) -> CliErrorView {
        match self {
            CliError::InvalidMode(mode) => CliErrorView::InvalidMode(mode@),
            CliError::MissingPassword => CliErrorView::MissingPassword,
            CliError::MissingCameraId => CliErrorView::MissingCameraId,
            CliError::MissingCameraModel => CliErrorView::MissingCameraModel,
            CliError::InvalidExtraArgs { cause } => CliErrorView::InvalidExtraArgs {
                cause: cause@,
            },
        }
    }
}

impl CliErrorView {
    /// The message for a reader.
    pub open spec fn text(self) -> Seq<char> {
        match self {
            CliErrorView::InvalidMode(mode) => "invalid MILOCO_MODE: "@ + mode
                + "; expected native or remote"@,
            CliErrorView::MissingPassword => "MILOCO_PASSWORD is required"@,
            CliErrorView::MissingCameraId => "CAMERA_ID is required"@,
            CliErrorView::MissingCameraModel =>
                "MIOT_CAMERA_MODEL is required when MILOCO_MODE=native"@,
            CliErrorView::InvalidExtraArgs { cause } => "invalid FFMPEG_EXTRA_ARGS: "@ + cause,
        }
    }
}

impl CliError {
    /// The message for a reader.
    pub fn message(&self) -> (r: String)
        ensures
            r@ == self@.text(),
    {
        match self {
            CliError::InvalidMode(mode) => {
                let mut out = text::join("invalid MILOCO_MODE: ", mode.as_str());
                out.append("; expected native or remote");
                out
            },
            CliError::MissingPassword => "MILOCO_PASSWORD is required".to_owned(),
            CliError::MissingCameraId => "CAMERA_ID is required".to_owned(),
            CliError::MissingCameraModel => {
                "MIOT_CAMERA_MODEL is required when MILOCO_MODE=native".to_owned()
            },
            CliError::InvalidExtraArgs { cause } => {
                text::join("invalid FFMPEG_EXTRA_ARGS: ", cause.as_str())
            },
        }
    }
}

#[verifier::external_type_specification]
#[verifier::external_body]
pub struct ExSplitError(shell_words::ParseError);

/// The words that `shell_words::split` reads from a text, where it reads them.
pub uninterp spec fn shell_split(line: Seq<char>) -> Option<Seq<Seq<char>>>;

/// `shell_words::split`: the words of a command line, quotes and backslashes being read as a shell
/// reads them. It fails where a quote is not closed.
#[verifier::external_body]
fn split_words(line: &str) -> (r: Result<Vec<String>, shell_words::ParseError>)
    ensures
        match r {
            Ok(words) => shell_split(line@) == Some(text::texts(words@)),
            Err(_) => shell_split(line@) is None,
        },
{
    shell_words::split(line)
}

/// The `Display` of `shell_words::ParseError`, which has one text.
#[verifier::external_body]
fn show_split_error(e: &shell_words::ParseError) -> (r: String)
    ensures
        r@ == "missing closing quote"@,
{
    e.to_string()
}

/// The mode that a text names, surrounding white space and the case of ASCII letters aside.
pub open spec fn mode_of(value: Seq<char>) -> Result<BridgeMode, CliErrorView> {
    let name = text::ascii_lower(text::trimmed(value));
    if name == "remote"@ || name == "miloco"@ {
        Ok(BridgeMode::Remote)
    } else if name == "native"@ || name == "miot"@ {
        Ok(BridgeMode::Native)
    } else {
        Err(CliErrorView::InvalidMode(name))
    }
}

/// Reads a mode.
pub fn parse_mode(value: &str) -> (r: Result<BridgeMode, CliError>)
    ensures
        match r {
            Ok(mode) => mode_of(value@) == Ok::<BridgeMode, CliErrorView>(mode),
            Err(e) => mode_of(value@) == Err::<BridgeMode, CliErrorView>(e@),
        },
{
    let name = text::lower(text::trim(value));
    let n = name.as_str();
    if text::same(n, "remote") || text::same(n, "miloco") {
        Ok(BridgeMode::Remote)
    } else if text::same(n, "native") || text::same(n, "miot") {
        proof {
            reveal_strlit("remote");
            reveal_strlit("miloco");
            reveal_strlit("native");
            reveal_strlit("miot");
        }
        Ok(BridgeMode::Native)
    } else {
        Err(CliError::InvalidMode(name))
    }
}

/// The arguments that a text lists.
pub open spec fn extra_args_of(value: Seq<char>) -> Result<Seq<Seq<char>>, CliErrorView> {
    if text::is_blank(value) {
        Ok(seq![])
    } else {
        match shell_split(text::trimmed(value)) {
            Some(words) => Ok(words),
            None => Err(CliErrorView::InvalidExtraArgs { cause: "missing closing quote"@ }),
        }
    }
}

/// Reads a list of arguments as a shell reads it.
pub fn parse_extra_args(value: &str) -> (r: Result<Vec<String>, CliError>)
    ensures
        match r {
            Ok(args) => extra_args_of(value@) == Ok::<Seq<Seq<char>>, CliErrorView>(
                text::texts(args@),
            ),
            Err(e) => extra_args_of(value@) == Err::<Seq<Seq<char>>, CliErrorView>(e@),
        },
{
    if text::blank(value) {
        let none: Vec<String> = Vec::new();
        assert(text::texts(none@) =~= seq![]);
        return Ok(none);
    }
    match split_words(text::trim(value)) {
        Ok(args) => Ok(args),
        Err(e) => Err(CliError::InvalidExtraArgs { cause: show_split_error(&e) }),
    }
}

impl CliOptions {
    /// The mode, where it is one and what it needs is given.
    pub open spec fn checked(self) -> Result<BridgeMode, CliErrorView> {
        match mode_of(self.mode@) {
            Err(e) => Err(e),
            Ok(mode) => if mode == BridgeMode::Remote && text::is_blank(self.password@) {
                Err(CliErrorView::MissingPassword)
            } else if text::is_blank(self.camera_id@) {
                Err(CliErrorView::MissingCameraId)
            } else if mode == BridgeMode::Native && text::content(self.miot_camera_model) is None {
                Err(CliErrorView::MissingCameraModel)
            } else {
                Ok(mode)
            },
        }
    }

    /// The mode, where it is one and what it needs is given.
    pub fn check(&self) -> (r: Result<BridgeMode, CliError>)
        ensures
            match r {
                Ok(mode) => self.checked() == Ok::<BridgeMode, CliErrorView>(mode),
                Err(e) => self.checked() == Err::<BridgeMode, CliErrorView>(e@),
            },
    {
        match parse_mode(self.mode.as_str()) {
            Err(e) => Err(e),
            Ok(mode) => if mode == BridgeMode::Remote && text::blank(self.password.as_str()) {
                Err(CliError::MissingPassword)
            } else if text::blank(self.camera_id.as_str()) {
                Err(CliError::MissingCameraId)
            } else if mode == BridgeMode::Native && text::content_of(
                &self.miot_camera_model,
            ).is_none() {
                Err(CliError::MissingCameraModel)
            } else {
                Ok(mode)
            },
        }
    }

    /// The configuration that the settings make in a mode, with these arguments for FFmpeg: the
    /// settings are kept, and the paths that are not set have their usual values.
    pub open spec fn configures(
        self,
        mode: BridgeMode,
        extra_args: Seq<Seq<char>>,
        config: BridgeConfig,
    ) -> bool {
        &&& config.mode == mode
        &&& config.base_url == self.base_url
        &&& config.username == self.username
        &&& config.password == self.password
        &&& config.camera_id == self.camera_id
        &&& config.channel == self.channel
        &&& config.video_codec == self.video_codec
        &&& config.rtsp_url == self.rtsp_url
        &&& config.ffmpeg_gpu_enabled == self.ffmpeg_gpu_enabled
        &&& config.ffmpeg_video_encoder == self.ffmpeg_video_encoder
        &&& config.ffmpeg_hwaccel == self.ffmpeg_hwaccel
        &&& config.ffmpeg_vaapi_device == self.ffmpeg_vaapi_device
        &&& text::texts(config.ffmpeg_extra_args@) == extra_args
        &&& config.ffmpeg_low_latency == self.ffmpeg_low_latency
        &&& config.miot_access_token == self.miot_access_token
        &&& config.miot_refresh_token == self.miot_refresh_token
        &&& config.miot_token_file matches Some(file) && match self.miot_token_file {
            Some(set) => file == set,
            None => paths::path_text(file) == "/config/miot_token.json"@,
        }
        &&& config.miot_oauth_redirect_uri == self.miot_oauth_redirect_uri
        &&& config.miot_refresh_margin_seconds == self.miot_refresh_margin_seconds
        &&& config.miot_cloud_server == self.miot_cloud_server
        &&& config.miot_camera_model == self.miot_camera_model
        &&& config.miot_channel_count == self.miot_channel_count
        &&& config.miot_video_quality == self.miot_video_quality
        &&& config.miot_enable_audio == self.miot_enable_audio
        &&& config.miot_pin_code == self.miot_pin_code
        &&& match self.miot_lib_path {
            Some(set) => config.miot_lib_path == set,
            None => paths::path_text(config.miot_lib_path)
                == "/usr/local/lib/libmiot_camera_lite.so"@,
        }
        &&& config.miot_queue_capacity == self.miot_queue_capacity
    }

    /// The configuration in a mode, with these arguments for FFmpeg.
    pub fn config_with(self, mode: BridgeMode, extra_args: Vec<String>) -> (r: BridgeConfig)
        ensures
            self.configures(mode, text::texts(extra_args@), r),
            r.mode == mode,
            r.base_url == self.base_url,
            r.username == self.username,
            r.password == self.password,
            r.camera_id == self.camera_id,
            r.channel == self.channel,
            r.video_codec == self.video_codec,
            r.rtsp_url == self.rtsp_url,
            r.ffmpeg_gpu_enabled == self.ffmpeg_gpu_enabled,
            r.ffmpeg_video_encoder == self.ffmpeg_video_encoder,
            r.ffmpeg_hwaccel == self.ffmpeg_hwaccel,
            r.ffmpeg_vaapi_device == self.ffmpeg_vaapi_device,
            r.ffmpeg_extra_args == extra_args,
            r.ffmpeg_low_latency == self.ffmpeg_low_latency,
            r.miot_access_token == self.miot_access_token,
            r.miot_refresh_token == self.miot_refresh_token,
            r.miot_token_file is Some,
            self.miot_token_file is Some ==> r.miot_token_file == self.miot_token_file,
            self.miot_token_file is None ==> paths::path_text(r.miot_token_file->0)
                == "/config/miot_token.json"@,
            r.miot_oauth_redirect_uri == self.miot_oauth_redirect_uri,
            r.miot_refresh_margin_seconds == self.miot_refresh_margin_seconds,
            r.miot_cloud_server == self.miot_cloud_server,
            r.miot_camera_model == self.miot_camera_model,
            r.miot_channel_count == self.miot_channel_count,
            r.miot_video_quality == self.miot_video_quality,
            r.miot_enable_audio == self.miot_enable_audio,
            r.miot_pin_code == self.miot_pin_code,
            self.miot_lib_path is Some ==> r.miot_lib_path == self.miot_lib_path->0,
            self.miot_lib_path is None ==> paths::path_text(r.miot_lib_path)
                == "/usr/local/lib/libmiot_camera_lite.so"@,
            r.miot_queue_capacity == self.miot_queue_capacity,
    {
        BridgeConfig {
            mode,
            base_url: self.base_url,
            username: self.username,
            password: self.password,
            camera_id: self.camera_id,
            channel: self.channel,
            video_codec: self.video_codec,
            rtsp_url: self.rtsp_url,
            ffmpeg_gpu_enabled: self.ffmpeg_gpu_enabled,
            ffmpeg_video_encoder: self.ffmpeg_video_encoder,
            ffmpeg_hwaccel: self.ffmpeg_hwaccel,
            ffmpeg_vaapi_device: self.ffmpeg_vaapi_device,
            ffmpeg_extra_args: extra_args,
            ffmpeg_low_latency: self.ffmpeg_low_latency,
            miot_access_token: self.miot_access_token,
            miot_refresh_token: self.miot_refresh_token,
            miot_token_file: Some(
                match self.miot_token_file {
                    Some(set) => set,
                    None => oauth::default_token_file(),
                },
            ),
            miot_oauth_redirect_uri: self.miot_oauth_redirect_uri,
            miot_refresh_margin_seconds: self.miot_refresh_margin_seconds,
            miot_cloud_server: self.miot_cloud_server,
            miot_camera_model: self.miot_camera_model,
            miot_channel_count: self.miot_channel_count,
            miot_video_quality: self.miot_video_quality,
            miot_enable_audio: self.miot_enable_audio,
            miot_pin_code: self.miot_pin_code,
            miot_lib_path: match self.miot_lib_path {
                Some(set) => set,
                None => native_miot::default_lib_path(),
            },
            miot_queue_capacity: self.miot_queue_capacity,
        }
    }

    /// The configuration that the settings make.
    pub fn into_config(self) -> (r: Result<BridgeConfig, CliError>)
        ensures
            match (self.checked(), extra_args_of(self.ffmpeg_extra_args@)) {
                (Err(wrong), _) => r matches Err(e) && e@ == wrong,
                (Ok(_), Err(wrong)) => r matches Err(e) && e@ == wrong,
                (Ok(mode), Ok(args)) => r matches Ok(config) && self.configures(mode, args, config),
            },
    {
        let mode = match self.check() {
            Ok(mode) => mode,
            Err(e) => {
                return Err(e);
            },
        };
        match parse_extra_args(self.ffmpeg_extra_args.as_str()) {
            Ok(extra_args) => Ok(self.config_with(mode, extra_args)),
            Err(e) => Err(e),
        }
    }
}

/// A configuration that the settings make names a camera; in remote mode it has a password, and in
/// native mode a camera model and a file for the token.
pub proof fn law_configuration_is_complete(
    options: CliOptions,
    mode: BridgeMode,
    extra_args: Seq<Seq<char>>,
    config: BridgeConfig,
)
    requires
        options.checked() == Ok::<BridgeMode, CliErrorView>(mode),
        options.configures(mode, extra_args, config),
    ensures
        !text::is_blank(config.camera_id@),
        config.mode == BridgeMode::Remote ==> !text::is_blank(config.password@),
        config.mode == BridgeMode::Native ==> text::content(config.miot_camera_model) is Some
            && config.miot_token_file is Some,
{
}

/// In native mode the settings suffice: with a usable token and a channel below the number of
/// channels, nothing forbids a start of the native source.
pub proof fn law_native_settings_suffice(
    options: CliOptions,
    extra_args: Seq<Seq<char>>,
    config: BridgeConfig,
    channel: u8,
    token: oauth::TokenView,
    native: NativeMiotConfig,
)
    requires
        options.checked() == Ok::<BridgeMode, CliErrorView>(BridgeMode::Native),
        options.configures(BridgeMode::Native, extra_args, config),
        token.usable(),
        channel < native_miot::at_least_one(config.miot_channel_count as int),
        config.configures_native(channel, token.access_token, native),
    ensures
        native_start::config_problem(native) is None,
{
}

/// The configuration keeps every setting: two configurations that the same settings make differ in
/// nothing that is set.
pub proof fn law_settings_are_kept(
    options: CliOptions,
    mode: BridgeMode,
    extra_args: Seq<Seq<char>>,
    config: BridgeConfig,
)
    requires
        options.configures(mode, extra_args, config),
    ensures
        config.mode == mode,
        config.base_url@ == options.base_url@,
        config.username@ == options.username@,
        config.password@ == options.password@,
        config.camera_id@ == options.camera_id@,
        config.channel@ == options.channel@,
        config.video_codec@ == options.video_codec@,
        config.rtsp_url@ == options.rtsp_url@,
        config.ffmpeg_gpu_enabled == options.ffmpeg_gpu_enabled,
        text::opt_text(config.ffmpeg_video_encoder) == text::opt_text(
            options.ffmpeg_video_encoder,
        ),
        text::opt_text(config.ffmpeg_hwaccel) == text::opt_text(options.ffmpeg_hwaccel),
        text::opt_text(config.ffmpeg_vaapi_device) == text::opt_text(options.ffmpeg_vaapi_device),
        text::texts(config.ffmpeg_extra_args@) == extra_args,
        config.ffmpeg_low_latency == options.ffmpeg_low_latency,
        text::opt_text(config.miot_access_token) == text::opt_text(options.miot_access_token),
        text::opt_text(config.miot_refresh_token) == text::opt_text(options.miot_refresh_token),
        options.miot_token_file is Some ==> config.miot_token_file == options.miot_token_file,
        options.miot_token_file is None ==> (config.miot_token_file matches Some(file)
            && paths::path_text(file) == "/config/miot_token.json"@),
        config.miot_oauth_redirect_uri@ == options.miot_oauth_redirect_uri@,
        config.miot_refresh_margin_seconds == options.miot_refresh_margin_seconds,
        config.miot_cloud_server@ == options.miot_cloud_server@,
        text::opt_text(config.miot_camera_model) == text::opt_text(options.miot_camera_model),
        config.miot_channel_count == options.miot_channel_count,
        config.miot_video_quality == options.miot_video_quality,
        config.miot_enable_audio == options.miot_enable_audio,
        text::opt_text(config.miot_pin_code) == text::opt_text(options.miot_pin_code),
        options.miot_lib_path is Some ==> config.miot_lib_path == options.miot_lib_path->0,
        options.miot_lib_path is None ==> paths::path_text(config.miot_lib_path)
            == "/usr/local/lib/libmiot_camera_lite.so"@,
        config.miot_queue_capacity == options.miot_queue_capacity,
{
}

/// A mode has two names, in any case of letters and with any white space around them; anything
/// else is refused as it is read.
pub proof fn law_names_of_modes(value: Seq<char>, name: Seq<char>)
    requires
        name == text::ascii_lower(text::trimmed(value)),
    ensures
        mode_of(value) == Ok::<BridgeMode, CliErrorView>(BridgeMode::Remote) <==> name
            == "remote"@ || name == "miloco"@,
        mode_of(value) == Ok::<BridgeMode, CliErrorView>(BridgeMode::Native) <==> name
            == "native"@ || name == "miot"@,
        mode_of(value) matches Err(e) ==> e == CliErrorView::InvalidMode(name),
{
    reveal_strlit("remote");
    reveal_strlit("miloco");
    reveal_strlit("native");
    reveal_strlit("miot");
    assert("remote"@[0] != "native"@[0]);
    assert("remote"@[0] != "miot"@[0]);
    assert("miloco"@[0] != "native"@[0]);
    assert("miloco"@.len() != "miot"@.len());
}

/// What the settings lack is told in this order: a mode, in remote mode a password, a camera, in
/// native mode a camera model.
pub proof fn law_what_settings_lack(options: CliOptions, mode: BridgeMode)
    requires
        mode_of(options.mode@) == Ok::<BridgeMode, CliErrorView>(mode),
    ensures
        ({
            let no_password = mode is Remote && text::is_blank(options.password@);
            let no_camera = text::is_blank(options.camera_id@);
            let no_model = mode is Native && text::content(options.miot_camera_model) is None;
            &&& options.checked() == Err::<BridgeMode, CliErrorView>(
                CliErrorView::MissingPassword,
            ) <==> no_password
            &&& options.checked() == Err::<BridgeMode, CliErrorView>(
                CliErrorView::MissingCameraId,
            ) <==> !no_password && no_camera
            &&& options.checked() == Err::<BridgeMode, CliErrorView>(
                CliErrorView::MissingCameraModel,
            ) <==> !no_password && !no_camera && no_model
            &&& options.checked() == Ok::<BridgeMode, CliErrorView>(mode) <==> !no_password
                && !no_camera && !no_model
        }),
{
}

/// The same mode is refused in the settings as by itself.
pub proof fn law_unknown_mode_comes_first(options: CliOptions, wrong: CliErrorView)
    requires
        mode_of(options.mode@) == Err::<BridgeMode, CliErrorView>(wrong),
    ensures
        options.checked() == Err::<BridgeMode, CliErrorView>(wrong),
{
}

/// Nothing but white space lists no argument; anything else lists the words that a shell reads,
/// the white space around it aside, and an open quote is refused.
pub proof fn law_extra_args(value: Seq<char>)
    ensures
        text::is_blank(value) ==> extra_args_of(value) == Ok::<Seq<Seq<char>>, CliErrorView>(
            seq![],
        ),
        !text::is_blank(value) ==> match shell_split(text::trimmed(value)) {
            Some(words) => extra_args_of(value) == Ok::<Seq<Seq<char>>, CliErrorView>(words),
            None => extra_args_of(value) == Err::<Seq<Seq<char>>, CliErrorView>(
                CliErrorView::InvalidExtraArgs { cause: "missing closing quote"@ },
            ),
        },
{
}

/// A wrong setting is named, with what is wrong of it.
pub proof fn law_wrong_settings_are_named(mode: Seq<char>, cause: Seq<char>)
    ensures
        CliErrorView::InvalidMode(mode).text() == "invalid MILOCO_MODE: "@ + mode
            + "; expected native or remote"@,
        CliErrorView::MissingPassword.text() == "MILOCO_PASSWORD is required"@,
        CliErrorView::MissingCameraId.text() == "CAMERA_ID is required"@,
        CliErrorView::MissingCameraModel.text()
            == "MIOT_CAMERA_MODEL is required when MILOCO_MODE=native"@,
        (CliErrorView::InvalidExtraArgs { cause }).text() == "invalid FFMPEG_EXTRA_ARGS: "@ + cause,
{
}

} // verus!
