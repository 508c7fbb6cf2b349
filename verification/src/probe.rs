//! The probes: programs that show what a camera sends without passing it on.
use std::path::PathBuf;
use vstd::prelude::*;
use vstd::string::*;

use crate::native_miot;
use crate::native_miot::NativeMiotConfig;
use crate::numbers;
use crate::oauth;
use crate::oauth::{MiotToken, TokenResolverConfig};
use crate::paths;
use crate::text;

verus! {

/// The number that a setting writes, or `default` where it writes none up to `limit`.
pub open spec fn natural_or(value: Option<String>, limit: int, default: int) -> int {
    match value {
        Some(s) => match numbers::natural_of(s@, limit) {
            Ok(n) => n,
            Err(_) => default,
        },
        None => default,
    }
}

/// Reads a small number from a setting.
pub fn byte_or(value: &Option<String>, default: u8) -> (r: u8)
    ensures
        r == natural_or(*value, 255, default as int),
{
    match value {
        Some(s) => match numbers::parse_natural(s.as_str(), 255) {
            Ok(n) => n as u8,
            Err(_) => default,
        },
        None => default,
    }
}

/// Reads a size from a setting.
pub fn size_or(value: &Option<String>, default: usize) -> (r: usize)
    ensures
        r == natural_or(*value, usize::MAX as int, default as int),
{
    match value {
        Some(s) => match numbers::parse_natural(s.as_str(), usize::MAX as u64) {
            Ok(n) => n as usize,
            Err(_) => default,
        },
        None => default,
    }
}

/// The integer that a setting writes, or `default` where it writes none.
pub open spec fn integer_or(value: Option<String>, default: int) -> int {
    match value {
        Some(s) => match numbers::integer_of(s@) {
            Ok(n) => n,
            Err(_) => default,
        },
        None => default,
    }
}

/// Reads an integer from a setting.
pub fn seconds_or(value: &Option<String>, default: i64) -> (r: i64)
    ensures
        r == integer_or(*value, default as int),
{
    match value {
        Some(s) => match numbers::parse_integer(s.as_str()) {
            Ok(n) => n,
            Err(_) => default,
        },
        None => default,
    }
}

/// A word that asks for audio.
pub open spec fn asks_for_audio(s: Seq<char>) -> bool {
    s == "1"@ || s == "true"@ || s == "TRUE"@ || s == "yes"@
}

/// Whether a setting asks for audio.
pub fn audio_wanted(value: &Option<String>) -> (r: bool)
    ensures
        r == (value matches Some(s) && asks_for_audio(s@)),
{
    match value {
        Some(s) => {
            let s = s.as_str();
            text::same(s, "1") || text::same(s, "true") || text::same(s, "TRUE") || text::same(
                s,
                "yes",
            )
        },
        None => false,
    }
}

/// A setting that is needed and not given.
#[derive(Debug, Clone, Copy)]
pub struct MissingSetting {
    pub name: &'static str,
}

impl MissingSetting {
    /// The message for a reader.
    pub fn message(&self) -> (r: String)
        ensures
            r@ == self.name@ + " is required"@,
    {
        text::join(self.name, " is required")
    }
}

/// A setting that is needed.
pub fn required_env(name: &'static str, value: Option<String>) -> (r: Result<
    String,
    MissingSetting,
>)
    ensures
        match value {
            Some(s) => r == Ok::<String, MissingSetting>(s),
            None => r matches Err(e) && e.name@ == name@,
        },
{
    match value {
        Some(s) => Ok(s),
        None => Err(MissingSetting { name }),
    }
}

/// Where the WebSocket probe looks, the camera and the password aside.
#[derive(Debug, Clone)]
pub struct StreamProbe {
    pub base_url: String,
    pub username: String,
    pub channel: u8,
}

impl StreamProbe {
    /// What the settings make, the usual values standing for those that are not given.
    pub fn from_settings(
        base_url: Option<String>,
        username: Option<String>,
        channel: Option<String>,
    ) -> (r: StreamProbe)
        ensures
            r.base_url@ == text::text_or(base_url, "https://miloco:8000"@),
            r.username@ == text::text_or(username, "admin"@),
            r.channel == natural_or(channel, 255, 0),
    {
        StreamProbe {
            base_url: text::given_or(base_url, "https://miloco:8000"),
            username: text::given_or(username, "admin"),
            channel: byte_or(&channel, 0),
        }
    }
}

/// The settings of the native probe, as far as they are given.
#[derive(Debug, Clone)]
pub struct NativeProbeSettings {
    pub lib_path: Option<PathBuf>,
    pub cloud_server: Option<String>,
    pub redirect_uri: Option<String>,
    pub token_file: Option<PathBuf>,
    pub access_token: Option<String>,
    pub refresh_token: Option<String>,
    pub refresh_margin_seconds: Option<String>,
    pub camera_id: Option<String>,
    pub camera_model: Option<String>,
    pub channel_count: Option<String>,
    pub channel: Option<String>,
    pub video_quality: Option<String>,
    pub enable_audio: Option<String>,
    pub pin_code: Option<String>,
    pub queue_capacity: Option<String>,
}

/// A path that is set, or the usual one.
pub open spec fn set_or_usual(set: Option<PathBuf>, usual: Seq<char>, path: PathBuf) -> bool {
    match set {
        Some(p) => path == p,
        None => paths::path_text(path) == usual,
    }
}

impl NativeProbeSettings {
    /// Where the camera library is.
    pub fn library(&self) -> (r: PathBuf)
        ensures
            set_or_usual(self.lib_path, "/usr/local/lib/libmiot_camera_lite.so"@, r),
    {
        match &self.lib_path {
            Some(set) => set.clone(),
            None => native_miot::default_lib_path(),
        }
    }

    /// Where the probe's token may come from.
    pub fn token_resolver(&self) -> (r: TokenResolverConfig)
        ensures
            r.cloud_server@ == text::text_or(self.cloud_server, "cn"@),
            r.redirect_uri@ == text::text_or(
                self.redirect_uri,
                "https://mico.api.mijia.tech/login_redirect"@,
            ),
            r.token_file matches Some(file) && set_or_usual(
                self.token_file,
                "/config/miot_token.json"@,
                file,
            ),
            text::opt_text(r.access_token) == text::opt_text(self.access_token),
            text::opt_text(r.refresh_token) == text::opt_text(self.refresh_token),
            r.refresh_margin_seconds == integer_or(self.refresh_margin_seconds, 1800),
    {
        TokenResolverConfig {
            cloud_server: text::given_or(self.cloud_server.clone(), "cn"),
            redirect_uri: text::given_or(
                self.redirect_uri.clone(),
                oauth::default_redirect_uri(),
            ),
            token_file: Some(
                match &self.token_file {
                    Some(set) => set.clone(),
                    None => oauth::default_token_file(),
                },
            ),
            access_token: self.access_token.clone(),
            refresh_token: self.refresh_token.clone(),
            refresh_margin_seconds: seconds_or(
                &self.refresh_margin_seconds,
                oauth::default_refresh_margin_seconds(),
            ),
        }
    }

    /// What the native source needs to know, once the token is there.
    pub fn native_config(self, token: MiotToken) -> (r: Result<NativeMiotConfig, MissingSetting>)
        ensures
            match (self.camera_id, self.camera_model) {
                (None, _) => r matches Err(e) && e.name@ == "CAMERA_ID"@,
                (Some(_), None) => r matches Err(e) && e.name@ == "MIOT_CAMERA_MODEL"@,
                (Some(camera_id), Some(camera_model)) => {
                    &&& r matches Ok(c)
                    &&& set_or_usual(
                        self.lib_path,
                        "/usr/local/lib/libmiot_camera_lite.so"@,
                        c.lib_path,
                    )
                    &&& c.cloud_server@ == text::text_or(self.cloud_server, "cn"@)
                    &&& c.access_token == token.access_token
                    &&& c.camera_id == camera_id
                    &&& c.camera_model == camera_model
                    &&& c.channel_count == natural_or(self.channel_count, 255, 1)
                    &&& c.channel == natural_or(self.channel, 255, 0)
                    &&& c.video_quality == natural_or(self.video_quality, 255, 2)
                    &&& c.enable_audio == (self.enable_audio matches Some(s) && asks_for_audio(s@))
                    &&& c.pin_code == self.pin_code
                    &&& c.queue_capacity == natural_or(self.queue_capacity, usize::MAX as int, 8)
                },
            },
    {
        let lib_path = self.library();
        let camera_id = match required_env("CAMERA_ID", self.camera_id) {
            Ok(s) => s,
            Err(e) => {
                return Err(e);
            },
        };
        let camera_model = match required_env("MIOT_CAMERA_MODEL", self.camera_model) {
            Ok(s) => s,
            Err(e) => {
                return Err(e);
            },
        };
        Ok(
            NativeMiotConfig {
                lib_path,
                cloud_server: text::given_or(self.cloud_server, "cn"),
                access_token: token.access_token,
                camera_id,
                camera_model,
                channel_count: byte_or(&self.channel_count, 1),
                channel: byte_or(&self.channel, 0),
                video_quality: byte_or(&self.video_quality, 2),
                enable_audio: audio_wanted(&self.enable_audio),
                pin_code: self.pin_code,
                queue_capacity: size_or(&self.queue_capacity, native_miot::DEFAULT_QUEUE_CAPACITY),
            },
        )
    }
}

/// What a probe has seen. The counters start again at zero behind their last value.
#[derive(Debug, Clone, Copy)]
pub struct ProbeCount {
    pub frames: u64,
    pub bytes: u64,
}

impl ProbeCount {
    /// Nothing seen yet.
    pub fn new() -> (r: ProbeCount)
        ensures
            r.frames == 0,
            r.bytes == 0,
    {
        ProbeCount { frames: 0, bytes: 0 }
    }

    /// Counts a frame.
    pub fn note(&mut self, len: usize)
        ensures
            final(self).frames == (old(self).frames + 1) % 0x1_0000_0000_0000_0000,
            final(self).bytes == (old(self).bytes + len) % 0x1_0000_0000_0000_0000,
    {
        self.frames = self.frames.wrapping_add(1);
        self.bytes = self.bytes.wrapping_add(len as u64);
    }

    /// Whether the WebSocket probe reports the frame that was counted last: the first ten, and
    /// every hundredth.
    pub fn stream_report_due(&self) -> (r: bool)
        ensures
            r == (self.frames <= 10 || self.frames % 100 == 0),
    {
        self.frames <= 10 || self.frames % 100 == 0
    }

    /// Whether the native probe reports the frame that was counted last: the first ten, and one
    /// that comes five seconds after the last report or later.
    pub fn native_report_due(&self, seconds_since_report: u64) -> (r: bool)
        ensures
            r == (self.frames <= 10 || seconds_since_report >= 5),
    {
        self.frames <= 10 || seconds_since_report >= 5
    }
}

/// A number in a setting counts where it is one up to the limit, and the default where the setting
/// is missing or no such number.
pub proof fn law_numbers_in_settings(value: String, n: nat, limit: int, default: int)
    ensures
        natural_or(None, limit, default) == default,
        integer_or(None, default) == default,
        value@ == numbers::decimal(n) && n <= limit ==> natural_or(Some(value), limit, default)
            == n,
        value@ == numbers::decimal(n) && n > limit ==> natural_or(Some(value), limit, default)
            == default,
        value@.len() == 0 ==> natural_or(Some(value), limit, default) == default && integer_or(
            Some(value),
            default,
        ) == default,
{
    numbers::law_number_is_read_back(n, limit);
    if value@.len() == 0 {
        assert(value@ =~= seq![]);
    }
}

/// A signed number in a setting counts as it is written.
pub proof fn law_signed_numbers_in_settings(value: String, n: i64, default: int)
    requires
        value@ == numbers::signed_decimal(n as int),
    ensures
        integer_or(Some(value), default) == n,
{
    numbers::law_integer_is_read_back(n);
}

/// A path that is set counts, and the usual one where none is.
pub proof fn law_set_paths_count(set: PathBuf, usual: Seq<char>, path: PathBuf)
    ensures
        set_or_usual(Some(set), usual, path) <==> path == set,
        set_or_usual(None, usual, path) <==> paths::path_text(path) == usual,
{
}

/// Four words ask for audio, as they are written.
pub proof fn law_words_that_ask_for_audio(s: Seq<char>)
    ensures
        asks_for_audio(s) <==> s == "1"@ || s == "true"@ || s == "TRUE"@ || s == "yes"@,
{
}

} // verus!
