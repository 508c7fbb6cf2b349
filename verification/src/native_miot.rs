//! The native camera source: its configuration, its frames, and the texts that describe it.
use std::path::PathBuf;
use vstd::prelude::*;
use vstd::string::*;

use crate::numbers;
use crate::oauth;
use crate::paths;
use crate::text;

pub use crate::native_start::NativeMiotSource;

verus! {

/// Codec number of H.264 video.
pub const VIDEO_H264: u32 = 4;

/// Codec number of H.265 video.
pub const VIDEO_H265: u32 = 5;

/// Length of the frame queue where none is configured.
pub const DEFAULT_QUEUE_CAPACITY: usize = 8;

/// What the camera library says about one frame.
#[derive(Debug, Clone, Copy)]
pub struct NativeFrameHeader {
    pub codec_id: u32,
    pub length: u32,
    pub timestamp: u64,
    pub sequence: u32,
    pub frame_type: u32,
    pub channel: u8,
}

/// One video frame.
#[derive(Debug, Clone, PartialEq, Eq)]
pub struct NativeFrame {
    pub codec_id: u32,
    pub codec: &'static str,
    pub data: Vec<u8>,
    pub timestamp: u64,
    pub sequence: u32,
    pub channel: u8,
}

/// What the native source needs to know.
#[derive(Debug, Clone, PartialEq, Eq)]
pub struct NativeMiotConfig {
    pub lib_path: PathBuf,
    pub cloud_server: String,
    pub access_token: String,
    pub camera_id: String,
    pub camera_model: String,
    pub channel_count: u8,
    pub channel: u8,
    pub video_quality: u8,
    pub enable_audio: bool,
    pub pin_code: Option<String>,
    pub queue_capacity: usize,
}

/// The number of channels, at least one.
pub open spec fn at_least_one(n: int) -> int {
    if n < 1 {
        1
    } else {
        n
    }
}

/// `present` for a text with content, `absent` for a blank one.
pub open spec fn presence(blank: bool) -> Seq<char> {
    if blank {
        "absent"@
    } else {
        "present"@
    }
}

fn presence_text(blank: bool) -> (r: &'static str)
    ensures
        r@ == presence(blank),
{
    if blank {
        "absent"
    } else {
        "present"
    }
}

impl NativeMiotConfig {
    /// Whether no PIN code with content is configured.
    pub open spec fn pin_blank(self) -> bool {
        match self.pin_code {
            Some(pin) => text::is_blank(pin@),
            None => true,
        }
    }

    /// The line that describes a configuration without showing its secrets.
    pub open spec fn summary(self) -> Seq<char> {
        "cloud_server="@ + text::trimmed(self.cloud_server@) + ", host="@ + oauth::cloud_host(
            self.cloud_server@,
        ) + ", did="@ + text::trimmed(self.camera_id@) + ", model="@ + text::trimmed(
            self.camera_model@,
        ) + ", channel="@ + numbers::decimal(self.channel as nat) + "/"@ + numbers::decimal(
            at_least_one(self.channel_count as int) as nat,
        ) + ", video_quality="@ + numbers::decimal(self.video_quality as nat) + ", audio="@
            + numbers::spec_bool_text(self.enable_audio) + ", pin_code="@ + presence(
            self.pin_blank(),
        ) + ", token="@ + presence(text::is_blank(self.access_token@))
    }

    /// Length of the frame queue: the configured one, at least one.
    pub fn queue_capacity(&self) -> (r: usize)
        ensures
            r == at_least_one(self.queue_capacity as int),
            r >= 1,
            self.queue_capacity >= 1 ==> r == self.queue_capacity,
            self.queue_capacity == 0 ==> r == 1,
    {
        if self.queue_capacity < 1 {
            1
        } else {
            self.queue_capacity
        }
    }

    /// Number of channels of the camera: the configured one, at least one.
    pub fn channels(&self) -> (r: u8)
        ensures
            r == at_least_one(self.channel_count as int),
            r >= 1,
            self.channel_count >= 1 ==> r == self.channel_count,
            self.channel_count == 0 ==> r == 1,
    {
        if self.channel_count < 1 {
            1
        } else {
            self.channel_count
        }
    }

    /// Whether no PIN code with content is configured.
    pub fn lacks_pin(&self) -> (r: bool)
        ensures
            r == self.pin_blank(),
    {
        match &self.pin_code {
            Some(pin) => text::blank(pin.as_str()),
            None => true,
        }
    }

    /// One line that describes this configuration without showing its secrets.
    pub fn diagnostic_summary(&self) -> (r: String)
        ensures
            r@ == self.summary(),
    {
        let mut out = "cloud_server=".to_owned();
        out.append(text::trim(self.cloud_server.as_str()));
        out.append(", host=");
        out.append(miot_host_string(self.cloud_server.as_str()).as_str());
        out.append(", did=");
        out.append(text::trim(self.camera_id.as_str()));
        out.append(", model=");
        out.append(text::trim(self.camera_model.as_str()));
        out.append(", channel=");
        out.append(numbers::natural_text(self.channel as u64).as_str());
        out.append("/");
        out.append(numbers::natural_text(self.channels() as u64).as_str());
        out.append(", video_quality=");
        out.append(numbers::natural_text(self.video_quality as u64).as_str());
        out.append(", audio=");
        out.append(numbers::bool_text(self.enable_audio));
        out.append(", pin_code=");
        out.append(presence_text(self.lacks_pin()));
        out.append(", token=");
        out.append(presence_text(text::blank(self.access_token.as_str())));
        out
    }
}

/// The FFmpeg input codec of a codec number.
pub open spec fn codec_of(codec_id: u32) -> Option<Seq<char>> {
    if codec_id == VIDEO_H264 {
        Some("h264"@)
    } else if codec_id == VIDEO_H265 {
        Some("hevc"@)
    } else {
        None
    }
}

/// The FFmpeg input codec of a codec number.
pub fn codec_name(codec_id: u32) -> (r: Option<&'static str>)
    ensures
        match r {
            Some(s) => codec_of(codec_id) == Some(s@),
            None => codec_of(codec_id) is None,
        },
        r is Some <==> codec_id == 4 || codec_id == 5,
        codec_id == 4 ==> r->0@ == "h264"@,
        codec_id == 5 ==> r->0@ == "hevc"@,
{
    if codec_id == VIDEO_H264 {
        Some("h264")
    } else if codec_id == VIDEO_H265 {
        Some("hevc")
    } else {
        None
    }
}

/// Where the camera library is installed.
pub fn default_lib_path() -> (r: PathBuf)
    ensures
        paths::path_text(r) == "/usr/local/lib/libmiot_camera_lite.so"@,
{
    paths::path_of("/usr/local/lib/libmiot_camera_lite.so")
}

/// The cloud host of a region.
pub fn miot_host_string(cloud_server: &str) -> (r: String)
    ensures
        r@ == oauth::cloud_host(cloud_server@),
{
    oauth::oauth_host(cloud_server)
}

/// The frame that a header and its payload make, where the codec is one that FFmpeg is fed.
pub fn native_frame(header: &NativeFrameHeader, payload: Vec<u8>) -> (r: Option<NativeFrame>)
    ensures
        match r {
            Some(f) => {
                &&& codec_of(header.codec_id) == Some(f.codec@)
                &&& f.codec_id == header.codec_id
                &&& f.data == payload
                &&& f.timestamp == header.timestamp
                &&& f.sequence == header.sequence
                &&& f.channel == header.channel
            },
            None => codec_of(header.codec_id) is None,
        },
{
    match codec_name(header.codec_id) {
        Some(codec) => Some(
            NativeFrame {
                codec_id: header.codec_id,
                codec,
                data: payload,
                timestamp: header.timestamp,
                sequence: header.sequence,
                channel: header.channel,
            },
        ),
        None => None,
    }
}

/// How loud a message of the camera library is logged.
#[derive(Debug, Clone, Copy, PartialEq, Eq, Structural)]
pub enum LogLevel {
    Debug,
    Info,
    Warn,
    Error,
}

/// The level at which a message of the camera library is logged.
pub open spec fn spec_log_level(level: i32) -> LogLevel {
    if level == 0 || level == 1 {
        LogLevel::Debug
    } else if level == 2 {
        LogLevel::Info
    } else if level == 3 {
        LogLevel::Warn
    } else {
        LogLevel::Error
    }
}

/// The level at which a message of the camera library is logged.
pub fn log_level(level: i32) -> (r: LogLevel)
    ensures
        r == spec_log_level(level),
        r is Debug <==> level == 0 || level == 1,
        r is Info <==> level == 2,
        r is Warn <==> level == 3,
        r is Error <==> level < 0 || level > 3,
{
    if level == 0 || level == 1 {
        LogLevel::Debug
    } else if level == 2 {
        LogLevel::Info
    } else if level == 3 {
        LogLevel::Warn
    } else {
        LogLevel::Error
    }
}

/// What the caller may look at after the camera refused to start.
pub open spec fn start_hint(result: i32) -> Seq<char> {
    if result == -2 {
        "probable device-info or camera connection setup failure; check CAMERA_ID, MIOT_CAMERA_MODEL, MIOT_CLOUD_SERVER/account region, camera online state, LAN/UDP reachability, and try MIOT_VIDEO_QUALITY=0 or 1"@
    } else if result == -1 {
        "native library rejected the start request; check token, camera id/model, and camera state"@
    } else {
        "native library returned a non-zero start code; inspect preceding MIoT native log lines for the lower-level cause"@
    }
}

/// The message for a camera that refused to start.
pub open spec fn start_error_text(result: i32, camera_status: i32, summary: Seq<char>) -> Seq<char> {
    "miot_camera_start failed: "@ + numbers::signed_decimal(result as int) + "; camera_status="@
        + numbers::signed_decimal(camera_status as int) + "; "@ + start_hint(result)
        + ". config: "@ + summary
}

/// The message for a camera that refused to start.
pub fn start_error_message(result: i32, camera_status: i32, config: &NativeMiotConfig) -> (r: String)
    ensures
        r@ == start_error_text(result, camera_status, config.summary()),
{
    let hint = if result == -2 {
        "probable device-info or camera connection setup failure; check CAMERA_ID, MIOT_CAMERA_MODEL, MIOT_CLOUD_SERVER/account region, camera online state, LAN/UDP reachability, and try MIOT_VIDEO_QUALITY=0 or 1"
    } else if result == -1 {
        "native library rejected the start request; check token, camera id/model, and camera state"
    } else {
        "native library returned a non-zero start code; inspect preceding MIoT native log lines for the lower-level cause"
    };
    let mut out = "miot_camera_start failed: ".to_owned();
    out.append(numbers::integer_text(result as i64).as_str());
    out.append("; camera_status=");
    out.append(numbers::integer_text(camera_status as i64).as_str());
    out.append("; ");
    out.append(hint);
    out.append(". config: ");
    out.append(config.diagnostic_summary().as_str());
    out
}

/// Four is H.264, five is H.265, and no other number is a codec that FFmpeg is fed.
pub proof fn law_codec_numbers(codec_id: u32)
    ensures
        codec_of(codec_id) == (if codec_id == 4 {
            Some("h264"@)
        } else if codec_id == 5 {
            Some("hevc"@)
        } else {
            None
        }),
{
}

/// What is at least one is the number itself from one on, and one below.
pub proof fn law_at_least_one(n: int)
    ensures
        at_least_one(n) >= 1,
        n >= 1 ==> at_least_one(n) == n,
        n < 1 ==> at_least_one(n) == 1,
{
}

/// The summary tells of the token and of the PIN code only whether they are there.
pub proof fn law_summary_hides_the_secrets(a: NativeMiotConfig, b: NativeMiotConfig)
    requires
        a.cloud_server@ == b.cloud_server@,
        a.camera_id@ == b.camera_id@,
        a.camera_model@ == b.camera_model@,
        a.channel_count == b.channel_count,
        a.channel == b.channel,
        a.video_quality == b.video_quality,
        a.enable_audio == b.enable_audio,
        text::content(a.pin_code) is Some <==> text::content(b.pin_code) is Some,
        text::is_blank(a.access_token@) <==> text::is_blank(b.access_token@),
    ensures
        a.summary() == b.summary(),
{
}

/// The summary of a configuration with a token and a PIN code.
pub proof fn law_summary_tells_the_settings(c: NativeMiotConfig)
    requires
        !text::is_blank(c.access_token@),
        text::content(c.pin_code) is Some,
        c.channel_count >= 1,
        c.enable_audio,
    ensures
        c.summary() == "cloud_server="@ + text::trimmed(c.cloud_server@) + ", host="@
            + oauth::cloud_host(c.cloud_server@) + ", did="@ + text::trimmed(c.camera_id@)
            + ", model="@ + text::trimmed(c.camera_model@) + ", channel="@ + numbers::decimal(
            c.channel as nat,
        ) + "/"@ + numbers::decimal(c.channel_count as nat) + ", video_quality="@
            + numbers::decimal(c.video_quality as nat) + ", audio="@ + "true"@ + ", pin_code="@
            + "present"@ + ", token="@ + "present"@,
{
}

/// The message for a refused start tells its code, the camera's status, a hint and the
/// configuration, in this order. All codes but two have the same hint.
pub proof fn law_start_error_tells_everything(
    result: i32,
    camera_status: i32,
    summary: Seq<char>,
    hint: Seq<char>,
)
    requires
        result == -2 ==> hint
            == "probable device-info or camera connection setup failure; check CAMERA_ID, MIOT_CAMERA_MODEL, MIOT_CLOUD_SERVER/account region, camera online state, LAN/UDP reachability, and try MIOT_VIDEO_QUALITY=0 or 1"@,
        result == -1 ==> hint
            == "native library rejected the start request; check token, camera id/model, and camera state"@,
        result != -2 && result != -1 ==> hint
            == "native library returned a non-zero start code; inspect preceding MIoT native log lines for the lower-level cause"@,
    ensures
        start_error_text(result, camera_status, summary) == "miot_camera_start failed: "@
            + numbers::signed_decimal(result as int) + "; camera_status="@
            + numbers::signed_decimal(camera_status as int) + "; "@ + hint + ". config: "@
            + summary,
{
}

} // verus!
