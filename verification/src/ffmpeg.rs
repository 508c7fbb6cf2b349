//! The FFmpeg command line.
use vstd::prelude::*;
use vstd::string::*;

use crate::text;

verus! {

pub const DEFAULT_FFMPEG_HWACCEL: &'static str = "cuda";

pub const DEFAULT_FFMPEG_VIDEO_ENCODER: &'static str = "h264_nvenc";

pub const DEFAULT_FFMPEG_AUDIO_ENCODER: &'static str = "aac";

pub const DEFAULT_VAAPI_DEVICE: &'static str = "/dev/dri/renderD128";

pub const HOMEKIT_PIXEL_FORMAT: &'static str = "yuv420p";

pub const VAAPI_UPLOAD_FILTER: &'static str = "format=nv12,hwupload";

pub const HOMEKIT_AUDIO_RATE: &'static str = "48000";

pub const HOMEKIT_AUDIO_CHANNELS: &'static str = "2";

/// What the FFmpeg command line depends on.
#[derive(Debug, Clone, PartialEq, Eq)]
pub struct FfmpegOptions {
    pub video_codec: String,
    pub rtsp_url: String,
    pub gpu_enabled: bool,
    pub video_encoder: Option<String>,
    pub hwaccel: Option<String>,
    pub vaapi_device: Option<String>,
    pub extra_args: Vec<String>,
    pub low_latency: bool,
}

impl FfmpegOptions {
    /// The hardware acceleration: the configured one, else the default.
    pub open spec fn accel(self) -> Seq<char> {
        text::content_or(self.hwaccel, DEFAULT_FFMPEG_HWACCEL@)
    }

    /// The video encoder: the configured one, else the default.
    pub open spec fn encoder(self) -> Seq<char> {
        text::content_or(self.video_encoder, DEFAULT_FFMPEG_VIDEO_ENCODER@)
    }

    /// VAAPI is used when the GPU is, and either the acceleration is `vaapi` or the encoder's name
    /// ends in `_vaapi`, in letters of any case.
    pub open spec fn uses_vaapi(self) -> bool {
        self.gpu_enabled && (text::ascii_lower(self.accel()) == text::ascii_lower("vaapi"@)
            || "_vaapi"@.is_suffix_of(text::ascii_lower(self.encoder())))
    }

    /// What stands before the input.
    pub open spec fn preamble(self) -> Seq<Seq<char>> {
        seq![
            "-y"@,
            "-v"@,
            "error"@,
            "-hide_banner"@,
            "-use_wallclock_as_timestamps"@,
            "1"@,
            "-analyzeduration"@,
            "20000000"@,
            "-probesize"@,
            "20000000"@,
        ]
    }

    /// The hardware that decodes and encodes.
    pub open spec fn hardware(self) -> Seq<Seq<char>> {
        let device = if self.uses_vaapi() {
            seq!["-vaapi_device"@, text::content_or(self.vaapi_device, DEFAULT_VAAPI_DEVICE@)]
        } else {
            seq![]
        };
        if self.gpu_enabled {
            device + seq!["-hwaccel"@, self.accel()]
        } else {
            seq![]
        }
    }

    /// The stream that is read from standard input.
    pub open spec fn input(self) -> Seq<Seq<char>> {
        seq!["-f"@, self.video_codec@, "-i"@, "pipe:0"@]
    }

    /// How video and audio are encoded: for HomeKit on the GPU, else copied.
    pub open spec fn codecs(self) -> Seq<Seq<char>> {
        if self.gpu_enabled {
            seq!["-c:v"@, self.encoder()] + (if self.uses_vaapi() {
                seq!["-vf"@, VAAPI_UPLOAD_FILTER@]
            } else {
                seq!["-pix_fmt"@, HOMEKIT_PIXEL_FORMAT@]
            }) + seq![
                "-c:a"@,
                DEFAULT_FFMPEG_AUDIO_ENCODER@,
                "-ar"@,
                HOMEKIT_AUDIO_RATE@,
                "-ac"@,
                HOMEKIT_AUDIO_CHANNELS@,
            ]
        } else {
            seq!["-c:v"@, "copy"@, "-c:a"@, "copy"@]
        }
    }

    /// RTSP over TCP.
    pub open spec fn output(self) -> Seq<Seq<char>> {
        seq!["-f"@, "rtsp"@, "-rtsp_transport"@, "tcp"@]
    }

    /// The flags that keep the muxer from buffering.
    pub open spec fn latency_flags(self) -> Seq<Seq<char>> {
        if self.low_latency {
            seq![
                "-fflags"@,
                "nobuffer"@,
                "-flags"@,
                "low_delay"@,
                "-flush_packets"@,
                "1"@,
                "-muxdelay"@,
                "0"@,
                "-muxpreload"@,
                "0"@,
            ]
        } else {
            seq![]
        }
    }

    /// The whole argument list. The configured arguments come last before the target URL.
    pub open spec fn args(self) -> Seq<Seq<char>> {
        self.preamble() + self.hardware() + self.input() + self.codecs() + self.output()
            + self.latency_flags() + text::texts(self.extra_args@) + seq![self.rtsp_url@]
    }

    /// VAAPI is used when the GPU is, and either the acceleration is `vaapi` or the encoder's name
    /// ends in `_vaapi`, in letters of any case.
    pub fn wants_vaapi(&self) -> (r: bool)
        ensures
            r == self.uses_vaapi(),
    {
        let hwaccel = value_or(&self.hwaccel, DEFAULT_FFMPEG_HWACCEL);
        let video_encoder = value_or(
            &self.video_encoder,
            DEFAULT_FFMPEG_VIDEO_ENCODER,
        );
        self.gpu_enabled && (text::same_ignoring_case(hwaccel, "vaapi") || text::ends_with(
            text::lower(video_encoder).as_str(),
            "_vaapi",
        ))
    }
}

/// The trimmed text of an optional setting, where it is not blank.
pub fn option_value(value: &Option<String>) -> (r: Option<&str>)
    ensures
        match r {
            Some(s) => text::content(*value) == Some(s@),
            None => text::content(*value) is None,
        },
{
    text::content_of(value)
}

/// The trimmed text of an optional setting, or another one where it is missing or blank.
fn value_or<'a>(value: &'a Option<String>, default: &'a str) -> (r: &'a str)
    ensures
        r@ == text::content_or(*value, default@),
{
    match option_value(value) {
        Some(s) => s,
        None => default,
    }
}

fn append_preamble(args: &mut Vec<String>, options: &FfmpegOptions)
    ensures
        text::texts(final(args)@) == text::texts(old(args)@) + options.preamble(),
{
    text::push_text(args, "-y");
    text::push_text(args, "-v");
    text::push_text(args, "error");
    text::push_text(args, "-hide_banner");
    text::push_text(args, "-use_wallclock_as_timestamps");
    text::push_text(args, "1");
    text::push_text(args, "-analyzeduration");
    text::push_text(args, "20000000");
    text::push_text(args, "-probesize");
    text::push_text(args, "20000000");
    assert(text::texts(args@) =~= text::texts(old(args)@) + options.preamble());
}

fn append_hardware(args: &mut Vec<String>, options: &FfmpegOptions, uses_vaapi: bool)
    requires
        uses_vaapi == options.uses_vaapi(),
    ensures
        text::texts(final(args)@) == text::texts(old(args)@) + options.hardware(),
{
    if options.gpu_enabled {
        if uses_vaapi {
            text::push_text(args, "-vaapi_device");
            text::push_text(
                args,
                value_or(&options.vaapi_device, DEFAULT_VAAPI_DEVICE),
            );
        }
        text::push_text(args, "-hwaccel");
        text::push_text(args, value_or(&options.hwaccel, DEFAULT_FFMPEG_HWACCEL));
    }
    assert(text::texts(args@) =~= text::texts(old(args)@) + options.hardware());
}

fn append_codecs(args: &mut Vec<String>, options: &FfmpegOptions, uses_vaapi: bool)
    requires
        uses_vaapi == options.uses_vaapi(),
    ensures
        text::texts(final(args)@) == text::texts(old(args)@) + options.input() + options.codecs(),
{
    text::push_text(args, "-f");
    text::push_text(args, options.video_codec.as_str());
    text::push_text(args, "-i");
    text::push_text(args, "pipe:0");
    text::push_text(args, "-c:v");
    if options.gpu_enabled {
        text::push_text(
            args,
            value_or(&options.video_encoder, DEFAULT_FFMPEG_VIDEO_ENCODER),
        );
        if uses_vaapi {
            text::push_text(args, "-vf");
            text::push_text(args, VAAPI_UPLOAD_FILTER);
        } else {
            text::push_text(args, "-pix_fmt");
            text::push_text(args, HOMEKIT_PIXEL_FORMAT);
        }
        text::push_text(args, "-c:a");
        text::push_text(args, DEFAULT_FFMPEG_AUDIO_ENCODER);
        text::push_text(args, "-ar");
        text::push_text(args, HOMEKIT_AUDIO_RATE);
        text::push_text(args, "-ac");
        text::push_text(args, HOMEKIT_AUDIO_CHANNELS);
    } else {
        text::push_text(args, "copy");
        text::push_text(args, "-c:a");
        text::push_text(args, "copy");
    }
    assert(text::texts(args@) =~= text::texts(old(args)@) + options.input() + options.codecs());
}

fn append_output(args: &mut Vec<String>, options: &FfmpegOptions)
    ensures
        text::texts(final(args)@) == text::texts(old(args)@) + options.output()
            + options.latency_flags(),
{
    text::push_text(args, "-f");
    text::push_text(args, "rtsp");
    text::push_text(args, "-rtsp_transport");
    text::push_text(args, "tcp");
    if options.low_latency {
        text::push_text(args, "-fflags");
        text::push_text(args, "nobuffer");
        text::push_text(args, "-flags");
        text::push_text(args, "low_delay");
        text::push_text(args, "-flush_packets");
        text::push_text(args, "1");
        text::push_text(args, "-muxdelay");
        text::push_text(args, "0");
        text::push_text(args, "-muxpreload");
        text::push_text(args, "0");
    }
    assert(text::texts(args@) =~= text::texts(old(args)@) + options.output()
        + options.latency_flags());
}

/// The arguments for FFmpeg.
pub fn build_ffmpeg_args(options: &FfmpegOptions) -> (r: Vec<String>)
    ensures
        text::texts(r@) == options.args(),
{
    let mut args: Vec<String> = Vec::new();
    let uses_vaapi = options.wants_vaapi();
    append_preamble(&mut args, options);
    append_hardware(&mut args, options, uses_vaapi);
    append_codecs(&mut args, options, uses_vaapi);
    append_output(&mut args, options);
    let ghost fixed = text::texts(args@);
    let mut i: usize = 0;
    while i < options.extra_args.len()
        invariant
            i <= options.extra_args@.len(),
            text::texts(args@) == fixed + text::texts(options.extra_args@).subrange(0, i as int),
        decreases options.extra_args@.len() - i,
    {
        text::push_text(&mut args, options.extra_args[i].as_str());
        i = i + 1;
        assert(text::texts(args@) =~= fixed + text::texts(options.extra_args@).subrange(
            0,
            i as int,
        ));
    }
    text::push_text(&mut args, options.rtsp_url.as_str());
    assert(text::texts(args@) =~= options.args());
    args
}

/// An option and its value stand next to each other.
pub open spec fn has_pair(args: Seq<Seq<char>>, key: Seq<char>, value: Seq<char>) -> bool {
    exists|i: int| 0 <= i < args.len() - 1 && #[trigger] args[i] == key && args[i + 1] == value
}

/// The target URL comes last, and the configured arguments stand directly before it.
pub proof fn law_extra_args_precede_target(o: FfmpegOptions)
    ensures
        o.args().last() == o.rtsp_url@,
        o.args().subrange(
            o.args().len() - 1 - o.extra_args@.len(),
            o.args().len() - 1,
        ) == text::texts(o.extra_args@),
{
    assert(o.args().subrange(
        o.args().len() - 1 - o.extra_args@.len(),
        o.args().len() - 1,
    ) =~= text::texts(o.extra_args@));
}

/// Without the GPU, video and audio are copied, and the hardware settings make no difference.
pub proof fn law_without_gpu_streams_are_copied(o: FfmpegOptions, other: FfmpegOptions)
    requires
        !o.gpu_enabled,
        !other.gpu_enabled,
        o.video_codec@ == other.video_codec@,
        o.rtsp_url@ == other.rtsp_url@,
        text::texts(o.extra_args@) == text::texts(other.extra_args@),
        o.low_latency == other.low_latency,
    ensures
        o.args() == other.args(),
        has_pair(o.args(), "-c:v"@, "copy"@),
        has_pair(o.args(), "-c:a"@, "copy"@),
{
    assert(o.args()[14] == "-c:v"@ && o.args()[15] == "copy"@);
    assert(o.args()[16] == "-c:a"@ && o.args()[17] == "copy"@);
}

/// With VAAPI, the device and the upload filter are passed.
pub proof fn law_vaapi_passes_device_and_filter(o: FfmpegOptions)
    requires
        o.uses_vaapi(),
    ensures
        has_pair(
            o.args(),
            "-vaapi_device"@,
            text::content_or(o.vaapi_device, "/dev/dri/renderD128"@),
        ),
        has_pair(o.args(), "-hwaccel"@, o.accel()),
        has_pair(o.args(), "-c:v"@, o.encoder()),
        has_pair(o.args(), "-vf"@, "format=nv12,hwupload"@),
{
    assert(o.args()[10] == "-vaapi_device"@);
    assert(o.args()[12] == "-hwaccel"@);
    assert(o.args()[18] == "-c:v"@);
    assert(o.args()[20] == "-vf"@);
}

/// With another GPU path, the output is made for HomeKit.
pub proof fn law_gpu_output_is_for_homekit(o: FfmpegOptions)
    requires
        o.gpu_enabled,
        !o.uses_vaapi(),
    ensures
        has_pair(o.args(), "-hwaccel"@, o.accel()),
        has_pair(o.args(), "-c:v"@, o.encoder()),
        has_pair(o.args(), "-pix_fmt"@, "yuv420p"@),
        has_pair(o.args(), "-c:a"@, "aac"@),
        has_pair(o.args(), "-ar"@, "48000"@),
        has_pair(o.args(), "-ac"@, "2"@),
{
    assert(o.args()[10] == "-hwaccel"@);
    assert(o.args()[16] == "-c:v"@);
    assert(o.args()[18] == "-pix_fmt"@);
    assert(o.args()[20] == "-c:a"@);
    assert(o.args()[22] == "-ar"@);
    assert(o.args()[24] == "-ac"@);
}

/// Low latency puts its flags before the configured arguments and the target.
pub proof fn law_low_latency_flags_precede_target(o: FfmpegOptions)
    requires
        o.low_latency,
    ensures
        ({
            let ahead = o.args().subrange(0, o.args().len() - 1 - o.extra_args@.len());
            &&& has_pair(ahead, "-fflags"@, "nobuffer"@)
            &&& has_pair(ahead, "-flags"@, "low_delay"@)
            &&& has_pair(ahead, "-flush_packets"@, "1"@)
            &&& has_pair(ahead, "-muxdelay"@, "0"@)
            &&& has_pair(ahead, "-muxpreload"@, "0"@)
        }),
{
    let ahead = o.args().subrange(0, o.args().len() - 1 - o.extra_args@.len());
    let n = ahead.len() as int;
    assert(ahead[n - 10] == "-fflags"@);
    assert(ahead[n - 8] == "-flags"@);
    assert(ahead[n - 6] == "-flush_packets"@);
    assert(ahead[n - 4] == "-muxdelay"@);
    assert(ahead[n - 2] == "-muxpreload"@);
}

/// Whatever the options, the stream is read from standard input in the configured codec and is
/// published as RTSP over TCP, ahead of the configured arguments.
pub proof fn law_publishes_rtsp_over_tcp(o: FfmpegOptions)
    ensures
        ({
            let ahead = o.args().subrange(0, o.args().len() - 1 - o.extra_args@.len());
            &&& has_pair(ahead, "-f"@, o.video_codec@)
            &&& has_pair(ahead, "-i"@, "pipe:0"@)
            &&& has_pair(ahead, "-f"@, "rtsp"@)
            &&& has_pair(ahead, "-rtsp_transport"@, "tcp"@)
        }),
{
    let ahead = o.args().subrange(0, o.args().len() - 1 - o.extra_args@.len());
    let before: int = o.preamble().len() as int + o.hardware().len();
    assert(ahead[before] == "-f"@);
    assert(ahead[before + 2] == "-i"@);
    let out: int = before + 4 + o.codecs().len();
    assert(ahead[out] == "-f"@);
    assert(ahead[out + 2] == "-rtsp_transport"@);
}

/// The same options but for low latency.
pub open spec fn differ_in_latency(o: FfmpegOptions, other: FfmpegOptions) -> bool {
    &&& o.video_codec@ == other.video_codec@
    &&& o.rtsp_url@ == other.rtsp_url@
    &&& o.gpu_enabled == other.gpu_enabled
    &&& text::opt_text(o.video_encoder) == text::opt_text(other.video_encoder)
    &&& text::opt_text(o.hwaccel) == text::opt_text(other.hwaccel)
    &&& text::opt_text(o.vaapi_device) == text::opt_text(other.vaapi_device)
    &&& text::texts(o.extra_args@) == text::texts(other.extra_args@)
    &&& o.low_latency
    &&& !other.low_latency
}

/// Low latency puts ten arguments before the configured ones and changes nothing else, whatever the
/// GPU settings.
pub proof fn law_low_latency_adds_ten_arguments(o: FfmpegOptions, other: FfmpegOptions)
    requires
        differ_in_latency(o, other),
    ensures
        ({
            let plain = other.args();
            let n = plain.len() - 1 - other.extra_args@.len();
            o.args() == plain.subrange(0, n) + seq![
                "-fflags"@,
                "nobuffer"@,
                "-flags"@,
                "low_delay"@,
                "-flush_packets"@,
                "1"@,
                "-muxdelay"@,
                "0"@,
                "-muxpreload"@,
                "0"@,
            ] + plain.subrange(n, plain.len() as int)
        }),
{
    lemma_same_settings(o.hwaccel, other.hwaccel);
    lemma_same_settings(o.video_encoder, other.video_encoder);
    lemma_same_settings(o.vaapi_device, other.vaapi_device);
    let plain = other.args();
    let n = plain.len() - 1 - other.extra_args@.len();
    assert(text::texts(o.extra_args@).len() == o.extra_args@.len());
    assert(text::texts(other.extra_args@).len() == other.extra_args@.len());
    assert(o.hardware() =~= other.hardware());
    assert(o.codecs() =~= other.codecs());
    assert(o.args() =~= plain.subrange(0, n) + o.latency_flags() + plain.subrange(
        n,
        plain.len() as int,
    ));
}

proof fn lemma_same_settings(a: Option<String>, b: Option<String>)
    requires
        text::opt_text(a) == text::opt_text(b),
    ensures
        text::content(a) == text::content(b),
{
}

/// Without low latency, the transport stands directly before the configured arguments: no flag
/// comes between, whatever the GPU settings.
pub proof fn law_without_low_latency_nothing_follows_the_transport(o: FfmpegOptions)
    requires
        !o.low_latency,
    ensures
        ({
            let n = o.args().len() - 1 - o.extra_args@.len();
            n >= 4 && o.args().subrange(n - 4, n) == seq![
                "-f"@,
                "rtsp"@,
                "-rtsp_transport"@,
                "tcp"@,
            ]
        }),
{
    let n = o.args().len() - 1 - o.extra_args@.len();
    assert(o.args().subrange(n - 4, n) =~= seq!["-f"@, "rtsp"@, "-rtsp_transport"@, "tcp"@]);
}

/// Without the GPU and without low latency, the command line is this one.
pub proof fn law_copying_command_line(o: FfmpegOptions)
    requires
        !o.gpu_enabled,
        !o.low_latency,
    ensures
        o.args() == seq![
            "-y"@,
            "-v"@,
            "error"@,
            "-hide_banner"@,
            "-use_wallclock_as_timestamps"@,
            "1"@,
            "-analyzeduration"@,
            "20000000"@,
            "-probesize"@,
            "20000000"@,
            "-f"@,
            o.video_codec@,
            "-i"@,
            "pipe:0"@,
            "-c:v"@,
            "copy"@,
            "-c:a"@,
            "copy"@,
            "-f"@,
            "rtsp"@,
            "-rtsp_transport"@,
            "tcp"@,
        ] + text::texts(o.extra_args@) + seq![o.rtsp_url@],
{
}

/// What an optional setting with a default comes to.
pub open spec fn comes_to(
    setting: Option<String>,
    default: Seq<char>,
    value: Seq<char>,
) -> bool {
    match text::content(setting) {
        Some(given) => value == given,
        None => value == default,
    }
}

/// On the GPU, the command line of the same options without it gets the hardware before the input,
/// and in the place of copying the encoder, what it is fed with, and audio for HomeKit. VAAPI is
/// the case of an acceleration `vaapi` or an encoder that ends in `_vaapi`, in any case of letters;
/// it gets its device and the upload filter, and anything else a pixel format.
pub proof fn law_gpu_command_line(
    o: FfmpegOptions,
    copying: FfmpegOptions,
    accel: Seq<char>,
    encoder: Seq<char>,
    device: Seq<char>,
)
    requires
        o.gpu_enabled,
        !copying.gpu_enabled,
        o.video_codec@ == copying.video_codec@,
        o.rtsp_url@ == copying.rtsp_url@,
        text::texts(o.extra_args@) == text::texts(copying.extra_args@),
        o.low_latency == copying.low_latency,
        comes_to(o.hwaccel, "cuda"@, accel),
        comes_to(o.video_encoder, "h264_nvenc"@, encoder),
        comes_to(o.vaapi_device, "/dev/dri/renderD128"@, device),
    ensures
        ({
            let base = copying.args();
            let vaapi = text::ascii_lower(accel) == "vaapi"@ || "_vaapi"@.is_suffix_of(
                text::ascii_lower(encoder),
            );
            let hardware = if vaapi {
                seq!["-vaapi_device"@, device, "-hwaccel"@, accel]
            } else {
                seq!["-hwaccel"@, accel]
            };
            let fed = if vaapi {
                seq!["-vf"@, "format=nv12,hwupload"@]
            } else {
                seq!["-pix_fmt"@, "yuv420p"@]
            };
            o.args() == base.subrange(0, 10) + hardware + base.subrange(10, 14) + seq![
                "-c:v"@,
                encoder,
            ] + fed + seq!["-c:a"@, "aac"@, "-ar"@, "48000"@, "-ac"@, "2"@] + base.subrange(
                18,
                base.len() as int,
            )
        }),
{
    reveal_strlit("vaapi");
    assert(text::ascii_lower("vaapi"@) =~= "vaapi"@);
    let base = copying.args();
    let vaapi = text::ascii_lower(accel) == "vaapi"@ || "_vaapi"@.is_suffix_of(
        text::ascii_lower(encoder),
    );
    let hardware = if vaapi {
        seq!["-vaapi_device"@, device, "-hwaccel"@, accel]
    } else {
        seq!["-hwaccel"@, accel]
    };
    let fed = if vaapi {
        seq!["-vf"@, "format=nv12,hwupload"@]
    } else {
        seq!["-pix_fmt"@, "yuv420p"@]
    };
    assert(o.accel() == accel);
    assert(o.encoder() == encoder);
    assert(o.uses_vaapi() == vaapi);
    assert(o.hardware() =~= hardware);
    assert(o.codecs() =~= seq!["-c:v"@, encoder] + fed + seq![
        "-c:a"@,
        "aac"@,
        "-ar"@,
        "48000"@,
        "-ac"@,
        "2"@,
    ]);
    assert(o.latency_flags() == copying.latency_flags());
    let tail = copying.output() + copying.latency_flags() + text::texts(o.extra_args@)
        + seq![o.rtsp_url@];
    assert(base.subrange(0, 10) =~= o.preamble());
    assert(base.subrange(10, 14) =~= o.input());
    assert(base.subrange(18, base.len() as int) =~= tail);
    assert(o.args() =~= o.preamble() + o.hardware() + o.input() + o.codecs() + tail);
    assert(o.preamble() + o.hardware() + o.input() + o.codecs() + tail =~= base.subrange(0, 10)
        + hardware + base.subrange(10, 14) + seq!["-c:v"@, encoder] + fed + seq![
        "-c:a"@,
        "aac"@,
        "-ar"@,
        "48000"@,
        "-ac"@,
        "2"@,
    ] + base.subrange(18, base.len() as int));
}

} // verus!
