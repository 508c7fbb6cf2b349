//! Starting and releasing the native camera source.
//!
//! The camera library is driven by a state machine: the caller performs the calls that a step
//! asks for, in order, and hands back what the last of them returned.
use vstd::prelude::*;
use vstd::string::*;

use crate::native_miot;
use crate::native_miot::NativeMiotConfig;
use crate::numbers;
use crate::oauth;
use crate::paths;
use crate::text;

verus! {

/// One call into the camera library, or one change of what its callbacks feed.
pub enum NativeCall {
    SetLogHandler,
    ClearLogHandler,
    ReadVersion,
    Init { host: String, client_id: &'static str, access_token: String },
    NewCamera { did: String, model: String, channel_count: u8 },
    InstallSenders { capacity: usize },
    ClearSenders,
    RegisterStatus,
    UnregisterStatus,
    RegisterRawData { channel: u8 },
    UnregisterRawData { channel: u8 },
    StartStream { qualities: Vec<u8>, enable_audio: bool, pin_code: Option<String> },
    StopStream,
    ReadStatus,
    FreeCamera,
    Deinit,
}

/// The value of a [`NativeCall`].
pub enum NativeCallView {
    SetLogHandler,
    ClearLogHandler,
    ReadVersion,
    Init { host: Seq<char>, client_id: Seq<char>, access_token: Seq<char> },
    NewCamera { did: Seq<char>, model: Seq<char>, channel_count: u8 },
    InstallSenders { capacity: usize },
    ClearSenders,
    RegisterStatus,
    UnregisterStatus,
    RegisterRawData { channel: u8 },
    UnregisterRawData { channel: u8 },
    StartStream { qualities: Seq<u8>, enable_audio: bool, pin_code: Option<Seq<char>> },
    StopStream,
    ReadStatus,
    FreeCamera,
    Deinit,
}

impl View for NativeCall {
    type V = NativeCallView;

    open spec fn view(&self) -> NativeCallView {
        match *self {
            NativeCall::SetLogHandler => NativeCallView::SetLogHandler,
            NativeCall::ClearLogHandler => NativeCallView::ClearLogHandler,
            NativeCall::ReadVersion => NativeCallView::ReadVersion,
            NativeCall::Init { host, client_id, access_token } => NativeCallView::Init {
                host: host@,
                client_id: client_id@,
                access_token: access_token@,
            },
            NativeCall::NewCamera { did, model, channel_count } => NativeCallView::NewCamera {
                did: did@,
                model: model@,
                channel_count,
            },
            NativeCall::InstallSenders { capacity } => NativeCallView::InstallSenders { capacity },
            NativeCall::ClearSenders => NativeCallView::ClearSenders,
            NativeCall::RegisterStatus => NativeCallView::RegisterStatus,
            NativeCall::UnregisterStatus => NativeCallView::UnregisterStatus,
            NativeCall::RegisterRawData { channel } => NativeCallView::RegisterRawData { channel },
            NativeCall::UnregisterRawData { channel } => NativeCallView::UnregisterRawData {
                channel,
            },
            NativeCall::StartStream { qualities, enable_audio, pin_code } =>
            NativeCallView::StartStream {
                qualities: qualities@,
                enable_audio,
                pin_code: text::opt_text(pin_code),
            },
            NativeCall::StopStream => NativeCallView::StopStream,
            NativeCall::ReadStatus => NativeCallView::ReadStatus,
            NativeCall::FreeCamera => NativeCallView::FreeCamera,
            NativeCall::Deinit => NativeCallView::Deinit,
        }
    }
}

/// The values of a list of calls.
pub open spec fn call_views(calls: Seq<NativeCall>) -> Seq<NativeCallView> {
    Seq::new(calls.len(), |i: int| calls[i]@)
}

/// Why the native source did not start.
#[derive(Debug, Clone, Copy, PartialEq, Eq, Structural)]
pub enum NativeError {
    MissingAccessToken,
    MissingCameraId,
    MissingCameraModel,
    ChannelOutsideCount { channel: u8, channel_count: u8 },
    LibraryNotLoaded,
    /// A text for the library holds a NUL byte at this position.
    InteriorNul { position: usize },
    CameraNull,
    StatusCallbackRefused { code: i32 },
    RawDataCallbackRefused { code: i32 },
    StartRefused { result: i32, camera_status: i32 },
}

/// What the source waits for.
#[derive(Debug, Clone, Copy, PartialEq, Eq, Structural)]
pub enum NativePhase {
    /// The camera library is being loaded.
    Library,
    /// The camera object is being made.
    Camera,
    /// The status callback is being registered.
    StatusCode,
    /// The frame callback is being registered.
    RawDataCode,
    /// The stream is being started.
    StartCode,
    /// The stream did not start; the camera's status is being read.
    CameraStatus { result: i32 },
    /// Frames arrive.
    Running,
    /// The start failed.
    Failed(NativeError),
    /// The source was shut down.
    Released,
}

/// What came back from the last call.
#[derive(Debug, Clone, Copy, PartialEq, Eq, Structural)]
pub enum NativeEvent {
    LibraryLoaded,
    LibraryFailed,
    CameraMade,
    CameraNull,
    Code(i32),
    Shutdown,
}

/// The events that a phase waits for.
pub open spec fn awaits(phase: NativePhase, event: NativeEvent) -> bool {
    match phase {
        NativePhase::Library => event is LibraryLoaded || event is LibraryFailed,
        NativePhase::Camera => event is CameraMade || event is CameraNull,
        NativePhase::StatusCode | NativePhase::RawDataCode | NativePhase::StartCode => event is Code,
        NativePhase::CameraStatus { result } => event is Code,
        NativePhase::Running => event is Shutdown,
        NativePhase::Failed(_) | NativePhase::Released => false,
    }
}

/// The position of the first NUL byte at or after `from`.
pub open spec fn first_nul(bytes: Seq<u8>, from: int) -> Option<int>
    decreases bytes.len() - from,
{
    if from < 0 || from >= bytes.len() {
        None
    } else if bytes[from] == 0 {
        Some(from)
    } else {
        first_nul(bytes, from + 1)
    }
}

/// The position of the first NUL byte of a text.
pub open spec fn nul_in(t: Seq<char>) -> Option<int> {
    first_nul(vstd::utf8::encode_utf8(t), 0)
}

/// The position of the first NUL byte of a text.
fn find_nul(t: &str) -> (r: Option<usize>)
    ensures
        match r {
            Some(p) => nul_in(t@) == Some(p as int),
            None => nul_in(t@) is None,
        },
{
    let bytes = t.as_bytes();
    let mut i: usize = 0;
    while i < bytes.len()
        invariant
            i <= bytes@.len(),
            bytes@ == vstd::utf8::encode_utf8(t@),
            nul_in(t@) == first_nul(bytes@, i as int),
        decreases bytes@.len() - i,
    {
        if bytes[i] == 0 {
            return Some(i);
        }
        i = i + 1;
    }
    None
}

/// What forbids a start with this configuration, before anything is called.
pub open spec fn config_problem(c: NativeMiotConfig) -> Option<NativeError> {
    if text::is_blank(c.access_token@) {
        Some(NativeError::MissingAccessToken)
    } else if text::is_blank(c.camera_id@) {
        Some(NativeError::MissingCameraId)
    } else if text::is_blank(c.camera_model@) {
        Some(NativeError::MissingCameraModel)
    } else if c.channel >= native_miot::at_least_one(c.channel_count as int) {
        Some(
            NativeError::ChannelOutsideCount { channel: c.channel, channel_count: c.channel_count },
        )
    } else {
        None
    }
}

/// The PIN code that is handed to the camera: the configured one, unless it is blank.
pub open spec fn pin_given(c: NativeMiotConfig) -> Option<Seq<char>> {
    if c.pin_blank() {
        None
    } else {
        text::opt_text(c.pin_code)
    }
}

/// The position of the first NUL byte in the texts for the library, in the order in which they
/// are handed over.
pub open spec fn config_nul(c: NativeMiotConfig) -> Option<int> {
    if nul_in(oauth::cloud_host(c.cloud_server@)) is Some {
        nul_in(oauth::cloud_host(c.cloud_server@))
    } else if nul_in(c.access_token@) is Some {
        nul_in(c.access_token@)
    } else if nul_in(c.camera_id@) is Some {
        nul_in(c.camera_id@)
    } else if nul_in(c.camera_model@) is Some {
        nul_in(c.camera_model@)
    } else {
        match pin_given(c) {
            Some(pin) => nul_in(pin),
            None => None,
        }
    }
}

/// The quality of every channel, closed by a zero.
pub open spec fn quality_list(c: NativeMiotConfig) -> Seq<u8> {
    Seq::new(
        native_miot::at_least_one(c.channel_count as int) as nat,
        |i: int| c.video_quality,
    ).push(0)
}

/// What one step does: the calls that it asks for, and the phase that it leads to.
pub open spec fn step(c: NativeMiotConfig, phase: NativePhase, event: NativeEvent) -> (
    Seq<NativeCallView>,
    NativePhase,
) {
    match phase {
        NativePhase::Library => if event is LibraryFailed {
            (seq![], NativePhase::Failed(NativeError::LibraryNotLoaded))
        } else {
            let greeting = seq![NativeCallView::SetLogHandler, NativeCallView::ReadVersion];
            match config_nul(c) {
                Some(p) => (
                    greeting,
                    NativePhase::Failed(NativeError::InteriorNul { position: p as usize }),
                ),
                None => (
                    greeting.push(
                        NativeCallView::Init {
                            host: oauth::cloud_host(c.cloud_server@),
                            client_id: oauth::OAUTH2_CLIENT_ID@,
                            access_token: c.access_token@,
                        },
                    ).push(
                        NativeCallView::NewCamera {
                            did: c.camera_id@,
                            model: c.camera_model@,
                            channel_count: native_miot::at_least_one(c.channel_count as int) as u8,
                        },
                    ),
                    NativePhase::Camera,
                ),
            }
        },
        NativePhase::Camera => if event is CameraNull {
            (
                seq![NativeCallView::ClearLogHandler, NativeCallView::Deinit],
                NativePhase::Failed(NativeError::CameraNull),
            )
        } else {
            (
                seq![
                    NativeCallView::InstallSenders {
                        capacity: native_miot::at_least_one(c.queue_capacity as int) as usize,
                    },
                    NativeCallView::RegisterStatus,
                ],
                NativePhase::StatusCode,
            )
        },
        NativePhase::StatusCode => if event->Code_0 != 0 {
            (
                seq![
                    NativeCallView::ClearSenders,
                    NativeCallView::ClearLogHandler,
                    NativeCallView::FreeCamera,
                    NativeCallView::Deinit,
                ],
                NativePhase::Failed(NativeError::StatusCallbackRefused { code: event->Code_0 }),
            )
        } else {
            (
                seq![NativeCallView::RegisterRawData { channel: c.channel }],
                NativePhase::RawDataCode,
            )
        },
        NativePhase::RawDataCode => if event->Code_0 != 0 {
            (
                seq![
                    NativeCallView::ClearSenders,
                    NativeCallView::UnregisterStatus,
                    NativeCallView::ClearLogHandler,
                    NativeCallView::FreeCamera,
                    NativeCallView::Deinit,
                ],
                NativePhase::Failed(NativeError::RawDataCallbackRefused { code: event->Code_0 }),
            )
        } else {
            (
                seq![
                    NativeCallView::StartStream {
                        qualities: quality_list(c),
                        enable_audio: c.enable_audio,
                        pin_code: pin_given(c),
                    },
                ],
                NativePhase::StartCode,
            )
        },
        NativePhase::StartCode => if event->Code_0 != 0 {
            (
                seq![NativeCallView::ReadStatus],
                NativePhase::CameraStatus { result: event->Code_0 },
            )
        } else {
            (seq![], NativePhase::Running)
        },
        NativePhase::CameraStatus { result } => (
            seq![
                NativeCallView::ClearSenders,
                NativeCallView::UnregisterRawData { channel: c.channel },
                NativeCallView::UnregisterStatus,
                NativeCallView::ClearLogHandler,
                NativeCallView::FreeCamera,
                NativeCallView::Deinit,
            ],
            NativePhase::Failed(
                NativeError::StartRefused { result, camera_status: event->Code_0 },
            ),
        ),
        NativePhase::Running => (
            seq![
                NativeCallView::ClearSenders,
                NativeCallView::ClearLogHandler,
                NativeCallView::StopStream,
                NativeCallView::UnregisterRawData { channel: c.channel },
                NativeCallView::UnregisterStatus,
                NativeCallView::FreeCamera,
                NativeCallView::Deinit,
            ],
            NativePhase::Released,
        ),
        NativePhase::Failed(_) | NativePhase::Released => (seq![], phase),
    }
}

/// The native camera source.
pub struct NativeMiotSource {
    pub config: NativeMiotConfig,
    pub phase: NativePhase,
}

/// Reads the configuration's texts in the order in which the library gets them.
fn find_config_nul(c: &NativeMiotConfig) -> (r: Option<usize>)
    ensures
        match r {
            Some(p) => config_nul(*c) == Some(p as int),
            None => config_nul(*c) is None,
        },
{
    if let Some(p) = find_nul(native_miot::miot_host_string(c.cloud_server.as_str()).as_str()) {
        return Some(p);
    }
    if let Some(p) = find_nul(c.access_token.as_str()) {
        return Some(p);
    }
    if let Some(p) = find_nul(c.camera_id.as_str()) {
        return Some(p);
    }
    if let Some(p) = find_nul(c.camera_model.as_str()) {
        return Some(p);
    }
    if c.lacks_pin() {
        return None;
    }
    match &c.pin_code {
        Some(pin) => find_nul(pin.as_str()),
        None => None,
    }
}

fn qualities_of(c: &NativeMiotConfig) -> (r: Vec<u8>)
    ensures
        r@ == quality_list(*c),
{
    let mut out: Vec<u8> = Vec::new();
    let n: u8 = c.channels();
    let mut i: u8 = 0;
    while i < n
        invariant
            i <= n,
            out@ == Seq::new(i as nat, |j: int| c.video_quality),
        decreases n - i,
    {
        out.push(c.video_quality);
        i = i + 1;
        assert(out@ =~= Seq::new(i as nat, |j: int| c.video_quality));
    }
    out.push(0);
    out
}

fn pin_of(c: &NativeMiotConfig) -> (r: Option<String>)
    ensures
        text::opt_text(r) == pin_given(*c),
{
    if c.lacks_pin() {
        None
    } else {
        c.pin_code.clone()
    }
}

impl NativeMiotSource {
    /// The configuration is one that may be started.
    pub open spec fn valid(self) -> bool {
        config_problem(self.config) is None
    }

    /// Checks a configuration. The source then waits for the camera library.
    pub fn start(config: NativeMiotConfig) -> (r: Result<NativeMiotSource, NativeError>)
        ensures
            match r {
                Ok(source) => {
                    &&& config_problem(config) is None
                    &&& source.config == config
                    &&& source.phase == NativePhase::Library
                    &&& source.valid()
                },
                Err(e) => config_problem(config) == Some(e),
            },
    {
        if text::blank(config.access_token.as_str()) {
            return Err(NativeError::MissingAccessToken);
        }
        if text::blank(config.camera_id.as_str()) {
            return Err(NativeError::MissingCameraId);
        }
        if text::blank(config.camera_model.as_str()) {
            return Err(NativeError::MissingCameraModel);
        }
        if config.channel >= config.channels() {
            return Err(
                NativeError::ChannelOutsideCount {
                    channel: config.channel,
                    channel_count: config.channel_count,
                },
            );
        }
        Ok(NativeMiotSource { config, phase: NativePhase::Library })
    }

    /// Whether the source waits for this.
    pub fn expects(&self, event: NativeEvent) -> (r: bool)
        ensures
            r == awaits(self.phase, event),
    {
        match self.phase {
            NativePhase::Library => {
                event == NativeEvent::LibraryLoaded || event == NativeEvent::LibraryFailed
            },
            NativePhase::Camera => {
                event == NativeEvent::CameraMade || event == NativeEvent::CameraNull
            },
            NativePhase::StatusCode
            | NativePhase::RawDataCode
            | NativePhase::StartCode
            | NativePhase::CameraStatus { .. } => matches!(event, NativeEvent::Code(_)),
            NativePhase::Running => event == NativeEvent::Shutdown,
            NativePhase::Failed(_) | NativePhase::Released => false,
        }
    }

    /// Takes what came back from the last call; returns the calls to make now, in order.
    pub fn advance(&mut self, event: NativeEvent) -> (r: Vec<NativeCall>)
        requires
            awaits(old(self).phase, event),
        ensures
            final(self).config == old(self).config,
            (call_views(r@), final(self).phase) == step(
                old(self).config,
                old(self).phase,
                event,
            ),
    {
        let mut calls: Vec<NativeCall> = Vec::new();
        match self.phase {
            NativePhase::Library => {
                if event == NativeEvent::LibraryFailed {
                    self.phase = NativePhase::Failed(NativeError::LibraryNotLoaded);
                } else {
                    calls.push(NativeCall::SetLogHandler);
                    calls.push(NativeCall::ReadVersion);
                    match find_config_nul(&self.config) {
                        Some(position) => {
                            self.phase = NativePhase::Failed(NativeError::InteriorNul { position });
                        },
                        None => {
                            calls.push(
                                NativeCall::Init {
                                    host: native_miot::miot_host_string(
                                        self.config.cloud_server.as_str(),
                                    ),
                                    client_id: oauth::OAUTH2_CLIENT_ID,
                                    access_token: self.config.access_token.clone(),
                                },
                            );
                            calls.push(
                                NativeCall::NewCamera {
                                    did: self.config.camera_id.clone(),
                                    model: self.config.camera_model.clone(),
                                    channel_count: self.config.channels(),
                                },
                            );
                            self.phase = NativePhase::Camera;
                        },
                    }
                }
            },
            NativePhase::Camera => {
                if event == NativeEvent::CameraNull {
                    calls.push(NativeCall::ClearLogHandler);
                    calls.push(NativeCall::Deinit);
                    self.phase = NativePhase::Failed(NativeError::CameraNull);
                } else {
                    calls.push(
                        NativeCall::InstallSenders { capacity: self.config.queue_capacity() },
                    );
                    calls.push(NativeCall::RegisterStatus);
                    self.phase = NativePhase::StatusCode;
                }
            },
            NativePhase::StatusCode => {
                if let NativeEvent::Code(code) = event {
                    if code != 0 {
                        calls.push(NativeCall::ClearSenders);
                        calls.push(NativeCall::ClearLogHandler);
                        calls.push(NativeCall::FreeCamera);
                        calls.push(NativeCall::Deinit);
                        self.phase = NativePhase::Failed(
                            NativeError::StatusCallbackRefused { code },
                        );
                    } else {
                        calls.push(NativeCall::RegisterRawData { channel: self.config.channel });
                        self.phase = NativePhase::RawDataCode;
                    }
                }
            },
            NativePhase::RawDataCode => {
                if let NativeEvent::Code(code) = event {
                    if code != 0 {
                        calls.push(NativeCall::ClearSenders);
                        calls.push(NativeCall::UnregisterStatus);
                        calls.push(NativeCall::ClearLogHandler);
                        calls.push(NativeCall::FreeCamera);
                        calls.push(NativeCall::Deinit);
                        self.phase = NativePhase::Failed(
                            NativeError::RawDataCallbackRefused { code },
                        );
                    } else {
                        calls.push(
                            NativeCall::StartStream {
                                qualities: qualities_of(&self.config),
                                enable_audio: self.config.enable_audio,
                                pin_code: pin_of(&self.config),
                            },
                        );
                        self.phase = NativePhase::StartCode;
                    }
                }
            },
            NativePhase::StartCode => {
                if let NativeEvent::Code(code) = event {
                    if code != 0 {
                        calls.push(NativeCall::ReadStatus);
                        self.phase = NativePhase::CameraStatus { result: code };
                    } else {
                        self.phase = NativePhase::Running;
                    }
                }
            },
            NativePhase::CameraStatus { result } => {
                if let NativeEvent::Code(camera_status) = event {
                    calls.push(NativeCall::ClearSenders);
                    calls.push(NativeCall::UnregisterRawData { channel: self.config.channel });
                    calls.push(NativeCall::UnregisterStatus);
                    calls.push(NativeCall::ClearLogHandler);
                    calls.push(NativeCall::FreeCamera);
                    calls.push(NativeCall::Deinit);
                    self.phase = NativePhase::Failed(
                        NativeError::StartRefused { result, camera_status },
                    );
                }
            },
            NativePhase::Running => {
                calls.push(NativeCall::ClearSenders);
                calls.push(NativeCall::ClearLogHandler);
                calls.push(NativeCall::StopStream);
                calls.push(NativeCall::UnregisterRawData { channel: self.config.channel });
                calls.push(NativeCall::UnregisterStatus);
                calls.push(NativeCall::FreeCamera);
                calls.push(NativeCall::Deinit);
                self.phase = NativePhase::Released;
            },
            NativePhase::Failed(_) => {},
            NativePhase::Released => {},
        }
        assert(call_views(calls@) =~= step(old(self).config, old(self).phase, event).0);
        calls
    }
}

/// What the library holds on behalf of the source.
pub struct Held {
    pub log_handler: bool,
    pub initialised: bool,
    pub camera: bool,
    pub senders: bool,
    pub status_callback: bool,
    pub raw_data_callback: bool,
    pub streaming: bool,
}

pub open spec fn nothing_held() -> Held {
    Held {
        log_handler: false,
        initialised: false,
        camera: false,
        senders: false,
        status_callback: false,
        raw_data_callback: false,
        streaming: false,
    }
}

/// What is held in each phase. A text with a NUL byte is found after the log handler was set, and
/// the handler then stays.
pub open spec fn held_in(phase: NativePhase) -> Held {
    let ready = Held { log_handler: true, initialised: true, ..nothing_held() };
    let made = Held { camera: true, senders: true, ..ready };
    match phase {
        NativePhase::Library => nothing_held(),
        NativePhase::Camera => ready,
        NativePhase::StatusCode => made,
        NativePhase::RawDataCode => Held { status_callback: true, ..made },
        NativePhase::StartCode | NativePhase::CameraStatus { result: _ } => Held {
            status_callback: true,
            raw_data_callback: true,
            ..made
        },
        NativePhase::Running => Held {
            status_callback: true,
            raw_data_callback: true,
            streaming: true,
            ..made
        },
        NativePhase::Failed(NativeError::InteriorNul { position: _ }) => Held {
            log_handler: true,
            ..nothing_held()
        },
        NativePhase::Failed(_) => nothing_held(),
        NativePhase::Released => nothing_held(),
    }
}

/// What an event adds: a call that succeeded acquires what it was made for.
pub open spec fn acquired(h: Held, phase: NativePhase, event: NativeEvent) -> Held {
    match phase {
        NativePhase::Camera => Held { camera: h.camera || event is CameraMade, ..h },
        NativePhase::StatusCode => Held {
            status_callback: h.status_callback || event == NativeEvent::Code(0),
            ..h
        },
        NativePhase::RawDataCode => Held {
            raw_data_callback: h.raw_data_callback || event == NativeEvent::Code(0),
            ..h
        },
        NativePhase::StartCode => Held {
            streaming: h.streaming || event == NativeEvent::Code(0),
            ..h
        },
        _ => h,
    }
}

/// What is held after a call. A registration, a start and a new camera count once they succeeded.
pub open spec fn after_call(h: Held, call: NativeCallView) -> Held {
    match call {
        NativeCallView::SetLogHandler => Held { log_handler: true, ..h },
        NativeCallView::ClearLogHandler => Held { log_handler: false, ..h },
        NativeCallView::Init { .. } => Held { initialised: true, ..h },
        NativeCallView::Deinit => Held { initialised: false, ..h },
        NativeCallView::InstallSenders { .. } => Held { senders: true, ..h },
        NativeCallView::ClearSenders => Held { senders: false, ..h },
        NativeCallView::UnregisterStatus => Held { status_callback: false, ..h },
        NativeCallView::UnregisterRawData { .. } => Held { raw_data_callback: false, ..h },
        NativeCallView::StopStream => Held { streaming: false, ..h },
        NativeCallView::FreeCamera => Held { camera: false, ..h },
        _ => h,
    }
}

/// Whether a call may be made: nothing is acquired twice, nothing is used or released that is not
/// held, and a camera is freed after everything that hangs on it.
pub open spec fn may_call(h: Held, call: NativeCallView) -> bool {
    match call {
        NativeCallView::Init { .. } => !h.initialised,
        NativeCallView::NewCamera { .. } => h.initialised && !h.camera,
        NativeCallView::InstallSenders { .. } => !h.senders,
        NativeCallView::RegisterStatus => h.camera && !h.status_callback,
        NativeCallView::RegisterRawData { .. } => h.camera && !h.raw_data_callback,
        NativeCallView::StartStream { .. } => h.camera && !h.streaming,
        NativeCallView::ReadStatus => h.camera,
        NativeCallView::StopStream => h.streaming,
        NativeCallView::UnregisterStatus => h.camera && h.status_callback,
        NativeCallView::UnregisterRawData { .. } => h.camera && h.raw_data_callback,
        NativeCallView::FreeCamera => h.camera && !h.status_callback && !h.raw_data_callback
            && !h.streaming && !h.senders,
        NativeCallView::Deinit => h.initialised && !h.camera,
        _ => true,
    }
}

/// What is held after the first `n` calls of a list.
pub open spec fn after_calls(h: Held, calls: Seq<NativeCallView>, n: int) -> Held
    decreases n,
{
    if n <= 0 {
        h
    } else {
        after_call(after_calls(h, calls, n - 1), calls[n - 1])
    }
}

/// Whether each call of a list may be made when its turn comes.
pub open spec fn may_call_all(h: Held, calls: Seq<NativeCallView>) -> bool {
    forall|i: int|
        0 <= i < calls.len() ==> may_call(#[trigger] after_calls(h, calls, i), calls[i])
}

/// A step makes only calls that may be made, and leaves held what its phase stands for.
pub proof fn law_step_keeps_account(c: NativeMiotConfig, phase: NativePhase, event: NativeEvent)
    requires
        awaits(phase, event),
    ensures
        ({
            let (calls, next) = step(c, phase, event);
            let h = acquired(held_in(phase), phase, event);
            &&& may_call_all(h, calls)
            &&& after_calls(h, calls, calls.len() as int) == held_in(next)
        }),
{
    let (calls, next) = step(c, phase, event);
    let h = acquired(held_in(phase), phase, event);
    assert(after_calls(h, calls, 0) == h);
    assert(calls.len() >= 1 ==> after_calls(h, calls, 1) == after_call(h, calls[0]));
    let h1 = after_calls(h, calls, 1);
    assert(calls.len() >= 2 ==> after_calls(h, calls, 2) == after_call(h1, calls[1]));
    let h2 = after_calls(h, calls, 2);
    assert(calls.len() >= 3 ==> after_calls(h, calls, 3) == after_call(h2, calls[2]));
    let h3 = after_calls(h, calls, 3);
    assert(calls.len() >= 4 ==> after_calls(h, calls, 4) == after_call(h3, calls[3]));
    let h4 = after_calls(h, calls, 4);
    assert(calls.len() >= 5 ==> after_calls(h, calls, 5) == after_call(h4, calls[4]));
    let h5 = after_calls(h, calls, 5);
    assert(calls.len() >= 6 ==> after_calls(h, calls, 6) == after_call(h5, calls[5]));
    let h6 = after_calls(h, calls, 6);
    assert(calls.len() >= 7 ==> after_calls(h, calls, 7) == after_call(h6, calls[6]));
    assert(calls.len() <= 7);
    assert forall|i: int| 0 <= i < calls.len() implies may_call(
        #[trigger] after_calls(h, calls, i),
        calls[i],
    ) by {
        assert(i == 0 || i == 1 || i == 2 || i == 3 || i == 4 || i == 5 || i == 6);
    }
}

/// The phases that a list of events leads through, each awaited when it comes.
pub open spec fn run_phase(c: NativeMiotConfig, events: Seq<NativeEvent>) -> Option<NativePhase>
    decreases events.len(),
{
    if events.len() == 0 {
        Some(NativePhase::Library)
    } else {
        match run_phase(c, events.drop_last()) {
            Some(phase) => if awaits(phase, events.last()) {
                Some(step(c, phase, events.last()).1)
            } else {
                None
            },
            None => None,
        }
    }
}

/// What a list of events leaves held: each acquires what its call was made for, and the calls of
/// its step follow.
pub open spec fn run_held(c: NativeMiotConfig, events: Seq<NativeEvent>) -> Held
    decreases events.len(),
{
    if events.len() == 0 {
        nothing_held()
    } else {
        let before = events.drop_last();
        match run_phase(c, before) {
            Some(phase) => after_calls(
                acquired(run_held(c, before), phase, events.last()),
                step(c, phase, events.last()).0,
                step(c, phase, events.last()).0.len() as int,
            ),
            None => nothing_held(),
        }
    }
}

/// However a start went on, what is held is what the phase reached stands for.
pub proof fn law_run_keeps_account(c: NativeMiotConfig, events: Seq<NativeEvent>)
    requires
        run_phase(c, events) is Some,
    ensures
        run_held(c, events) == held_in(run_phase(c, events)->0),
    decreases events.len(),
{
    if events.len() > 0 {
        law_run_keeps_account(c, events.drop_last());
        law_step_keeps_account(c, run_phase(c, events.drop_last())->0, events.last());
    }
}

/// A start that failed, and a source that was shut down, leave nothing behind; only a NUL byte in
/// a text for the library leaves the log handler set.
pub proof fn law_end_releases_everything(c: NativeMiotConfig, events: Seq<NativeEvent>)
    requires
        run_phase(c, events) is Some,
    ensures
        run_phase(c, events)->0 is Released ==> run_held(c, events) == nothing_held(),
        run_phase(c, events)->0 matches NativePhase::Failed(e) && !(e is InteriorNul)
            ==> run_held(c, events) == nothing_held(),
{
    law_run_keeps_account(c, events);
}

/// A NUL byte in a text for the library ends the start before the library is initialised.
pub proof fn law_nul_is_never_handed_over(c: NativeMiotConfig, events: Seq<NativeEvent>)
    requires
        run_phase(c, events) is Some,
        config_nul(c) is Some,
    ensures
        !run_held(c, events).initialised,
        !run_held(c, events).camera,
    decreases events.len(),
{
    law_run_keeps_account(c, events);
    lemma_nul_phases(c, events);
}

proof fn lemma_nul_phases(c: NativeMiotConfig, events: Seq<NativeEvent>)
    requires
        run_phase(c, events) is Some,
        config_nul(c) is Some,
    ensures
        run_phase(c, events)->0 is Library || run_phase(c, events)->0 is Failed,
    decreases events.len(),
{
    if events.len() > 0 {
        lemma_nul_phases(c, events.drop_last());
    }
}

impl NativeError {
    /// The message for a reader.
    pub open spec fn text(self, c: NativeMiotConfig) -> Seq<char> {
        match self {
            NativeError::MissingAccessToken => "MIOT_ACCESS_TOKEN is required in native mode"@,
            NativeError::MissingCameraId => "CAMERA_ID is required in native mode"@,
            NativeError::MissingCameraModel => "MIOT_CAMERA_MODEL is required in native mode"@,
            NativeError::ChannelOutsideCount { channel, channel_count } => "STREAM_CHANNEL "@
                + numbers::decimal(channel as nat) + " is outside MIOT_CHANNEL_COUNT "@
                + numbers::decimal(channel_count as nat),
            NativeError::LibraryNotLoaded => "failed to load MIoT camera library: "@
                + paths::path_text(c.lib_path),
            NativeError::InteriorNul { position } =>
            "nul byte found in provided data at position: "@ + numbers::decimal(position as nat),
            NativeError::CameraNull => "miot_camera_new returned null. config: "@ + c.summary(),
            NativeError::StatusCallbackRefused { code } =>
            "miot_camera_register_status_changed failed: "@ + numbers::signed_decimal(code as int),
            NativeError::RawDataCallbackRefused { code } =>
            "miot_camera_register_raw_data failed: "@ + numbers::signed_decimal(code as int),
            NativeError::StartRefused { result, camera_status } => native_miot::start_error_text(
                result,
                camera_status,
                c.summary(),
            ),
        }
    }

    /// The message for a reader.
    pub fn message(&self, config: &NativeMiotConfig) -> (r: String)
        ensures
            r@ == self.text(*config),
    {
        match *self {
            NativeError::MissingAccessToken => {
                "MIOT_ACCESS_TOKEN is required in native mode".to_owned()
            },
            NativeError::MissingCameraId => "CAMERA_ID is required in native mode".to_owned(),
            NativeError::MissingCameraModel => {
                "MIOT_CAMERA_MODEL is required in native mode".to_owned()
            },
            NativeError::ChannelOutsideCount { channel, channel_count } => {
                let mut out = "STREAM_CHANNEL ".to_owned();
                out.append(numbers::natural_text(channel as u64).as_str());
                out.append(" is outside MIOT_CHANNEL_COUNT ");
                out.append(numbers::natural_text(channel_count as u64).as_str());
                out
            },
            NativeError::LibraryNotLoaded => {
                text::join(
                    "failed to load MIoT camera library: ",
                    paths::show_path(&config.lib_path).as_str(),
                )
            },
            NativeError::InteriorNul { position } => {
                text::join(
                    "nul byte found in provided data at position: ",
                    numbers::natural_text(position as u64).as_str(),
                )
            },
            NativeError::CameraNull => {
                text::join(
                    "miot_camera_new returned null. config: ",
                    config.diagnostic_summary().as_str(),
                )
            },
            NativeError::StatusCallbackRefused { code } => {
                text::join(
                    "miot_camera_register_status_changed failed: ",
                    numbers::integer_text(code as i64).as_str(),
                )
            },
            NativeError::RawDataCallbackRefused { code } => {
                text::join(
                    "miot_camera_register_raw_data failed: ",
                    numbers::integer_text(code as i64).as_str(),
                )
            },
            NativeError::StartRefused { result, camera_status } => {
                native_miot::start_error_message(result, camera_status, config)
            },
        }
    }
}

/// The calls that a list of events leads to, in order.
pub open spec fn run_calls(c: NativeMiotConfig, events: Seq<NativeEvent>) -> Seq<NativeCallView>
    decreases events.len(),
{
    if events.len() == 0 {
        seq![]
    } else {
        let before = events.drop_last();
        match run_phase(c, before) {
            Some(phase) => run_calls(c, before) + step(c, phase, events.last()).0,
            None => seq![],
        }
    }
}

/// A call carries what is configured: the region's host, the client and the token; the camera, its
/// model and its channels, at least one; a queue of the configured length, at least one; the
/// configured channel, for which frames are registered and unregistered; the configured quality for
/// each channel and a zero behind them; the audio setting; and the PIN code, unless it is blank.
pub open spec fn carries_configuration(c: NativeMiotConfig, call: NativeCallView) -> bool {
    match call {
        NativeCallView::Init { host, client_id, access_token } => {
            &&& host == oauth::cloud_host(c.cloud_server@)
            &&& client_id == "2882303761520431603"@
            &&& access_token == c.access_token@
        },
        NativeCallView::NewCamera { did, model, channel_count } => {
            &&& did == c.camera_id@
            &&& model == c.camera_model@
            &&& channel_count >= 1
            &&& channel_count == c.channel_count || c.channel_count == 0 && channel_count == 1
        },
        NativeCallView::InstallSenders { capacity } => {
            &&& capacity >= 1
            &&& capacity == c.queue_capacity || c.queue_capacity == 0 && capacity == 1
        },
        NativeCallView::RegisterRawData { channel } => channel == c.channel,
        NativeCallView::UnregisterRawData { channel } => channel == c.channel,
        NativeCallView::StartStream { qualities, enable_audio, pin_code } => {
            &&& qualities.len() == (if c.channel_count == 0 {
                2int
            } else {
                c.channel_count + 1
            })
            &&& qualities.last() == 0
            &&& forall|i: int|
                0 <= i < qualities.len() - 1 ==> #[trigger] qualities[i] == c.video_quality
            &&& enable_audio == c.enable_audio
            &&& pin_code == (if text::content(c.pin_code) is Some {
                Some(c.pin_code->0@)
            } else {
                None
            })
        },
        _ => true,
    }
}

/// Every call of every run carries what is configured.
pub proof fn law_calls_carry_the_configuration(
    c: NativeMiotConfig,
    events: Seq<NativeEvent>,
    i: int,
)
    requires
        run_phase(c, events) is Some,
        0 <= i < run_calls(c, events).len(),
    ensures
        carries_configuration(c, run_calls(c, events)[i]),
    decreases events.len(),
{
    if events.len() > 0 {
        let before = events.drop_last();
        let earlier = run_calls(c, before);
        let phase = run_phase(c, before)->0;
        if i < earlier.len() {
            law_calls_carry_the_configuration(c, before, i);
            assert(run_calls(c, events)[i] == earlier[i]);
        } else {
            lemma_step_carries_configuration(c, phase, events.last(), i - earlier.len());
        }
    }
}

proof fn lemma_step_carries_configuration(
    c: NativeMiotConfig,
    phase: NativePhase,
    event: NativeEvent,
    i: int,
)
    requires
        awaits(phase, event),
        0 <= i < step(c, phase, event).0.len(),
    ensures
        carries_configuration(c, step(c, phase, event).0[i]),
{
    assert(quality_list(c).last() == 0);
    assert(oauth::OAUTH2_CLIENT_ID@ == "2882303761520431603"@);
}

/// In a source that may start, frames are registered for the configured channel, be it the first or
/// another: it is one that the camera has, and the one that is unregistered.
pub proof fn law_registered_channel_exists(
    c: NativeMiotConfig,
    events: Seq<NativeEvent>,
    i: int,
    j: int,
)
    requires
        config_problem(c) is None,
        run_phase(c, events) is Some,
        0 <= i < run_calls(c, events).len(),
        0 <= j < run_calls(c, events).len(),
    ensures
        run_calls(c, events)[i] matches NativeCallView::RegisterRawData { channel } ==> channel
            == c.channel,
        run_calls(c, events)[i] matches NativeCallView::RegisterRawData { channel } ==> (
        run_calls(c, events)[j] matches NativeCallView::NewCamera { did: _, model: _, channel_count }
            ==> channel < channel_count),
        run_calls(c, events)[i] matches NativeCallView::RegisterRawData { channel } ==> (
        run_calls(c, events)[j] matches NativeCallView::UnregisterRawData { channel: released }
            ==> channel == released),
{
    law_calls_carry_the_configuration(c, events, i);
    law_calls_carry_the_configuration(c, events, j);
}

/// A start is forbidden exactly where the token, the camera or its model is blank, or the channel
/// is not below the number of channels, which is at least one; the first of these is reported.
pub proof fn law_what_forbids_a_start(c: NativeMiotConfig)
    ensures
        ({
            let no_token = text::is_blank(c.access_token@);
            let no_camera = text::is_blank(c.camera_id@);
            let no_model = text::is_blank(c.camera_model@);
            let no_channel = c.channel > 0 && c.channel >= c.channel_count;
            let problem = config_problem(c);
            &&& problem is None <==> !no_token && !no_camera && !no_model && !no_channel
            &&& problem == Some(NativeError::MissingAccessToken) <==> no_token
            &&& problem == Some(NativeError::MissingCameraId) <==> !no_token && no_camera
            &&& problem == Some(NativeError::MissingCameraModel) <==> !no_token && !no_camera
                && no_model
            &&& !no_token && !no_camera && !no_model && no_channel ==> problem == Some(
                NativeError::ChannelOutsideCount {
                    channel: c.channel,
                    channel_count: c.channel_count,
                },
            )
        }),
{
}

/// A text is handed over exactly where none of the bytes of the texts for the library is zero; a
/// PIN code counts unless it is blank.
pub proof fn law_no_byte_handed_over_is_zero(c: NativeMiotConfig)
    ensures
        config_nul(c) is None <==> {
            &&& free_of_zero(oauth::cloud_host(c.cloud_server@))
            &&& free_of_zero(c.access_token@)
            &&& free_of_zero(c.camera_id@)
            &&& free_of_zero(c.camera_model@)
            &&& text::content(c.pin_code) is Some ==> free_of_zero(c.pin_code->0@)
        },
{
    lemma_first_nul(vstd::utf8::encode_utf8(oauth::cloud_host(c.cloud_server@)), 0);
    lemma_first_nul(vstd::utf8::encode_utf8(c.access_token@), 0);
    lemma_first_nul(vstd::utf8::encode_utf8(c.camera_id@), 0);
    lemma_first_nul(vstd::utf8::encode_utf8(c.camera_model@), 0);
    if c.pin_code is Some {
        lemma_first_nul(vstd::utf8::encode_utf8(c.pin_code->0@), 0);
    }
}

/// No byte of the text is zero.
pub open spec fn free_of_zero(t: Seq<char>) -> bool {
    forall|i: int|
        0 <= i < vstd::utf8::encode_utf8(t).len() ==> #[trigger] vstd::utf8::encode_utf8(t)[i] != 0
}

/// The position that is reported is that of the first zero byte.
pub proof fn law_first_zero_is_reported(bytes: Seq<u8>, p: int)
    ensures
        first_nul(bytes, 0) == Some(p) <==> 0 <= p < bytes.len() && bytes[p] == 0 && forall|i: int|
            0 <= i < p ==> #[trigger] bytes[i] != 0,
{
    lemma_first_nul(bytes, 0);
    if first_nul(bytes, 0) is Some && 0 <= p < bytes.len() {
        let q = first_nul(bytes, 0)->0;
        assert(bytes[q] == 0);
        assert(bytes[p] == 0 || p != q);
    }
    if 0 <= p < bytes.len() && bytes[p] == 0 {
        assert(first_nul(bytes, 0) is Some);
    }
}

proof fn lemma_first_nul(bytes: Seq<u8>, from: int)
    requires
        0 <= from,
    ensures
        match first_nul(bytes, from) {
            Some(p) => from <= p < bytes.len() && bytes[p] == 0 && forall|i: int|
                from <= i < p ==> #[trigger] bytes[i] != 0,
            None => forall|i: int| from <= i < bytes.len() ==> #[trigger] bytes[i] != 0,
        },
    decreases bytes.len() - from,
{
    if from < bytes.len() {
        lemma_first_nul(bytes, from + 1);
    }
}

/// The events of a start on which everything succeeds.
pub open spec fn smooth_start() -> Seq<NativeEvent> {
    seq![
        NativeEvent::LibraryLoaded,
        NativeEvent::CameraMade,
        NativeEvent::Code(0),
        NativeEvent::Code(0),
        NativeEvent::Code(0),
    ]
}

/// A kind of call, its arguments aside.
pub enum CallKind {
    SetLogHandler,
    ClearLogHandler,
    ReadVersion,
    Init,
    NewCamera,
    InstallSenders,
    ClearSenders,
    RegisterStatus,
    UnregisterStatus,
    RegisterRawData,
    UnregisterRawData,
    StartStream,
    StopStream,
    ReadStatus,
    FreeCamera,
    Deinit,
}

impl NativeCallView {
    pub open spec fn kind(self) -> CallKind {
        match self {
            NativeCallView::SetLogHandler => CallKind::SetLogHandler,
            NativeCallView::ClearLogHandler => CallKind::ClearLogHandler,
            NativeCallView::ReadVersion => CallKind::ReadVersion,
            NativeCallView::Init { .. } => CallKind::Init,
            NativeCallView::NewCamera { .. } => CallKind::NewCamera,
            NativeCallView::InstallSenders { .. } => CallKind::InstallSenders,
            NativeCallView::ClearSenders => CallKind::ClearSenders,
            NativeCallView::RegisterStatus => CallKind::RegisterStatus,
            NativeCallView::UnregisterStatus => CallKind::UnregisterStatus,
            NativeCallView::RegisterRawData { .. } => CallKind::RegisterRawData,
            NativeCallView::UnregisterRawData { .. } => CallKind::UnregisterRawData,
            NativeCallView::StartStream { .. } => CallKind::StartStream,
            NativeCallView::StopStream => CallKind::StopStream,
            NativeCallView::ReadStatus => CallKind::ReadStatus,
            NativeCallView::FreeCamera => CallKind::FreeCamera,
            NativeCallView::Deinit => CallKind::Deinit,
        }
    }
}

/// The kinds of a list of calls.
pub open spec fn kinds(calls: Seq<NativeCallView>) -> Seq<CallKind> {
    Seq::new(calls.len(), |i: int| calls[i].kind())
}

/// A start on which everything succeeds runs, after these calls in this order; a shutdown then
/// stops the stream, takes back the registrations, and frees the camera and the library.
pub proof fn law_smooth_start_runs(c: NativeMiotConfig)
    requires
        config_nul(c) is None,
    ensures
        run_phase(c, smooth_start()) == Some(NativePhase::Running),
        kinds(run_calls(c, smooth_start())) == seq![
            CallKind::SetLogHandler,
            CallKind::ReadVersion,
            CallKind::Init,
            CallKind::NewCamera,
            CallKind::InstallSenders,
            CallKind::RegisterStatus,
            CallKind::RegisterRawData,
            CallKind::StartStream,
        ],
        run_phase(c, smooth_start().push(NativeEvent::Shutdown)) == Some(NativePhase::Released),
        kinds(run_calls(c, smooth_start().push(NativeEvent::Shutdown))) == kinds(
            run_calls(c, smooth_start()),
        ) + seq![
            CallKind::ClearSenders,
            CallKind::ClearLogHandler,
            CallKind::StopStream,
            CallKind::UnregisterRawData,
            CallKind::UnregisterStatus,
            CallKind::FreeCamera,
            CallKind::Deinit,
        ],
{
    let e5 = smooth_start();
    let e6 = e5.push(NativeEvent::Shutdown);
    let e4 = e5.drop_last();
    let e3 = e4.drop_last();
    let e2 = e3.drop_last();
    let e1 = e2.drop_last();
    let e0 = e1.drop_last();
    assert(e6.drop_last() =~= e5);
    assert(e0.len() == 0);
    assert(e1.last() == NativeEvent::LibraryLoaded);
    assert(e2.last() == NativeEvent::CameraMade);
    assert(e3.last() == NativeEvent::Code(0));
    assert(e4.last() == NativeEvent::Code(0));
    assert(e5.last() == NativeEvent::Code(0));
    assert(run_phase(c, e0) == Some(NativePhase::Library));
    assert(run_phase(c, e1) == Some(NativePhase::Camera));
    assert(run_phase(c, e2) == Some(NativePhase::StatusCode));
    assert(run_phase(c, e3) == Some(NativePhase::RawDataCode));
    assert(run_phase(c, e4) == Some(NativePhase::StartCode));
    assert(run_phase(c, e5) == Some(NativePhase::Running));
    assert(run_phase(c, e6) == Some(NativePhase::Released));
    assert(run_calls(c, e0) =~= seq![]);
    assert(kinds(run_calls(c, e1)) =~= seq![
        CallKind::SetLogHandler,
        CallKind::ReadVersion,
        CallKind::Init,
        CallKind::NewCamera,
    ]);
    assert(kinds(run_calls(c, e2)) =~= kinds(run_calls(c, e1)) + seq![
        CallKind::InstallSenders,
        CallKind::RegisterStatus,
    ]);
    assert(kinds(run_calls(c, e3)) =~= kinds(run_calls(c, e2)) + seq![CallKind::RegisterRawData]);
    assert(kinds(run_calls(c, e4)) =~= kinds(run_calls(c, e3)) + seq![CallKind::StartStream]);
    assert(run_calls(c, e5) =~= run_calls(c, e4));
    assert(kinds(run_calls(c, e5)) =~= seq![
        CallKind::SetLogHandler,
        CallKind::ReadVersion,
        CallKind::Init,
        CallKind::NewCamera,
        CallKind::InstallSenders,
        CallKind::RegisterStatus,
        CallKind::RegisterRawData,
        CallKind::StartStream,
    ]);
    assert(kinds(run_calls(c, e6)) =~= kinds(run_calls(c, e5)) + seq![
        CallKind::ClearSenders,
        CallKind::ClearLogHandler,
        CallKind::StopStream,
        CallKind::UnregisterRawData,
        CallKind::UnregisterStatus,
        CallKind::FreeCamera,
        CallKind::Deinit,
    ]);
}

/// What goes wrong ends a start with the error that says so: a library that does not load, a camera
/// that is null, and each code other than zero; a code of zero never fails. After a refused start
/// the camera's status is read, and is reported beside the code, whatever it is.
pub proof fn law_what_fails_is_reported(c: NativeMiotConfig, code: i32, status: i32)
    ensures
        step(c, NativePhase::Library, NativeEvent::LibraryFailed) == (
            Seq::<NativeCallView>::empty(),
            NativePhase::Failed(NativeError::LibraryNotLoaded),
        ),
        step(c, NativePhase::Camera, NativeEvent::CameraNull).1 == NativePhase::Failed(
            NativeError::CameraNull,
        ),
        code != 0 ==> {
            &&& step(c, NativePhase::StatusCode, NativeEvent::Code(code)).1 == NativePhase::Failed(
                NativeError::StatusCallbackRefused { code },
            )
            &&& step(c, NativePhase::RawDataCode, NativeEvent::Code(code)).1
                == NativePhase::Failed(NativeError::RawDataCallbackRefused { code })
            &&& step(c, NativePhase::StartCode, NativeEvent::Code(code)) == (
                seq![NativeCallView::ReadStatus],
                NativePhase::CameraStatus { result: code },
            )
        },
        step(c, NativePhase::CameraStatus { result: code }, NativeEvent::Code(status)).1
            == NativePhase::Failed(
            NativeError::StartRefused { result: code, camera_status: status },
        ),
        code == 0 ==> {
            &&& !(step(c, NativePhase::StatusCode, NativeEvent::Code(code)).1 is Failed)
            &&& !(step(c, NativePhase::RawDataCode, NativeEvent::Code(code)).1 is Failed)
            &&& step(c, NativePhase::StartCode, NativeEvent::Code(code)) == (
                Seq::<NativeCallView>::empty(),
                NativePhase::Running,
            )
        },
{
}

/// A NUL byte in a text for the library is reported with its position, after the log handler was
/// set and the version was read.
pub proof fn law_nul_is_reported(c: NativeMiotConfig, position: usize)
    requires
        config_nul(c) == Some(position as int),
    ensures
        step(c, NativePhase::Library, NativeEvent::LibraryLoaded) == (
            seq![NativeCallView::SetLogHandler, NativeCallView::ReadVersion],
            NativePhase::Failed(NativeError::InteriorNul { position }),
        ),
{
}

/// The senders are cleared before anything else is released, so that no frame is handed on from a
/// camera that is being freed; and the library is released last.
pub proof fn law_senders_are_cleared_first(
    c: NativeMiotConfig,
    phase: NativePhase,
    event: NativeEvent,
)
    requires
        awaits(phase, event),
        held_in(phase).senders,
        step(c, phase, event).1 is Failed || step(c, phase, event).1 is Released,
    ensures
        step(c, phase, event).0.len() > 0,
        step(c, phase, event).0[0] is ClearSenders,
        step(c, phase, event).0.last() is Deinit,
{
}

/// What each phase waits for: the library, the camera, the code of the last call, or the shutdown.
pub proof fn law_what_is_awaited(event: NativeEvent, result: i32, error: NativeError)
    ensures
        awaits(NativePhase::Library, event) <==> event is LibraryLoaded || event is LibraryFailed,
        awaits(NativePhase::Camera, event) <==> event is CameraMade || event is CameraNull,
        awaits(NativePhase::StatusCode, event) <==> event is Code,
        awaits(NativePhase::RawDataCode, event) <==> event is Code,
        awaits(NativePhase::StartCode, event) <==> event is Code,
        awaits(NativePhase::CameraStatus { result }, event) <==> event is Code,
        awaits(NativePhase::Running, event) <==> event is Shutdown,
        !awaits(NativePhase::Failed(error), event),
        !awaits(NativePhase::Released, event),
{
}

/// The text whose zero byte is reported is the first one that has any: the host, the token, the
/// camera, its model, and then the PIN code.
pub proof fn law_first_bad_text_is_reported(c: NativeMiotConfig, bad: Seq<char>, p: int)
    requires
        ({
            let host = oauth::cloud_host(c.cloud_server@);
            let token = c.access_token@;
            let did = c.camera_id@;
            let model = c.camera_model@;
            ||| bad == host
            ||| bad == token && free_of_zero(host)
            ||| bad == did && free_of_zero(host) && free_of_zero(token)
            ||| bad == model && free_of_zero(host) && free_of_zero(token) && free_of_zero(did)
            ||| text::content(c.pin_code) is Some && bad == c.pin_code->0@ && free_of_zero(host)
                && free_of_zero(token) && free_of_zero(did) && free_of_zero(model)
        }),
        0 <= p < vstd::utf8::encode_utf8(bad).len(),
        vstd::utf8::encode_utf8(bad)[p] == 0,
        forall|i: int| 0 <= i < p ==> #[trigger] vstd::utf8::encode_utf8(bad)[i] != 0,
    ensures
        config_nul(c) == Some(p),
{
    law_first_zero_is_reported(vstd::utf8::encode_utf8(bad), p);
    lemma_first_nul(vstd::utf8::encode_utf8(oauth::cloud_host(c.cloud_server@)), 0);
    lemma_first_nul(vstd::utf8::encode_utf8(c.access_token@), 0);
    lemma_first_nul(vstd::utf8::encode_utf8(c.camera_id@), 0);
    lemma_first_nul(vstd::utf8::encode_utf8(c.camera_model@), 0);
}

/// What a failed start takes back, in order: what hangs on the camera, the log handler, the camera
/// and the library, as far as each is there.
pub proof fn law_failed_start_takes_back(c: NativeMiotConfig, code: i32, result: i32)
    requires
        code != 0,
    ensures
        kinds(step(c, NativePhase::Camera, NativeEvent::CameraNull).0) == seq![
            CallKind::ClearLogHandler,
            CallKind::Deinit,
        ],
        kinds(step(c, NativePhase::StatusCode, NativeEvent::Code(code)).0) == seq![
            CallKind::ClearSenders,
            CallKind::ClearLogHandler,
            CallKind::FreeCamera,
            CallKind::Deinit,
        ],
        kinds(step(c, NativePhase::RawDataCode, NativeEvent::Code(code)).0) == seq![
            CallKind::ClearSenders,
            CallKind::UnregisterStatus,
            CallKind::ClearLogHandler,
            CallKind::FreeCamera,
            CallKind::Deinit,
        ],
        kinds(step(c, NativePhase::CameraStatus { result }, NativeEvent::Code(code)).0) == seq![
            CallKind::ClearSenders,
            CallKind::UnregisterRawData,
            CallKind::UnregisterStatus,
            CallKind::ClearLogHandler,
            CallKind::FreeCamera,
            CallKind::Deinit,
        ],
        step(c, NativePhase::CameraStatus { result }, NativeEvent::Code(0)).0 == step(
            c,
            NativePhase::CameraStatus { result },
            NativeEvent::Code(code),
        ).0,
{
    assert(kinds(step(c, NativePhase::Camera, NativeEvent::CameraNull).0) =~= seq![
        CallKind::ClearLogHandler,
        CallKind::Deinit,
    ]);
    assert(kinds(step(c, NativePhase::StatusCode, NativeEvent::Code(code)).0) =~= seq![
        CallKind::ClearSenders,
        CallKind::ClearLogHandler,
        CallKind::FreeCamera,
        CallKind::Deinit,
    ]);
    assert(kinds(step(c, NativePhase::RawDataCode, NativeEvent::Code(code)).0) =~= seq![
        CallKind::ClearSenders,
        CallKind::UnregisterStatus,
        CallKind::ClearLogHandler,
        CallKind::FreeCamera,
        CallKind::Deinit,
    ]);
    assert(kinds(step(c, NativePhase::CameraStatus { result }, NativeEvent::Code(code)).0) =~= seq![
        CallKind::ClearSenders,
        CallKind::UnregisterRawData,
        CallKind::UnregisterStatus,
        CallKind::ClearLogHandler,
        CallKind::FreeCamera,
        CallKind::Deinit,
    ]);
}

/// A failed start is told with what it concerns: the numbers that do not fit, the library that was
/// looked for, the position of the zero, the code that came back, and the settings without their
/// secrets.
pub proof fn law_failed_starts_are_told(
    c: NativeMiotConfig,
    channel: u8,
    channel_count: u8,
    position: usize,
    code: i32,
    camera_status: i32,
)
    ensures
        (NativeError::ChannelOutsideCount { channel, channel_count }).text(c) == "STREAM_CHANNEL "@
            + numbers::decimal(channel as nat) + " is outside MIOT_CHANNEL_COUNT "@
            + numbers::decimal(channel_count as nat),
        NativeError::LibraryNotLoaded.text(c) == "failed to load MIoT camera library: "@
            + paths::path_text(c.lib_path),
        (NativeError::InteriorNul { position }).text(c)
            == "nul byte found in provided data at position: "@ + numbers::decimal(
            position as nat,
        ),
        NativeError::CameraNull.text(c) == "miot_camera_new returned null. config: "@
            + c.summary(),
        (NativeError::StatusCallbackRefused { code }).text(c)
            == "miot_camera_register_status_changed failed: "@ + numbers::signed_decimal(
            code as int,
        ),
        (NativeError::RawDataCallbackRefused { code }).text(c)
            == "miot_camera_register_raw_data failed: "@ + numbers::signed_decimal(code as int),
        (NativeError::StartRefused { result: code, camera_status }).text(c)
            == native_miot::start_error_text(code, camera_status, c.summary()),
{
}

/// A setting that is missing is named.
pub proof fn law_missing_settings_are_named(c: NativeMiotConfig)
    ensures
        NativeError::MissingAccessToken.text(c) == "MIOT_ACCESS_TOKEN is required in native mode"@,
        NativeError::MissingCameraId.text(c) == "CAMERA_ID is required in native mode"@,
        NativeError::MissingCameraModel.text(c) == "MIOT_CAMERA_MODEL is required in native mode"@,
{
}

/// The library is asked for the configured camera with the configured token, for a stream in the
/// configured quality on each channel, with the audio setting and the PIN code as they are
/// configured, and frames wait in a queue of the configured length; a count or a length of zero
/// counts as one.
pub proof fn law_what_the_library_is_asked(
    c: NativeMiotConfig,
    events: Seq<NativeEvent>,
    i: int,
    k: int,
)
    requires
        run_phase(c, events) is Some,
        0 <= i < run_calls(c, events).len(),
    ensures
        run_calls(c, events)[i] matches NativeCallView::Init {
            host: _,
            client_id: _,
            access_token,
        } ==> access_token == c.access_token@,
        run_calls(c, events)[i] matches NativeCallView::NewCamera { did, model, channel_count }
            ==> did == c.camera_id@ && model == c.camera_model@ && (if c.channel_count == 0 {
            channel_count == 1
        } else {
            channel_count == c.channel_count
        }),
        run_calls(c, events)[i] matches NativeCallView::InstallSenders { capacity } ==> (
        if c.queue_capacity == 0 {
            capacity == 1
        } else {
            capacity == c.queue_capacity
        }),
        run_calls(c, events)[i] matches NativeCallView::UnregisterRawData { channel } ==> channel
            == c.channel,
        run_calls(c, events)[i] matches NativeCallView::StartStream {
            qualities,
            enable_audio,
            pin_code: _,
        } ==> qualities.len() >= 2 && (c.channel_count > 0 ==> qualities.len() == c.channel_count
            + 1) && qualities[qualities.len() - 1] == 0 && (0 <= k < qualities.len() - 1
            ==> qualities[k] == c.video_quality) && enable_audio == c.enable_audio,
        run_calls(c, events)[i] matches NativeCallView::StartStream {
            qualities: _,
            enable_audio: _,
            pin_code,
        } ==> match c.pin_code {
            Some(pin) => if text::is_blank(pin@) {
                pin_code is None
            } else {
                pin_code == Some(pin@)
            },
            None => pin_code is None,
        },
{
    law_calls_carry_the_configuration(c, events, i);
}

} // verus!
