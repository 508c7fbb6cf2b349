//! Bridges Xiaomi cameras to RTSP.
//!
//! The library holds the decisions of the bridge as verified functions on plain
//! values; the program around it performs the network, process and file work.
#![allow(unused_imports)]

pub mod bridge;
pub mod cli;
pub mod digest;
pub mod exchange_flow;
pub mod ffmpeg;
pub mod headers;
pub mod json;
pub mod lifetime;
pub mod link;
pub mod miloco;
pub mod nal;
pub mod native_miot;
pub mod native_start;
pub mod numbers;
pub mod oauth;
pub mod oauth_server;
pub mod pages;
pub mod paths;
pub mod probe;
pub mod remote_login;
pub mod text;
pub mod token_flow;

pub use bridge::{BridgeConfig, BridgeMode, RtspBridge};
pub use ffmpeg::{build_ffmpeg_args, FfmpegOptions};
pub use nal::is_keyframe;
