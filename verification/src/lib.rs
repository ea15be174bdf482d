//! Verified core of a Media-over-QUIC XR streaming node: the device wire
//! framing, the bridge's routing decisions, the video group scheduling and the
//! synthetic test-pattern frames.

pub mod bridge;
pub mod config;
pub mod encoder;
pub mod framing;
pub mod pose;
pub mod relay;
pub mod tracks;
pub mod video;
