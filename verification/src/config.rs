//! The node's settings, as read from its configuration file.

use vstd::prelude::*;

verus! {

/// Where the relay is and how to reach it.
pub struct RelayConfig {
    pub url: String,
    pub disable_tls_verify: bool,
}

/// The synthetic video stream's geometry and rate.
pub struct VideoConfig {
    pub width: u32,
    pub height: u32,
    pub fps: u32,
    pub bitrate: u32,
}

/// The pose stream: its rate, whose head it follows, and whether it is generated.
pub struct PoseConfig {
    pub hz: u32,
    pub viewer_id: String,
    pub synthetic: bool,
}

/// The websocket bridge towards the headset.
pub struct BridgeConfig {
    pub bind: String,
}

/// All settings of the node.
pub struct Config {
    pub relay: RelayConfig,
    pub video: VideoConfig,
    pub pose: PoseConfig,
    pub bridge: BridgeConfig,
}

} // verus!
