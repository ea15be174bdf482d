//! The names and priorities under which the node publishes its tracks.

use vstd::prelude::*;
use vstd::string::*;

verus! {

/// A track to publish: its name and its delivery priority (higher first).
pub struct TrackSpec {
    pub name: String,
    pub priority: u8,
}

/// Name of the video track.
pub fn video_track_name() -> (name: String)
    ensures
        name@ == "video"@,
{
    String::from_str("video")
}

/// The video track, at priority 1.
pub fn video_track() -> (track: TrackSpec)
    ensures
        track.name@ == "video"@,
        track.priority == 1,
{
    TrackSpec { name: video_track_name(), priority: 1 }
}

/// The pose track, at priority 10: poses go before video.
pub fn pose_track() -> (track: TrackSpec)
    ensures
        track.name@ == "pose"@,
        track.priority == 10,
{
    TrackSpec { name: String::from_str("pose"), priority: 10 }
}

/// Path of the broadcast that carries the poses of `viewer_id`.
pub fn pose_broadcast_path(viewer_id: &str) -> (path: String)
    ensures
        path@ == "pose/"@ + viewer_id@,
{
    let mut path = String::from_str("pose/");
    path.append(viewer_id);
    path
}

/// Seconds between two heartbeats.
pub const HEARTBEAT_INTERVAL_SECS: u64 = 15;

/// Name of the heartbeat broadcast and of its one track.
pub fn heartbeat_name() -> (name: String)
    ensures
        name@ == "heartbeat"@,
{
    String::from_str("heartbeat")
}

/// The one frame of every heartbeat group: the ASCII bytes of `heartbeat`.
pub fn heartbeat_payload() -> (payload: Vec<u8>)
    ensures
        payload@ == seq![104u8, 101u8, 97u8, 114u8, 116u8, 98u8, 101u8, 97u8, 116u8],
{
    vec![104u8, 101u8, 97u8, 114u8, 116u8, 98u8, 101u8, 97u8, 116u8]
}

} // verus!
