use moq_xr::pose::{PoseEvent, PoseGate, PoseStep, SessionPhase, UNFOCUSED_WAIT_MS};
use moq_xr::tracks::{
    heartbeat_name, heartbeat_payload, pose_broadcast_path, pose_track, video_track,
    HEARTBEAT_INTERVAL_SECS,
};

#[test]
fn gate_samples_only_when_focused() {
    let mut g = PoseGate::new();
    assert_eq!(g.phase, SessionPhase::Idle);
    assert_eq!(g.next_step(), PoseStep::Wait(100));
    g.on_event(PoseEvent::SessionStateChanged(SessionPhase::Focused));
    g.on_event(PoseEvent::Other);
    assert_eq!(g.phase, SessionPhase::Focused);
    assert_eq!(g.next_step(), PoseStep::Sample);
    g.on_event(PoseEvent::SessionStateChanged(SessionPhase::Visible));
    assert_eq!(g.next_step(), PoseStep::Wait(UNFOCUSED_WAIT_MS));
    g.on_event(PoseEvent::SessionStateChanged(SessionPhase::Stopping));
    assert_eq!(g.next_step(), PoseStep::Wait(100));
}

#[test]
fn pose_path_names_viewer() {
    assert_eq!(pose_broadcast_path("local"), "pose/local");
    assert_eq!(pose_broadcast_path(""), "pose/");
    assert_eq!(pose_broadcast_path("quest-3"), "pose/quest-3");
}

#[test]
fn track_specs() {
    let v = video_track();
    assert_eq!((v.name.as_str(), v.priority), ("video", 1));
    let p = pose_track();
    assert_eq!((p.name.as_str(), p.priority), ("pose", 10));
}

#[test]
fn other_events_keep_idle() {
    let mut g = PoseGate::new();
    g.on_event(PoseEvent::Other);
    g.on_event(PoseEvent::Other);
    assert_eq!(g.phase, SessionPhase::Idle);
    assert_eq!(g.next_step(), PoseStep::Wait(100));
}

#[test]
fn heartbeat_spec() {
    assert_eq!(heartbeat_name(), "heartbeat");
    assert_eq!(heartbeat_payload(), b"heartbeat".to_vec());
    assert_eq!(HEARTBEAT_INTERVAL_SECS, 15);
}
