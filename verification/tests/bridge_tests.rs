use moq_xr::bridge::{
    bridge_step, classify_announcement, local_pose_path, AnnouncedTrack, BridgeAction, BridgeError,
    BridgeEvent, BroadcastSlots, DeviceInput, DeviceSession,
};

fn s(x: &str) -> String {
    x.to_string()
}

#[test]
fn classify_paths() {
    assert_eq!(classify_announcement(&s("")), AnnouncedTrack::Video);
    assert_eq!(classify_announcement(&s("pose/local")), AnnouncedTrack::Pose);
    assert_eq!(classify_announcement(&s("pose/remote")), AnnouncedTrack::Other);
    assert_eq!(classify_announcement(&s("heartbeat")), AnnouncedTrack::Other);
    assert_eq!(local_pose_path(), "pose/local");
}

#[test]
fn slots_fill_in_any_order() {
    let mut slots: BroadcastSlots<u32> = BroadcastSlots::new();
    assert!(!slots.is_complete());
    assert_eq!(slots.on_announced(Some((s("pose/local"), Some(7)))), Ok(false));
    assert_eq!(slots.on_announced(Some((s("heartbeat"), Some(1)))), Ok(false));
    assert_eq!(slots.on_announced(Some((s(""), Some(3)))), Ok(true));
    assert_eq!(slots.video, Some(3));
    assert_eq!(slots.pose, Some(7));
}

#[test]
fn latest_announcement_wins() {
    let mut slots: BroadcastSlots<u32> = BroadcastSlots::new();
    slots.record(&s(""), Some(1));
    slots.record(&s(""), None);
    assert_eq!(slots.video, None);
    slots.record(&s(""), Some(2));
    assert_eq!(slots.video, Some(2));
    assert_eq!(slots.pose, None);
}

#[test]
fn unrelated_paths_change_nothing() {
    let mut slots: BroadcastSlots<u32> = BroadcastSlots::new();
    slots.record(&s("pose/remote"), Some(9));
    slots.record(&s("pose/local/extra"), Some(9));
    assert_eq!(slots.video, None);
    assert_eq!(slots.pose, None);
}

#[test]
fn relay_gone_is_an_error() {
    let mut slots: BroadcastSlots<u32> = BroadcastSlots::new();
    slots.record(&s(""), Some(1));
    assert_eq!(slots.on_announced(None), Err(BridgeError::RelayDisconnected));
    assert_eq!(slots.video, Some(1));
}

#[test]
fn video_frame_goes_down_tagged() {
    match bridge_step(BridgeEvent::VideoFrame(Some(vec![5, 6]))) {
        BridgeAction::SendToDevice(b) => assert_eq!(b, vec![0x01, 5, 6]),
        _ => panic!("video frame not sent"),
    }
}

#[test]
fn pose_frame_goes_down_tagged() {
    match bridge_step(BridgeEvent::PoseFrame(Some(vec![1]))) {
        BridgeAction::SendToDevice(b) => assert_eq!(b, vec![0x02, 1]),
        _ => panic!("pose frame not sent"),
    }
}

#[test]
fn ended_tracks_stop_the_session() {
    assert!(matches!(bridge_step(BridgeEvent::VideoFrame(None)), BridgeAction::Stop));
    assert!(matches!(bridge_step(BridgeEvent::PoseFrame(None)), BridgeAction::Stop));
}

#[test]
fn device_pose_goes_up_untagged() {
    match bridge_step(BridgeEvent::Device(DeviceInput::Binary(vec![0x03, 42, 43]))) {
        BridgeAction::ForwardPoseUp(p) => assert_eq!(p, vec![42, 43]),
        _ => panic!("pose not forwarded"),
    }
}

#[test]
fn other_device_messages_are_ignored() {
    assert!(matches!(
        bridge_step(BridgeEvent::Device(DeviceInput::Binary(vec![0x01, 42]))),
        BridgeAction::Ignore
    ));
    assert!(matches!(
        bridge_step(BridgeEvent::Device(DeviceInput::Binary(vec![]))),
        BridgeAction::Ignore
    ));
    assert!(matches!(bridge_step(BridgeEvent::Device(DeviceInput::Other)), BridgeAction::Ignore));
}

#[test]
fn device_close_or_end_stops() {
    assert!(matches!(bridge_step(BridgeEvent::Device(DeviceInput::Close)), BridgeAction::Stop));
    assert!(matches!(bridge_step(BridgeEvent::Device(DeviceInput::Ended)), BridgeAction::Stop));
}

#[test]
fn session_step_acts_like_bridge_step() {
    let mut session = DeviceSession::new();
    match session.step(BridgeEvent::VideoFrame(Some(vec![7]))) {
        BridgeAction::SendToDevice(b) => assert_eq!(b, vec![0x01, 7]),
        _ => panic!("video frame not sent"),
    }
    match session.step(BridgeEvent::PoseFrame(Some(vec![8, 9]))) {
        BridgeAction::SendToDevice(b) => assert_eq!(b, vec![0x02, 8, 9]),
        _ => panic!("pose frame not sent"),
    }
    match session.step(BridgeEvent::Device(DeviceInput::Binary(vec![0x03, 1]))) {
        BridgeAction::ForwardPoseUp(p) => assert_eq!(p, vec![1]),
        _ => panic!("pose not forwarded"),
    }
    assert!(matches!(session.step(BridgeEvent::Device(DeviceInput::Close)), BridgeAction::Stop));
}
