use moq_xr::config::VideoConfig;
use moq_xr::encoder::FrameEncoder;
use moq_xr::video::{
    encoder_settings, frame_interval_ms, is_keyframe, synthetic_frame, synthetic_frame_data,
    video_rendition, FrameKind, GroupCursor, GroupPlan, RenditionContainer, VideoError, H264_CONSTRAINTS, H264_LEVEL,
    H264_PROFILE,
};
use openh264::encoder::{Encoder, EncoderConfig};
use openh264::formats::YUVSource;
use openh264::OpenH264API;

#[test]
fn synthetic_data_layout() {
    let d = synthetic_frame_data(4, 2, 3);
    assert_eq!(d.len(), 12);
    assert_eq!(&d[..8], &[3u8; 8]);
    assert_eq!(&d[8..], &[128u8; 4]);
}

#[test]
fn synthetic_luma_wraps_at_256() {
    let a = synthetic_frame_data(2, 2, 5);
    let b = synthetic_frame_data(2, 2, 261);
    assert_eq!(a, b);
    assert_eq!(synthetic_frame_data(2, 2, 255)[0], 255);
    assert_eq!(synthetic_frame_data(2, 2, 256)[0], 0);
}

#[test]
fn synthetic_empty_frame() {
    assert!(synthetic_frame_data(0, 0, 1).is_empty());
}

#[test]
fn synthetic_frame_buffer_planes() {
    let f = synthetic_frame(4, 2, 300);
    assert_eq!(f.dimensions(), (4, 2));
    assert_eq!(f.y(), &[44u8; 8]);
    assert_eq!(f.u(), &[128u8; 2]);
    assert_eq!(f.v(), &[128u8; 2]);
}

#[test]
fn keyframe_kinds() {
    assert!(is_keyframe(FrameKind::Idr));
    assert!(is_keyframe(FrameKind::I));
    assert!(!is_keyframe(FrameKind::P));
    assert!(!is_keyframe(FrameKind::Skip));
    assert!(!is_keyframe(FrameKind::IPMixed));
    assert!(!is_keyframe(FrameKind::Invalid));
}

#[test]
fn frames_before_first_keyframe_are_dropped() {
    let mut c = GroupCursor::new();
    let p = c.advance(FrameKind::P);
    assert_eq!(p, GroupPlan { finish_previous: false, start_group: false, write_frame: false });
    assert!(!c.group_open);
    assert_eq!(c.frame_idx, 1);
}

#[test]
fn keyframes_rotate_groups() {
    let mut c = GroupCursor::new();
    let first = c.advance(FrameKind::Idr);
    assert_eq!(first, GroupPlan { finish_previous: false, start_group: true, write_frame: true });
    let delta = c.advance(FrameKind::P);
    assert_eq!(delta, GroupPlan { finish_previous: false, start_group: false, write_frame: true });
    let next = c.advance(FrameKind::I);
    assert_eq!(next, GroupPlan { finish_previous: true, start_group: true, write_frame: true });
    assert_eq!(c.frame_idx, 3);
    assert!(c.group_open);
}

#[test]
fn interval_between_frames() {
    assert_eq!(frame_interval_ms(30), 33);
    assert_eq!(frame_interval_ms(1), 1000);
    assert_eq!(frame_interval_ms(2000), 0);
}

fn config() -> VideoConfig {
    VideoConfig { width: 1280, height: 720, fps: 30, bitrate: 2_000_000 }
}

#[test]
fn encoder_settings_follow_config() {
    let s = encoder_settings(&config());
    assert_eq!(s.bitrate_bps, 2_000_000);
    assert_eq!(s.max_frame_rate_hz, 30);
    assert_eq!(s.intra_frame_period, 30);
}

#[test]
fn rendition_follows_config() {
    let r = video_rendition(&config());
    assert_eq!(r.track_name, "video");
    assert_eq!((r.profile, r.constraints, r.level), (0x4D, 0x00, 0x1F));
    assert_eq!((H264_PROFILE, H264_CONSTRAINTS, H264_LEVEL), (0x4D, 0x00, 0x1F));
    assert!(r.inline);
    assert_eq!((r.coded_width, r.coded_height), (1280, 720));
    assert_eq!(r.framerate, 30);
    assert_eq!(r.bitrate, 2_000_000);
    assert!(r.optimize_for_latency);
    assert_eq!(r.container, RenditionContainer::Legacy);
    assert!(r.description.is_none());
    assert_eq!((r.display_ratio_width, r.display_ratio_height), (None, None));
    assert_eq!(r.jitter, None);
}

fn encoder() -> FrameEncoder {
    FrameEncoder::new(Encoder::with_api_config(OpenH264API::from_source(), EncoderConfig::new()).unwrap())
}

#[test]
fn first_encoded_frame_opens_a_group() {
    let mut enc = encoder();
    let mut c = GroupCursor::new();
    let step = c.encode_next(&mut enc, 64, 64, 0).ok().expect("encoding failed");
    assert!(is_keyframe(step.kind));
    assert_eq!(step.plan, GroupPlan { finish_previous: false, start_group: true, write_frame: true });
    assert!(!step.payload.is_empty());
    assert_eq!(c.frame_idx, 1);
    assert!(c.group_open);
}

#[test]
fn oversized_frame_is_an_encoder_error() {
    let mut enc = encoder();
    let mut c = GroupCursor::new();
    match c.encode_next(&mut enc, 3842, 2, 0) {
        Err(VideoError::Encode(_)) => {}
        Ok(_) => panic!("oversized frame encoded"),
    }
    assert_eq!(c.frame_idx, 0);
    assert!(!c.group_open);
}

#[test]
fn encoder_accepts_consecutive_frames() {
    let mut enc = encoder();
    let mut c = GroupCursor::new();
    let mut opened = 0;
    for ms in 0..5u64 {
        let step = c.encode_next(&mut enc, 32, 32, ms * 33).ok().expect("encoding failed");
        if step.plan.start_group {
            opened += 1;
        }
        assert!(step.plan.write_frame);
    }
    assert_eq!(c.frame_idx, 5);
    assert!(opened >= 1);
}
