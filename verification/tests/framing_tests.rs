use moq_xr::framing::{pose_up_payload, split_tag, tagged, TAG_POSE_DOWN, TAG_POSE_UP, TAG_VIDEO};

#[test]
fn tagged_prepends_tag() {
    assert_eq!(tagged(TAG_VIDEO, &[9, 8, 7]), vec![0x01, 9, 8, 7]);
    assert_eq!(tagged(TAG_POSE_DOWN, &[]), vec![0x02]);
}

#[test]
fn split_tag_of_empty_is_none() {
    assert_eq!(split_tag(&[]), None);
}

#[test]
fn split_tag_separates_first_byte() {
    assert_eq!(split_tag(&[3, 1, 2]), Some((3, vec![1, 2])));
    assert_eq!(split_tag(&[5]), Some((5, vec![])));
}

#[test]
fn split_undoes_tagged() {
    let payload = vec![0u8, 255, 17, 3];
    let framed = tagged(TAG_POSE_UP, &payload);
    assert_eq!(split_tag(&framed), Some((TAG_POSE_UP, payload)));
}

#[test]
fn tagged_undoes_split() {
    let data = vec![2u8, 4, 6, 8];
    let (t, p) = split_tag(&data).unwrap();
    assert_eq!(tagged(t, &p), data);
}

#[test]
fn pose_up_payload_only_for_pose_up_tag() {
    assert_eq!(pose_up_payload(&[TAG_POSE_UP, 10, 11]), Some(vec![10, 11]));
    assert_eq!(pose_up_payload(&[TAG_POSE_UP]), Some(vec![]));
    assert_eq!(pose_up_payload(&[TAG_VIDEO, 10, 11]), None);
    assert_eq!(pose_up_payload(&[]), None);
}

#[test]
fn tag_values() {
    assert_eq!(TAG_VIDEO, 0x01);
    assert_eq!(TAG_POSE_DOWN, 0x02);
    assert_eq!(TAG_POSE_UP, 0x03);
}
