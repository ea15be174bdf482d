//! The synthetic video stream: test-pattern frames, their encoding, the
//! grouping of encoded frames behind keyframes, and the catalog entry that
//! announces the stream.

use crate::config::VideoConfig;
use crate::tracks::video_track_name;
use crate::encoder::{exceeds_encoder_limit, FedFrame, FrameEncoder};
use openh264::formats::YUVBuffer;
use vstd::prelude::*;

verus! {

#[verifier::external_type_specification]
#[verifier::external_body]
pub struct ExYUVBuffer(YUVBuffer);

/// The bytes that a `YUVBuffer` holds, Y plane first, then U, then V.
pub uninterp spec fn yuv_buffer_bytes(frame: YUVBuffer) -> Seq<u8>;

/// The `(width, height)` that a `YUVBuffer` was made with.
pub uninterp spec fn yuv_buffer_dimensions(frame: YUVBuffer) -> (usize, usize);

/// `openh264::formats::YUVBuffer::from_vec`: asserts that both dimensions are
/// even and that the vector holds `3 * (width * height) / 2` bytes, then keeps
/// the vector and the dimensions unchanged.
#[verifier::external_body]
fn yuv_buffer_from_vec(data: Vec<u8>, width: usize, height: usize) -> (frame: YUVBuffer)
    requires
        width % 2 == 0,
        height % 2 == 0,
        3 * (width * height) <= usize::MAX,
        data@.len() == 3 * (width * height) / 2,
    ensures
        yuv_buffer_bytes(frame) == data@,
        yuv_buffer_dimensions(frame) == (width, height),
{
    YUVBuffer::from_vec(data, width, height)
}

/// The kind of frame that the H.264 encoder produced.
#[derive(PartialEq, Eq, Structural, Clone, Copy, Debug)]
pub enum FrameKind {
    Invalid,
    Idr,
    I,
    P,
    Skip,
    IPMixed,
}

/// A keyframe is an IDR or an I frame: a decoder can start there.
pub open spec fn is_keyframe_kind(kind: FrameKind) -> bool {
    kind == FrameKind::Idr || kind == FrameKind::I
}

/// Whether a frame of this kind starts a new group.
pub fn is_keyframe(kind: FrameKind) -> (key: bool)
    ensures
        key == is_keyframe_kind(kind),
{
    match kind {
        FrameKind::Idr | FrameKind::I => true,
        _ => false,
    }
}

/// The luma value of every pixel of synthetic frame number `idx`.
pub open spec fn synthetic_luma(idx: u64) -> u8 {
    (idx % 256) as u8
}

/// The bytes of synthetic frame number `idx` in I420 layout: a Y plane of
/// `width * height` bytes all equal to the frame's luma, then neutral
/// chroma (128) up to `3 * width * height / 2` bytes.
pub open spec fn synthetic_frame_bytes(width: nat, height: nat, idx: u64) -> Seq<u8> {
    Seq::new(
        (3 * width * height / 2) as nat,
        |i: int|
            if i < width * height {
                synthetic_luma(idx)
            } else {
                128u8
            },
    )
}

/// The raw I420 bytes of synthetic frame number `idx`.
pub fn synthetic_frame_data(width: usize, height: usize, idx: u64) -> (data: Vec<u8>)
    requires
        3 * width <= usize::MAX,
        3 * width * height <= usize::MAX,
    ensures
        data@ == synthetic_frame_bytes(width as nat, height as nat, idx),
        data@.len() == 3 * width * height / 2,
        forall|i: int| 0 <= i < width * height ==> #[trigger] data@[i] == (idx % 256) as u8,
        forall|i: int| width * height <= i < data@.len() ==> #[trigger] data@[i] == 128u8,
{
    let luma: u8 = (idx % 256) as u8;
    let wide: usize = 3 * width;
    assert(wide * height == 3 * width * height) by (nonlinear_arith)
        requires
            wide == 3 * width,
    ;
    let total: usize = wide * height / 2;
    assert(width * height <= 3 * width * height) by (nonlinear_arith)
        requires
            width >= 0,
            height >= 0,
    ;
    let plane: usize = width * height;
    let mut data: Vec<u8> = Vec::with_capacity(total);
    let mut i: usize = 0;
    while i < total
        invariant
            i <= total,
            total == 3 * width * height / 2,
            plane == width * height,
            luma == synthetic_luma(idx),
            data@.len() == i,
            forall|j: int|
                0 <= j < i ==> #[trigger] data@[j] == synthetic_frame_bytes(
                    width as nat,
                    height as nat,
                    idx,
                )[j],
        decreases total - i,
    {
        if i < plane {
            data.push(luma);
        } else {
            data.push(128u8);
        }
        i = i + 1;
    }
    assert(data@ == synthetic_frame_bytes(width as nat, height as nat, idx));
    assert(width * height <= 3 * width * height / 2) by (nonlinear_arith)
        requires
            width >= 0,
            height >= 0,
    ;
    data
}

/// Synthetic frame number `idx`, as the encoder takes it.
pub fn synthetic_frame(width: usize, height: usize, idx: u64) -> (frame: YUVBuffer)
    requires
        width % 2 == 0,
        height % 2 == 0,
        3 * width <= usize::MAX,
        3 * width * height <= usize::MAX,
    ensures
        yuv_buffer_bytes(frame) == synthetic_frame_bytes(width as nat, height as nat, idx),
        yuv_buffer_dimensions(frame) == (width, height),
{
    let data = synthetic_frame_data(width, height, idx);
    assert(3 * (width * height) == 3 * width * height) by (nonlinear_arith);
    yuv_buffer_from_vec(data, width, height)
}

/// Why producing the next video frame failed.
pub enum VideoError {
    /// The H.264 encoder refused the frame.
    Encode(openh264::Error),
}

/// What the broadcaster does with one encoded frame.
#[derive(PartialEq, Eq, Structural, Clone, Copy, Debug)]
pub struct GroupPlan {
    /// Finish the group that is open.
    pub finish_previous: bool,
    /// Open a new group before writing.
    pub start_group: bool,
    /// Write the frame into the open group.
    pub write_frame: bool,
}

/// The plan for a frame of `kind` when a group is open or not: a keyframe
/// finishes the open group, if any, and starts a new one; a frame is written
/// whenever a group is open once the keyframe rule has run.
pub open spec fn plan_for(group_open: bool, kind: FrameKind) -> GroupPlan {
    GroupPlan {
        finish_previous: is_keyframe_kind(kind) && group_open,
        start_group: is_keyframe_kind(kind),
        write_frame: is_keyframe_kind(kind) || group_open,
    }
}

/// The frames of `groups`, one group after another.
pub open spec fn concat_groups(groups: Seq<Seq<FrameKind>>) -> Seq<FrameKind>
    decreases groups.len(),
{
    if groups.len() == 0 {
        Seq::empty()
    } else {
        concat_groups(groups.drop_last()) + groups.last()
    }
}

/// A group as the broadcaster writes it: a keyframe, then the frames up to
/// the next keyframe, none of which is one.
pub open spec fn group_shape(group: Seq<FrameKind>) -> bool {
    &&& group.len() > 0
    &&& is_keyframe_kind(group[0])
    &&& forall|j: int| 1 <= j < group.len() ==> !is_keyframe_kind(#[trigger] group[j])
}

/// Where the video loop stands: the number of the next synthetic frame and
/// whether a group is open for the frames to go into. The ghost fields
/// record the frames so far: those dropped before the first keyframe, the
/// groups they went into, and how many groups were finished.
pub struct GroupCursor {
    pub frame_idx: u64,
    pub group_open: bool,
    pub dropped: Ghost<Seq<FrameKind>>,
    pub groups: Ghost<Seq<Seq<FrameKind>>>,
    pub finished: Ghost<nat>,
}

/// One encoded frame and what to do with it.
pub struct VideoStep {
    pub kind: FrameKind,
    pub plan: GroupPlan,
    pub payload: Vec<u8>,
}

impl GroupCursor {
    /// The cursor's record holds together: no keyframe was dropped, a group
    /// is open exactly when one was started, every group starts with its
    /// only keyframe, and every group but the open one was finished.
    pub open spec fn wf(&self) -> bool {
        &&& forall|i: int| 0 <= i < self.dropped@.len() ==> !is_keyframe_kind(#[trigger] self.dropped@[i])
        &&& self.group_open == (self.groups@.len() > 0)
        &&& forall|k: int| 0 <= k < self.groups@.len() ==> group_shape(#[trigger] self.groups@[k])
        &&& self.finished@ == (if self.group_open { self.groups@.len() - 1 } else { 0 })
    }

    /// Every frame taken into account so far, in encode order: the dropped
    /// ones, then the groups' frames.
    pub open spec fn history(&self) -> Seq<FrameKind> {
        self.dropped@ + concat_groups(self.groups@)
    }

    /// The loop before its first frame: frame 0 next, no group open.
    pub fn new() -> (cursor: GroupCursor)
        ensures
            cursor.frame_idx == 0,
            !cursor.group_open,
            cursor.wf(),
            cursor.history() == Seq::<FrameKind>::empty(),
    {
        let cursor = GroupCursor {
            frame_idx: 0,
            group_open: false,
            dropped: Ghost(Seq::empty()),
            groups: Ghost(Seq::empty()),
            finished: Ghost(0),
        };
        assert(cursor.history() =~= Seq::<FrameKind>::empty());
        cursor
    }

    /// Takes one encoded frame of `kind` into account: returns what to do
    /// with it, and moves on to the next frame number. A keyframe starts a
    /// new group (finishing the open one), another frame joins the open
    /// group, and a frame before the first keyframe is dropped.
    pub fn advance(&mut self, kind: FrameKind) -> (plan: GroupPlan)
        requires
            old(self).frame_idx < u64::MAX,
            old(self).wf(),
        ensures
            plan == plan_for(old(self).group_open, kind),
            plan.start_group == (kind == FrameKind::Idr || kind == FrameKind::I),
            plan.finish_previous == (old(self).group_open && (kind == FrameKind::Idr || kind
                == FrameKind::I)),
            plan.write_frame == (old(self).group_open || kind == FrameKind::Idr || kind
                == FrameKind::I),
            final(self).group_open == (old(self).group_open || is_keyframe_kind(kind)),
            final(self).frame_idx == old(self).frame_idx + 1,
            final(self).wf(),
            final(self).history() == old(self).history().push(kind),
            final(self).finished@ == old(self).finished@ + (if plan.finish_previous { 1nat } else { 0nat }),
            if is_keyframe_kind(kind) {
                &&& final(self).groups@ == old(self).groups@.push(seq![kind])
                &&& final(self).dropped@ == old(self).dropped@
            } else if old(self).group_open {
                &&& final(self).groups@ == old(self).groups@.update(
                    old(self).groups@.len() - 1,
                    old(self).groups@.last().push(kind),
                )
                &&& final(self).dropped@ == old(self).dropped@
            } else {
                &&& final(self).groups@ == old(self).groups@
                &&& final(self).dropped@ == old(self).dropped@.push(kind)
            },
    {
        let key = is_keyframe(kind);
        let plan = GroupPlan {
            finish_previous: key && self.group_open,
            start_group: key,
            write_frame: key || self.group_open,
        };
        let ghost old_groups = self.groups@;
        let ghost old_dropped = self.dropped@;
        if key {
            proof {
                let g = seq![kind];
                assert(group_shape(g));
                let gs = old_groups.push(g);
                assert(gs.drop_last() =~= old_groups);
                assert(old_dropped + concat_groups(gs) =~= (old_dropped + concat_groups(
                    old_groups,
                )).push(kind));
                self.groups@ = gs;
                if self.group_open {
                    self.finished@ = self.finished@ + 1;
                }
            }
            self.group_open = true;
        } else if self.group_open {
            proof {
                let n = old_groups.len() - 1;
                let g = old_groups.last().push(kind);
                assert(group_shape(old_groups[n]));
                assert(group_shape(g));
                let gs = old_groups.update(n, g);
                assert(gs.drop_last() =~= old_groups.drop_last());
                assert(old_dropped + concat_groups(gs) =~= (old_dropped + concat_groups(
                    old_groups,
                )).push(kind));
                assert forall|k: int| 0 <= k < gs.len() implies group_shape(#[trigger] gs[k]) by {
                    if k != n {
                        assert(gs[k] == old_groups[k]);
                    }
                }
                self.groups@ = gs;
            }
        } else {
            proof {
                let d = old_dropped.push(kind);
                assert(old_groups.len() == 0);
                assert(d + concat_groups(old_groups) =~= (old_dropped + concat_groups(
                    old_groups,
                )).push(kind));
                assert forall|i: int| 0 <= i < d.len() implies !is_keyframe_kind(#[trigger] d[i]) by {
                    if i < old_dropped.len() {
                        assert(d[i] == old_dropped[i]);
                    }
                }
                self.dropped@ = d;
            }
        }
        self.frame_idx = self.frame_idx + 1;
        plan
    }

    /// Renders the next synthetic frame, has `encoder` encode it at
    /// `elapsed_ms`, and plans what to do with the result. On an encoder
    /// error the cursor stays where it was.
    pub fn encode_next(
        &mut self,
        encoder: &mut FrameEncoder,
        width: usize,
        height: usize,
        elapsed_ms: u64,
    ) -> (res: Result<VideoStep, VideoError>)
        requires
            old(self).frame_idx < u64::MAX,
            width % 2 == 0,
            height % 2 == 0,
            3 * width <= usize::MAX,
            3 * width * height <= usize::MAX,
            elapsed_ms <= i64::MAX as u64,
            old(self).wf(),
        ensures
            final(self).wf(),
            final(encoder).fed() == old(encoder).fed().push(
                (
                    synthetic_frame_bytes(width as nat, height as nat, old(self).frame_idx),
                    (width, height),
                    elapsed_ms,
                ),
            ),
            exceeds_encoder_limit(width, height) ==> res is Err,
            fed_synthetic_in_order(old(encoder).fed(), width, height) && old(encoder).fed().len()
                == old(self).frame_idx ==> fed_synthetic_in_order(final(encoder).fed(), width, height),
            match res {
                Ok(step) => {
                    &&& final(encoder).outputs() == old(encoder).outputs().push(
                        (step.kind, step.payload@),
                    )
                    &&& old(encoder).fed().len() == old(self).frame_idx ==> final(encoder).fed().len()
                        == final(self).frame_idx
                    &&& step.plan == plan_for(old(self).group_open, step.kind)
                    &&& final(self).group_open == (old(self).group_open || is_keyframe_kind(
                        step.kind,
                    ))
                    &&& final(self).frame_idx == old(self).frame_idx + 1
                    &&& final(self).history() == old(self).history().push(step.kind)
                },
                Err(_) => {
                    &&& *final(self) == *old(self)
                    &&& final(encoder).outputs() == old(encoder).outputs()
                },
            },
    {
        let frame = synthetic_frame(width, height, self.frame_idx);
        let ghost fed_before = encoder.fed();
        let encoded = encoder.encode_at(&frame, elapsed_ms);
        proof {
            if fed_synthetic_in_order(fed_before, width, height) && fed_before.len() == self.frame_idx {
                lemma_kth_frame_fed_is_synthetic_k(fed_before, width, height, self.frame_idx, elapsed_ms);
            }
        }
        match encoded {
            Ok((kind, payload)) => {
                let plan = self.advance(kind);
                Ok(VideoStep { kind, plan, payload })
            },
            Err(e) => Err(VideoError::Encode(e)),
        }
    }
}

/// Whether some frame of `kinds` is a keyframe.
pub open spec fn keyframe_seen(kinds: Seq<FrameKind>) -> bool {
    exists|i: int| 0 <= i < kinds.len() && is_keyframe_kind(#[trigger] kinds[i])
}

/// A frame is written exactly when a keyframe came at or before it: frames
/// before the first keyframe are dropped, and from the first keyframe on a
/// group stays open. Stated for a cursor whose `group_open` records whether
/// the frames so far held a keyframe, as `GroupCursor::new` and `advance` keep it.
pub proof fn lemma_written_iff_keyframe_seen(history: Seq<FrameKind>, kind: FrameKind, group_open: bool)
    requires
        group_open == keyframe_seen(history),
    ensures
        plan_for(group_open, kind).write_frame == keyframe_seen(history.push(kind)),
        (group_open || is_keyframe_kind(kind)) == keyframe_seen(history.push(kind)),
{
    let h2 = history.push(kind);
    if group_open {
        let i = choose|i: int| 0 <= i < history.len() && is_keyframe_kind(#[trigger] history[i]);
        assert(h2[i] == history[i]);
    }
    if is_keyframe_kind(kind) {
        assert(h2[history.len() as int] == kind);
    }
    if keyframe_seen(h2) {
        let i = choose|i: int| 0 <= i < h2.len() && is_keyframe_kind(#[trigger] h2[i]);
        if i < history.len() {
            assert(h2[i] == history[i]);
        }
    }
}

/// The synthetic pattern repeats every 256 frames.
pub proof fn lemma_synthetic_frame_period(width: nat, height: nat, idx: u64)
    requires
        idx + 256 <= u64::MAX,
    ensures
        synthetic_frame_bytes(width, height, idx) == synthetic_frame_bytes(
            width,
            height,
            (idx + 256) as u64,
        ),
{
    assert(synthetic_luma(idx) == synthetic_luma((idx + 256) as u64));
}

/// Synthetic frames whose numbers differ modulo 256 differ in their first
/// luma byte, when the frame has any pixel.
pub proof fn lemma_synthetic_frames_differ(width: nat, height: nat, idx: u64, other: u64)
    requires
        width * height > 0,
        idx % 256 != other % 256,
    ensures
        synthetic_frame_bytes(width, height, idx)[0] != synthetic_frame_bytes(width, height, other)[0],
{
    assert(3 * width * height / 2 > 0) by (nonlinear_arith)
        requires
            width * height > 0,
    ;
    assert(synthetic_luma(idx) != synthetic_luma(other));
}

/// Whether the frames handed to an encoder are, in order, the synthetic
/// frames 0, 1, 2, ... at one size.
pub open spec fn fed_synthetic_in_order(fed: Seq<FedFrame>, width: usize, height: usize) -> bool {
    forall|k: int|
        0 <= k < fed.len() ==> (#[trigger] fed[k]).0 == synthetic_frame_bytes(
            width as nat,
            height as nat,
            k as u64,
        ) && fed[k].1 == (width, height)
}

/// The k-th frame handed to the encoder is synthetic frame k: when the
/// frames so far were frames 0 to n-1 and the cursor stands at frame n,
/// `GroupCursor::encode_next` hands over frame n next.
pub proof fn lemma_kth_frame_fed_is_synthetic_k(
    fed: Seq<FedFrame>,
    width: usize,
    height: usize,
    frame_idx: u64,
    elapsed_ms: u64,
)
    requires
        fed_synthetic_in_order(fed, width, height),
        fed.len() == frame_idx,
    ensures
        fed_synthetic_in_order(
            fed.push(
                (synthetic_frame_bytes(width as nat, height as nat, frame_idx), (width, height), elapsed_ms),
            ),
            width,
            height,
        ),
{
    let f2 = fed.push(
        (synthetic_frame_bytes(width as nat, height as nat, frame_idx), (width, height), elapsed_ms),
    );
    assert forall|k: int| 0 <= k < f2.len() implies (#[trigger] f2[k]).0 == synthetic_frame_bytes(
        width as nat,
        height as nat,
        k as u64,
    ) && f2[k].1 == (width, height) by {
        if k < fed.len() {
            assert(f2[k] == fed[k]);
        }
    }
}

/// A keyframe (IDR or I) always starts a new group, finishing the open one
/// if there is one; any other frame never starts a group and is written
/// only into an open group.
pub proof fn lemma_keyframes_start_groups(group_open: bool, kind: FrameKind)
    ensures
        plan_for(group_open, kind).start_group == (kind == FrameKind::Idr || kind == FrameKind::I),
        plan_for(group_open, kind).finish_previous == (group_open && (kind == FrameKind::Idr || kind
            == FrameKind::I)),
        plan_for(group_open, kind).write_frame == (group_open || kind == FrameKind::Idr || kind
            == FrameKind::I),
{
}

/// Synthetic frame `idx` holds `3 * width * height / 2` bytes: every byte
/// of its Y plane (the first `width * height`) is `idx % 256`, every later
/// byte is 128.
pub proof fn lemma_synthetic_frame_layout(width: nat, height: nat, idx: u64)
    ensures
        synthetic_frame_bytes(width, height, idx).len() == 3 * width * height / 2,
        forall|i: int|
            0 <= i < width * height && i < synthetic_frame_bytes(width, height, idx).len()
                ==> #[trigger] synthetic_frame_bytes(width, height, idx)[i] == (idx % 256) as u8,
        forall|i: int|
            width * height <= i < synthetic_frame_bytes(width, height, idx).len()
                ==> #[trigger] synthetic_frame_bytes(width, height, idx)[i] == 128u8,
{
}

/// The pause between two frames, in milliseconds, at `fps` frames per second.
pub fn frame_interval_ms(fps: u32) -> (ms: u64)
    requires
        fps > 0,
    ensures
        ms == 1000int / (fps as int),
{
    1000 / (fps as u64)
}

/// The encoder's settings for the configured stream.
pub struct EncoderSettings {
    pub bitrate_bps: u32,
    pub max_frame_rate_hz: u32,
    /// Frames between two forced keyframes.
    pub intra_frame_period: u32,
}

/// The encoder runs at the configured bitrate and frame rate, with one
/// forced keyframe per second of video.
pub fn encoder_settings(config: &VideoConfig) -> (settings: EncoderSettings)
    ensures
        settings.bitrate_bps == config.bitrate,
        settings.max_frame_rate_hz == config.fps,
        settings.intra_frame_period == config.fps,
{
    EncoderSettings {
        bitrate_bps: config.bitrate,
        max_frame_rate_hz: config.fps,
        intra_frame_period: config.fps,
    }
}

/// H.264 profile of the encoded stream, as the catalog announces it.
pub const H264_PROFILE: u8 = 0x4D;

/// H.264 constraint flags of the encoded stream.
pub const H264_CONSTRAINTS: u8 = 0x00;

/// H.264 level of the encoded stream.
pub const H264_LEVEL: u8 = 0x1F;

/// How the frames of a rendition are packaged on the track.
#[derive(PartialEq, Eq, Structural, Clone, Copy, Debug)]
pub enum RenditionContainer {
    /// A timestamp prefix followed by the raw codec payload.
    Legacy,
}

/// The catalog entry of the video track.
pub struct VideoRendition {
    pub track_name: String,
    pub profile: u8,
    pub constraints: u8,
    pub level: u8,
    /// Parameter sets travel inside the stream.
    pub inline: bool,
    /// Out-of-band decoder configuration.
    pub description: Option<Vec<u8>>,
    pub coded_width: u32,
    pub coded_height: u32,
    pub framerate: u32,
    pub display_ratio_width: Option<u32>,
    pub display_ratio_height: Option<u32>,
    pub bitrate: u32,
    pub optimize_for_latency: bool,
    pub container: RenditionContainer,
    pub jitter: Option<u64>,
}

/// The catalog entry that announces the configured stream: Main profile
/// (0x4D) at level 3.1 (0x1F) with in-band parameter sets and no separate
/// description, the configured size, rate and bitrate, no display ratio,
/// tuned for latency, in the legacy container, with no jitter given.
pub fn video_rendition(config: &VideoConfig) -> (r: VideoRendition)
    ensures
        r.track_name@ == "video"@,
        r.profile == H264_PROFILE,
        r.constraints == H264_CONSTRAINTS,
        r.level == H264_LEVEL,
        r.inline,
        r.description is None,
        r.coded_width == config.width,
        r.coded_height == config.height,
        r.framerate == config.fps,
        r.display_ratio_width is None,
        r.display_ratio_height is None,
        r.bitrate == config.bitrate,
        r.optimize_for_latency,
        r.container == RenditionContainer::Legacy,
        r.jitter is None,
{
    VideoRendition {
        track_name: video_track_name(),
        profile: H264_PROFILE,
        constraints: H264_CONSTRAINTS,
        level: H264_LEVEL,
        inline: true,
        description: None,
        coded_width: config.width,
        coded_height: config.height,
        framerate: config.fps,
        display_ratio_width: None,
        display_ratio_height: None,
        bitrate: config.bitrate,
        optimize_for_latency: true,
        container: RenditionContainer::Legacy,
        jitter: None,
    }
}

} // verus!
