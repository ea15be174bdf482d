//! The bridge between the relay and a headset: which announced broadcasts it
//! waits for, and what it does with each frame and each device message.

use crate::framing::{pose_up_payload, split_bytes, tagged, tagged_bytes, TAG_POSE_DOWN, TAG_POSE_UP, TAG_VIDEO};
use vstd::prelude::*;
use vstd::string::*;

verus! {

/// Which of the bridge's broadcasts an announced path names.
#[derive(PartialEq, Eq, Structural, Clone, Copy, Debug)]
pub enum AnnouncedTrack {
    /// The empty path: the video broadcast.
    Video,
    /// `pose/local`: the pose broadcast of the local viewer.
    Pose,
    /// Anything else, which the bridge does not follow.
    Other,
}

/// The empty path is the video broadcast, `pose/local` the pose broadcast.
pub open spec fn announced_track_of(path: Seq<char>) -> AnnouncedTrack {
    if path.len() == 0 {
        AnnouncedTrack::Video
    } else if path == "pose/local"@ {
        AnnouncedTrack::Pose
    } else {
        AnnouncedTrack::Other
    }
}

/// Path of the local viewer's pose broadcast.
pub fn local_pose_path() -> (path: String)
    ensures
        path@ == "pose/local"@,
{
    String::from_str("pose/local")
}

/// Which broadcast an announced `path` names.
pub fn classify_announcement(path: &String) -> (track: AnnouncedTrack)
    ensures
        track == announced_track_of(path@),
        track == AnnouncedTrack::Video <==> path@.len() == 0,
        track == AnnouncedTrack::Pose <==> path@ == "pose/local"@,
{
    proof {
        reveal_strlit("pose/local");
    }
    let empty = String::new();
    if *path == empty {
        AnnouncedTrack::Video
    } else {
        assert(path@.len() != 0) by {
            if path@.len() == 0 {
                assert(path@ =~= empty@);
            }
        }
        if *path == local_pose_path() {
            AnnouncedTrack::Pose
        } else {
            AnnouncedTrack::Other
        }
    }
}

/// The empty path, and only it, names the video broadcast; `pose/local`,
/// and only it, names the pose broadcast; every other path is ignored.
pub proof fn lemma_only_local_paths_followed(path: Seq<char>)
    ensures
        announced_track_of(path) == AnnouncedTrack::Video <==> path.len() == 0,
        announced_track_of(path) == AnnouncedTrack::Pose <==> path == "pose/local"@,
        announced_track_of(path) == AnnouncedTrack::Other <==> (path.len() != 0 && path
            != "pose/local"@),
{
    reveal_strlit("pose/local");
}

/// Why the bridge gave up on a device.
#[derive(PartialEq, Eq, Structural, Clone, Copy, Debug)]
pub enum BridgeError {
    /// The relay went away before both broadcasts were announced.
    RelayDisconnected,
}

/// The broadcasts that a device session waits for, as announced so far.
/// An announcement carries `None` when the broadcast went away.
pub struct BroadcastSlots<B> {
    pub video: Option<B>,
    pub pose: Option<B>,
}

impl<B> BroadcastSlots<B> {
    /// Nothing announced yet.
    pub fn new() -> (slots: Self)
        ensures
            slots.video is None,
            slots.pose is None,
    {
        BroadcastSlots { video: None, pose: None }
    }

    /// Whether both broadcasts are there.
    pub fn is_complete(&self) -> (done: bool)
        ensures
            done == (self.video is Some && self.pose is Some),
    {
        self.video.is_some() && self.pose.is_some()
    }

    /// Takes one announcement into account: the slot that `path` names takes
    /// `broadcast` (the latest announcement wins), and other paths change nothing.
    pub fn record(&mut self, path: &String, broadcast: Option<B>)
        ensures
            match announced_track_of(path@) {
                AnnouncedTrack::Video => final(self).video == broadcast && final(self).pose
                    == old(self).pose,
                AnnouncedTrack::Pose => final(self).pose == broadcast && final(self).video
                    == old(self).video,
                AnnouncedTrack::Other => *final(self) == *old(self),
            },
    {
        match classify_announcement(path) {
            AnnouncedTrack::Video => {
                self.video = broadcast;
            },
            AnnouncedTrack::Pose => {
                self.pose = broadcast;
            },
            AnnouncedTrack::Other => {},
        }
    }

    /// One step of waiting for the broadcasts: `next` is what the relay
    /// announced, `None` when it is gone. Returns whether both broadcasts are
    /// now there, or the error when the relay went away first.
    pub fn on_announced(&mut self, next: Option<(String, Option<B>)>) -> (res: Result<
        bool,
        BridgeError,
    >)
        ensures
            match next {
                None => res == Err::<bool, BridgeError>(BridgeError::RelayDisconnected)
                    && *final(self) == *old(self),
                Some((path, b)) => {
                    &&& res == Ok::<bool, BridgeError>(
                        final(self).video is Some && final(self).pose is Some,
                    )
                    &&& match announced_track_of(path@) {
                        AnnouncedTrack::Video => final(self).video == b && final(self).pose
                            == old(self).pose,
                        AnnouncedTrack::Pose => final(self).pose == b && final(self).video
                            == old(self).video,
                        AnnouncedTrack::Other => *final(self) == *old(self),
                    }
                },
            },
    {
        match next {
            None => Err(BridgeError::RelayDisconnected),
            Some((path, b)) => {
                self.record(&path, b);
                Ok(self.is_complete())
            },
        }
    }
}

/// A message, or the lack of one, from the headset's websocket.
pub enum DeviceInput {
    /// A binary message.
    Binary(Vec<u8>),
    /// The device closed the connection.
    Close,
    /// A text or control message, or a read error: none of the bridge's business.
    Other,
    /// The connection ended without a close message.
    Ended,
}

/// What a device session reacts to.
pub enum BridgeEvent {
    /// The next video frame from the relay; `None` once the track ended.
    VideoFrame(Option<Vec<u8>>),
    /// The next pose frame from the relay; `None` once the track ended.
    PoseFrame(Option<Vec<u8>>),
    /// Something from the device.
    Device(DeviceInput),
}

/// What a device session does next.
pub enum BridgeAction {
    /// Send these bytes to the device as one binary message.
    SendToDevice(Vec<u8>),
    /// Hand this pose payload to the relay's `pose/remote` broadcast.
    ForwardPoseUp(Vec<u8>),
    /// Nothing; wait for the next event.
    Ignore,
    /// End the session.
    Stop,
}

/// Whether an event's frame payloads can be framed.
pub open spec fn event_fits(event: BridgeEvent) -> bool {
    match event {
        BridgeEvent::VideoFrame(Some(d)) => d@.len() < usize::MAX,
        BridgeEvent::PoseFrame(Some(d)) => d@.len() < usize::MAX,
        _ => true,
    }
}

/// Whether a device message is a tagged pose frame, and if so its payload.
pub open spec fn pose_up_of(message: Seq<u8>) -> Option<Seq<u8>> {
    match split_bytes(message) {
        Some((t, p)) => if t == TAG_POSE_UP {
            Some(p)
        } else {
            None
        },
        None => None,
    }
}

/// What the session does with `event`: a relay frame goes to the device
/// behind its tag, a device message tagged as a pose goes up without its tag,
/// the end of either track or of the device connection ends the session, and
/// everything else is ignored.
pub fn bridge_step(event: BridgeEvent) -> (action: BridgeAction)
    requires
        event_fits(event),
    ensures
        match event {
            BridgeEvent::VideoFrame(Some(d)) => action matches BridgeAction::SendToDevice(buf)
                && buf@ == tagged_bytes(TAG_VIDEO, d@),
            BridgeEvent::PoseFrame(Some(d)) => action matches BridgeAction::SendToDevice(buf)
                && buf@ == tagged_bytes(TAG_POSE_DOWN, d@),
            BridgeEvent::VideoFrame(None) => action is Stop,
            BridgeEvent::PoseFrame(None) => action is Stop,
            BridgeEvent::Device(DeviceInput::Binary(m)) => match pose_up_of(m@) {
                Some(p) => action matches BridgeAction::ForwardPoseUp(q) && q@ == p,
                None => action is Ignore,
            },
            BridgeEvent::Device(DeviceInput::Close) => action is Stop,
            BridgeEvent::Device(DeviceInput::Ended) => action is Stop,
            BridgeEvent::Device(DeviceInput::Other) => action is Ignore,
        },
{
    match event {
        BridgeEvent::VideoFrame(Some(d)) => BridgeAction::SendToDevice(tagged(TAG_VIDEO, d.as_slice())),
        BridgeEvent::PoseFrame(Some(d)) => BridgeAction::SendToDevice(tagged(TAG_POSE_DOWN, d.as_slice())),
        BridgeEvent::VideoFrame(None) => BridgeAction::Stop,
        BridgeEvent::PoseFrame(None) => BridgeAction::Stop,
        BridgeEvent::Device(DeviceInput::Binary(m)) => match pose_up_payload(m.as_slice()) {
            Some(p) => BridgeAction::ForwardPoseUp(p),
            None => BridgeAction::Ignore,
        },
        BridgeEvent::Device(DeviceInput::Close) => BridgeAction::Stop,
        BridgeEvent::Device(DeviceInput::Ended) => BridgeAction::Stop,
        BridgeEvent::Device(DeviceInput::Other) => BridgeAction::Ignore,
    }
}

/// `at` places the frames `read` from one track in `sent`: the k-th frame
/// read went out as message `at[k]`, behind `tag`, and later frames went out
/// later.
pub open spec fn sends_track(read: Seq<Seq<u8>>, at: Seq<int>, sent: Seq<Seq<u8>>, tag: u8) -> bool {
    &&& at.len() == read.len()
    &&& forall|k: int|
        0 <= k < at.len() ==> 0 <= #[trigger] at[k] < sent.len() && sent[at[k]] == tagged_bytes(
            tag,
            read[k],
        )
    &&& forall|k1: int, k2: int| 0 <= k1 < k2 < at.len() ==> #[trigger] at[k1] < #[trigger] at[k2]
}

/// The bytes of the video frame that an event carries, if any.
pub open spec fn video_frame_of(event: BridgeEvent) -> Option<Seq<u8>> {
    match event {
        BridgeEvent::VideoFrame(Some(d)) => Some(d@),
        _ => None,
    }
}

/// The bytes of the pose frame that an event carries, if any.
pub open spec fn pose_frame_of(event: BridgeEvent) -> Option<Seq<u8>> {
    match event {
        BridgeEvent::PoseFrame(Some(d)) => Some(d@),
        _ => None,
    }
}

/// Whether some read frame went out as message `p`.
pub open spec fn placed(at: Seq<int>, p: int) -> bool {
    exists|k: int| 0 <= k < at.len() && at[k] == p
}

/// A device session's record: the frames read from the video and the pose
/// track, the messages sent to the device, and where each read frame went.
pub struct DeviceSession {
    pub video_read: Ghost<Seq<Seq<u8>>>,
    pub pose_read: Ghost<Seq<Seq<u8>>>,
    pub sent: Ghost<Seq<Seq<u8>>>,
    pub video_sent_at: Ghost<Seq<int>>,
    pub pose_sent_at: Ghost<Seq<int>>,
}

impl DeviceSession {
    /// Every frame read from the video track went to the device once, behind
    /// `TAG_VIDEO`, in read order; likewise every pose frame behind
    /// `TAG_POSE_DOWN`; and every message sent is one of those.
    pub open spec fn wf(&self) -> bool {
        &&& sends_track(self.video_read@, self.video_sent_at@, self.sent@, TAG_VIDEO)
        &&& sends_track(self.pose_read@, self.pose_sent_at@, self.sent@, TAG_POSE_DOWN)
        &&& forall|p: int|
            0 <= p < self.sent@.len() ==> #[trigger] placed(self.video_sent_at@, p) || placed(
                self.pose_sent_at@,
                p,
            )
    }

    /// A session before its first event.
    pub fn new() -> (session: DeviceSession)
        ensures
            session.wf(),
            session.video_read@ == Seq::<Seq<u8>>::empty(),
            session.pose_read@ == Seq::<Seq<u8>>::empty(),
            session.sent@ == Seq::<Seq<u8>>::empty(),
    {
        DeviceSession {
            video_read: Ghost(Seq::empty()),
            pose_read: Ghost(Seq::empty()),
            sent: Ghost(Seq::empty()),
            video_sent_at: Ghost(Seq::empty()),
            pose_sent_at: Ghost(Seq::empty()),
        }
    }

    /// Handles one event as `bridge_step` does, and records it: a frame read
    /// from a track joins that track's record, and a message for the device
    /// joins the sent messages.
    pub fn step(&mut self, event: BridgeEvent) -> (action: BridgeAction)
        requires
            old(self).wf(),
            event_fits(event),
        ensures
            final(self).wf(),
            match event {
                BridgeEvent::VideoFrame(Some(d)) => {
                    &&& action matches BridgeAction::SendToDevice(buf) && buf@ == tagged_bytes(
                        TAG_VIDEO,
                        d@,
                    )
                    &&& final(self).video_read@ == old(self).video_read@.push(d@)
                    &&& final(self).pose_read@ == old(self).pose_read@
                    &&& final(self).sent@ == old(self).sent@.push(tagged_bytes(TAG_VIDEO, d@))
                },
                BridgeEvent::PoseFrame(Some(d)) => {
                    &&& action matches BridgeAction::SendToDevice(buf) && buf@ == tagged_bytes(
                        TAG_POSE_DOWN,
                        d@,
                    )
                    &&& final(self).pose_read@ == old(self).pose_read@.push(d@)
                    &&& final(self).video_read@ == old(self).video_read@
                    &&& final(self).sent@ == old(self).sent@.push(tagged_bytes(TAG_POSE_DOWN, d@))
                },
                BridgeEvent::VideoFrame(None) => action is Stop && *final(self) == *old(self),
                BridgeEvent::PoseFrame(None) => action is Stop && *final(self) == *old(self),
                BridgeEvent::Device(DeviceInput::Binary(m)) => *final(self) == *old(self) && match pose_up_of(m@) {
                    Some(p) => action matches BridgeAction::ForwardPoseUp(q) && q@ == p,
                    None => action is Ignore,
                },
                BridgeEvent::Device(DeviceInput::Close) => action is Stop && *final(self) == *old(self),
                BridgeEvent::Device(DeviceInput::Ended) => action is Stop && *final(self) == *old(self),
                BridgeEvent::Device(DeviceInput::Other) => action is Ignore && *final(self) == *old(self),
            },
    {
        let ghost video_frame = video_frame_of(event);
        let ghost pose_frame = pose_frame_of(event);
        let action = bridge_step(event);
        proof {
            let sent = self.sent@;
            let va = self.video_sent_at@;
            let pa = self.pose_sent_at@;
            let n = sent.len() as int;
            if let Some(d) = video_frame {
                let sent2 = sent.push(tagged_bytes(TAG_VIDEO, d));
                let va2 = va.push(n);
                let vr2 = self.video_read@.push(d);
                assert forall|k: int| 0 <= k < va2.len() implies 0 <= #[trigger] va2[k] < sent2.len()
                    && sent2[va2[k]] == tagged_bytes(TAG_VIDEO, vr2[k]) by {
                    if k < va.len() {
                        assert(va2[k] == va[k]);
                        assert(vr2[k] == self.video_read@[k]);
                    }
                }
                assert forall|k1: int, k2: int| 0 <= k1 < k2 < va2.len() implies #[trigger] va2[k1]
                    < #[trigger] va2[k2] by {
                    assert(va2[k1] == va[k1]);
                    if k2 < va.len() {
                        assert(va2[k2] == va[k2]);
                    }
                }
                assert forall|k: int| 0 <= k < pa.len() implies 0 <= #[trigger] pa[k] < sent2.len()
                    && sent2[pa[k]] == tagged_bytes(TAG_POSE_DOWN, self.pose_read@[k]) by {}
                assert forall|p: int| 0 <= p < sent2.len() implies #[trigger] placed(va2, p) || placed(
                    pa,
                    p,
                ) by {
                    if p == n {
                        assert(va2[va.len() as int] == p);
                    } else if placed(va, p) {
                        let k = choose|k: int| 0 <= k < va.len() && #[trigger] va[k] == p;
                        assert(va2[k] == p);
                    }
                }
                self.sent@ = sent2;
                self.video_sent_at@ = va2;
                self.video_read@ = vr2;
            } else if let Some(d) = pose_frame {
                let sent2 = sent.push(tagged_bytes(TAG_POSE_DOWN, d));
                let pa2 = pa.push(n);
                let pr2 = self.pose_read@.push(d);
                assert forall|k: int| 0 <= k < pa2.len() implies 0 <= #[trigger] pa2[k] < sent2.len()
                    && sent2[pa2[k]] == tagged_bytes(TAG_POSE_DOWN, pr2[k]) by {
                    if k < pa.len() {
                        assert(pa2[k] == pa[k]);
                        assert(pr2[k] == self.pose_read@[k]);
                    }
                }
                assert forall|k1: int, k2: int| 0 <= k1 < k2 < pa2.len() implies #[trigger] pa2[k1]
                    < #[trigger] pa2[k2] by {
                    assert(pa2[k1] == pa[k1]);
                    if k2 < pa.len() {
                        assert(pa2[k2] == pa[k2]);
                    }
                }
                assert forall|k: int| 0 <= k < va.len() implies 0 <= #[trigger] va[k] < sent2.len()
                    && sent2[va[k]] == tagged_bytes(TAG_VIDEO, self.video_read@[k]) by {}
                assert forall|p: int| 0 <= p < sent2.len() implies #[trigger] placed(va, p) || placed(
                    pa2,
                    p,
                ) by {
                    if p == n {
                        assert(pa2[pa.len() as int] == p);
                    } else if placed(pa, p) {
                        let k = choose|k: int| 0 <= k < pa.len() && #[trigger] pa[k] == p;
                        assert(pa2[k] == p);
                    }
                }
                self.sent@ = sent2;
                self.pose_sent_at@ = pa2;
                self.pose_read@ = pr2;
            }
        }
        action
    }
}

/// A device message `tagged(tag, payload)` is forwarded to the relay as
/// exactly `payload` when `tag` is `TAG_POSE_UP`, and not at all otherwise;
/// in particular frames tagged `TAG_VIDEO` or `TAG_POSE_DOWN`, as the bridge
/// sends them down, are never taken for poses coming up.
pub proof fn lemma_pose_up_of_tagged(tag: u8, payload: Seq<u8>)
    ensures
        pose_up_of(tagged_bytes(tag, payload)) == (if tag == TAG_POSE_UP {
            Some(payload)
        } else {
            None
        }),
{
    crate::framing::lemma_split_tagged(tag, payload);
}

} // verus!
