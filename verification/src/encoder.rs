//! The H.264 encoder as the video loop uses it. The record of the frames
//! handed to the encoder lives here, where only the call that hands a frame
//! over can extend it.

use crate::video::{yuv_buffer_bytes, yuv_buffer_dimensions, FrameKind};
use openh264::encoder::{Encoder, FrameType};
use openh264::formats::YUVBuffer;
use openh264::Timestamp;
use vstd::prelude::*;

verus! {

#[verifier::external_type_specification]
#[verifier::external_body]
pub struct ExEncoder(Encoder);

#[verifier::external_type_specification]
#[verifier::external_body]
pub struct ExH264Error(openh264::Error);

/// Whether openh264 refuses frames of this size outright: it takes the
/// dimensions as `i32` and encodes at most 3840x2160 or 2160x3840.
pub open spec fn exceeds_encoder_limit(width: usize, height: usize) -> bool {
    let w = width as i32;
    let h = height as i32;
    let greater = if w >= h { w } else { h };
    let smaller = if w >= h { h } else { w };
    greater > 3840 || smaller > 2160
}

/// A frame handed to the encoder: its bytes, its `(width, height)` and its
/// timestamp in milliseconds.
pub type FedFrame = (Seq<u8>, (usize, usize), u64);

/// What the encoder returned for one frame: the frame's kind and the encoded
/// bytes.
pub type EncodedFrame = (FrameKind, Seq<u8>);

/// An H.264 encoder, with a record of the frames that were handed to it and
/// of what it returned for those it encoded.
pub struct FrameEncoder {
    encoder: Encoder,
    fed: Ghost<Seq<FedFrame>>,
    outputs: Ghost<Seq<EncodedFrame>>,
}

impl FrameEncoder {
    /// The frames handed to `encode_at`, in call order.
    pub closed spec fn fed(&self) -> Seq<FedFrame> {
        self.fed@
    }

    /// What `encode_at` returned for each frame it encoded, in call order.
    pub closed spec fn outputs(&self) -> Seq<EncodedFrame> {
        self.outputs@
    }

    /// Wraps `encoder`; no frame has been handed to it through the wrapper yet.
    pub fn new(encoder: Encoder) -> (e: FrameEncoder)
        ensures
            e.fed() == Seq::<FedFrame>::empty(),
            e.outputs() == Seq::<EncodedFrame>::empty(),
    {
        FrameEncoder { encoder, fed: Ghost(Seq::empty()), outputs: Ghost(Seq::empty()) }
    }

    /// `openh264::encoder::Encoder::encode_at`, with the timestamp given in
    /// milliseconds, and the returned bitstream read out as its frame type
    /// (variant for variant) and its bytes (`EncodedBitStream::to_vec`, the NAL
    /// units one after another) before the borrow of the encoder ends.
    /// The encoder reads exactly the frame's Y, U and V planes; the call is
    /// recorded in `fed`, and what it returned in `outputs`. The timestamp must
    /// fit an `i64`, which openh264 converts it to with an `expect`. A frame over
    /// the encoder's size limit is always refused: the encoder re-checks the
    /// limit whenever the size differs from the last accepted one. Otherwise
    /// which kind and which bytes come back, or whether it fails, depends on
    /// the encoder's state (the frames it saw before and its rate control),
    /// which is left unsaid.
    #[verifier::external_body]
    pub(crate) fn encode_at(&mut self, frame: &YUVBuffer, millis: u64) -> (res: Result<
        (FrameKind, Vec<u8>),
        openh264::Error,
    >)
        requires
            millis <= i64::MAX as u64,
        ensures
            final(self).fed() == old(self).fed().push(
                (yuv_buffer_bytes(*frame), yuv_buffer_dimensions(*frame), millis),
            ),
            exceeds_encoder_limit(yuv_buffer_dimensions(*frame).0, yuv_buffer_dimensions(*frame).1)
                ==> res is Err,
            match res {
                Ok((kind, bytes)) => final(self).outputs() == old(self).outputs().push((kind, bytes@)),
                Err(_) => final(self).outputs() == old(self).outputs(),
            },
    {
        let bitstream = self.encoder.encode_at(frame, Timestamp::from_millis(millis))?;
        let kind = match bitstream.frame_type() {
            FrameType::Invalid => FrameKind::Invalid,
            FrameType::IDR => FrameKind::Idr,
            FrameType::I => FrameKind::I,
            FrameType::P => FrameKind::P,
            FrameType::Skip => FrameKind::Skip,
            FrameType::IPMixed => FrameKind::IPMixed,
        };
        Ok((kind, bitstream.to_vec()))
    }
}

} // verus!
