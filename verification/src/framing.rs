//! The bridge's wire framing towards the headset: every binary websocket
//! message is one tag byte followed by the payload.

use vstd::prelude::*;

verus! {

/// Tag of a video frame sent down to the device.
pub const TAG_VIDEO: u8 = 0x01;

/// Tag of a pose frame sent down to the device.
pub const TAG_POSE_DOWN: u8 = 0x02;

/// Tag of a pose frame that the device sends up.
pub const TAG_POSE_UP: u8 = 0x03;

/// The bytes of a tagged message: the tag, then the payload.
pub open spec fn tagged_bytes(tag: u8, payload: Seq<u8>) -> Seq<u8> {
    seq![tag] + payload
}

/// What a tagged message splits into: `None` for an empty message,
/// otherwise its first byte and the rest.
pub open spec fn split_bytes(data: Seq<u8>) -> Option<(u8, Seq<u8>)> {
    if data.len() == 0 {
        None
    } else {
        Some((data[0], data.skip(1)))
    }
}

/// Frames `data` behind the one-byte `tag`.
pub fn tagged(tag: u8, data: &[u8]) -> (buf: Vec<u8>)
    requires
        data@.len() < usize::MAX,
    ensures
        buf@ == tagged_bytes(tag, data@),
        buf@.len() == data@.len() + 1,
        buf@[0] == tag,
        forall|i: int| 0 <= i < data@.len() ==> #[trigger] buf@[i + 1] == data@[i],
{
    let mut buf: Vec<u8> = Vec::with_capacity(1 + data.len());
    buf.push(tag);
    let mut i: usize = 0;
    while i < data.len()
        invariant
            i <= data@.len(),
            buf@ == seq![tag] + data@.take(i as int),
        decreases data@.len() - i,
    {
        buf.push(data[i]);
        i = i + 1;
        assert(data@.take(i as int) == data@.take((i - 1) as int).push(data@[i - 1]));
    }
    assert(data@.take(data@.len() as int) == data@);
    buf
}

/// Splits a message into its tag and its payload; `None` for an empty message.
pub fn split_tag(data: &[u8]) -> (res: Option<(u8, Vec<u8>)>)
    ensures
        match res {
            Some((t, p)) => split_bytes(data@) == Some((t, p@)),
            None => split_bytes(data@) is None,
        },
        res is None <==> data@.len() == 0,
        match res {
            Some((t, p)) => {
                &&& t == data@[0]
                &&& p@.len() == data@.len() - 1
                &&& forall|i: int| 0 <= i < p@.len() ==> #[trigger] p@[i] == data@[i + 1]
            },
            None => true,
        },
{
    if data.len() == 0 {
        return None;
    }
    let mut payload: Vec<u8> = Vec::with_capacity(data.len() - 1);
    let mut i: usize = 1;
    while i < data.len()
        invariant
            1 <= i <= data@.len(),
            payload@ == data@.subrange(1, i as int),
        decreases data@.len() - i,
    {
        payload.push(data[i]);
        i = i + 1;
        assert(data@.subrange(1, i as int) == data@.subrange(1, (i - 1) as int).push(
            data@[i - 1],
        ));
    }
    assert(data@.subrange(1, data@.len() as int) == data@.skip(1));
    Some((data[0], payload))
}

/// The payload of a pose frame sent up by the device: the bytes after the
/// tag when the message starts with `TAG_POSE_UP`, and `None` otherwise.
pub fn pose_up_payload(data: &[u8]) -> (res: Option<Vec<u8>>)
    ensures
        match res {
            Some(p) => split_bytes(data@) == Some((TAG_POSE_UP, p@)),
            None => !(split_bytes(data@) matches Some((t, _)) && t == TAG_POSE_UP),
        },
        res is Some <==> (data@.len() > 0 && data@[0] == 0x03u8),
        match res {
            Some(p) => {
                &&& p@.len() == data@.len() - 1
                &&& forall|i: int| 0 <= i < p@.len() ==> #[trigger] p@[i] == data@[i + 1]
            },
            None => true,
        },
{
    match split_tag(data) {
        Some((t, p)) => if t == TAG_POSE_UP {
            Some(p)
        } else {
            None
        },
        None => None,
    }
}

/// Splitting a tagged message gives back the tag and the payload.
pub proof fn lemma_split_tagged(tag: u8, payload: Seq<u8>)
    ensures
        split_bytes(tagged_bytes(tag, payload)) == Some((tag, payload)),
{
    assert(tagged_bytes(tag, payload).skip(1) == payload);
}

/// A message that splits is the tagged form of its parts.
pub proof fn lemma_tagged_split(data: Seq<u8>)
    requires
        data.len() > 0,
    ensures
        split_bytes(data) matches Some((t, p)) && tagged_bytes(t, p) == data,
{
    assert(seq![data[0]] + data.skip(1) == data);
}

/// A tagged message is one byte longer than its payload, starts with the
/// tag, and carries the payload byte for byte after it.
pub proof fn lemma_tagged_layout(tag: u8, payload: Seq<u8>)
    ensures
        tagged_bytes(tag, payload).len() == payload.len() + 1,
        tagged_bytes(tag, payload)[0] == tag,
        forall|i: int| 0 <= i < payload.len() ==> #[trigger] tagged_bytes(tag, payload)[i + 1] == payload[i],
{
}

/// A message splits into its first byte, as the tag, and everything after
/// it; only the empty message does not split.
pub proof fn lemma_split_layout(data: Seq<u8>)
    ensures
        split_bytes(data) is None <==> data.len() == 0,
        data.len() > 0 ==> (split_bytes(data) matches Some((t, p)) && t == data[0] && p.len()
            == data.len() - 1 && forall|i: int| 0 <= i < p.len() ==> #[trigger] p[i] == data[i + 1]),
{
}

/// The three tags are the bytes 1, 2 and 3.
pub proof fn lemma_tag_values()
    ensures
        TAG_VIDEO == 0x01u8,
        TAG_POSE_DOWN == 0x02u8,
        TAG_POSE_UP == 0x03u8,
{
}

} // verus!
