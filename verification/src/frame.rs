//! Frames: how messages travel over a socket. A frame is the length of a
//! message, as four bytes with the least significant first, and then the
//! message.

use vstd::bytes::{
    lemma_auto_spec_u32_to_from_le_bytes, spec_u32_from_le_bytes, spec_u32_to_le_bytes,
    u32_from_le_bytes, u32_to_le_bytes,
};
use vstd::prelude::*;
use vstd::slice::{slice_subrange, slice_to_vec};

verus! {

/// The number of bytes that state the length of a message.
pub const FRAME_HEADER_LEN: usize = 4;

/// The frame of a message.
pub open spec fn framed(payload: Seq<u8>) -> Seq<u8> {
    spec_u32_to_le_bytes(payload.len() as u32) + payload
}

/// The length of the message that the first frame of a buffer states.
pub open spec fn stated_len(buf: Seq<u8>) -> nat {
    spec_u32_from_le_bytes(buf.subrange(0, 4)) as nat
}

/// Whether a buffer starts with a whole frame.
pub open spec fn holds_frame(buf: Seq<u8>) -> bool {
    buf.len() >= 4 && buf.len() >= 4 + stated_len(buf)
}

/// The message of the first frame of a buffer.
pub open spec fn first_message(buf: Seq<u8>) -> Seq<u8> {
    buf.subrange(4, 4 + stated_len(buf) as int)
}

/// Frames a message. A message of more bytes than a frame can state has no
/// frame.
pub fn frame(payload: &Vec<u8>) -> (r: Option<Vec<u8>>)
    ensures
        payload.len() <= u32::MAX ==> r is Some && r->0@ == framed(payload@),
        payload.len() > u32::MAX ==> r is None,
{
    if payload.len() > u32::MAX as usize {
        return None;
    }
    let mut out = u32_to_le_bytes(payload.len() as u32);
    let mut i: usize = 0;
    let ghost header = out@;
    while i < payload.len()
        invariant
            i <= payload.len(),
            out@ == header + payload@.take(i as int),
        decreases payload.len() - i,
    {
        out.push(payload[i]);
        assert(out@ =~= header + payload@.take(i + 1));
        i += 1;
    }
    assert(payload@.take(payload.len() as int) =~= payload@);
    Some(out)
}

/// Takes the first frame off a buffer: its message and the number of bytes
/// that the frame takes. `None` while the buffer does not hold a whole
/// frame.
pub fn unframe(buf: &Vec<u8>) -> (r: Option<(Vec<u8>, usize)>)
    ensures
        match r {
            Some((message, taken)) => holds_frame(buf@) && message@ == first_message(buf@)
                && taken == 4 + stated_len(buf@),
            None => !holds_frame(buf@),
        },
{
    if buf.len() < FRAME_HEADER_LEN {
        return None;
    }
    let len = u32_from_le_bytes(slice_subrange(buf.as_slice(), 0, FRAME_HEADER_LEN)) as usize;
    if buf.len() - FRAME_HEADER_LEN < len {
        return None;
    }
    let message = slice_to_vec(slice_subrange(buf.as_slice(), FRAME_HEADER_LEN, FRAME_HEADER_LEN + len));
    Some((message, FRAME_HEADER_LEN + len))
}

/// Framing loses nothing. A frame followed by anything gives its message
/// back, and takes four bytes more than the message.
pub proof fn law_frame_round_trip(payload: Seq<u8>, rest: Seq<u8>)
    requires
        payload.len() <= u32::MAX,
    ensures
        holds_frame(framed(payload) + rest),
        first_message(framed(payload) + rest) == payload,
        stated_len(framed(payload) + rest) == payload.len(),
{
    lemma_auto_spec_u32_to_from_le_bytes();
    let header = spec_u32_to_le_bytes(payload.len() as u32);
    let buf = framed(payload) + rest;
    assert(header.len() == 4);
    assert(buf.subrange(0, 4) =~= header);
    assert(buf.subrange(4, 4 + payload.len() as int) =~= payload);
}

} // verus!
