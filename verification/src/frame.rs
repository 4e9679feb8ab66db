//! Length-delimited framing.
//!
//! Every datagram on the wire carries exactly one frame: the payload
//! preceded by its length as four big-endian bytes. Decoding an arbitrary
//! byte string never panics; a string that is not a well-formed frame is
//! reported as `None` and the caller discards it.

use vstd::prelude::*;

verus! {

/// Number of bytes in the length header of a frame.
pub const HEADER_LEN: usize = 4;

/// Largest payload length that the four-byte header can record.
pub const MAX_PAYLOAD: u64 = 0xFFFF_FFFF;

/// The four big-endian header bytes that record a payload length `n`.
pub open spec fn spec_header(n: int) -> Seq<u8> {
    seq![
        (n / 0x100_0000) as u8,
        ((n / 0x1_0000) % 0x100) as u8,
        ((n / 0x100) % 0x100) as u8,
        (n % 0x100) as u8,
    ]
}

/// The length recorded by the first four bytes of `d`.
pub open spec fn spec_header_value(d: Seq<u8>) -> int
    recommends
        d.len() >= 4,
{
    d[0] * 0x100_0000 + d[1] * 0x1_0000 + d[2] * 0x100 + d[3]
}

/// A payload framed for the wire: its length, then its bytes.
pub open spec fn spec_encode_frame(payload: Seq<u8>) -> Seq<u8> {
    spec_header(payload.len() as int) + payload
}

/// The payload of a well-formed frame: the header must record exactly the
/// number of bytes that follow it. Anything else is not a frame.
pub open spec fn spec_decode_frame(d: Seq<u8>) -> Option<Seq<u8>> {
    if d.len() >= 4 && spec_header_value(d) == d.len() - 4 {
        Some(d.subrange(4, d.len() as int))
    } else {
        None
    }
}

/// Framing loses nothing: decoding an encoded frame yields the payload back.
pub proof fn lemma_frame_roundtrip(payload: Seq<u8>)
    requires
        payload.len() <= MAX_PAYLOAD,
    ensures
        spec_decode_frame(spec_encode_frame(payload)) == Some(payload),
{
    let n = payload.len() as int;
    let x = payload.len() as u32;
    assert((x / 0x100_0000) * 0x100_0000 + ((x / 0x1_0000) % 0x100) * 0x1_0000
        + ((x / 0x100) % 0x100) * 0x100 + (x % 0x100) == x && x / 0x100_0000 < 0x100)
        by (bit_vector);
    let d = spec_encode_frame(payload);
    assert(spec_header_value(d) == n);
    assert(d.subrange(4, d.len() as int) =~= payload);
}

/// Wrap a payload in a frame.
pub fn encode_frame(payload: &Vec<u8>) -> (frame: Vec<u8>)
    requires
        payload@.len() <= MAX_PAYLOAD,
    ensures
        frame@ == spec_encode_frame(payload@),
{
    let n: u32 = payload.len() as u32;
    let mut frame: Vec<u8> = Vec::new();
    frame.push((n / 0x100_0000) as u8);
    frame.push(((n / 0x1_0000) % 0x100) as u8);
    frame.push(((n / 0x100) % 0x100) as u8);
    frame.push((n % 0x100) as u8);
    let mut i: usize = 0;
    while i < payload.len()
        invariant
            i <= payload@.len(),
            frame@ == spec_header(payload@.len() as int) + payload@.subrange(0, i as int),
        decreases payload@.len() - i,
    {
        frame.push(payload[i]);
        i = i + 1;
        assert(frame@ =~= spec_header(payload@.len() as int) + payload@.subrange(0, i as int));
    }
    assert(frame@ =~= spec_encode_frame(payload@));
    frame
}

/// Unwrap a frame, or report that the bytes are not a well-formed frame.
pub fn decode_frame(d: &Vec<u8>) -> (payload: Option<Vec<u8>>)
    ensures
        match payload {
            Some(p) => spec_decode_frame(d@) == Some(p@),
            None => spec_decode_frame(d@) is None,
        },
{
    if d.len() < 4 {
        return None;
    }
    let b0 = d[0];
    let b1 = d[1];
    let b2 = d[2];
    let b3 = d[3];
    let recorded: u64 = (b0 as u64) * 0x100_0000 + (b1 as u64) * 0x1_0000 + (b2 as u64) * 0x100
        + (b3 as u64);
    if recorded != (d.len() - 4) as u64 {
        return None;
    }
    let mut payload: Vec<u8> = Vec::new();
    let mut i: usize = 4;
    while i < d.len()
        invariant
            4 <= i <= d@.len(),
            payload@ == d@.subrange(4, i as int),
        decreases d@.len() - i,
    {
        payload.push(d[i]);
        i = i + 1;
        assert(payload@ =~= d@.subrange(4, i as int));
    }
    Some(payload)
}

} // verus!
