//! What a whole datagram means: a record framed for the wire.
//!
//! Encoding a record and framing it are composed here, so that the server
//! and client loops can speak of one function from record to datagram and
//! one from datagram back to record.

use vstd::prelude::*;

use crate::frame::{
    decode_frame, encode_frame, lemma_frame_roundtrip, spec_decode_frame, spec_encode_frame,
};
use crate::record::{
    decode_record, encode_record, lemma_record_roundtrip, spec_decode_record, spec_encode_record,
    Record,
};

verus! {

/// A record as the single frame a datagram carries.
pub open spec fn spec_wire_encode(r: Record) -> Seq<u8> {
    spec_encode_frame(spec_encode_record(r))
}

/// The record a datagram carries, if it is a well-formed frame around a
/// well-formed record; `None` otherwise.
pub open spec fn spec_wire_decode(d: Seq<u8>) -> Option<Record> {
    match spec_decode_frame(d) {
        Some(payload) => spec_decode_record(payload),
        None => None,
    }
}

/// Every record encoded for the wire is a short payload: the request shape
/// is thirty bytes and the response shape thirty-three.
pub proof fn lemma_record_encoding_len(r: Record)
    ensures
        spec_encode_record(r).len() <= 33,
{
}

/// The wire codec loses nothing: a record framed and encoded decodes back
/// to itself, for both shapes and every port.
pub proof fn lemma_wire_roundtrip(r: Record)
    ensures
        spec_wire_decode(spec_wire_encode(r)) == Some(r),
{
    lemma_record_encoding_len(r);
    lemma_frame_roundtrip(spec_encode_record(r));
    lemma_record_roundtrip(r);
}

/// Encode a record and frame it as one datagram.
pub fn wire_encode(r: &Record) -> (d: Vec<u8>)
    ensures
        d@ == spec_wire_encode(*r),
{
    let payload = encode_record(r);
    proof {
        lemma_record_encoding_len(*r);
    }
    encode_frame(&payload)
}

/// Decode one datagram back into a record, or report that it carries none.
pub fn wire_decode(d: &Vec<u8>) -> (r: Option<Record>)
    ensures
        r == spec_wire_decode(d@),
{
    match decode_frame(d) {
        Some(payload) => decode_record(&payload),
        None => None,
    }
}

} // verus!
