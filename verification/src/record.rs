//! The two advertisement record shapes and their byte codec.
//!
//! A Request carries nothing but a marker string saying "I am looking for
//! a host"; a Response carries its own marker and the 16-bit port the
//! responding service listens on. Decoding is total: bytes that are not
//! exactly one of the two shapes decode to `None`, and the caller discards
//! the datagram.

use vstd::prelude::*;

verus! {

/// An advertisement record: a discovery Request, or a Response naming the
/// port the responding service can be reached on.
#[derive(Clone, Copy, Debug, PartialEq, Eq, Structural)]
pub enum Record {
    Request,
    Response { port: u16 },
}

/// The bytes of the request marker, `cribbage-advertisement-request`.
pub open spec fn spec_request_marker() -> Seq<u8> {
    seq![
        99u8, 114u8, 105u8, 98u8, 98u8, 97u8, 103u8, 101u8, 45u8, 97u8, 100u8, 118u8, 101u8,
        114u8, 116u8, 105u8, 115u8, 101u8, 109u8, 101u8, 110u8, 116u8, 45u8, 114u8, 101u8, 113u8,
        117u8, 101u8, 115u8, 116u8,
    ]
}

/// The bytes of the response marker, `cribbage-advertisement-response`.
pub open spec fn spec_response_marker() -> Seq<u8> {
    seq![
        99u8, 114u8, 105u8, 98u8, 98u8, 97u8, 103u8, 101u8, 45u8, 97u8, 100u8, 118u8, 101u8,
        114u8, 116u8, 105u8, 115u8, 101u8, 109u8, 101u8, 110u8, 116u8, 45u8, 114u8, 101u8, 115u8,
        112u8, 111u8, 110u8, 115u8, 101u8,
    ]
}

/// A record as bytes: a Request is the request marker alone; a Response is
/// the response marker followed by the port, low byte first.
pub open spec fn spec_encode_record(r: Record) -> Seq<u8> {
    match r {
        Record::Request => spec_request_marker(),
        Record::Response { port } => spec_response_marker()
            + seq![(port % 0x100) as u8, (port / 0x100) as u8],
    }
}

/// The record that a byte string decodes to, if it is exactly one of the
/// two shapes; anything else decodes to `None`.
pub open spec fn spec_decode_record(b: Seq<u8>) -> Option<Record> {
    if b == spec_request_marker() {
        Some(Record::Request)
    } else if b.len() == 33 && b.subrange(0, 31) == spec_response_marker() {
        Some(Record::Response { port: (b[31] + b[32] * 0x100) as u16 })
    } else {
        None
    }
}

/// The record codec loses nothing: decoding an encoded record yields the
/// record back, for both shapes and every port.
pub proof fn lemma_record_roundtrip(r: Record)
    ensures
        spec_decode_record(spec_encode_record(r)) == Some(r),
{
    match r {
        Record::Request => {
        },
        Record::Response { port } => {
            let b = spec_encode_record(r);
            assert(b.len() == 33);
            assert(b.subrange(0, 31) =~= spec_response_marker());
            let p = port;
            assert((p % 0x100) + (p / 0x100) * 0x100 == p) by (bit_vector);
            assert(b[31] == p % 0x100 && b[32] == p / 0x100);
        },
    }
}

/// The request marker as a byte vector.
pub fn request_marker() -> (v: Vec<u8>)
    ensures
        v@ == spec_request_marker(),
{
    let v: Vec<u8> = vec![
        99u8, 114u8, 105u8, 98u8, 98u8, 97u8, 103u8, 101u8, 45u8, 97u8, 100u8, 118u8, 101u8,
        114u8, 116u8, 105u8, 115u8, 101u8, 109u8, 101u8, 110u8, 116u8, 45u8, 114u8, 101u8, 113u8,
        117u8, 101u8, 115u8, 116u8,
    ];
    assert(v@ =~= spec_request_marker());
    v
}

/// The response marker as a byte vector.
pub fn response_marker() -> (v: Vec<u8>)
    ensures
        v@ == spec_response_marker(),
{
    let v: Vec<u8> = vec![
        99u8, 114u8, 105u8, 98u8, 98u8, 97u8, 103u8, 101u8, 45u8, 97u8, 100u8, 118u8, 101u8,
        114u8, 116u8, 105u8, 115u8, 101u8, 109u8, 101u8, 110u8, 116u8, 45u8, 114u8, 101u8, 115u8,
        112u8, 111u8, 110u8, 115u8, 101u8,
    ];
    assert(v@ =~= spec_response_marker());
    v
}

/// Whether two byte vectors hold the same bytes.
fn bytes_eq(a: &Vec<u8>, b: &Vec<u8>) -> (r: bool)
    ensures
        r <==> a@ == b@,
{
    if a.len() != b.len() {
        return false;
    }
    let mut i: usize = 0;
    while i < a.len()
        invariant
            i <= a@.len(),
            a@.len() == b@.len(),
            forall|j: int| 0 <= j < i ==> a@[j] == b@[j],
        decreases a@.len() - i,
    {
        if a[i] != b[i] {
            return false;
        }
        i = i + 1;
    }
    proof {
        assert(a@ =~= b@);
    }
    true
}

/// Whether `p` is a prefix of `a`.
fn prefix_eq(a: &Vec<u8>, p: &Vec<u8>) -> (r: bool)
    requires
        p@.len() <= a@.len(),
    ensures
        r <==> a@.subrange(0, p@.len() as int) == p@,
{
    let mut i: usize = 0;
    while i < p.len()
        invariant
            i <= p@.len() <= a@.len(),
            forall|j: int| 0 <= j < i ==> a@[j] == p@[j],
        decreases p@.len() - i,
    {
        if a[i] != p[i] {
            assert(a@.subrange(0, p@.len() as int)[i as int] != p@[i as int]);
            return false;
        }
        i = i + 1;
    }
    proof {
        assert(a@.subrange(0, p@.len() as int) =~= p@);
    }
    true
}

/// Turn a record into its bytes.
pub fn encode_record(r: &Record) -> (v: Vec<u8>)
    ensures
        v@ == spec_encode_record(*r),
{
    match *r {
        Record::Request => request_marker(),
        Record::Response { port } => {
            let mut v = response_marker();
            v.push((port % 0x100) as u8);
            v.push((port / 0x100) as u8);
            assert(v@ =~= spec_encode_record(*r));
            v
        },
    }
}

/// Decode bytes back into a record, or report that they are neither shape.
pub fn decode_record(b: &Vec<u8>) -> (r: Option<Record>)
    ensures
        r == spec_decode_record(b@),
{
    let req = request_marker();
    if bytes_eq(b, &req) {
        return Some(Record::Request);
    }
    if b.len() == 33 {
        let resp = response_marker();
        if prefix_eq(b, &resp) {
            let lo = b[31];
            let hi = b[32];
            let port: u16 = (lo as u16) + (hi as u16) * 0x100;
            return Some(Record::Response { port });
        }
    }
    None
}

} // verus!
