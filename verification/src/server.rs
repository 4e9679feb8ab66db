//! The advertisement server's decision, one inbound datagram at a time.
//!
//! The server is stateless between exchanges: for each received datagram
//! it either builds exactly one unicast reply, addressed to the sender,
//! or does nothing. Receiving and sending stay with the caller; what is
//! decided here is verified.

use vstd::prelude::*;

use crate::peer::PeerAddr;
use crate::record::Record;
use crate::wire::{spec_wire_decode, spec_wire_encode, wire_decode, wire_encode};

verus! {

/// The server's reply to one inbound datagram: the response naming the
/// service port, framed for the wire and addressed to the exact sender —
/// but only if the datagram decodes to a Request; otherwise nothing.
pub open spec fn spec_server_step(
    datagram: Seq<u8>,
    sender: PeerAddr,
    service_port: u16,
) -> Option<(Seq<u8>, PeerAddr)> {
    if spec_wire_decode(datagram) == Some(Record::Request) {
        Some((spec_wire_encode(Record::Response { port: service_port }), sender))
    } else {
        None
    }
}

/// A server never emits a reply for a datagram that does not decode to a
/// record bearing the exact request marker: malformed frames, malformed
/// records and responses are all discarded without observable effect.
pub proof fn lemma_marker_rejection(datagram: Seq<u8>, sender: PeerAddr, service_port: u16)
    ensures
        spec_wire_decode(datagram) != Some(Record::Request) ==> spec_server_step(
            datagram,
            sender,
            service_port,
        ) is None,
{
}

/// A server's reply, when there is one, is addressed to the exact peer
/// the request arrived from, and carries the response record with the
/// configured service port.
pub proof fn lemma_reply_targeting(datagram: Seq<u8>, sender: PeerAddr, service_port: u16)
    ensures
        spec_server_step(datagram, sender, service_port) matches Some(reply) ==> {
            &&& reply.1 == sender
            &&& reply.0 == spec_wire_encode(Record::Response { port: service_port })
        },
{
}

/// Decide what to do with one inbound datagram: reply to the sender with
/// the service port iff the datagram decodes to a Request.
pub fn server_step(datagram: &Vec<u8>, sender: PeerAddr, service_port: u16) -> (reply: Option<
    (Vec<u8>, PeerAddr),
>)
    ensures
        match reply {
            Some(r) => spec_server_step(datagram@, sender, service_port) == Some((r.0@, r.1)),
            None => spec_server_step(datagram@, sender, service_port) is None,
        },
{
    match wire_decode(datagram) {
        Some(Record::Request) => {
            let response = wire_encode(&(Record::Response { port: service_port }));
            Some((response, sender))
        },
        _ => None,
    }
}

} // verus!
