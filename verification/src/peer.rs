//! The transport-level sender address attached to a received datagram.
//!
//! The transport, not the payload, names the peer: the server targets its
//! unicast reply at this address, and the client attributes a response to
//! a host by it. It is held as plain values — the IPv4 address as its
//! 32-bit number and the UDP port — so that contracts can speak of it.

use vstd::prelude::*;

verus! {

/// An IPv4 address (as its 32-bit number) and a UDP port.
#[derive(Clone, Copy, Debug, PartialEq, Eq, Structural)]
pub struct PeerAddr {
    pub ip: u32,
    pub port: u16,
}

/// The fixed multicast group every participant joins: address
/// `229.29.29.29`, UDP port `29999`.
pub const MULTICAST_IP: u32 = 0xE51D_1D1D;

/// The fixed UDP port of the multicast group.
pub const ADVERT_PORT: u16 = 29999;

/// The group identity as a peer address, the destination of every query.
pub fn multicast_group() -> (a: PeerAddr)
    ensures
        a.ip == MULTICAST_IP,
        a.port == ADVERT_PORT,
{
    PeerAddr { ip: MULTICAST_IP, port: ADVERT_PORT }
}

} // verus!
