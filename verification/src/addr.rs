//! Peer addresses as plain values.
//!
//! The dispatch core never interprets an address: it only captures the source
//! of a datagram and hands it back when a reply is to be sent. An address is
//! therefore kept as the octets of the host IP together with the port.

use vstd::prelude::*;

verus! {

/// Number of octets in an IPv4 host address.
pub const IPV4_OCTETS: usize = 4;

/// Number of octets in an IPv6 host address.
pub const IPV6_OCTETS: usize = 16;

/// The address of one peer: the IP octets of the host and the UDP port.
pub struct PeerAddr {
    /// Host IP, as 4 octets (IPv4) or 16 octets (IPv6).
    pub host: Vec<u8>,
    /// UDP port.
    pub port: u16,
}

impl PeerAddr {
    /// A well-formed address carries exactly an IPv4 or an IPv6 host.
    pub open spec fn wf(self) -> bool {
        self.host@.len() == IPV4_OCTETS || self.host@.len() == IPV6_OCTETS
    }

    /// Builds the address of a peer from the host octets and the port.
    pub fn new(host: Vec<u8>, port: u16) -> (a: PeerAddr)
        requires
            host@.len() == IPV4_OCTETS || host@.len() == IPV6_OCTETS,
        ensures
            a.host == host,
            a.port == port,
            a.wf(),
    {
        PeerAddr { host, port }
    }
}

} // verus!
