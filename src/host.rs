//! Peers as the listener records them, and the events of a run.

use crate::beacon::BeaconPacket;
use vstd::prelude::*;

verus! {

/// An IP address as its raw parts.
#[derive(Clone, Copy, Debug, PartialEq, Eq)]
pub enum NetIp {
    V4([u8; 4]),
    V6([u16; 8]),
}

/// An IP address and a port.
#[derive(Clone, Copy, Debug, PartialEq, Eq)]
pub struct NetAddr {
    pub ip: NetIp,
    pub port: u16,
}

/// A peer as first seen by the listener.
#[derive(Debug)]
pub struct HostInfo {
    /// Identifier announced by the peer.
    pub id: u128,
    /// Where the announcement came from (not the port it advertises).
    pub address: NetAddr,
    /// Host name of `address`, or `(Unknown)` when it could not be resolved.
    pub host: String,
    /// How many folders the peer announced.
    pub namespaces: usize,
}

/// Host name recorded for a peer whose address did not resolve.
pub open spec fn unknown_host() -> Seq<char> {
    seq!['(', 'U', 'n', 'k', 'n', 'o', 'w', 'n', ')']
}

/// The host name that a lookup outcome leaves in the record.
pub open spec fn host_name(lookup: Option<String>) -> Seq<char> {
    match lookup {
        Some(name) => name@,
        None => unknown_host(),
    }
}

impl HostInfo {
    /// Records a peer from its announcement, the address it came from and the
    /// outcome of the reverse lookup of that address.
    pub fn from_item(packet: &BeaconPacket, address: NetAddr, lookup: Option<String>) -> (r: Self)
        ensures
            r.id == packet.host_int,
            r.address == address,
            r.host@ == host_name(lookup),
            r.namespaces == packet.namespaces@.len(),
    {
        let host = match lookup {
            Some(name) => name,
            None => {
                proof {
                    reveal_strlit("(Unknown)");
                }
                let fallback = "(Unknown)".to_owned();
                assert(fallback@ =~= unknown_host());
                fallback
            },
        };
        HostInfo { id: packet.host_int, address, host, namespaces: packet.namespaces.len() }
    }
}

/// What the merged stream of a run delivers.
#[derive(Debug)]
pub enum Event {
    /// A timer tick with the whole seconds left in the run.
    Countdown(u64),
    /// A peer announcement from one of the sockets.
    HostFound(HostInfo),
}

} // verus!
