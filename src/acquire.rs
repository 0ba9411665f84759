//! The order in which listening sockets are tried.
//!
//! A wildcard IPv6 socket receives IPv4 traffic on some systems and not on
//! others, so the listener probes at run time: an IPv4 socket first, then an
//! IPv6 socket restricted to IPv6 beside it; if IPv4 cannot be had, one IPv6
//! socket that may also receive IPv4.

use crate::host::{NetAddr, NetIp};
use vstd::prelude::*;

verus! {

/// The UDP port on which peers announce themselves.
pub const DISCOVERY_PORT: u16 = 17500;

/// One socket to bind.
#[derive(Clone, Copy, Debug, PartialEq, Eq, Structural)]
pub enum BindTarget {
    /// The IPv4 wildcard address.
    Ipv4Any,
    /// The IPv6 wildcard address, receiving IPv6 traffic only.
    Ipv6Only,
    /// The IPv6 wildcard address, without the IPv6-only restriction.
    Ipv6Dual,
}

impl BindTarget {
    /// The wildcard address and the discovery port.
    pub fn address(&self) -> (r: NetAddr)
        ensures
            r.port == DISCOVERY_PORT,
            *self == BindTarget::Ipv4Any ==> (r.ip matches NetIp::V4(o) && o@ == seq![0u8; 4]),
            *self != BindTarget::Ipv4Any ==> (r.ip matches NetIp::V6(s) && s@ == seq![0u16; 8]),
    {
        match self {
            BindTarget::Ipv4Any => NetAddr { ip: NetIp::V4([0u8; 4]), port: DISCOVERY_PORT },
            _ => NetAddr { ip: NetIp::V6([0u16; 8]), port: DISCOVERY_PORT },
        }
    }

    /// Whether the socket is restricted to IPv6 traffic.
    pub fn only_v6(&self) -> (r: bool)
        ensures
            r == (*self == BindTarget::Ipv6Only),
    {
        match self {
            BindTarget::Ipv6Only => true,
            _ => false,
        }
    }
}

/// The sockets that a run listens on.
#[derive(Debug)]
pub enum Sources<S> {
    /// An IPv4 socket and an IPv6-only socket.
    Pair(S, S),
    /// One socket.
    Single(S),
}

/// Where acquisition stands: the outcomes seen so far.
#[derive(Debug)]
pub enum Acquirer<S, E> {
    /// Nothing bound yet.
    Start,
    /// The IPv4 socket is bound.
    Ipv4Bound(S),
    /// The IPv4 socket failed with this error.
    Ipv4Failed(E),
}

/// What to do after an outcome.
#[derive(Debug)]
pub enum Acquisition<S, E> {
    /// Bind the socket that this state asks for next.
    Bind(Acquirer<S, E>),
    /// Listen on these sockets.
    Ready(Sources<S>),
    /// No socket could be had; this is the IPv4 error.
    Failed(E),
}

impl<S, E> Acquirer<S, E> {
    /// The next state for the outcome of binding `self.pending()`.
    pub open spec fn next(self, outcome: Result<S, E>) -> Acquisition<S, E> {
        match self {
            Acquirer::Start => match outcome {
                Ok(v4) => Acquisition::Bind(Acquirer::Ipv4Bound(v4)),
                Err(e) => Acquisition::Bind(Acquirer::Ipv4Failed(e)),
            },
            Acquirer::Ipv4Bound(v4) => match outcome {
                Ok(v6) => Acquisition::Ready(Sources::Pair(v4, v6)),
                Err(_) => Acquisition::Ready(Sources::Single(v4)),
            },
            Acquirer::Ipv4Failed(e) => match outcome {
                Ok(any) => Acquisition::Ready(Sources::Single(any)),
                Err(_) => Acquisition::Failed(e),
            },
        }
    }

    /// The socket to bind in this state.
    pub open spec fn target(&self) -> BindTarget {
        match self {
            Acquirer::Start => BindTarget::Ipv4Any,
            Acquirer::Ipv4Bound(_) => BindTarget::Ipv6Only,
            Acquirer::Ipv4Failed(_) => BindTarget::Ipv6Dual,
        }
    }

    pub fn new() -> (r: Self)
        ensures
            r == Acquirer::<S, E>::Start,
    {
        Acquirer::Start
    }

    /// The socket to bind in this state.
    pub fn pending(&self) -> (r: BindTarget)
        ensures
            r == self.target(),
    {
        match self {
            Acquirer::Start => BindTarget::Ipv4Any,
            Acquirer::Ipv4Bound(_) => BindTarget::Ipv6Only,
            Acquirer::Ipv4Failed(_) => BindTarget::Ipv6Dual,
        }
    }

    /// Takes the outcome of binding `self.pending()`.
    pub fn advance(self, outcome: Result<S, E>) -> (r: Acquisition<S, E>)
        ensures
            r == self.next(outcome),
    {
        match self {
            Acquirer::Start => match outcome {
                Ok(v4) => Acquisition::Bind(Acquirer::Ipv4Bound(v4)),
                Err(e) => Acquisition::Bind(Acquirer::Ipv4Failed(e)),
            },
            Acquirer::Ipv4Bound(v4) => match outcome {
                Ok(v6) => Acquisition::Ready(Sources::Pair(v4, v6)),
                Err(_) => Acquisition::Ready(Sources::Single(v4)),
            },
            Acquirer::Ipv4Failed(e) => match outcome {
                Ok(any) => Acquisition::Ready(Sources::Single(any)),
                Err(_) => Acquisition::Failed(e),
            },
        }
    }
}

/// Acquisition takes two binds and no more. An IPv4 socket is always kept
/// once bound, with an IPv6-only one beside it when that binds too; when
/// IPv4 fails, an unrestricted IPv6 socket is used alone; when both fail, the
/// run ends with the IPv4 error before any socket listens.
pub proof fn dual_stack_fallback<S, E>(first: Result<S, E>, second: Result<S, E>)
    ensures
        Acquirer::<S, E>::Start.target() == BindTarget::Ipv4Any,
        Acquirer::<S, E>::Start.next(first) is Bind,
        ({
            let after = Acquirer::<S, E>::Start.next(first)->Bind_0;
            &&& after.target() == (if first is Ok {
                BindTarget::Ipv6Only
            } else {
                BindTarget::Ipv6Dual
            })
            &&& match (first, second) {
                (Ok(v4), Ok(v6)) => after.next(second) == Acquisition::<S, E>::Ready(
                    Sources::Pair(v4, v6),
                ),
                (Ok(v4), Err(_)) => after.next(second) == Acquisition::<S, E>::Ready(
                    Sources::Single(v4),
                ),
                (Err(_), Ok(any)) => after.next(second) == Acquisition::<S, E>::Ready(
                    Sources::Single(any),
                ),
                (Err(e), Err(_)) => after.next(second) == Acquisition::<S, E>::Failed(e),
            }
        }),
{
}

} // verus!
