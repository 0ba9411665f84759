//! Passive discovery of LAN sync peers: decoding of announcement datagrams,
//! the countdown that bounds a run, the fold of discovery events into the set
//! of peers seen, and the order in which listening sockets are tried.

pub mod acquire;
pub mod aggregator;
pub mod beacon;
pub mod countdown;
pub mod host;
