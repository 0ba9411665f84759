//! Announcement datagrams and their decoding.

use bytes::BytesMut;
use vstd::prelude::*;

verus! {

#[verifier::external_type_specification]
#[verifier::external_body]
pub struct ExBytesMut(BytesMut);

/// The bytes that a receive buffer holds, in order.
pub uninterp spec fn buffered(b: BytesMut) -> Seq<u8>;

/// Relies on `BytesMut::is_empty`: true exactly when the length is zero.
pub assume_specification[ BytesMut::is_empty ](b: &BytesMut) -> (r: bool)
    ensures
        r == (buffered(*b).len() == 0),
;

/// Relies on `BytesMut::clear`: truncates the buffer to length zero.
pub assume_specification[ BytesMut::clear ](b: &mut BytesMut)
    ensures
        buffered(*final(b)) == Seq::<u8>::empty(),
;

/// Relies on `BytesMut` dereferencing to the slice of the bytes it holds,
/// which `to_vec` copies.
#[verifier::external_body]
fn buffer_bytes(b: &BytesMut) -> (r: Vec<u8>)
    ensures
        r@ == buffered(*b),
{
    b.to_vec()
}

/// One announcement of a running peer, as carried by a datagram.
pub struct BeaconPacket {
    /// Identifier of the peer's installation.
    pub host_int: u128,
    /// Protocol version, most significant part first.
    pub version: Vec<usize>,
    /// Name that the peer shows to users.
    pub displayname: String,
    /// Port on which the peer offers its service.
    pub port: u16,
    /// Identifiers of the folders that the peer shares.
    pub namespaces: Vec<u128>,
}

/// What a parse attempt leaves for the listener: the packet, or `None` for a
/// datagram of some other protocol that shares the port.
pub open spec fn accepted<E>(parsed: Result<BeaconPacket, E>) -> Option<BeaconPacket> {
    match parsed {
        Ok(p) => Some(p),
        Err(_) => None,
    }
}

/// Turns the outcome of parsing one datagram into what the listener keeps.
/// A failed parse is foreign traffic, never an error.
pub fn accept<E>(parsed: Result<BeaconPacket, E>) -> (r: Option<BeaconPacket>)
    ensures
        r == accepted(parsed),
{
    match parsed {
        Ok(p) => Some(p),
        Err(_) => None,
    }
}

/// Decodes the datagram held in `buf`.
///
/// An empty buffer asks for more data (`None`) and is left as it is. A
/// non-empty buffer is one whole datagram: its bytes go to `parse` once, the
/// buffer is emptied, and the result is `Some` of what `accept` makes of the
/// parse, so a datagram that does not parse gives `Some(None)`.
pub fn decode_datagram<E, F>(buf: &mut BytesMut, parse: F) -> (r: Option<Option<BeaconPacket>>)
    where
        F: FnOnce(Vec<u8>) -> Result<BeaconPacket, E>,
    requires
        forall|b: Vec<u8>| b@ == buffered(*old(buf)) ==> parse.requires((b,)),
    ensures
        buffered(*old(buf)).len() == 0 ==> r is None && *final(buf) == *old(buf),
        buffered(*old(buf)).len() > 0 ==> {
            &&& buffered(*final(buf)).len() == 0
            &&& exists|b: Vec<u8>, p: Result<BeaconPacket, E>|
                b@ == buffered(*old(buf)) && parse.ensures((b,), p) && r == Some(accepted(p))
        },
{
    if buf.is_empty() {
        None
    } else {
        let bytes = buffer_bytes(buf);
        let parsed = parse(bytes);
        buf.clear();
        Some(accept(parsed))
    }
}

} // verus!
