use beacon_discovery::beacon::{accept, decode_datagram, BeaconPacket};
use bytes::BytesMut;

fn packet(id: u128, namespaces: Vec<u128>) -> BeaconPacket {
    BeaconPacket {
        host_int: id,
        version: vec![2, 0],
        displayname: String::from("desk"),
        port: 17500,
        namespaces,
    }
}

#[test]
fn empty_datagram_needs_more_data() {
    let mut buf = BytesMut::new();
    let mut called = false;
    let r = decode_datagram(&mut buf, |_b: Vec<u8>| -> Result<BeaconPacket, ()> {
        called = true;
        Err(())
    });
    assert!(r.is_none());
    assert!(!called);
    assert!(buf.is_empty());
}

#[test]
fn foreign_datagram_is_none_not_error() {
    let mut buf = BytesMut::from(&b"GET / HTTP/1.1"[..]);
    let r = decode_datagram(&mut buf, |_b: Vec<u8>| -> Result<BeaconPacket, String> {
        Err(String::from("not an announcement"))
    });
    assert!(matches!(r, Some(None)));
    assert!(buf.is_empty());
}

#[test]
fn parser_sees_the_whole_datagram() {
    let mut buf = BytesMut::from(&b"{\"host_int\": 7}"[..]);
    let mut seen: Vec<u8> = Vec::new();
    let r = decode_datagram(&mut buf, |b: Vec<u8>| -> Result<BeaconPacket, ()> {
        seen = b;
        Ok(packet(7, vec![]))
    });
    assert_eq!(seen, b"{\"host_int\": 7}".to_vec());
    assert!(buf.is_empty());
    assert_eq!(r.unwrap().unwrap().host_int, 7);
}

#[test]
fn well_formed_fields_come_back_exactly() {
    for id in [0u128, u128::MAX] {
        let mut buf = BytesMut::from(&b"{}"[..]);
        let r = decode_datagram(&mut buf, |_b: Vec<u8>| -> Result<BeaconPacket, ()> {
            Ok(BeaconPacket {
                host_int: id,
                version: vec![2, 0],
                displayname: String::from("office laptop"),
                port: u16::MAX,
                namespaces: vec![0, u128::MAX, 42],
            })
        });
        let p = r.unwrap().unwrap();
        assert_eq!(p.host_int, id);
        assert_eq!(p.version, vec![2, 0]);
        assert_eq!(p.displayname, "office laptop");
        assert_eq!(p.port, u16::MAX);
        assert_eq!(p.namespaces, vec![0, u128::MAX, 42]);
    }
}

#[test]
fn accept_keeps_packet_or_drops_error() {
    let ok: Result<BeaconPacket, ()> = Ok(packet(3, vec![1, 2]));
    let kept = accept(ok).unwrap();
    assert_eq!(kept.host_int, 3);
    assert_eq!(kept.namespaces, vec![1, 2]);
    let bad: Result<BeaconPacket, ()> = Err(());
    assert!(accept(bad).is_none());
}
