use beacon_discovery::aggregator::Aggregator;
use beacon_discovery::beacon::BeaconPacket;
use beacon_discovery::host::{Event, HostInfo, NetAddr, NetIp};

fn addr(last: u8) -> NetAddr {
    NetAddr { ip: NetIp::V4([192, 168, 1, last]), port: 17500 }
}

fn announced(id: u128, namespaces: usize, last: u8) -> Event {
    let p = BeaconPacket {
        host_int: id,
        version: vec![2, 0],
        displayname: String::from("peer"),
        port: 17500,
        namespaces: vec![9; namespaces],
    };
    Event::HostFound(HostInfo::from_item(&p, addr(last), Some(format!("host{}", last))))
}

#[test]
fn from_item_copies_fields() {
    let p = BeaconPacket {
        host_int: u128::MAX,
        version: vec![2, 0],
        displayname: String::from("x"),
        port: 1234,
        namespaces: vec![1, 2, 3],
    };
    let a = NetAddr { ip: NetIp::V6([0xfe80, 0, 0, 0, 0, 0, 0, 1]), port: 40000 };
    let h = HostInfo::from_item(&p, a, Some(String::from("nas.local")));
    assert_eq!(h.id, u128::MAX);
    assert_eq!(h.address, a);
    assert_eq!(h.host, "nas.local");
    assert_eq!(h.namespaces, 3);
}

#[test]
fn failed_lookup_is_unknown() {
    let p = BeaconPacket {
        host_int: 5,
        version: vec![],
        displayname: String::new(),
        port: 17500,
        namespaces: vec![],
    };
    let h = HostInfo::from_item(&p, addr(5), None);
    assert_eq!(h.host, "(Unknown)");
    assert_eq!(h.namespaces, 0);
}

#[test]
fn first_announcement_of_an_id_wins() {
    let agg = Aggregator::collect(vec![announced(1, 2, 10), announced(1, 5, 11)]);
    let hosts = agg.finish();
    assert_eq!(hosts.len(), 1);
    let h = &hosts[&1];
    assert_eq!(h.namespaces, 2);
    assert_eq!(h.address, addr(10));
}

#[test]
fn one_entry_per_distinct_id() {
    let agg = Aggregator::collect(vec![
        announced(3, 1, 1),
        announced(4, 1, 2),
        announced(3, 7, 3),
        announced(5, 1, 4),
        announced(4, 8, 5),
    ]);
    assert!(!agg.is_finished());
    let hosts = agg.finish();
    assert_eq!(hosts.len(), 3);
    assert_eq!(hosts[&3].namespaces, 1);
    assert_eq!(hosts[&4].namespaces, 1);
    assert_eq!(hosts[&5].address, addr(4));
}

#[test]
fn deadline_tick_ends_the_run() {
    let agg = Aggregator::collect(vec![
        Event::Countdown(2),
        announced(1, 1, 1),
        Event::Countdown(1),
        Event::Countdown(0),
        announced(2, 1, 2),
        Event::Countdown(0),
    ]);
    assert!(agg.is_finished());
    let hosts = agg.finish();
    assert_eq!(hosts.len(), 1);
    assert!(hosts.contains_key(&1));
    assert!(!hosts.contains_key(&2));
}

#[test]
fn step_reports_ticks_until_the_deadline() {
    let mut agg = Aggregator::new();
    assert_eq!(agg.step(Event::Countdown(3)), Some(3));
    assert!(!agg.is_finished());
    assert_eq!(agg.step(announced(8, 1, 8)), None);
    assert_eq!(agg.step(Event::Countdown(0)), Some(0));
    assert!(agg.is_finished());
    assert_eq!(agg.step(Event::Countdown(0)), None);
    assert_eq!(agg.step(announced(9, 1, 9)), None);
    let hosts = agg.finish();
    assert_eq!(hosts.len(), 1);
    assert!(hosts.contains_key(&8));
}

#[test]
fn empty_run_finds_nothing() {
    let agg = Aggregator::collect(vec![Event::Countdown(1), Event::Countdown(0)]);
    assert!(agg.is_finished());
    assert!(agg.finish().is_empty());
}

#[test]
fn two_peers_and_a_repeat_in_three_seconds() {
    let agg = Aggregator::collect(vec![
        Event::Countdown(3),
        announced(1, 2, 1),
        Event::Countdown(2),
        announced(2, 1, 2),
        Event::Countdown(1),
        announced(1, 6, 1),
        Event::Countdown(0),
    ]);
    let hosts = agg.finish();
    assert_eq!(hosts.len(), 2);
    assert_eq!(hosts[&1].namespaces, 2);
    assert_eq!(hosts[&2].namespaces, 1);
}
