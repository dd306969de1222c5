use sysfeed::relay::{Received, Relay, RelayAction};
use sysfeed::snapshot::{MemoryData, WsData};
use sysfeed::wire::Projection;

fn snapshot_of(usages: &[f32], total: u64) -> Received {
    let bits: Vec<u32> = usages.iter().map(|u| u.to_bits()).collect();
    let texts: Vec<String> = usages.iter().map(|u| serde_json::to_string(u).unwrap()).collect();
    Received::Snapshot(WsData::from_readings(&bits, MemoryData::new(total, 1, 2, 3)), texts)
}

fn message_of(action: RelayAction) -> String {
    match action {
        RelayAction::Deliver(message) => message,
        other => panic!("no message but {other:?}"),
    }
}

#[test]
fn new_relay_is_open_and_has_missed_nothing() {
    let relay = Relay::new(Projection::Full);
    assert!(relay.is_open());
    assert_eq!(relay.missed(), 0);
    assert_eq!(relay.projection(), Projection::Full);
    assert_eq!(Relay::new(Projection::CoresOnly).projection(), Projection::CoresOnly);
}

#[test]
fn snapshot_is_delivered_as_its_message() {
    let mut relay = Relay::new(Projection::Full);
    let message = message_of(relay.on_received(snapshot_of(&[25.0, 75.5], 1000)));
    assert_eq!(
        message,
        "{\"cpu_data\":[[0,25.0],[1,75.5]],\"mem_data\":{\"total\":1000,\"free\":1,\"available\":2,\"used\":3}}"
    );
    assert!(relay.is_open());
}

#[test]
fn snapshot_is_delivered_under_the_relays_projection() {
    let mut relay = Relay::new(Projection::CoresOnly);
    assert_eq!(message_of(relay.on_received(snapshot_of(&[25.0, 75.5], 1000))), "[25.0,75.5]");
}

#[test]
fn successful_write_waits_for_the_next_snapshot() {
    let mut relay = Relay::new(Projection::Full);
    relay.on_received(snapshot_of(&[1.0], 1));
    assert!(matches!(relay.on_written(true), RelayAction::Await));
    assert!(relay.is_open());
}

#[test]
fn failed_write_ends_the_relay() {
    let mut relay = Relay::new(Projection::Full);
    relay.on_received(snapshot_of(&[1.0], 1));
    assert!(matches!(relay.on_written(false), RelayAction::Stop));
    assert!(!relay.is_open());
}

#[test]
fn end_of_publication_ends_the_relay() {
    let mut relay = Relay::new(Projection::Full);
    assert!(matches!(relay.on_received(Received::Closed), RelayAction::Stop));
    assert!(!relay.is_open());
}

#[test]
fn snapshot_that_cannot_be_written_ends_the_relay() {
    let mut relay = Relay::new(Projection::Full);
    let broken = Received::Snapshot(
        WsData::from_readings(&vec![1.0f32.to_bits()], MemoryData::new(1, 1, 1, 1)),
        vec![String::from("one")],
    );
    assert!(matches!(relay.on_received(broken), RelayAction::Stop));
    assert!(!relay.is_open());

    let mut relay = Relay::new(Projection::CoresOnly);
    let short = Received::Snapshot(
        WsData::from_readings(&vec![1.0f32.to_bits()], MemoryData::new(1, 1, 1, 1)),
        Vec::new(),
    );
    assert!(matches!(relay.on_received(short), RelayAction::Stop));
    assert!(!relay.is_open());
}

#[test]
fn ended_relay_stays_ended() {
    let mut relay = Relay::new(Projection::Full);
    relay.on_received(Received::Closed);
    assert!(matches!(relay.on_received(snapshot_of(&[1.0], 1)), RelayAction::Stop));
    assert!(matches!(relay.on_received(Received::Lagged(3)), RelayAction::Stop));
    assert!(matches!(relay.on_written(true), RelayAction::Stop));
    assert!(!relay.is_open());
    assert_eq!(relay.missed(), 0);
}

#[test]
fn lag_is_counted_and_passed_over() {
    let mut relay = Relay::new(Projection::Full);
    assert!(matches!(relay.on_received(Received::Lagged(2)), RelayAction::Await));
    assert!(relay.is_open());
    assert_eq!(relay.missed(), 2);
    assert!(matches!(relay.on_received(Received::Lagged(5)), RelayAction::Await));
    assert_eq!(relay.missed(), 7);
}

#[test]
fn lag_count_stops_at_its_largest_value() {
    let mut relay = Relay::new(Projection::Full);
    relay.on_received(Received::Lagged(u64::MAX - 1));
    relay.on_received(Received::Lagged(5));
    assert_eq!(relay.missed(), u64::MAX);
    assert!(relay.is_open());
}

#[test]
fn snapshot_after_a_lag_is_delivered() {
    let mut relay = Relay::new(Projection::CoresOnly);
    relay.on_received(Received::Lagged(2));
    assert_eq!(message_of(relay.on_received(snapshot_of(&[9.0], 1))), "[9.0]");
    assert!(matches!(relay.on_written(true), RelayAction::Await));
}

#[test]
fn snapshots_are_delivered_in_the_order_received() {
    let mut relay = Relay::new(Projection::CoresOnly);
    let mut written = Vec::new();
    for usage in [1.0f32, 2.0, 3.0, 4.0] {
        written.push(message_of(relay.on_received(snapshot_of(&[usage], 1))));
        assert!(matches!(relay.on_written(true), RelayAction::Await));
    }
    assert_eq!(written, vec!["[1.0]", "[2.0]", "[3.0]", "[4.0]"]);
}
