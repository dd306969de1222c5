use std::sync::Arc;

use sysfeed::hub::Hub;
use sysfeed::relay::{Received, Relay, RelayAction};
use sysfeed::sampler::{next_pass, publish_readings, SamplerAction};
use sysfeed::snapshot::{MemoryData, WsData};
use sysfeed::wire::Projection;
use tokio::sync::broadcast::error::{RecvError, TryRecvError};
use tokio::sync::broadcast::Receiver;

/// Stands for a client's socket: keeps what is written until it is closed.
struct Socket {
    written: Vec<String>,
    closed: bool,
}

impl Socket {
    fn open() -> Socket {
        Socket { written: Vec::new(), closed: false }
    }

    fn send(&mut self, message: String) -> bool {
        if self.closed {
            return false;
        }
        self.written.push(message);
        true
    }
}

/// Stands for the host: hands out the readings it was given and counts how
/// often it was measured.
struct Host {
    usages: Vec<f32>,
    memory: (u64, u64, u64, u64),
    measured: usize,
}

impl Host {
    fn with(usages: &[f32], memory: (u64, u64, u64, u64)) -> Host {
        Host { usages: usages.to_vec(), memory, measured: 0 }
    }

    fn measure(&mut self) -> (Vec<u32>, MemoryData) {
        self.measured += 1;
        let (total, free, available, used) = self.memory;
        (
            self.usages.iter().map(|u| u.to_bits()).collect(),
            MemoryData::new(total, free, available, used),
        )
    }
}

/// One pass of the sampler's loop, without its sleep.
fn sampler_pass(hub: &Hub, host: &mut Host) -> SamplerAction {
    let action = next_pass(hub);
    if action == SamplerAction::Sample {
        let (usages, memory) = host.measure();
        publish_readings(hub, &usages, memory);
    }
    action
}

fn with_usage_texts(snapshot: WsData) -> Received {
    let texts = snapshot
        .cores()
        .iter()
        .map(|core| serde_json::to_string(&f32::from_bits(core.1)).unwrap())
        .collect();
    Received::Snapshot(snapshot, texts)
}

/// Relays what the subscription holds right now, as a connection's task does
/// each time it wakes. Returns whether the connection goes on.
fn relay_pending(rx: &mut Receiver<WsData>, relay: &mut Relay, socket: &mut Socket) -> bool {
    loop {
        let received = match rx.try_recv() {
            Ok(snapshot) => with_usage_texts(snapshot),
            Err(TryRecvError::Lagged(dropped)) => Received::Lagged(dropped),
            Err(TryRecvError::Closed) => Received::Closed,
            Err(TryRecvError::Empty) => return true,
        };
        let mut action = relay.on_received(received);
        if let RelayAction::Deliver(message) = action {
            let delivered = socket.send(message);
            action = relay.on_written(delivered);
        }
        if action == RelayAction::Stop {
            return false;
        }
    }
}

#[test]
fn first_message_holds_cores_and_memory() {
    let hub = Hub::new();
    let mut host = Host::with(&[3.5, 0.0, 87.25, 100.0], (16_000_000, 4_000_000, 9_000_000, 7_000_000));
    let (mut rx, mut relay) = Relay::connect(&hub, Projection::Full);
    let mut socket = Socket::open();

    assert_eq!(sampler_pass(&hub, &mut host), SamplerAction::Sample);
    assert!(relay_pending(&mut rx, &mut relay, &mut socket));

    let value: serde_json::Value = serde_json::from_str(&socket.written[0]).unwrap();
    let cores = value["cpu_data"].as_array().unwrap();
    assert_eq!(cores.len(), 4);
    for (i, core) in cores.iter().enumerate() {
        assert_eq!(core[0].as_u64(), Some(i as u64));
        assert_eq!(core[1].as_f64(), Some(host.usages[i] as f64));
    }
    let memory = value["mem_data"].as_object().unwrap();
    assert_eq!(memory.len(), 4);
    for key in ["total", "free", "available", "used"] {
        assert!(memory[key].is_u64(), "{key}");
    }
}

#[test]
fn two_clients_receive_the_same_messages() {
    let hub = Hub::new();
    let (mut rx1, mut relay1) = Relay::connect(&hub, Projection::Full);
    let (mut rx2, mut relay2) = Relay::connect(&hub, Projection::Full);
    let mut socket1 = Socket::open();
    let mut socket2 = Socket::open();

    for round in 0..5u32 {
        let mut host = Host::with(&[round as f32, 2.0 * round as f32], (100, round as u64, 50, 50));
        assert_eq!(sampler_pass(&hub, &mut host), SamplerAction::Sample);
        assert!(relay_pending(&mut rx1, &mut relay1, &mut socket1));
        assert!(relay_pending(&mut rx2, &mut relay2, &mut socket2));
    }

    assert_eq!(socket1.written.len(), 5);
    assert_eq!(socket1.written, socket2.written);
    assert_eq!(
        socket1.written[3],
        "{\"cpu_data\":[[0,3.0],[1,6.0]],\"mem_data\":{\"total\":100,\"free\":3,\"available\":50,\"used\":50}}"
    );
    assert_eq!(relay1.missed(), 0);
    assert_eq!(relay2.missed(), 0);
}

#[test]
fn closed_client_gives_up_its_subscription() {
    let hub = Hub::new();
    let mut host = Host::with(&[1.0], (4, 3, 2, 1));
    let (_rx_other, _relay_other) = Relay::connect(&hub, Projection::Full);
    let before = hub.subscriber_count();

    let (mut rx, mut relay) = Relay::connect(&hub, Projection::Full);
    let mut socket = Socket::open();
    assert_eq!(hub.subscriber_count(), before + 1);
    sampler_pass(&hub, &mut host);
    assert!(relay_pending(&mut rx, &mut relay, &mut socket));

    socket.closed = true;
    sampler_pass(&hub, &mut host);
    assert!(!relay_pending(&mut rx, &mut relay, &mut socket));
    assert!(!relay.is_open());
    drop(rx);

    assert_eq!(hub.subscriber_count(), before);
    assert_eq!(socket.written.len(), 1);
}

#[test]
fn sampler_idles_again_once_the_last_client_is_gone() {
    let hub = Hub::new();
    let mut host = Host::with(&[1.0], (4, 3, 2, 1));
    assert_eq!(sampler_pass(&hub, &mut host), SamplerAction::Idle);

    let (rx, _relay) = Relay::connect(&hub, Projection::Full);
    assert_eq!(sampler_pass(&hub, &mut host), SamplerAction::Sample);
    assert_eq!(sampler_pass(&hub, &mut host), SamplerAction::Sample);
    drop(rx);

    for _ in 0..10 {
        assert_eq!(sampler_pass(&hub, &mut host), SamplerAction::Idle);
    }
    assert_eq!(host.measured, 2);
}

#[test]
fn host_is_not_measured_while_nobody_is_subscribed() {
    let hub = Hub::new();
    let mut host = Host::with(&[1.0, 2.0], (4, 3, 2, 1));
    for _ in 0..100 {
        assert_eq!(sampler_pass(&hub, &mut host), SamplerAction::Idle);
    }
    assert_eq!(host.measured, 0);
}

#[test]
fn memory_values_reach_the_client_exactly() {
    let hub = Hub::new();
    let mut host = Host::with(&[42.0], (1000, 200, 300, 700));
    let (mut rx, mut relay) = Relay::connect(&hub, Projection::Full);
    let mut socket = Socket::open();

    sampler_pass(&hub, &mut host);
    relay_pending(&mut rx, &mut relay, &mut socket);

    let message = &socket.written[0];
    assert_eq!(
        message,
        "{\"cpu_data\":[[0,42.0]],\"mem_data\":{\"total\":1000,\"free\":200,\"available\":300,\"used\":700}}"
    );
    let at = message.find("\"mem_data\":").unwrap() + "\"mem_data\":".len();
    assert_eq!(
        &message[at..message.len() - 1],
        "{\"total\":1000,\"free\":200,\"available\":300,\"used\":700}"
    );
}

#[test]
fn lagging_client_receives_the_next_snapshot() {
    let hub = Hub::new();
    let (mut rx, mut relay) = Relay::connect(&hub, Projection::CoresOnly);
    let mut socket = Socket::open();

    for usage in [1.0f32, 2.0, 3.0] {
        sampler_pass(&hub, &mut Host::with(&[usage], (1, 1, 1, 1)));
    }
    assert!(relay_pending(&mut rx, &mut relay, &mut socket));
    assert_eq!(socket.written, vec!["[3.0]"]);
    assert_eq!(relay.missed(), 2);
    assert!(relay.is_open());

    sampler_pass(&hub, &mut Host::with(&[4.0], (1, 1, 1, 1)));
    assert!(relay_pending(&mut rx, &mut relay, &mut socket));
    assert_eq!(socket.written, vec!["[3.0]", "[4.0]"]);
    assert_eq!(relay.missed(), 2);
}

#[test]
fn client_that_never_reads_does_not_slow_the_sampler() {
    let hub = Hub::new();
    let (_rx, _relay) = Relay::connect(&hub, Projection::Full);
    let mut host = Host::with(&[1.0], (1, 1, 1, 1));
    for _ in 0..1000 {
        assert_eq!(sampler_pass(&hub, &mut host), SamplerAction::Sample);
    }
    assert_eq!(host.measured, 1000);
}

#[test]
fn clients_of_both_streams_are_served_from_one_hub() {
    let hub = Hub::new();
    let (mut rx_data, mut relay_data) = Relay::connect(&hub, Projection::Full);
    let (mut rx_cpus, mut relay_cpus) = Relay::connect(&hub, Projection::CoresOnly);
    let mut socket_data = Socket::open();
    let mut socket_cpus = Socket::open();

    sampler_pass(&hub, &mut Host::with(&[10.0, 20.5], (9, 8, 7, 6)));
    relay_pending(&mut rx_data, &mut relay_data, &mut socket_data);
    relay_pending(&mut rx_cpus, &mut relay_cpus, &mut socket_cpus);

    assert_eq!(
        socket_data.written,
        vec!["{\"cpu_data\":[[0,10.0],[1,20.5]],\"mem_data\":{\"total\":9,\"free\":8,\"available\":7,\"used\":6}}"]
    );
    assert_eq!(socket_cpus.written, vec!["[10.0,20.5]"]);
}

#[test]
fn end_of_publication_ends_every_connection() {
    let hub = Hub::new();
    let (mut rx, mut relay) = Relay::connect(&hub, Projection::Full);
    let mut socket = Socket::open();
    sampler_pass(&hub, &mut Host::with(&[1.0], (1, 1, 1, 1)));
    drop(hub);

    assert!(!relay_pending(&mut rx, &mut relay, &mut socket));
    assert_eq!(socket.written.len(), 1);
    assert!(!relay.is_open());
}

/// The task of one connection as the service runs it, with the socket stood
/// in for.
async fn serve(hub: Arc<Hub>, projection: Projection, close_after: usize) -> (Vec<String>, u64) {
    let (mut rx, mut relay) = Relay::connect(&hub, projection);
    drop(hub);
    let mut socket = Socket::open();
    loop {
        let received = match rx.recv().await {
            Ok(snapshot) => with_usage_texts(snapshot),
            Err(RecvError::Lagged(dropped)) => Received::Lagged(dropped),
            Err(RecvError::Closed) => Received::Closed,
        };
        let mut action = relay.on_received(received);
        if let RelayAction::Deliver(message) = action {
            socket.closed = socket.written.len() >= close_after;
            let delivered = socket.send(message);
            action = relay.on_written(delivered);
        }
        if action == RelayAction::Stop {
            break;
        }
    }
    (socket.written, relay.missed())
}

#[test]
fn connection_tasks_run_until_their_socket_or_the_hub_is_gone() {
    let runtime = tokio::runtime::Builder::new_current_thread().build().unwrap();
    let hub = Arc::new(Hub::new());
    let patient = runtime.spawn(serve(hub.clone(), Projection::CoresOnly, usize::MAX));
    let hasty = runtime.spawn(serve(hub.clone(), Projection::CoresOnly, 2));

    let sampler_hub = hub.clone();
    runtime.block_on(async move {
        tokio::task::yield_now().await;
        assert_eq!(sampler_hub.subscriber_count(), 2);
        for round in 1..=4u32 {
            let mut host = Host::with(&[round as f32], (1, 1, 1, 1));
            assert_eq!(sampler_pass(&sampler_hub, &mut host), SamplerAction::Sample);
            tokio::task::yield_now().await;
        }
        assert_eq!(sampler_hub.subscriber_count(), 1);
    });
    drop(hub);

    let (written, missed) = runtime.block_on(hasty).unwrap();
    assert_eq!(written, vec!["[1.0]", "[2.0]"]);
    assert_eq!(missed, 0);
    let (written, missed) = runtime.block_on(patient).unwrap();
    assert_eq!(written, vec!["[1.0]", "[2.0]", "[3.0]", "[4.0]"]);
    assert_eq!(missed, 0);
}
