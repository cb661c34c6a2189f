use etherparse::PacketBuilder;
use pcap_replayer::discovery::{discover_ports, PortSet};
use pcap_replayer::pool::SocketPool;
use pcap_replayer::replay::{route, send_interval_us, Replay, PROGRESS_INTERVAL};

fn udp_frame(dst_port: u16, payload: &[u8]) -> Vec<u8> {
    let builder = PacketBuilder::ethernet2([1, 2, 3, 4, 5, 6], [7, 8, 9, 10, 11, 12])
        .ipv4([10, 0, 0, 1], [10, 0, 0, 2], 64)
        .udp(1234, dst_port);
    let mut out = Vec::with_capacity(builder.size(payload.len()));
    builder.write(&mut out, payload).unwrap();
    out
}

fn tcp_frame(dst_port: u16, payload: &[u8]) -> Vec<u8> {
    let builder = PacketBuilder::ethernet2([1, 2, 3, 4, 5, 6], [7, 8, 9, 10, 11, 12])
        .ipv4([10, 0, 0, 1], [10, 0, 0, 2], 64)
        .tcp(1234, dst_port, 7, 512);
    let mut out = Vec::with_capacity(builder.size(payload.len()));
    builder.write(&mut out, payload).unwrap();
    out
}

fn pool_for(ports: &PortSet) -> SocketPool<String> {
    let sockets: Vec<String> = ports.to_vec().iter().map(|p| format!("socket-{}", p)).collect();
    SocketPool::from_sockets(ports, sockets).unwrap()
}

#[test]
fn interval_is_a_second_divided_by_the_rate() {
    assert_eq!(send_interval_us(500), 2000);
    assert_eq!(send_interval_us(1000), 1000);
    assert_eq!(send_interval_us(1), 1_000_000);
    assert_eq!(send_interval_us(3), 333_333);
    assert_eq!(send_interval_us(2_000_000), 0);
    assert_eq!(send_interval_us(u32::MAX), 0);
}

#[test]
fn pool_has_one_socket_per_port() {
    let mut ports = PortSet::new();
    ports.insert(5000);
    ports.insert(6000);
    let pool = SocketPool::from_sockets(&ports, vec!["a", "b"]).unwrap();
    assert_eq!(pool.len(), 2);
    assert_eq!(pool.socket_for(5000), Some(&"a"));
    assert_eq!(pool.socket_for(6000), Some(&"b"));
    assert_eq!(pool.socket_for(7000), None);
}

#[test]
fn pool_refuses_a_socket_count_that_differs() {
    let mut ports = PortSet::new();
    ports.insert(5000);
    ports.insert(6000);
    assert!(SocketPool::from_sockets(&ports, vec![1u8]).is_none());
    assert!(SocketPool::from_sockets(&ports, vec![1u8, 2, 3]).is_none());
    let empty = PortSet::new();
    let pool = SocketPool::from_sockets(&empty, Vec::<u8>::new()).unwrap();
    assert_eq!(pool.len(), 0);
}

#[test]
fn route_hands_out_the_payload_unmodified() {
    let frames = vec![udp_frame(5000, &[9, 8, 7, 0, 255])];
    let ports = discover_ports(&frames);
    let pool = pool_for(&ports);
    let (port, payload, socket) = route(&pool, &frames[0]).unwrap();
    assert_eq!(port, 5000);
    assert_eq!(payload, &[9, 8, 7, 0, 255]);
    assert_eq!(socket, "socket-5000");
}

#[test]
fn route_drops_a_port_without_socket() {
    let ports = discover_ports(&vec![udp_frame(5000, b"x")]);
    let pool = pool_for(&ports);
    assert!(route(&pool, &udp_frame(5001, b"y")).is_none());
    assert!(route(&pool, &tcp_frame(5000, b"z")).is_none());
}

#[test]
fn progress_is_reported_every_interval() {
    let mut replay = Replay::new(1000);
    let mut reports = Vec::new();
    for _ in 0..2500 {
        if replay.record_send() {
            reports.push(replay.sent_count());
        }
    }
    assert_eq!(PROGRESS_INTERVAL, 1000);
    assert_eq!(reports, vec![1000, 2000]);
    assert_eq!(replay.sent_count(), 2500);
}

#[test]
fn pauses_cover_the_pacing_bound() {
    let mut replay = Replay::new(250);
    for _ in 0..7 {
        replay.record_send();
    }
    let k = replay.sent_count();
    let paced = k * replay.pause_us();
    assert_eq!(replay.pause_us(), 4000);
    assert_eq!(paced, 28_000);
    assert!(paced >= (k - 1) * 4000);
}

#[test]
fn non_udp_source_sends_nothing() {
    let frames = vec![tcp_frame(5000, b"a"), tcp_frame(6000, b"b"), vec![0u8; 10]];
    let ports = discover_ports(&frames);
    assert_eq!(ports.len(), 0);
    let pool = pool_for(&ports);
    let mut replay = Replay::new(1000);
    for f in &frames {
        if route(&pool, f).is_some() {
            replay.record_send();
        }
    }
    assert_eq!(replay.sent_count(), 0);
}

#[test]
fn end_to_end_two_flows() {
    let frames = vec![
        udp_frame(5000, b"p1"),
        udp_frame(6000, b"q1"),
        udp_frame(5000, b"p2"),
        udp_frame(6000, b"q2"),
        udp_frame(5000, b"p3"),
    ];
    let ports = discover_ports(&frames);
    let mut found = ports.to_vec();
    found.sort();
    assert_eq!(found, vec![5000, 6000]);
    let pool = pool_for(&ports);
    assert_eq!(pool.len(), 2);

    let target_ip = "127.0.0.1";
    let mut replay = Replay::new(500);
    let mut sent: Vec<(String, String, Vec<u8>)> = Vec::new();
    for f in &frames {
        if let Some((port, payload, socket)) = route(&pool, f) {
            sent.push((socket.clone(), format!("{}:{}", target_ip, port), payload.to_vec()));
            replay.record_send();
        }
    }
    assert_eq!(replay.sent_count(), 5);
    assert_eq!(
        sent,
        vec![
            ("socket-5000".to_string(), "127.0.0.1:5000".to_string(), b"p1".to_vec()),
            ("socket-6000".to_string(), "127.0.0.1:6000".to_string(), b"q1".to_vec()),
            ("socket-5000".to_string(), "127.0.0.1:5000".to_string(), b"p2".to_vec()),
            ("socket-6000".to_string(), "127.0.0.1:6000".to_string(), b"q2".to_vec()),
            ("socket-5000".to_string(), "127.0.0.1:5000".to_string(), b"p3".to_vec()),
        ]
    );
    assert_eq!(replay.pause_us(), 2000);
    assert!(replay.sent_count() * replay.pause_us() >= 4 * 2000);
}
