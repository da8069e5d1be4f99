use rustair::io::tcp_link::{TcpLink, CLIENT_TX_QUEUE_LIMIT, SOCKET_CHUNK, TCP_RX_QUEUE_LIMIT};

#[test]
fn network_trace_is_opt_in() {
    let mut server = TcpLink::default();
    server.broadcast_byte(b'A');
    assert!(server.network_trace_snapshot().is_empty());

    server.set_network_trace_enabled(true);
    server.broadcast_byte(b'B');
    let trace = server.network_trace_snapshot();
    assert_eq!(trace.len(), 1);
    assert!(!trace[0].1);
    assert_eq!(trace[0].2, b'B');
    assert!(trace[0].3.is_none());
}

#[test]
fn a_single_client_endpoint_refuses_and_counts_a_second_client() {
    let mut link = TcpLink::new();
    assert!(link.accepts_new_client(false));
    link.add_client(7);
    assert!(!link.accepts_new_client(false));
    assert_eq!(link.rejected_clients(), 1);
    assert!(link.accepts_new_client(true));
    link.add_client(8);
    link.add_client(9);
    assert_eq!(link.peer_ids(), vec![7, 8, 9]);
    assert_eq!(link.enforce_client_policy(true), Vec::<u64>::new());
    assert_eq!(link.enforce_client_policy(false), vec![8, 9]);
    assert_eq!(link.peer_ids(), vec![7]);
}

#[test]
fn broadcast_fans_out_and_counts_the_guest_byte_once() {
    let mut link = TcpLink::new();
    link.add_client(1);
    link.add_client(2);
    link.broadcast_byte(b'X');
    link.broadcast_byte(b'Y');
    assert_eq!(link.tx_bytes(), 2);
    assert_eq!(link.tx_chunk(0), vec![b'X', b'Y']);
    assert_eq!(link.tx_chunk(1), vec![b'X', b'Y']);
    link.wrote(0, 1);
    assert_eq!(link.tx_chunk(0), vec![b'Y']);
    assert_eq!(link.tx_chunk(1), vec![b'X', b'Y']);
}

#[test]
fn a_full_client_queue_drops_and_counts() {
    let mut link = TcpLink::new();
    link.add_client(1);
    for _ in 0..CLIENT_TX_QUEUE_LIMIT {
        link.broadcast_byte(0);
    }
    assert_eq!(link.dropped_tx_bytes(), 0);
    link.add_client(2);
    link.broadcast_byte(1);
    assert_eq!(link.dropped_tx_bytes(), 1);
    assert_eq!(link.tx_chunk(1), vec![1]);
    assert_eq!(link.tx_chunk(0).len(), SOCKET_CHUNK);
}

#[test]
fn received_bytes_keep_their_client_and_respect_the_read_room() {
    let mut link = TcpLink::new();
    link.add_client(41);
    link.add_client(42);
    assert_eq!(link.read_room(), SOCKET_CHUNK);
    link.received(1, b"hi");
    link.received(0, b"!");
    assert_eq!(link.rx_bytes(), 3);
    assert_eq!(link.rx_pending(), 3);
    assert_eq!(link.pop_rx(), Some((b'h', 42)));
    assert_eq!(link.pop_rx(), Some((b'i', 42)));
    assert_eq!(link.pop_rx(), Some((b'!', 41)));
    assert_eq!(link.pop_rx(), None);
    let fill = vec![0u8; SOCKET_CHUNK];
    for _ in 0..(TCP_RX_QUEUE_LIMIT / SOCKET_CHUNK) {
        link.received(0, &fill);
    }
    assert_eq!(link.read_room(), 0);
    assert_eq!(link.remove_client(0), 41);
    assert_eq!(link.client_count(), 1);
    link.reset_connections(true);
    assert_eq!(link.client_count(), 0);
    assert_eq!(link.rx_pending(), 0);
}

#[test]
fn errors_are_kept_until_a_reset_clears_them() {
    let mut link = TcpLink::new();
    link.set_error("TCP accept failed".to_string());
    link.reset_connections(false);
    assert_eq!(link.last_error().as_deref(), Some("TCP accept failed"));
    link.reset_connections(true);
    assert!(link.last_error().is_none());
    link.set_network_trace_enabled(true);
    link.add_client(5);
    link.received(0, b"Q");
    assert_eq!(link.network_trace_snapshot(), vec![(1, true, b'Q', Some(5))]);
    link.clear_network_trace();
    assert!(link.network_trace_snapshot().is_empty());
    assert!(link.network_trace_enabled());
}
