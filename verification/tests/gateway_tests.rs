use std::collections::HashMap;

use crossbeam_channel::unbounded;
use route_node::gateway::{ForwardError, Gateway, SendFailure};
use route_node::packet::{Ack, Fragment, Nack, NackType, Packet, PacketType, SourceRoutingHeader};
use route_node::packet::build_nack;

fn ack_packet(hops: Vec<u8>, hop_index: usize, session_id: u64) -> Packet {
    Packet {
        pack_type: PacketType::Ack(Ack { fragment_index: 0 }),
        routing_header: SourceRoutingHeader { hop_index, hops },
        session_id,
    }
}

#[test]
fn gateway_create() {
    let (tx, _rx) = unbounded::<Packet>();
    let gateway = Gateway::new(10, HashMap::new(), tx);

    assert_eq!(gateway.node_id, 10);
    assert_eq!(gateway.neighbors.len(), 0);
}

#[test]
fn check_send_message_failure_error_in_routing() {
    let (tx, _rx) = unbounded::<Packet>();
    let gateway = Gateway::new(10, HashMap::new(), tx);
    let packet = ack_packet(vec![10, 1, 2], 0, 0);
    let result = gateway.forward(packet.clone());
    assert_eq!(result, Err(ForwardError::Nack(NackType::ErrorInRouting(1))));
}

#[test]
fn check_send_message_successful() {
    let (tx, _rx) = unbounded::<Packet>();
    let (tx_drone, rx_drone) = unbounded::<Packet>();
    let mut neighbors = HashMap::new();
    neighbors.insert(1, tx_drone);
    let gateway = Gateway::new(10, neighbors, tx);
    let packet = ack_packet(vec![10, 1, 2], 0, 0);
    let result = gateway.forward(packet.clone());

    assert_eq!(result, Ok(()));

    let received = rx_drone.recv();

    let received_packet = received.unwrap();
    assert_eq!(packet.session_id, received_packet.session_id);
    match (packet.pack_type, received_packet.pack_type) {
        (PacketType::Ack(_), PacketType::Ack(_)) => assert!(true),
        _ => assert!(false),
    }
    assert_eq!(packet.routing_header.hop_index + 1, received_packet.routing_header.hop_index);
}

#[test]
fn check_send_message_forward_to_receiver() {
    let (tx, _rx) = unbounded::<Packet>();
    let gateway = Gateway::new(10, HashMap::new(), tx);
    let packet = ack_packet(vec![10], 0, 0);
    let result = gateway.forward(packet.clone());

    assert_eq!(result, Ok(()));
}

#[test]
fn check_send_error_packet_to_receiver() {
    let (tx, rx) = unbounded::<Packet>();
    let gateway = Gateway::new(10, HashMap::new(), tx);
    let packet = ack_packet(vec![1, 2, 3, 4], 0, 0);
    let result = gateway.send_nack_packet_to_receiver(&packet, NackType::Dropped);
    match result {
        Ok(()) => assert!(true),
        Err(_error) => assert!(false),
    }

    let received_nack = rx.recv();
    match &received_nack {
        Ok(_nack) => assert!(true),
        Err(_error) => assert!(false),
    }
    let received_nack_packet = received_nack.unwrap();
    match received_nack_packet.pack_type {
        PacketType::Nack(nack) => {
            assert_eq!(nack.nack_type, NackType::Dropped);
        },
        _ => assert!(false),
    }
}

#[test]
fn check_add_neighbor() {
    let (tx, _rx) = unbounded::<Packet>();
    let mut gateway = Gateway::new(10, HashMap::new(), tx);
    assert_eq!(gateway.neighbors.len(), 0);
    let (tx_drone_5, _rx_drone_5) = unbounded::<Packet>();
    gateway.add_neighbor(5, tx_drone_5);
    assert_eq!(gateway.neighbors.len(), 1);
    let (tx_drone_5, _rx_drone_5) = unbounded::<Packet>();
    gateway.add_neighbor(5, tx_drone_5);
    assert_eq!(gateway.neighbors.len(), 1);
    let (tx_drone_8, _rx_drone_8) = unbounded::<Packet>();
    gateway.add_neighbor(8, tx_drone_8);
    assert_eq!(gateway.neighbors.len(), 2);
}

#[test]
fn check_remove_neighbor() {
    let (tx, _rx) = unbounded::<Packet>();
    let mut gateway = Gateway::new(10, HashMap::new(), tx);
    assert_eq!(gateway.neighbors.len(), 0);
    let (tx_drone_5, _rx_drone_5) = unbounded::<Packet>();
    gateway.add_neighbor(5, tx_drone_5);
    assert_eq!(gateway.neighbors.len(), 1);
    let (tx_drone_5, _rx_drone_5) = unbounded::<Packet>();
    gateway.add_neighbor(5, tx_drone_5);
    assert_eq!(gateway.neighbors.len(), 1);
    let (tx_drone_8, _rx_drone_8) = unbounded::<Packet>();
    gateway.add_neighbor(8, tx_drone_8);
    assert_eq!(gateway.neighbors.len(), 2);
    gateway.remove_neighbor(&8);
    assert_eq!(gateway.neighbors.len(), 1);
    gateway.remove_neighbor(&5);
    assert_eq!(gateway.neighbors.len(), 0);
}

#[test]
fn removing_absent_neighbor_is_noop() {
    let (tx, _rx) = unbounded::<Packet>();
    let mut gateway = Gateway::new(10, HashMap::new(), tx);
    let (tx_drone_5, _rx_drone_5) = unbounded::<Packet>();
    gateway.add_neighbor(5, tx_drone_5);
    gateway.remove_neighbor(&9);
    assert_eq!(gateway.neighbors.len(), 1);
    assert!(gateway.neighbors.contains_key(&5));
}

#[test]
fn forward_delivers_locally_with_advanced_cursor() {
    // Route [10], cursor 0: node 10 is both origin and sole hop, so the
    // packet goes straight to the local receiving logic.
    let (tx, rx) = unbounded::<Packet>();
    let gateway = Gateway::new(10, HashMap::new(), tx);
    let packet = ack_packet(vec![10], 0, 42);
    let result = gateway.forward(packet);

    assert_eq!(result, Ok(()));
    let delivered = rx.recv().unwrap();
    assert_eq!(delivered.session_id, 42);
    assert_eq!(delivered.routing_header.hop_index, 1);
    assert_eq!(delivered.routing_header.hops, vec![10]);
}

#[test]
fn forward_unknown_neighbor_emits_nack_locally() {
    // Route [10,1,2], cursor 0, neighbor 1 absent: the caller gets
    // ErrorInRouting(1) and exactly one negative acknowledgment reaches
    // the local receiving channel.
    let (tx, rx) = unbounded::<Packet>();
    let gateway = Gateway::new(10, HashMap::new(), tx);
    let packet = ack_packet(vec![10, 1, 2], 0, 7);
    let result = gateway.forward(packet);

    assert_eq!(result, Err(ForwardError::Nack(NackType::ErrorInRouting(1))));
    let nack_packet = rx.recv().unwrap();
    match nack_packet.pack_type {
        PacketType::Nack(nack) => {
            assert_eq!(nack.nack_type, NackType::ErrorInRouting(1));
            assert_eq!(nack.fragment_index, 0);
        },
        _ => assert!(false),
    }
    assert_eq!(nack_packet.session_id, 7);
    assert_eq!(nack_packet.routing_header.hops.len(), 0);
    assert_eq!(nack_packet.routing_header.hop_index, 0);
    // Exactly one packet was emitted.
    assert!(rx.try_recv().is_err());
}

#[test]
fn nack_from_fragment_carries_fragment_index() {
    let fragment = Fragment { fragment_index: 7, total_n_fragments: 9, length: 3, data: [0; 128] };
    let packet = Packet {
        pack_type: PacketType::MsgFragment(fragment),
        routing_header: SourceRoutingHeader { hop_index: 2, hops: vec![3, 4, 5] },
        session_id: 11,
    };
    let nack_packet = build_nack(&packet, NackType::Dropped);
    match nack_packet.pack_type {
        PacketType::Nack(Nack { fragment_index, nack_type }) => {
            assert_eq!(fragment_index, 7);
            assert_eq!(nack_type, NackType::Dropped);
        },
        _ => assert!(false),
    }
    assert_eq!(nack_packet.session_id, 11);
    assert_eq!(nack_packet.routing_header.hops.len(), 0);
    assert_eq!(nack_packet.routing_header.hop_index, 0);
}

#[test]
fn nack_from_non_fragment_carries_zero() {
    let packet = Packet {
        pack_type: PacketType::Ack(Ack { fragment_index: 99 }),
        routing_header: SourceRoutingHeader { hop_index: 0, hops: vec![1, 2] },
        session_id: 5,
    };
    let nack_packet = build_nack(&packet, NackType::UnexpectedRecipient(1));
    match nack_packet.pack_type {
        PacketType::Nack(Nack { fragment_index, nack_type }) => {
            assert_eq!(fragment_index, 0);
            assert_eq!(nack_type, NackType::UnexpectedRecipient(1));
        },
        _ => assert!(false),
    }
}

#[test]
fn forward_with_receiver_gone_is_fatal() {
    // Local delivery owed but the receiving half is gone: the node's
    // wiring is broken, which forward reports as ReceiverUnavailable.
    let (tx, rx) = unbounded::<Packet>();
    drop(rx);
    let gateway = Gateway::new(10, HashMap::new(), tx);
    let packet = ack_packet(vec![10], 0, 0);
    assert_eq!(gateway.forward(packet), Err(ForwardError::ReceiverUnavailable));
}

#[test]
fn routing_failure_with_receiver_gone_is_fatal() {
    let (tx, rx) = unbounded::<Packet>();
    drop(rx);
    let gateway = Gateway::new(10, HashMap::new(), tx);
    let packet = ack_packet(vec![10, 1, 2], 0, 0);
    assert_eq!(gateway.forward(packet), Err(ForwardError::ReceiverUnavailable));
}

#[test]
fn full_neighbor_channel_drops_silently() {
    // A full outbound neighbor channel does not surface an error: the
    // packet is silently lost and the caller still sees success.
    let (tx, _rx) = unbounded::<Packet>();
    let (tx_drone, rx_drone) = crossbeam_channel::bounded::<Packet>(0);
    let mut neighbors = HashMap::new();
    neighbors.insert(1, tx_drone);
    let gateway = Gateway::new(10, neighbors, tx);
    let packet = ack_packet(vec![10, 1, 2], 0, 0);
    assert_eq!(gateway.forward(packet), Ok(()));
    assert!(rx_drone.try_recv().is_err());
}

#[test]
fn nack_to_disconnected_receiver_fails() {
    let (tx, rx) = unbounded::<Packet>();
    drop(rx);
    let gateway = Gateway::new(10, HashMap::new(), tx);
    let packet = ack_packet(vec![1, 2], 0, 0);
    let result = gateway.send_nack_packet_to_receiver(&packet, NackType::Dropped);
    assert_eq!(result, Err(SendFailure::Disconnected));
}
