//! The work-packet batching bridge and the root batch-return protocol.

use mmtk_openjdk::edges::OpenJDKEdge;
use mmtk_openjdk::scanning::{
    report_slots_and_renew_buffer, WorkPacketBridge, WORK_PACKET_CAPACITY,
};

fn edge(a: u64) -> OpenJDKEdge {
    OpenJDKEdge { addr: a }
}

#[test]
fn feeding_exactly_capacity_does_not_flush() {
    let mut b = WorkPacketBridge::new(4);
    for i in 0..4u64 {
        b.push(edge(i));
    }
    assert_eq!(b.packets.len(), 0);
    assert_eq!(b.buf.len(), 4);
}

#[test]
fn feeding_capacity_plus_one_flushes_exactly_once() {
    let mut b = WorkPacketBridge::new(4);
    for i in 0..5u64 {
        b.push(edge(i));
    }
    assert_eq!(b.packets.len(), 1);
    // The packet holds the first `capacity` slots, in order.
    assert_eq!(b.packets[0], vec![edge(0), edge(1), edge(2), edge(3)]);
    assert_eq!(b.buf, vec![edge(4)]);
}

#[test]
fn default_capacity_boundary() {
    let mut b = WorkPacketBridge::new(WORK_PACKET_CAPACITY);
    for i in 0..(WORK_PACKET_CAPACITY as u64) {
        b.push(edge(i));
    }
    assert_eq!(b.packets.len(), 0);
    b.push(edge(99999));
    assert_eq!(b.packets.len(), 1);
    assert_eq!(b.packets[0].len(), WORK_PACKET_CAPACITY);
}

#[test]
fn push_all_chunks_into_full_packets_plus_remainder() {
    let mut b = WorkPacketBridge::new(3);
    let edges: Vec<OpenJDKEdge> = (0..7u64).map(edge).collect();
    b.push_all(&edges);
    assert_eq!(b.packets.len(), 2);
    assert_eq!(b.packets[0], vec![edge(0), edge(1), edge(2)]);
    assert_eq!(b.packets[1], vec![edge(3), edge(4), edge(5)]);
    assert_eq!(b.buf, vec![edge(6)]);
}

#[test]
fn flush_hands_on_a_partial_packet() {
    let mut b = WorkPacketBridge::new(4);
    b.push(edge(1));
    b.push(edge(2));
    b.flush();
    assert_eq!(b.packets.len(), 1);
    assert_eq!(b.packets[0], vec![edge(1), edge(2)]);
    assert!(b.buf.is_empty());
}

#[test]
fn flush_of_an_empty_buffer_hands_nothing_on() {
    let mut b = WorkPacketBridge::new(4);
    b.flush();
    assert_eq!(b.packets.len(), 0);
}

#[test]
fn renew_buffer_drains_the_host_buffer_into_one_packet() {
    let mut b = WorkPacketBridge::new(4);
    let fresh = report_slots_and_renew_buffer(&mut b, Some(vec![0x10, 0x20, 0x30]));
    assert_eq!(b.packets.len(), 1);
    assert_eq!(b.packets[0], vec![edge(0x10), edge(0x20), edge(0x30)]);
    assert!(fresh.buf.is_empty());
    assert_eq!(fresh.capacity, WORK_PACKET_CAPACITY);
}

#[test]
fn renew_buffer_without_data_only_hands_back_a_fresh_buffer() {
    let mut b = WorkPacketBridge::new(4);
    let fresh = report_slots_and_renew_buffer(&mut b, None);
    assert_eq!(b.packets.len(), 0);
    assert!(fresh.buf.is_empty());
    assert_eq!(fresh.capacity, WORK_PACKET_CAPACITY);
}
