//! Compressed-pointer encoding: tier selection, round trips, the null
//! sentinel, and edge tagging.

use mmtk_openjdk::edges::{
    bytes_in_edge, compress, decode_wide, decompress, enable_compressed_oops,
    initialize_compressed_oops_base_and_shift, log_bytes_in_slot, new_compressed_oops,
    use_compressed_oops, OpenJDKEdge, OpenJDKEdgeRange, FOUR_GB, THIRTY_TWO_GB,
};

const KB4: u64 = 4096;

#[test]
fn enable_flag_starts_off() {
    let mut cfg = new_compressed_oops(KB4, FOUR_GB);
    assert!(!use_compressed_oops(&cfg));
    enable_compressed_oops(&mut cfg);
    assert!(use_compressed_oops(&cfg));
}

#[test]
fn tier_one_small_heap_unshifted() {
    let mut cfg = new_compressed_oops(KB4, FOUR_GB);
    enable_compressed_oops(&mut cfg);
    initialize_compressed_oops_base_and_shift(&mut cfg);
    assert_eq!(cfg.base, 0);
    assert_eq!(cfg.shift, 0);
    // With a zero base and no shift the encoding is the address itself.
    let a: u64 = 0x2000;
    let c = compress(&cfg, a);
    assert_eq!(c, 0x2000);
    assert_eq!(decompress(&cfg, c), Some(a));
}

#[test]
fn tier_two_medium_heap_shifted() {
    let mut cfg = new_compressed_oops(0x4000_0000, 0x2_0000_0000);
    enable_compressed_oops(&mut cfg);
    initialize_compressed_oops_base_and_shift(&mut cfg);
    assert_eq!(cfg.base, 0);
    assert_eq!(cfg.shift, 3);
    let a: u64 = 0x4000_0000;
    let c = compress(&cfg, a);
    assert_eq!(c, 0x0800_0000);
    assert_eq!(decompress(&cfg, c), Some(a));
}

#[test]
fn tier_three_large_heap_based() {
    let start: u64 = 0x4000_0000;
    let end: u64 = start + THIRTY_TWO_GB - KB4;
    let mut cfg = new_compressed_oops(start, end);
    enable_compressed_oops(&mut cfg);
    initialize_compressed_oops_base_and_shift(&mut cfg);
    assert_eq!(cfg.base, start - KB4);
    assert_eq!(cfg.shift, 3);
    // The lowest object address encodes to a small non-null value.
    let c = compress(&cfg, start);
    assert_eq!(c, (KB4 >> 3) as u32);
    assert_eq!(decompress(&cfg, c), Some(start));
    // An address high in the heap round-trips too.
    let high = end - 8;
    let c2 = compress(&cfg, high);
    assert_ne!(c2, 0);
    assert_eq!(decompress(&cfg, c2), Some(high));
}

#[test]
fn null_sentinel_decodes_to_none() {
    let mut cfg = new_compressed_oops(KB4, FOUR_GB);
    enable_compressed_oops(&mut cfg);
    initialize_compressed_oops_base_and_shift(&mut cfg);
    assert_eq!(decompress(&cfg, 0), None);
}

#[test]
fn wide_slot_null_and_value() {
    assert_eq!(decode_wide(0), None);
    assert_eq!(decode_wide(0x1234_5678), Some(0x1234_5678));
}

#[test]
fn edge_tag_bit_marks_wide_slots() {
    let narrow = OpenJDKEdge { addr: 0x1000 };
    assert!(narrow.is_compressed());
    assert_eq!(narrow.untagged_address(), 0x1000);

    let wide = OpenJDKEdge { addr: 0x8000_0000_0000_1000 };
    assert!(!wide.is_compressed());
    assert_eq!(wide.untagged_address(), 0x1000);
}

#[test]
fn edge_range_iterates_slot_by_slot() {
    let range = OpenJDKEdgeRange { start: 0x100, end: 0x118, compressed: false };
    assert_eq!(range.start(), 0x100);
    assert_eq!(range.bytes(), 0x18);
    assert_eq!(range.object(), None);
    let mut it = range.iter_edges();
    assert_eq!(it.next(), Some(OpenJDKEdge { addr: 0x100 }));
    assert_eq!(it.next(), Some(OpenJDKEdge { addr: 0x108 }));
    assert_eq!(it.next(), Some(OpenJDKEdge { addr: 0x110 }));
    assert_eq!(it.next(), None);
}

#[test]
fn slot_width_follows_the_mode() {
    let mut cfg = new_compressed_oops(KB4, FOUR_GB);
    assert_eq!(log_bytes_in_slot(&cfg), 3);
    enable_compressed_oops(&mut cfg);
    assert_eq!(log_bytes_in_slot(&cfg), 2);
}

#[test]
fn narrow_edge_range_steps_by_four() {
    assert_eq!(bytes_in_edge(true), 4);
    assert_eq!(bytes_in_edge(false), 8);
    let range = OpenJDKEdgeRange { start: 0x100, end: 0x108, compressed: true };
    let mut it = range.iter_edges();
    assert_eq!(it.next(), Some(OpenJDKEdge { addr: 0x100 }));
    assert_eq!(it.next(), Some(OpenJDKEdge { addr: 0x104 }));
    assert_eq!(it.next(), None);
}
