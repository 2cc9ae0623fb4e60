//! The compiled-code root table across collection cycles: registration,
//! nursery/mature promotion, unregistration and relocation-fixup
//! chunking.

use mmtk_openjdk::api::{mmtk_add_nmethod_oop, mmtk_register_nmethod, mmtk_unregister_nmethod};
use mmtk_openjdk::edges::OpenJDKEdge;
use mmtk_openjdk::gc_work::{
    fix_relocations_stage, CodeCacheRoots, ScanCodeCacheRoots, WorkBucketStage,
    NMETHODS_PER_PACKET,
};
use mmtk_openjdk::scanning::WorkPacketBridge;

fn emitted_addrs(scan: &ScanCodeCacheRoots) -> Vec<u64> {
    let mut out = Vec::new();
    for p in &scan.factory.packets {
        for e in p {
            out.push(e.addr);
        }
    }
    for e in &scan.factory.buf {
        out.push(e.addr);
    }
    out
}

fn register(table: &mut CodeCacheRoots, nm: u64, roots: &[u64]) {
    for r in roots {
        mmtk_add_nmethod_oop(table, *r);
    }
    mmtk_register_nmethod(table, nm);
}

#[test]
fn registration_accumulates_then_moves_into_the_nursery() {
    let mut table = CodeCacheRoots::new();
    mmtk_add_nmethod_oop(&mut table, 0x10);
    mmtk_add_nmethod_oop(&mut table, 0x20);
    assert_eq!(table.pending, vec![0x10, 0x20]);
    mmtk_register_nmethod(&mut table, 0x1000);
    assert!(table.pending.is_empty());
    assert_eq!(table.nursery.len(), 1);
    assert_eq!(table.nursery[0].nm, 0x1000);
    assert_eq!(table.nursery[0].roots, vec![0x10, 0x20]);
    assert!(table.mature.is_empty());
}

#[test]
fn reregistering_a_nursery_method_replaces_its_entry() {
    let mut table = CodeCacheRoots::new();
    register(&mut table, 0x1000, &[0x10, 0x20]);
    register(&mut table, 0x1000, &[0x30]);
    assert_eq!(table.nursery.len(), 1);
    assert_eq!(table.nursery[0].nm, 0x1000);
    assert_eq!(table.nursery[0].roots, vec![0x30]);
}

#[test]
fn registering_with_no_reported_slots_registers_nothing() {
    let mut table = CodeCacheRoots::new();
    mmtk_register_nmethod(&mut table, 0x1000);
    assert!(table.nursery.is_empty());
    assert!(table.mature.is_empty());
}

#[test]
fn a_cycle_promotes_nursery_methods_and_emits_their_roots_once() {
    let mut table = CodeCacheRoots::new();
    register(&mut table, 0x1000, &[0x10, 0x20]);

    let mut scan = ScanCodeCacheRoots::new(WorkPacketBridge::new(4096));
    let fixes = scan.do_work(&mut table, false, true);

    // The method moved from the nursery to the mature table.
    assert!(table.nursery.is_empty());
    assert_eq!(table.mature.len(), 1);
    assert_eq!(table.mature[0].nm, 0x1000);
    // Its roots were emitted exactly once during the cycle.
    assert_eq!(emitted_addrs(&scan), vec![0x10, 0x20]);
    // It is scheduled for relocation fixup.
    assert_eq!(fixes.len(), 1);
    assert_eq!(fixes[0].nmethods, vec![0x1000]);
}

#[test]
fn methods_registered_after_a_cycle_wait_for_the_next_one() {
    let mut table = CodeCacheRoots::new();
    register(&mut table, 0x1000, &[0x10]);

    let mut scan = ScanCodeCacheRoots::new(WorkPacketBridge::new(4096));
    scan.do_work(&mut table, false, false);
    assert_eq!(emitted_addrs(&scan), vec![0x10]);

    // Registered after the cycle: unaffected until the next one.
    register(&mut table, 0x2000, &[0x30]);
    assert_eq!(table.nursery.len(), 1);
    assert_eq!(table.mature.len(), 1);

    let mut scan2 = ScanCodeCacheRoots::new(WorkPacketBridge::new(4096));
    scan2.do_work(&mut table, false, false);
    // Full-heap cycle: mature roots first, then the nursery's.
    assert_eq!(emitted_addrs(&scan2), vec![0x10, 0x30]);
    assert!(table.nursery.is_empty());
    assert_eq!(table.mature.len(), 2);
}

#[test]
fn a_nursery_cycle_skips_the_mature_table() {
    let mut table = CodeCacheRoots::new();
    register(&mut table, 0x1000, &[0x10]);

    let mut scan = ScanCodeCacheRoots::new(WorkPacketBridge::new(4096));
    scan.do_work(&mut table, false, false);

    register(&mut table, 0x2000, &[0x30]);
    let mut scan2 = ScanCodeCacheRoots::new(WorkPacketBridge::new(4096));
    let fixes = scan2.do_work(&mut table, true, true);
    // Only the nursery method's roots are emitted; the mature method
    // keeps quiet but both end up in the mature table.
    assert_eq!(emitted_addrs(&scan2), vec![0x30]);
    assert_eq!(table.mature.len(), 2);
    assert_eq!(fixes.len(), 1);
    assert_eq!(fixes[0].nmethods, vec![0x2000]);
}

#[test]
fn no_fixups_when_the_cycle_cannot_move_objects() {
    let mut table = CodeCacheRoots::new();
    register(&mut table, 0x1000, &[0x10]);
    let mut scan = ScanCodeCacheRoots::new(WorkPacketBridge::new(4096));
    let fixes = scan.do_work(&mut table, false, false);
    assert!(fixes.is_empty());
}

#[test]
fn unregister_removes_a_nursery_method() {
    let mut table = CodeCacheRoots::new();
    register(&mut table, 0x1000, &[0x10]);
    register(&mut table, 0x2000, &[0x20]);
    mmtk_unregister_nmethod(&mut table, 0x1000);
    assert_eq!(table.nursery.len(), 1);
    assert_eq!(table.nursery[0].nm, 0x2000);

    let mut scan = ScanCodeCacheRoots::new(WorkPacketBridge::new(4096));
    scan.do_work(&mut table, false, false);
    assert_eq!(emitted_addrs(&scan), vec![0x20]);
}

#[test]
fn unregister_removes_a_promoted_method_and_it_never_emits_again() {
    let mut table = CodeCacheRoots::new();
    register(&mut table, 0x1000, &[0x10, 0x20]);

    let mut scan = ScanCodeCacheRoots::new(WorkPacketBridge::new(4096));
    scan.do_work(&mut table, false, false);
    assert_eq!(table.mature.len(), 1);

    mmtk_unregister_nmethod(&mut table, 0x1000);
    assert!(table.mature.is_empty());
    assert!(table.nursery.is_empty());

    let mut scan2 = ScanCodeCacheRoots::new(WorkPacketBridge::new(4096));
    scan2.do_work(&mut table, false, false);
    assert!(emitted_addrs(&scan2).is_empty());
}

#[test]
fn unregistering_an_unknown_method_changes_nothing() {
    let mut table = CodeCacheRoots::new();
    register(&mut table, 0x1000, &[0x10]);
    mmtk_unregister_nmethod(&mut table, 0x9999);
    assert_eq!(table.nursery.len(), 1);
    assert_eq!(table.nursery[0].nm, 0x1000);
}

#[test]
fn root_emission_batches_at_the_packet_capacity() {
    let mut table = CodeCacheRoots::new();
    let roots: Vec<u64> = (0..5u64).map(|i| 0x100 + i).collect();
    register(&mut table, 0x1000, &roots);

    // Capacity 4: five roots make one full packet plus one flushed
    // remainder packet.
    let mut scan = ScanCodeCacheRoots::new(WorkPacketBridge::new(4));
    scan.do_work(&mut table, false, false);
    assert_eq!(scan.factory.packets.len(), 2);
    assert_eq!(scan.factory.packets[0].len(), 4);
    assert_eq!(scan.factory.packets[1].len(), 1);
    assert!(scan.factory.buf.is_empty());
    assert_eq!(emitted_addrs(&scan), roots);
}

#[test]
fn fixups_are_chunked_in_packets_of_sixty_four() {
    let mut table = CodeCacheRoots::new();
    for m in 0..(NMETHODS_PER_PACKET as u64 + 1) {
        register(&mut table, 0x1_0000 + m, &[m]);
    }
    let mut scan = ScanCodeCacheRoots::new(WorkPacketBridge::new(4096));
    let fixes = scan.do_work(&mut table, false, true);
    assert_eq!(fixes.len(), 2);
    assert_eq!(fixes[0].nmethods.len(), NMETHODS_PER_PACKET);
    assert_eq!(fixes[1].nmethods.len(), 1);
    let mut all: Vec<u64> = Vec::new();
    for f in &fixes {
        all.extend_from_slice(&f.nmethods);
    }
    let expected: Vec<u64> = (0..(NMETHODS_PER_PACKET as u64 + 1)).map(|m| 0x1_0000 + m).collect();
    assert_eq!(all, expected);
}

#[test]
fn fixups_run_only_after_forwarding_is_complete() {
    assert_eq!(fix_relocations_stage(true), WorkBucketStage::RefForwarding);
    assert_eq!(fix_relocations_stage(false), WorkBucketStage::SoftRefClosure);
}

#[test]
fn bridge_packets_may_be_inspected_as_edges() {
    let mut table = CodeCacheRoots::new();
    register(&mut table, 0x1000, &[0x42]);
    let mut scan = ScanCodeCacheRoots::new(WorkPacketBridge::new(4096));
    scan.do_work(&mut table, false, false);
    assert_eq!(scan.factory.packets[0], vec![OpenJDKEdge { addr: 0x42 }]);
}
