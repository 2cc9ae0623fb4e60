//! Object scanning: plain instances, arrays, mirrors and reference
//! objects, with both referent policies.

use mmtk_openjdk::abi::{
    validate_memory_layouts, BasicType, HostLayout, InstanceClassLoaderKlass, InstanceKlass,
    InstanceMirrorKlass, InstanceRefKlass, Klass, KlassID, KlassKind, ObjArrayKlass, ArrayKlass,
    OopDesc, OopMapBlock, ReferenceType, TypeArrayKlass,
};
use mmtk_openjdk::edges::{enable_compressed_oops, new_compressed_oops, OpenJDKEdge};
use mmtk_openjdk::object_scanning::{scan_object, EdgeVisitor};
use mmtk_openjdk::scanning::VMScanning;
use mmtk_openjdk::OpenJDK;

fn layout() -> HostLayout {
    HostLayout { offset_of_static_fields: 96, referent_offset: 16, discovered_offset: 24 }
}

fn wide_config() -> OpenJDK {
    OpenJDK {
        compressed_oops: new_compressed_oops(4096, 0x1_0000_0000),
        layout: layout(),
        no_reference_types: false,
    }
}

fn narrow_config() -> OpenJDK {
    let mut c = new_compressed_oops(4096, 0x1_0000_0000);
    enable_compressed_oops(&mut c);
    OpenJDK { compressed_oops: c, layout: layout(), no_reference_types: false }
}

fn instance_klass(maps: Vec<OopMapBlock>) -> Klass {
    Klass {
        layout_helper: 0,
        kind: KlassKind::Instance(InstanceKlass { reference_type: ReferenceType::Regular, oop_maps: maps }),
    }
}

fn ref_klass(rt: ReferenceType, maps: Vec<OopMapBlock>) -> Klass {
    Klass {
        layout_helper: 0,
        kind: KlassKind::InstanceRef(InstanceRefKlass {
            instance_klass: InstanceKlass { reference_type: rt, oop_maps: maps },
        }),
    }
}

fn oop(start: u64, klass: Klass) -> OopDesc {
    OopDesc { start, klass, array_length: 0, static_oop_field_count: 0 }
}

fn addrs(v: &EdgeVisitor) -> Vec<u64> {
    v.edges.iter().map(|e| e.addr).collect()
}

#[test]
fn plain_instance_emits_each_map_slot_in_order() {
    let cfg = wide_config();
    let maps = vec![OopMapBlock { offset: 16, count: 2 }, OopMapBlock { offset: 40, count: 1 }];
    let o = oop(0x1000, instance_klass(maps));
    let mut v = EdgeVisitor::new();
    scan_object(&cfg, &o, &mut v);
    assert_eq!(addrs(&v), vec![0x1010, 0x1018, 0x1028]);
    assert!(v.weak_candidates.is_empty());
}

#[test]
fn plain_instance_compressed_slots_are_four_bytes_apart() {
    let cfg = narrow_config();
    let maps = vec![OopMapBlock { offset: 16, count: 3 }];
    let o = oop(0x1000, instance_klass(maps));
    let mut v = EdgeVisitor::new();
    scan_object(&cfg, &o, &mut v);
    assert_eq!(addrs(&v), vec![0x1010, 0x1014, 0x1018]);
}

#[test]
fn instance_with_no_maps_emits_nothing() {
    let cfg = wide_config();
    let o = oop(0x1000, instance_klass(Vec::new()));
    let mut v = EdgeVisitor::new();
    scan_object(&cfg, &o, &mut v);
    assert!(v.edges.is_empty());
}

#[test]
fn class_loader_scans_like_plain_instance() {
    let cfg = wide_config();
    let klass = Klass {
        layout_helper: 0,
        kind: KlassKind::InstanceClassLoader(InstanceClassLoaderKlass {
            instance_klass: InstanceKlass {
                reference_type: ReferenceType::Regular,
                oop_maps: vec![OopMapBlock { offset: 8, count: 1 }],
            },
        }),
    };
    let o = oop(0x2000, klass);
    let mut v = EdgeVisitor::new();
    scan_object(&cfg, &o, &mut v);
    assert_eq!(addrs(&v), vec![0x2008]);
}

#[test]
fn reference_array_emits_one_slot_per_element() {
    let cfg = wide_config();
    let klass = Klass {
        layout_helper: 0,
        kind: KlassKind::ObjArray(ObjArrayKlass { array_klass: ArrayKlass { dimension: 1 } }),
    };
    let o = OopDesc { start: 0x3000, klass, array_length: 4, static_oop_field_count: 0 };
    let mut v = EdgeVisitor::new();
    scan_object(&cfg, &o, &mut v);
    // Wide header: 24 bytes; elements every 8 bytes in index order.
    assert_eq!(addrs(&v), vec![0x3018, 0x3020, 0x3028, 0x3030]);
}

#[test]
fn compressed_reference_array_starts_after_short_header() {
    let cfg = narrow_config();
    let klass = Klass {
        layout_helper: 0,
        kind: KlassKind::ObjArray(ObjArrayKlass { array_klass: ArrayKlass { dimension: 1 } }),
    };
    let o = OopDesc { start: 0x3000, klass, array_length: 2, static_oop_field_count: 0 };
    let mut v = EdgeVisitor::new();
    scan_object(&cfg, &o, &mut v);
    // Compressed header: 16 bytes; elements every 4 bytes.
    assert_eq!(addrs(&v), vec![0x3010, 0x3014]);
}

#[test]
fn empty_reference_array_emits_nothing() {
    let cfg = wide_config();
    let klass = Klass {
        layout_helper: 0,
        kind: KlassKind::ObjArray(ObjArrayKlass { array_klass: ArrayKlass { dimension: 1 } }),
    };
    let o = OopDesc { start: 0x3000, klass, array_length: 0, static_oop_field_count: 0 };
    let mut v = EdgeVisitor::new();
    scan_object(&cfg, &o, &mut v);
    assert!(v.edges.is_empty());
}

#[test]
fn primitive_array_is_skipped_entirely() {
    let cfg = wide_config();
    let klass = Klass {
        layout_helper: 0,
        kind: KlassKind::TypeArray(TypeArrayKlass {
            array_klass: ArrayKlass { dimension: 1 },
            element_type: BasicType::T_LONG,
            max_length: 1 << 20,
        }),
    };
    let o = OopDesc { start: 0x3000, klass, array_length: 100, static_oop_field_count: 0 };
    let mut v = EdgeVisitor::new();
    scan_object(&cfg, &o, &mut v);
    assert!(v.edges.is_empty());
    assert!(v.weak_candidates.is_empty());
}

#[test]
fn mirror_emits_instance_slots_then_static_block() {
    let cfg = wide_config();
    let klass = Klass {
        layout_helper: 0,
        kind: KlassKind::InstanceMirror(InstanceMirrorKlass {
            instance_klass: InstanceKlass {
                reference_type: ReferenceType::Regular,
                oop_maps: vec![OopMapBlock { offset: 8, count: 1 }],
            },
        }),
    };
    let o = OopDesc { start: 0x4000, klass, array_length: 0, static_oop_field_count: 2 };
    let mut v = EdgeVisitor::new();
    scan_object(&cfg, &o, &mut v);
    // One instance slot, then two statics at offset 96, 8 bytes apart.
    assert_eq!(addrs(&v), vec![0x4008, 0x4060, 0x4068]);
}

#[test]
fn weak_reference_suppresses_referent_and_registers_candidate() {
    let cfg = wide_config();
    let maps = vec![OopMapBlock { offset: 32, count: 1 }];
    let o = oop(0x5000, ref_klass(ReferenceType::Weak, maps));
    let mut v = EdgeVisitor::new();
    scan_object(&cfg, &o, &mut v);
    // Plain-instance slots are emitted, the referent slot is not.
    assert_eq!(addrs(&v), vec![0x5020]);
    // The object is registered as a weak candidate exactly once.
    assert_eq!(v.weak_candidates, vec![0x5000]);
    assert!(v.soft_candidates.is_empty());
    assert!(v.phantom_candidates.is_empty());
}

#[test]
fn soft_and_phantom_go_to_their_own_tables() {
    let cfg = wide_config();
    let o = oop(0x5000, ref_klass(ReferenceType::Soft, Vec::new()));
    let mut v = EdgeVisitor::new();
    scan_object(&cfg, &o, &mut v);
    assert_eq!(v.soft_candidates, vec![0x5000]);
    assert!(v.weak_candidates.is_empty());

    let o2 = oop(0x6000, ref_klass(ReferenceType::Phantom, Vec::new()));
    let mut v2 = EdgeVisitor::new();
    scan_object(&cfg, &o2, &mut v2);
    assert_eq!(v2.phantom_candidates, vec![0x6000]);
    assert!(v2.edges.is_empty());
}

#[test]
fn final_reference_traces_referent_and_discovered_strongly() {
    let cfg = wide_config();
    let o = oop(0x5000, ref_klass(ReferenceType::Final, Vec::new()));
    let mut v = EdgeVisitor::new();
    scan_object(&cfg, &o, &mut v);
    // referent at +16, discovered at +24, no candidate.
    assert_eq!(addrs(&v), vec![0x5010, 0x5018]);
    assert!(v.weak_candidates.is_empty());
}

#[test]
fn no_special_handling_mode_traces_weak_referent_strongly() {
    let mut cfg = wide_config();
    cfg.no_reference_types = true;
    let maps = vec![OopMapBlock { offset: 32, count: 1 }];
    let o = oop(0x5000, ref_klass(ReferenceType::Weak, maps));
    let mut v = EdgeVisitor::new();
    scan_object(&cfg, &o, &mut v);
    // Same object as the suppression test, but the referent slot is now
    // emitted as a strong slot and no candidate is registered.
    assert_eq!(addrs(&v), vec![0x5020, 0x5010, 0x5018]);
    assert!(v.weak_candidates.is_empty());
}

#[test]
fn vm_scanning_entry_point_delegates_to_the_scanner() {
    let cfg = wide_config();
    let maps = vec![OopMapBlock { offset: 16, count: 1 }];
    let o = oop(0x1000, instance_klass(maps));
    let mut v = EdgeVisitor::new();
    VMScanning::scan_object(&cfg, &o, &mut v);
    assert_eq!(v.edges, vec![OpenJDKEdge { addr: 0x1010 }]);
}

#[test]
fn layout_checksum_accepts_match_and_rejects_mismatch() {
    let sizes = vec![1u64, 2, 4];
    assert!(validate_memory_layouts(7, &sizes));
    assert!(!validate_memory_layouts(8, &sizes));
    assert!(validate_memory_layouts(0, &Vec::new()));
}

#[test]
fn klass_discriminant_parsing_rejects_out_of_range() {
    assert_eq!(KlassID::from_raw(0), Some(KlassID::Instance));
    assert_eq!(KlassID::from_raw(5), Some(KlassID::ObjArray));
    assert_eq!(KlassID::from_raw(6), None);
    assert_eq!(KlassID::from_raw(-1), None);
}

#[test]
fn reference_kind_parsing_rejects_out_of_range() {
    assert_eq!(ReferenceType::from_raw(3), Some(ReferenceType::Weak));
    assert_eq!(ReferenceType::from_raw(5), Some(ReferenceType::Phantom));
    assert_eq!(ReferenceType::from_raw(6), None);
}
