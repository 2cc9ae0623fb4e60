//! The object scanner: classifies a heap object by its type descriptor
//! and enumerates every reference-bearing slot it holds.
//!
//! Plain instances contribute one slot per entry of their reference-field
//! runs; reference arrays one slot per element; primitive arrays none;
//! class mirrors additionally their static-field block; reference objects
//! either register themselves as weak/soft/phantom candidates or trace
//! their referent and discovered fields as strong slots, depending on the
//! collector configuration.

use vstd::prelude::*;

use crate::OpenJDK;
use crate::abi::BasicType;
use crate::abi::HostLayout;
use crate::abi::InstanceClassLoaderKlass;
use crate::abi::InstanceKlass;
use crate::abi::InstanceMirrorKlass;
use crate::abi::InstanceRefKlass;
use crate::abi::KlassKind;
use crate::abi::ObjArrayKlass;
use crate::abi::OopDesc;
use crate::abi::OopMapBlock;
use crate::abi::ReferenceType;
use crate::abi::TypeArrayKlass;
use crate::abi::spec_obj_array_base;
use crate::edges::OpenJDKEdge;
use crate::edges::spec_bytes_in_edge;

verus! {

/// Collects what one object scan discovers: the strong reference slots,
/// and the objects registered as weak, soft or phantom candidates for
/// later reference processing.
pub struct EdgeVisitor {
    pub edges: Vec<OpenJDKEdge>,
    pub weak_candidates: Vec<u64>,
    pub soft_candidates: Vec<u64>,
    pub phantom_candidates: Vec<u64>,
}

impl EdgeVisitor {
    /// An empty visitor.
    pub fn new() -> (v: EdgeVisitor)
        ensures
            v.edges@ =~= Seq::<OpenJDKEdge>::empty(),
            v.weak_candidates@ =~= Seq::<u64>::empty(),
            v.soft_candidates@ =~= Seq::<u64>::empty(),
            v.phantom_candidates@ =~= Seq::<u64>::empty(),
    {
        EdgeVisitor {
            edges: Vec::new(),
            weak_candidates: Vec::new(),
            soft_candidates: Vec::new(),
            phantom_candidates: Vec::new(),
        }
    }

    /// Records one discovered reference slot.
    pub fn visit_edge(&mut self, e: OpenJDKEdge)
        ensures
            final(self).edges@ == old(self).edges@.push(e),
            final(self).weak_candidates@ == old(self).weak_candidates@,
            final(self).soft_candidates@ == old(self).soft_candidates@,
            final(self).phantom_candidates@ == old(self).phantom_candidates@,
    {
        self.edges.push(e);
    }

    /// Registers a weak-reference candidate.
    pub fn add_weak_candidate(&mut self, o: u64)
        ensures
            final(self).edges@ == old(self).edges@,
            final(self).weak_candidates@ == old(self).weak_candidates@.push(o),
            final(self).soft_candidates@ == old(self).soft_candidates@,
            final(self).phantom_candidates@ == old(self).phantom_candidates@,
    {
        self.weak_candidates.push(o);
    }

    /// Registers a soft-reference candidate.
    pub fn add_soft_candidate(&mut self, o: u64)
        ensures
            final(self).edges@ == old(self).edges@,
            final(self).weak_candidates@ == old(self).weak_candidates@,
            final(self).soft_candidates@ == old(self).soft_candidates@.push(o),
            final(self).phantom_candidates@ == old(self).phantom_candidates@,
    {
        self.soft_candidates.push(o);
    }

    /// Registers a phantom-reference candidate.
    pub fn add_phantom_candidate(&mut self, o: u64)
        ensures
            final(self).edges@ == old(self).edges@,
            final(self).weak_candidates@ == old(self).weak_candidates@,
            final(self).soft_candidates@ == old(self).soft_candidates@,
            final(self).phantom_candidates@ == old(self).phantom_candidates@.push(o),
    {
        self.phantom_candidates.push(o);
    }
}

/// The slots of one reference-field run: `count` consecutive slots
/// starting `offset` bytes into the object, one slot width apart.
pub open spec fn spec_block_edges(start: u64, compressed: bool, b: OopMapBlock) -> Seq<
    OpenJDKEdge,
> {
    Seq::new(
        b.count as nat,
        |i: int|
            OpenJDKEdge {
                addr: (start + b.offset + i * spec_bytes_in_edge(compressed)) as u64,
            },
    )
}

/// The slots of all reference-field runs of an instance, in run order.
pub open spec fn spec_instance_edges(start: u64, compressed: bool, maps: Seq<OopMapBlock>) -> Seq<
    OpenJDKEdge,
>
    decreases maps.len(),
{
    if maps.len() == 0 {
        Seq::empty()
    } else {
        spec_instance_edges(start, compressed, maps.drop_last()) + spec_block_edges(
            start,
            compressed,
            maps.last(),
        )
    }
}

/// The slots of a class mirror's static-field block.
pub open spec fn spec_static_edges(
    start: u64,
    compressed: bool,
    layout: HostLayout,
    count: u32,
) -> Seq<OpenJDKEdge> {
    Seq::new(
        count as nat,
        |i: int|
            OpenJDKEdge {
                addr: (start + layout.offset_of_static_fields + i * spec_bytes_in_edge(
                    compressed,
                )) as u64,
            },
    )
}

/// The element slots of a reference array, in index order, starting at
/// the computed data-start offset.
pub open spec fn spec_array_edges(start: u64, compressed: bool, length: u32) -> Seq<OpenJDKEdge> {
    Seq::new(
        length as nat,
        |i: int|
            OpenJDKEdge {
                addr: (spec_obj_array_base(start, compressed) + i * spec_bytes_in_edge(
                    compressed,
                )) as u64,
            },
    )
}

/// The slot holding a reference object's referent.
pub open spec fn spec_referent_edge(layout: HostLayout, start: u64) -> OpenJDKEdge {
    OpenJDKEdge { addr: (start + layout.referent_offset) as u64 }
}

/// The slot holding a reference object's discovered linkage.
pub open spec fn spec_discovered_edge(layout: HostLayout, start: u64) -> OpenJDKEdge {
    OpenJDKEdge { addr: (start + layout.discovered_offset) as u64 }
}

/// The extra strong slots a reference object contributes: referent and
/// discovered, unless the configuration suppresses the referent of a
/// weak, soft or phantom reference.
pub open spec fn spec_ref_strong_edges(
    no_reference_types: bool,
    layout: HostLayout,
    start: u64,
    rt: ReferenceType,
) -> Seq<OpenJDKEdge> {
    if no_reference_types || rt == ReferenceType::Final || rt == ReferenceType::Other {
        seq![spec_referent_edge(layout, start), spec_discovered_edge(layout, start)]
    } else {
        Seq::empty()
    }
}

/// One reference-field run stays within the address space.
pub open spec fn block_wf(start: u64, compressed: bool, b: OopMapBlock) -> bool {
    &&& b.offset >= 0
    &&& start + b.offset + b.count * spec_bytes_in_edge(compressed) <= u64::MAX
}

/// Every reference-field run stays within the address space.
pub open spec fn maps_wf(start: u64, compressed: bool, maps: Seq<OopMapBlock>) -> bool {
    forall|i: int| 0 <= i < maps.len() ==> block_wf(start, compressed, #[trigger] maps[i])
}

/// A mirror's static-field block stays within the address space.
pub open spec fn mirror_wf(start: u64, compressed: bool, layout: HostLayout, count: u32) -> bool {
    start + layout.offset_of_static_fields + count * spec_bytes_in_edge(compressed) <= u64::MAX
}

/// A reference object's referent and discovered slots stay within the
/// address space.
pub open spec fn ref_wf(start: u64, layout: HostLayout) -> bool {
    &&& start + layout.referent_offset <= u64::MAX
    &&& start + layout.discovered_offset <= u64::MAX
}

/// A reference array's element slots stay within the address space.
pub open spec fn array_wf(start: u64, compressed: bool, length: u32) -> bool {
    start + 64 + length * spec_bytes_in_edge(compressed) <= u64::MAX
}

/// The object model is scannable: a non-null address, and every slot the
/// scan would emit stays within the address space.
pub open spec fn oop_wf(cfg: OpenJDK, oop: OopDesc) -> bool {
    let c = cfg.compressed_oops.enabled;
    &&& 0 < oop.start
    &&& match oop.klass.kind {
        KlassKind::Instance(ik) => maps_wf(oop.start, c, ik.oop_maps@),
        KlassKind::InstanceClassLoader(k) => maps_wf(oop.start, c, k.instance_klass.oop_maps@),
        KlassKind::InstanceMirror(k) => maps_wf(oop.start, c, k.instance_klass.oop_maps@)
            && mirror_wf(oop.start, c, cfg.layout, oop.static_oop_field_count),
        KlassKind::InstanceRef(k) => maps_wf(oop.start, c, k.instance_klass.oop_maps@) && ref_wf(
            oop.start,
            cfg.layout,
        ),
        KlassKind::ObjArray(_) => array_wf(oop.start, c, oop.array_length),
        KlassKind::TypeArray(_) => true,
    }
}

/// A reference-object instance carries actual reference semantics: the
/// `Regular` kind on such an instance is a classification bug, fatal when
/// referents are processed specially.
pub open spec fn ref_kind_ok(cfg: OpenJDK, oop: OopDesc) -> bool {
    match oop.klass.kind {
        KlassKind::InstanceRef(k) => !cfg.no_reference_types
            ==> k.instance_klass.reference_type != ReferenceType::Regular,
        _ => true,
    }
}

/// Every strong slot the scan of `oop` emits, in emission order.
pub open spec fn spec_scanned_edges(cfg: OpenJDK, oop: OopDesc) -> Seq<OpenJDKEdge> {
    let c = cfg.compressed_oops.enabled;
    match oop.klass.kind {
        KlassKind::Instance(ik) => spec_instance_edges(oop.start, c, ik.oop_maps@),
        KlassKind::InstanceClassLoader(k) => spec_instance_edges(
            oop.start,
            c,
            k.instance_klass.oop_maps@,
        ),
        KlassKind::InstanceMirror(k) => spec_instance_edges(oop.start, c, k.instance_klass.oop_maps@)
            + spec_static_edges(oop.start, c, cfg.layout, oop.static_oop_field_count),
        KlassKind::InstanceRef(k) => spec_instance_edges(oop.start, c, k.instance_klass.oop_maps@)
            + spec_ref_strong_edges(
            cfg.no_reference_types,
            cfg.layout,
            oop.start,
            k.instance_klass.reference_type,
        ),
        KlassKind::ObjArray(_) => spec_array_edges(oop.start, c, oop.array_length),
        KlassKind::TypeArray(_) => Seq::empty(),
    }
}

/// The weak candidates the scan of `oop` registers: the object itself,
/// exactly when it is a weak reference and referents are processed
/// specially.
pub open spec fn spec_weak_candidates(cfg: OpenJDK, oop: OopDesc) -> Seq<u64> {
    match oop.klass.kind {
        KlassKind::InstanceRef(k) => if !cfg.no_reference_types
            && k.instance_klass.reference_type == ReferenceType::Weak {
            seq![oop.start]
        } else {
            Seq::empty()
        },
        _ => Seq::empty(),
    }
}

/// The soft candidates the scan of `oop` registers.
pub open spec fn spec_soft_candidates(cfg: OpenJDK, oop: OopDesc) -> Seq<u64> {
    match oop.klass.kind {
        KlassKind::InstanceRef(k) => if !cfg.no_reference_types
            && k.instance_klass.reference_type == ReferenceType::Soft {
            seq![oop.start]
        } else {
            Seq::empty()
        },
        _ => Seq::empty(),
    }
}

/// The phantom candidates the scan of `oop` registers.
pub open spec fn spec_phantom_candidates(cfg: OpenJDK, oop: OopDesc) -> Seq<u64> {
    match oop.klass.kind {
        KlassKind::InstanceRef(k) => if !cfg.no_reference_types
            && k.instance_klass.reference_type == ReferenceType::Phantom {
            seq![oop.start]
        } else {
            Seq::empty()
        },
        _ => Seq::empty(),
    }
}

impl OopMapBlock {
    /// Emits the `count` consecutive slots of this reference-field run.
    pub fn oop_iterate(&self, compressed: bool, oop: &OopDesc, closure: &mut EdgeVisitor)
        requires
            block_wf(oop.start, compressed, *self),
        ensures
            final(closure).edges@ == old(closure).edges@ + spec_block_edges(
                oop.start,
                compressed,
                *self,
            ),
            final(closure).weak_candidates@ == old(closure).weak_candidates@,
            final(closure).soft_candidates@ == old(closure).soft_candidates@,
            final(closure).phantom_candidates@ == old(closure).phantom_candidates@,
    {
        let log_bytes_in_oop: u64 = if compressed {
            2
        } else {
            3
        };
        let ghost orig = closure.edges@;
        let ghost spec_run = spec_block_edges(oop.start, compressed, *self);
        let start = oop.get_field_address(self.offset);
        let mut i: u32 = 0;
        while i < self.count
            invariant
                i <= self.count,
                block_wf(oop.start, compressed, *self),
                start == oop.start + self.offset,
                log_bytes_in_oop == if compressed {
                    2u64
                } else {
                    3u64
                },
                spec_run == spec_block_edges(oop.start, compressed, *self),
                closure.edges@ == orig + spec_run.take(i as int),
                closure.weak_candidates@ == old(closure).weak_candidates@,
                closure.soft_candidates@ == old(closure).soft_candidates@,
                closure.phantom_candidates@ == old(closure).phantom_candidates@,
            decreases self.count - i,
        {
            proof {
                let x = i as u64;
                assert(x < 0x1_0000_0000 ==> x << 2u64 == x * 4) by (bit_vector);
                assert(x < 0x1_0000_0000 ==> x << 3u64 == x * 8) by (bit_vector);
                assert(i * spec_bytes_in_edge(compressed) <= self.count * spec_bytes_in_edge(
                    compressed,
                )) by (nonlinear_arith)
                    requires
                        0 <= i <= self.count,
                        spec_bytes_in_edge(compressed) > 0,
                ;
            }
            let slot = start + ((i as u64) << log_bytes_in_oop);
            closure.visit_edge(OpenJDKEdge { addr: slot });
            proof {
                assert(spec_run.take(i + 1) =~= spec_run.take(i as int).push(spec_run[i as int]));
                assert(orig + spec_run.take(i + 1) =~= (orig + spec_run.take(i as int)).push(
                    spec_run[i as int],
                ));
            }
            i = i + 1;
        }
        proof {
            assert(spec_run.take(self.count as int) =~= spec_run);
        }
    }
}

impl InstanceKlass {
    /// Emits the slots of every reference-field run of a plain instance,
    /// in run order.
    pub fn oop_iterate(&self, compressed: bool, oop: &OopDesc, closure: &mut EdgeVisitor)
        requires
            maps_wf(oop.start, compressed, self.oop_maps@),
        ensures
            final(closure).edges@ == old(closure).edges@ + spec_instance_edges(
                oop.start,
                compressed,
                self.oop_maps@,
            ),
            final(closure).weak_candidates@ == old(closure).weak_candidates@,
            final(closure).soft_candidates@ == old(closure).soft_candidates@,
            final(closure).phantom_candidates@ == old(closure).phantom_candidates@,
    {
        let ghost orig = closure.edges@;
        let ghost m = self.oop_maps@;
        let mut j: usize = 0;
        while j < self.oop_maps.len()
            invariant
                j <= m.len(),
                m == self.oop_maps@,
                maps_wf(oop.start, compressed, m),
                closure.edges@ == orig + spec_instance_edges(oop.start, compressed, m.take(j as int)),
                closure.weak_candidates@ == old(closure).weak_candidates@,
                closure.soft_candidates@ == old(closure).soft_candidates@,
                closure.phantom_candidates@ == old(closure).phantom_candidates@,
            decreases m.len() - j,
        {
            let map = self.oop_maps[j];
            map.oop_iterate(compressed, oop, closure);
            proof {
                assert(m.take(j + 1).drop_last() =~= m.take(j as int));
                assert(m.take(j + 1).last() == m[j as int]);
                assert(spec_instance_edges(oop.start, compressed, m.take(j + 1))
                    == spec_instance_edges(oop.start, compressed, m.take(j as int))
                    + spec_block_edges(oop.start, compressed, m[j as int]));
                assert(orig + spec_instance_edges(oop.start, compressed, m.take(j + 1)) =~= (orig
                    + spec_instance_edges(oop.start, compressed, m.take(j as int)))
                    + spec_block_edges(oop.start, compressed, m[j as int]));
            }
            j = j + 1;
        }
        proof {
            assert(m.take(m.len() as int) =~= m);
        }
    }
}

impl InstanceMirrorKlass {
    /// Emits the mirror's instance slots, then one slot per static
    /// reference field of the mirrored class.
    pub fn oop_iterate(&self, cfg: &OpenJDK, oop: &OopDesc, closure: &mut EdgeVisitor)
        requires
            maps_wf(oop.start, cfg.compressed_oops.enabled, self.instance_klass.oop_maps@),
            mirror_wf(
                oop.start,
                cfg.compressed_oops.enabled,
                cfg.layout,
                oop.static_oop_field_count,
            ),
        ensures
            final(closure).edges@ == old(closure).edges@ + spec_instance_edges(
                oop.start,
                cfg.compressed_oops.enabled,
                self.instance_klass.oop_maps@,
            ) + spec_static_edges(
                oop.start,
                cfg.compressed_oops.enabled,
                cfg.layout,
                oop.static_oop_field_count,
            ),
            final(closure).weak_candidates@ == old(closure).weak_candidates@,
            final(closure).soft_candidates@ == old(closure).soft_candidates@,
            final(closure).phantom_candidates@ == old(closure).phantom_candidates@,
    {
        let compressed = crate::edges::use_compressed_oops(&cfg.compressed_oops);
        self.instance_klass.oop_iterate(compressed, oop, closure);

        let ghost mid = closure.edges@;
        let ghost spec_static = spec_static_edges(
            oop.start,
            compressed,
            cfg.layout,
            oop.static_oop_field_count,
        );
        let start = Self::start_of_static_fields(&cfg.layout, oop);
        let len = Self::static_oop_field_count(oop);
        let bytes = crate::edges::bytes_in_edge(compressed);
        let mut i: u32 = 0;
        while i < len
            invariant
                i <= len,
                len == oop.static_oop_field_count,
                bytes == spec_bytes_in_edge(compressed),
                start == oop.start + cfg.layout.offset_of_static_fields,
                mirror_wf(oop.start, compressed, cfg.layout, len),
                spec_static == spec_static_edges(oop.start, compressed, cfg.layout, len),
                closure.edges@ == mid + spec_static.take(i as int),
                closure.weak_candidates@ == old(closure).weak_candidates@,
                closure.soft_candidates@ == old(closure).soft_candidates@,
                closure.phantom_candidates@ == old(closure).phantom_candidates@,
            decreases len - i,
        {
            proof {
                assert(i * spec_bytes_in_edge(compressed) <= len * spec_bytes_in_edge(compressed))
                    by (nonlinear_arith)
                    requires
                        0 <= i <= len,
                        spec_bytes_in_edge(compressed) > 0,
                ;
            }
            let slot = start + (i as u64) * bytes;
            closure.visit_edge(OpenJDKEdge { addr: slot });
            proof {
                assert(spec_static.take(i + 1) =~= spec_static.take(i as int).push(
                    spec_static[i as int],
                ));
                assert(mid + spec_static.take(i + 1) =~= (mid + spec_static.take(i as int)).push(
                    spec_static[i as int],
                ));
            }
            i = i + 1;
        }
        proof {
            assert(spec_static.take(len as int) =~= spec_static);
        }
    }
}

impl InstanceClassLoaderKlass {
    /// A class loader is scanned exactly like a plain instance.
    pub fn oop_iterate(&self, compressed: bool, oop: &OopDesc, closure: &mut EdgeVisitor)
        requires
            maps_wf(oop.start, compressed, self.instance_klass.oop_maps@),
        ensures
            final(closure).edges@ == old(closure).edges@ + spec_instance_edges(
                oop.start,
                compressed,
                self.instance_klass.oop_maps@,
            ),
            final(closure).weak_candidates@ == old(closure).weak_candidates@,
            final(closure).soft_candidates@ == old(closure).soft_candidates@,
            final(closure).phantom_candidates@ == old(closure).phantom_candidates@,
    {
        self.instance_klass.oop_iterate(compressed, oop, closure);
    }
}

impl ObjArrayKlass {
    /// Emits one slot per element of a reference array, in index order,
    /// starting at the computed data-start offset.
    pub fn oop_iterate(&self, compressed: bool, oop: &OopDesc, closure: &mut EdgeVisitor)
        requires
            array_wf(oop.start, compressed, oop.array_length),
        ensures
            final(closure).edges@ == old(closure).edges@ + spec_array_edges(
                oop.start,
                compressed,
                oop.array_length,
            ),
            final(closure).weak_candidates@ == old(closure).weak_candidates@,
            final(closure).soft_candidates@ == old(closure).soft_candidates@,
            final(closure).phantom_candidates@ == old(closure).phantom_candidates@,
    {
        let array = oop.as_array_oop();
        let ghost orig = closure.edges@;
        let ghost spec_arr = spec_array_edges(oop.start, compressed, oop.array_length);
        let base = array.base(compressed, BasicType::T_OBJECT);
        let len = array.length();
        let bytes = crate::edges::bytes_in_edge(compressed);
        let mut i: u32 = 0;
        while i < len
            invariant
                i <= len,
                len == oop.array_length,
                bytes == spec_bytes_in_edge(compressed),
                base == spec_obj_array_base(oop.start, compressed),
                array_wf(oop.start, compressed, len),
                spec_arr == spec_array_edges(oop.start, compressed, len),
                closure.edges@ == orig + spec_arr.take(i as int),
                closure.weak_candidates@ == old(closure).weak_candidates@,
                closure.soft_candidates@ == old(closure).soft_candidates@,
                closure.phantom_candidates@ == old(closure).phantom_candidates@,
            decreases len - i,
        {
            proof {
                assert(i * spec_bytes_in_edge(compressed) <= len * spec_bytes_in_edge(compressed))
                    by (nonlinear_arith)
                    requires
                        0 <= i <= len,
                        spec_bytes_in_edge(compressed) > 0,
                ;
            }
            let slot = base + (i as u64) * bytes;
            closure.visit_edge(OpenJDKEdge { addr: slot });
            proof {
                assert(spec_arr.take(i + 1) =~= spec_arr.take(i as int).push(spec_arr[i as int]));
                assert(orig + spec_arr.take(i + 1) =~= (orig + spec_arr.take(i as int)).push(
                    spec_arr[i as int],
                ));
            }
            i = i + 1;
        }
        proof {
            assert(spec_arr.take(len as int) =~= spec_arr);
        }
    }
}

impl TypeArrayKlass {
    /// A primitive array holds no references: scanning emits nothing.
    pub fn oop_iterate(&self, _compressed: bool, _oop: &OopDesc, closure: &mut EdgeVisitor)
        ensures
            final(closure).edges@ == old(closure).edges@,
            final(closure).weak_candidates@ == old(closure).weak_candidates@,
            final(closure).soft_candidates@ == old(closure).soft_candidates@,
            final(closure).phantom_candidates@ == old(closure).phantom_candidates@,
    {
    }
}

impl InstanceRefKlass {
    /// Whether weak/soft/phantom referents get special treatment; read
    /// from the collector configuration on every call, never cached.
    pub fn should_scan_weak_refs(cfg: &OpenJDK) -> (r: bool)
        ensures
            r == !cfg.no_reference_types,
    {
        !cfg.no_reference_types
    }

    /// Traces the referent and discovered fields as strong slots.
    pub fn process_ref_as_strong(layout: &HostLayout, oop: &OopDesc, closure: &mut EdgeVisitor)
        requires
            ref_wf(oop.start, *layout),
        ensures
            final(closure).edges@ == old(closure).edges@.push(spec_referent_edge(*layout, oop.start))
                .push(spec_discovered_edge(*layout, oop.start)),
            final(closure).weak_candidates@ == old(closure).weak_candidates@,
            final(closure).soft_candidates@ == old(closure).soft_candidates@,
            final(closure).phantom_candidates@ == old(closure).phantom_candidates@,
    {
        let referent_addr = Self::referent_address(layout, oop);
        closure.visit_edge(referent_addr);
        let discovered_addr = Self::discovered_address(layout, oop);
        closure.visit_edge(discovered_addr);
    }

    /// Emits the instance slots, then either registers the object as a
    /// weak/soft/phantom candidate or traces its referent strongly,
    /// according to its reference kind and the configuration.
    pub fn oop_iterate(&self, cfg: &OpenJDK, oop: &OopDesc, closure: &mut EdgeVisitor)
        requires
            maps_wf(oop.start, cfg.compressed_oops.enabled, self.instance_klass.oop_maps@),
            ref_wf(oop.start, cfg.layout),
            !cfg.no_reference_types ==> self.instance_klass.reference_type
                != ReferenceType::Regular,
        ensures
            final(closure).edges@ == old(closure).edges@ + spec_instance_edges(
                oop.start,
                cfg.compressed_oops.enabled,
                self.instance_klass.oop_maps@,
            ) + spec_ref_strong_edges(
                cfg.no_reference_types,
                cfg.layout,
                oop.start,
                self.instance_klass.reference_type,
            ),
            final(closure).weak_candidates@ == old(closure).weak_candidates@ + (
            if !cfg.no_reference_types && self.instance_klass.reference_type
                == ReferenceType::Weak {
                seq![oop.start]
            } else {
                Seq::<u64>::empty()
            }),
            final(closure).soft_candidates@ == old(closure).soft_candidates@ + (
            if !cfg.no_reference_types && self.instance_klass.reference_type
                == ReferenceType::Soft {
                seq![oop.start]
            } else {
                Seq::<u64>::empty()
            }),
            final(closure).phantom_candidates@ == old(closure).phantom_candidates@ + (
            if !cfg.no_reference_types && self.instance_klass.reference_type
                == ReferenceType::Phantom {
                seq![oop.start]
            } else {
                Seq::<u64>::empty()
            }),
    {
        let compressed = crate::edges::use_compressed_oops(&cfg.compressed_oops);
        self.instance_klass.oop_iterate(compressed, oop, closure);

        if Self::should_scan_weak_refs(cfg) {
            let reference = oop.start;
            match self.instance_klass.reference_type {
                ReferenceType::Regular => {
                    proof {
                        assert(false);
                    }
                },
                ReferenceType::Weak => closure.add_weak_candidate(reference),
                ReferenceType::Soft => closure.add_soft_candidate(reference),
                ReferenceType::Phantom => closure.add_phantom_candidate(reference),
                ReferenceType::Final | ReferenceType::Other => {
                    Self::process_ref_as_strong(&cfg.layout, oop, closure);
                },
            }
        } else {
            Self::process_ref_as_strong(&cfg.layout, oop, closure);
        }
        proof {
            assert(closure.edges@ =~= old(closure).edges@ + spec_instance_edges(
                oop.start,
                cfg.compressed_oops.enabled,
                self.instance_klass.oop_maps@,
            ) + spec_ref_strong_edges(
                cfg.no_reference_types,
                cfg.layout,
                oop.start,
                self.instance_klass.reference_type,
            ));
        }
    }
}

/// Classifies `oop` by its type descriptor and emits every reference
/// slot it holds; an exhaustive match over the validated descriptor
/// replaces the raw discriminant dispatch.
pub fn oop_iterate(cfg: &OpenJDK, oop: &OopDesc, closure: &mut EdgeVisitor)
    requires
        oop_wf(*cfg, *oop),
        ref_kind_ok(*cfg, *oop),
    ensures
        final(closure).edges@ == old(closure).edges@ + spec_scanned_edges(*cfg, *oop),
        final(closure).weak_candidates@ == old(closure).weak_candidates@ + spec_weak_candidates(
            *cfg,
            *oop,
        ),
        final(closure).soft_candidates@ == old(closure).soft_candidates@ + spec_soft_candidates(
            *cfg,
            *oop,
        ),
        final(closure).phantom_candidates@ == old(closure).phantom_candidates@
            + spec_phantom_candidates(*cfg, *oop),
{
    let compressed = crate::edges::use_compressed_oops(&cfg.compressed_oops);
    match &oop.klass.kind {
        KlassKind::Instance(instance_klass) => {
            instance_klass.oop_iterate(compressed, oop, closure);
        },
        KlassKind::InstanceClassLoader(instance_klass) => {
            instance_klass.oop_iterate(compressed, oop, closure);
        },
        KlassKind::InstanceMirror(instance_klass) => {
            instance_klass.oop_iterate(cfg, oop, closure);
        },
        KlassKind::ObjArray(array_klass) => {
            array_klass.oop_iterate(compressed, oop, closure);
        },
        KlassKind::TypeArray(_) => {
            // Primitive arrays contain no reference fields: skip.
        },
        KlassKind::InstanceRef(instance_klass) => {
            instance_klass.oop_iterate(cfg, oop, closure);
        },
    }
    proof {
        if oop.klass.kind is TypeArray {
            assert(old(closure).edges@ + spec_scanned_edges(*cfg, *oop) =~= old(closure).edges@);
        }
        assert(old(closure).weak_candidates@ + Seq::<u64>::empty() =~= old(
            closure,
        ).weak_candidates@);
        assert(old(closure).soft_candidates@ + Seq::<u64>::empty() =~= old(
            closure,
        ).soft_candidates@);
        assert(old(closure).phantom_candidates@ + Seq::<u64>::empty() =~= old(
            closure,
        ).phantom_candidates@);
    }
}

/// Scans one heap object, discovering every outgoing reference slot it
/// holds.
pub fn scan_object(cfg: &OpenJDK, object: &OopDesc, closure: &mut EdgeVisitor)
    requires
        oop_wf(*cfg, *object),
        ref_kind_ok(*cfg, *object),
    ensures
        final(closure).edges@ == old(closure).edges@ + spec_scanned_edges(*cfg, *object),
        final(closure).weak_candidates@ == old(closure).weak_candidates@ + spec_weak_candidates(
            *cfg,
            *object,
        ),
        final(closure).soft_candidates@ == old(closure).soft_candidates@ + spec_soft_candidates(
            *cfg,
            *object,
        ),
        final(closure).phantom_candidates@ == old(closure).phantom_candidates@
            + spec_phantom_candidates(*cfg, *object),
{
    oop_iterate(cfg, object, closure)
}

} // verus!
