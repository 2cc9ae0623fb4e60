//! The work-packet batching bridge and the root batch-return protocol.
//!
//! Host-side root iteration and collector-side batched work packets meet
//! here: slots are fed in one at a time and come out as packets of at
//! most a fixed capacity, ready for the tracing scheduler; buffers filled
//! by the host through the renew-buffer protocol are drained into packets
//! and replaced by fresh empty buffers.

use vstd::prelude::*;

use crate::NewBuffer;
use crate::OpenJDK;
use crate::abi::OopDesc;
use crate::edges::OpenJDKEdge;
use crate::object_scanning::EdgeVisitor;
use crate::object_scanning::spec_phantom_candidates;
use crate::object_scanning::spec_scanned_edges;
use crate::object_scanning::spec_soft_candidates;
use crate::object_scanning::spec_weak_candidates;
use crate::object_scanning;

verus! {

/// Capacity bound of every batch: root batches and work packets alike.
/// A tuning knob; any positive value is correct.
pub const WORK_PACKET_CAPACITY: usize = 4096;

/// Concatenation of a sequence of packets into one slot sequence.
pub open spec fn spec_packets_concat(s: Seq<Seq<OpenJDKEdge>>) -> Seq<OpenJDKEdge>
    decreases s.len(),
{
    if s.len() == 0 {
        Seq::empty()
    } else {
        spec_packets_concat(s.drop_last()) + s.last()
    }
}

/// The batching bridge: collects slots into a buffer of bounded
/// capacity and hands full buffers on as work packets.  A buffer is
/// handed on only when one more slot would not fit, so a packet never
/// exceeds the capacity and is only created full (or by an explicit
/// flush).
pub struct WorkPacketBridge {
    pub capacity: usize,
    pub buf: Vec<OpenJDKEdge>,
    pub packets: Vec<Vec<OpenJDKEdge>>,
}

impl WorkPacketBridge {
    /// The packets handed on so far, oldest first.
    pub open spec fn packets_view(self) -> Seq<Seq<OpenJDKEdge>> {
        self.packets@.map_values(|p: Vec<OpenJDKEdge>| p@)
    }

    /// Every slot the bridge has accepted, in arrival order: the handed-on
    /// packets followed by the slots still buffered.
    pub open spec fn all_edges(self) -> Seq<OpenJDKEdge> {
        spec_packets_concat(self.packets_view()) + self.buf@
    }

    /// The buffer never exceeds the (positive) capacity.
    pub open spec fn wf(self) -> bool {
        &&& self.capacity > 0
        &&& self.buf@.len() <= self.capacity
    }

    /// An empty bridge with the given packet capacity.
    pub fn new(capacity: usize) -> (b: WorkPacketBridge)
        requires
            capacity > 0,
        ensures
            b.wf(),
            b.capacity == capacity,
            b.buf@ =~= Seq::<OpenJDKEdge>::empty(),
            b.packets_view() =~= Seq::<Seq<OpenJDKEdge>>::empty(),
    {
        let b = WorkPacketBridge { capacity, buf: Vec::new(), packets: Vec::new() };
        proof {
            assert(b.packets_view() =~= Seq::<Seq<OpenJDKEdge>>::empty());
        }
        b
    }

    /// Accepts one slot.  When the buffer is already full, it is handed
    /// on as a packet first; feeding a slot into a non-full buffer hands
    /// nothing on.
    pub fn push(&mut self, e: OpenJDKEdge)
        requires
            old(self).wf(),
        ensures
            final(self).wf(),
            final(self).capacity == old(self).capacity,
            final(self).all_edges() == old(self).all_edges().push(e),
            old(self).buf@.len() == old(self).capacity ==> final(self).packets_view() == old(
                self,
            ).packets_view().push(old(self).buf@) && final(self).buf@ == seq![e],
            old(self).buf@.len() < old(self).capacity ==> final(self).packets_view() == old(
                self,
            ).packets_view() && final(self).buf@ == old(self).buf@.push(e),
    {
        if self.buf.len() == self.capacity {
            let mut full: Vec<OpenJDKEdge> = Vec::new();
            core::mem::swap(&mut full, &mut self.buf);
            self.packets.push(full);
            proof {
                let pv0 = old(self).packets_view();
                assert(self.packets_view() =~= pv0.push(old(self).buf@));
                assert(self.packets_view().drop_last() =~= pv0);
                assert(spec_packets_concat(self.packets_view()) == spec_packets_concat(pv0) + old(
                    self,
                ).buf@);
            }
        }
        self.buf.push(e);
        proof {
            assert(final(self).all_edges() =~= old(self).all_edges().push(e));
        }
    }

    /// Hands a host-filled buffer on as one packet of its own, without
    /// touching the slots currently buffered.
    pub fn create_process_roots_work(&mut self, buf: Vec<OpenJDKEdge>)
        requires
            old(self).wf(),
        ensures
            final(self).wf(),
            final(self).capacity == old(self).capacity,
            final(self).buf@ == old(self).buf@,
            final(self).packets_view() == old(self).packets_view().push(buf@),
    {
        let ghost pv0 = self.packets_view();
        let ghost bv = buf@;
        self.packets.push(buf);
        proof {
            assert(self.packets_view() =~= pv0.push(bv));
        }
    }

    /// Hands the buffered slots on as a final, possibly partial packet;
    /// the flush-on-drop step at the end of a scan.
    pub fn flush(&mut self)
        requires
            old(self).wf(),
        ensures
            final(self).wf(),
            final(self).capacity == old(self).capacity,
            final(self).buf@ =~= Seq::<OpenJDKEdge>::empty(),
            final(self).all_edges() == old(self).all_edges(),
            old(self).buf@.len() == 0 ==> final(self).packets_view() == old(self).packets_view(),
            old(self).buf@.len() > 0 ==> final(self).packets_view() == old(
                self,
            ).packets_view().push(old(self).buf@),
    {
        if self.buf.len() > 0 {
            let mut full: Vec<OpenJDKEdge> = Vec::new();
            core::mem::swap(&mut full, &mut self.buf);
            self.packets.push(full);
            proof {
                let pv0 = old(self).packets_view();
                assert(self.packets_view() =~= pv0.push(old(self).buf@));
                assert(self.packets_view().drop_last() =~= pv0);
                assert(spec_packets_concat(self.packets_view()) == spec_packets_concat(pv0) + old(
                    self,
                ).buf@);
                assert(final(self).all_edges() =~= old(self).all_edges());
            }
        } else {
            proof {
                assert(final(self).all_edges() =~= old(self).all_edges());
            }
        }
    }

    /// Feeds a run of slots into an empty bridge one by one.  The
    /// ensures describe the batch boundary exactly: packets are handed
    /// on only once a slot no longer fits, each handed-on packet is a
    /// full consecutive block of the input, and the remainder stays
    /// buffered.
    pub fn push_all(&mut self, edges: &Vec<OpenJDKEdge>)
        requires
            old(self).wf(),
            old(self).buf@.len() == 0,
        ensures
            final(self).wf(),
            final(self).capacity == old(self).capacity,
            final(self).all_edges() == old(self).all_edges() + edges@,
            ({
                let c = old(self).capacity as int;
                let fc = final(self).packets_view().len() - old(self).packets_view().len();
                &&& fc >= 0
                &&& edges@.len() == fc * c + final(self).buf@.len()
                &&& (edges@.len() == 0 ==> fc == 0 && final(self).buf@.len() == 0)
                &&& (edges@.len() > 0 ==> 1 <= final(self).buf@.len() <= c)
                &&& (forall|i: int|
                    0 <= i < old(self).packets_view().len()
                        ==> #[trigger] final(self).packets_view()[i] == old(self).packets_view()[i])
                &&& (forall|i: int|
                    old(self).packets_view().len() <= i < final(self).packets_view().len()
                        ==> #[trigger] final(self).packets_view()[i] =~= edges@.subrange(
                        (i - old(self).packets_view().len()) * c,
                        (i - old(self).packets_view().len() + 1) * c,
                    ))
                &&& final(self).buf@ =~= edges@.subrange(fc * c, edges@.len() as int)
            }),
    {
        let ghost pv0 = self.packets_view();
        let ghost all0 = self.all_edges();
        let ghost c = self.capacity as int;
        let mut k: usize = 0;
        while k < edges.len()
            invariant
                k <= edges@.len(),
                self.wf(),
                self.capacity as int == c,
                pv0 == old(self).packets_view(),
                all0 == old(self).all_edges(),
                self.all_edges() == all0 + edges@.take(k as int),
                ({
                    let fc = self.packets_view().len() - pv0.len();
                    &&& fc >= 0
                    &&& k as int == fc * c + self.buf@.len()
                    &&& (k == 0 ==> fc == 0 && self.buf@.len() == 0)
                    &&& (k > 0 ==> 1 <= self.buf@.len() <= c)
                    &&& (forall|i: int|
                        0 <= i < pv0.len() ==> #[trigger] self.packets_view()[i] == pv0[i])
                    &&& (forall|i: int|
                        pv0.len() <= i < self.packets_view().len() ==> #[trigger] self.packets_view()[i]
                            =~= edges@.subrange((i - pv0.len()) * c, (i - pv0.len() + 1) * c))
                    &&& self.buf@ =~= edges@.subrange(fc * c, k as int)
                }),
            decreases edges@.len() - k,
        {
            let ghost fc = self.packets_view().len() - pv0.len();
            let ghost buf_before = self.buf@;
            let e = edges[k];
            self.push(e);
            proof {
                assert(all0 + edges@.take(k + 1) =~= (all0 + edges@.take(k as int)).push(
                    edges@[k as int],
                ));
                if buf_before.len() == c {
                    assert((fc + 1) * c == fc * c + c) by (nonlinear_arith);
                    assert(self.buf@ =~= edges@.subrange((fc + 1) * c, k + 1));
                    assert(self.packets_view()[pv0.len() + fc] == buf_before);
                    assert(buf_before =~= edges@.subrange(fc * c, (fc + 1) * c));
                } else {
                    assert(self.buf@ =~= edges@.subrange(fc * c, k + 1));
                }
            }
            k = k + 1;
        }
        proof {
            assert(edges@.take(edges@.len() as int) =~= edges@);
        }
    }
}

/// Batch boundary law: feeding exactly `capacity` slots into an empty
/// bridge hands no packet on; feeding `capacity + 1` hands exactly one
/// packet on, and the bridge keeps one slot buffered.  The premises are
/// what `push_all` guarantees of the bridge it leaves behind.
pub proof fn lemma_batch_boundary(b: WorkPacketBridge, fed: nat, handed_on: int)
    requires
        b.wf(),
        handed_on >= 0,
        fed == handed_on * (b.capacity as int) + b.buf@.len(),
        fed > 0 ==> 1 <= b.buf@.len() <= b.capacity,
    ensures
        fed == b.capacity ==> handed_on == 0,
        fed == b.capacity + 1 ==> handed_on == 1 && b.buf@.len() == 1,
{
    let c = b.capacity as int;
    if fed == b.capacity {
        assert(handed_on * c == c - b.buf@.len());
        assert(handed_on * c < c);
        assert(handed_on < 1) by (nonlinear_arith)
            requires
                handed_on * c < c,
                c > 0,
                handed_on >= 0,
        ;
    }
    if fed == b.capacity + 1 {
        assert(handed_on * c == c + 1 - b.buf@.len());
        assert(1 <= c + 1 - b.buf@.len() <= c);
        assert(handed_on == 1) by (nonlinear_arith)
            requires
                1 <= handed_on * c <= c,
                c > 0,
                handed_on >= 0,
        ;
    }
}

/// Drains one host-filled buffer of root slot addresses into a work
/// packet and hands back a fresh empty buffer of the standard capacity.
/// A missing buffer means "no more data": nothing is drained and only
/// the fresh buffer is produced.
pub fn report_slots_and_renew_buffer(factory: &mut WorkPacketBridge, buf: Option<Vec<u64>>) -> (r:
    NewBuffer)
    requires
        old(factory).wf(),
    ensures
        final(factory).wf(),
        final(factory).capacity == old(factory).capacity,
        final(factory).buf@ == old(factory).buf@,
        buf is None ==> final(factory).packets_view() == old(factory).packets_view(),
        buf matches Some(v) ==> final(factory).packets_view() == old(
            factory,
        ).packets_view().push(v@.map_values(|a: u64| OpenJDKEdge { addr: a })),
        r.buf@ =~= Seq::<u64>::empty(),
        r.capacity == WORK_PACKET_CAPACITY,
{
    match buf {
        Some(v) => {
            let ghost vv = v@;
            let mut slots: Vec<OpenJDKEdge> = Vec::new();
            let mut i: usize = 0;
            while i < v.len()
                invariant
                    i <= vv.len(),
                    vv == v@,
                    slots@ == vv.take(i as int).map_values(|a: u64| OpenJDKEdge { addr: a }),
                decreases vv.len() - i,
            {
                slots.push(OpenJDKEdge { addr: v[i] });
                proof {
                    assert(vv.take(i + 1).map_values(|a: u64| OpenJDKEdge { addr: a }) =~= vv.take(
                        i as int,
                    ).map_values(|a: u64| OpenJDKEdge { addr: a }).push(
                        OpenJDKEdge { addr: vv[i as int] },
                    ));
                }
                i = i + 1;
            }
            proof {
                assert(vv.take(vv.len() as int) =~= vv);
            }
            factory.create_process_roots_work(slots);
        },
        None => {},
    }
    NewBuffer { buf: Vec::with_capacity(WORK_PACKET_CAPACITY), capacity: WORK_PACKET_CAPACITY }
}

/// The scanning interface the collector calls into.
pub struct VMScanning {}

impl VMScanning {
    /// Scans one heap object, emitting its reference slots and weak
    /// candidates into the visitor.
    pub fn scan_object(cfg: &OpenJDK, object: &OopDesc, slot_visitor: &mut EdgeVisitor)
        requires
            object_scanning::oop_wf(*cfg, *object),
            object_scanning::ref_kind_ok(*cfg, *object),
        ensures
            final(slot_visitor).edges@ == old(slot_visitor).edges@ + spec_scanned_edges(
                *cfg,
                *object,
            ),
            final(slot_visitor).weak_candidates@ == old(slot_visitor).weak_candidates@
                + spec_weak_candidates(*cfg, *object),
            final(slot_visitor).soft_candidates@ == old(slot_visitor).soft_candidates@
                + spec_soft_candidates(*cfg, *object),
            final(slot_visitor).phantom_candidates@ == old(slot_visitor).phantom_candidates@
                + spec_phantom_candidates(*cfg, *object),
    {
        object_scanning::scan_object(cfg, object, slot_visitor);
    }
}

} // verus!
