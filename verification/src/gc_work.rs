//! The compiled-code root table and the scheduled work that drains it.
//!
//! Roots embedded in just-in-time-compiled method bodies are tracked in
//! two maps keyed by the compiled method's identity address: a *nursery*
//! of methods registered since the last collection, and a *mature* map of
//! methods already promoted.  Each collection emits the nursery roots
//! (and, in a full-heap collection, the mature roots too), then drains
//! the nursery into the mature map, so a compiled method is fully
//! rescanned at most once after registration.  When the collection may
//! move objects, every method whose roots were emitted is scheduled for a
//! relocation fixup, batched in fixed-size chunks.

use vstd::prelude::*;

use crate::edges::OpenJDKEdge;
use crate::scanning::WorkPacketBridge;

verus! {

/// How many compiled methods one relocation-fixup packet covers.
/// Chunking matters because per-method fixup cost dominates per-slot
/// cost; the value is chosen for load balancing.
pub const NMETHODS_PER_PACKET: usize = 64;

/// One compiled method's entry: its identity address and the addresses
/// of the reference slots embedded in its body.
#[derive(Debug)]
pub struct NmethodEntry {
    pub nm: u64,
    pub roots: Vec<u64>,
}

/// The keys of a run of entries, in entry order.
pub open spec fn keys_of(s: Seq<NmethodEntry>) -> Seq<u64> {
    s.map_values(|e: NmethodEntry| e.nm)
}

/// Whether some entry carries the key `k`.
pub open spec fn has_key(s: Seq<NmethodEntry>, k: u64) -> bool {
    exists|i: int| 0 <= i < s.len() && (#[trigger] s[i]).nm == k
}

/// No two entries carry the same key.
pub open spec fn unique_keys(s: Seq<NmethodEntry>) -> bool {
    forall|i: int, j: int|
        0 <= i < j < s.len() ==> (#[trigger] s[i]).nm != (#[trigger] s[j]).nm
}

/// No key occurs in both runs of entries.
pub open spec fn disjoint_keys(a: Seq<NmethodEntry>, b: Seq<NmethodEntry>) -> bool {
    forall|k: u64| #[trigger] has_key(a, k) ==> !has_key(b, k)
}

/// All root slot addresses of a run of entries, in entry order.
pub open spec fn all_roots(s: Seq<NmethodEntry>) -> Seq<u64>
    decreases s.len(),
{
    if s.len() == 0 {
        Seq::empty()
    } else {
        all_roots(s.drop_last()) + s.last().roots@
    }
}

/// A run of entries with every entry of key `k` removed, keeping order.
pub open spec fn remove_key(s: Seq<NmethodEntry>, k: u64) -> Seq<NmethodEntry>
    decreases s.len(),
{
    if s.len() == 0 {
        Seq::empty()
    } else if s.first().nm == k {
        remove_key(s.drop_first(), k)
    } else {
        seq![s.first()] + remove_key(s.drop_first(), k)
    }
}

/// Root emission order of one collection cycle: the mature roots (in a
/// full-heap collection only), then the nursery roots.
pub open spec fn spec_emitted_roots(
    mature: Seq<NmethodEntry>,
    nursery: Seq<NmethodEntry>,
    is_current_gc_nursery: bool,
) -> Seq<u64> {
    (if is_current_gc_nursery {
        Seq::empty()
    } else {
        all_roots(mature)
    }) + all_roots(nursery)
}

/// Root slot addresses as slots for the batching bridge.
pub open spec fn spec_as_edges(s: Seq<u64>) -> Seq<OpenJDKEdge> {
    s.map_values(|a: u64| OpenJDKEdge { addr: a })
}

/// Concatenating runs of entries concatenates their roots.
pub proof fn lemma_all_roots_add(a: Seq<NmethodEntry>, b: Seq<NmethodEntry>)
    ensures
        all_roots(a + b) =~= all_roots(a) + all_roots(b),
    decreases b.len(),
{
    if b.len() == 0 {
        assert(a + b =~= a);
    } else {
        lemma_all_roots_add(a, b.drop_last());
        assert((a + b).drop_last() =~= a + b.drop_last());
        assert((a + b).last() == b.last());
    }
}

/// The roots of entry `i` form one contiguous block of the run's roots,
/// flanked by the roots of the entries before and after it.
pub proof fn lemma_all_roots_decompose(s: Seq<NmethodEntry>, i: int)
    requires
        0 <= i < s.len(),
    ensures
        all_roots(s) =~= all_roots(s.take(i)) + s[i].roots@ + all_roots(s.skip(i + 1)),
    decreases s.len(),
{
    if i == s.len() - 1 {
        assert(s.take(i) =~= s.drop_last());
        assert(s.skip(i + 1) =~= Seq::<NmethodEntry>::empty());
    } else {
        lemma_all_roots_decompose(s.drop_last(), i);
        assert(s.drop_last().take(i) =~= s.take(i));
        assert(s.drop_last().skip(i + 1) =~= s.skip(i + 1).drop_last());
        assert(s.skip(i + 1).len() > 0);
        assert(s.skip(i + 1).last() == s.last());
        assert(all_roots(s.skip(i + 1)) == all_roots(s.skip(i + 1).drop_last())
            + s.last().roots@);
    }
}

/// What removing a key leaves behind: no entry of that key, every other
/// entry kept in order, and uniqueness preserved.
pub proof fn lemma_remove_key(s: Seq<NmethodEntry>, k: u64)
    ensures
        !has_key(remove_key(s, k), k),
        forall|k2: u64| k2 != k ==> (#[trigger] has_key(remove_key(s, k), k2) <==> has_key(s, k2)),
        unique_keys(s) ==> unique_keys(remove_key(s, k)),
        forall|i: int|
            0 <= i < remove_key(s, k).len() ==> exists|j: int|
                0 <= j < s.len() && s[j] == #[trigger] remove_key(s, k)[i],
        !has_key(s, k) ==> remove_key(s, k) =~= s,
    decreases s.len(),
{
    let r = remove_key(s, k);
    if s.len() == 0 {
    } else {
        let rest = s.drop_first();
        lemma_remove_key(rest, k);
        let rr = remove_key(rest, k);
        assert forall|i: int| 0 <= i < rest.len() implies #[trigger] rest[i] == s[i + 1] by {}
        if s.first().nm == k {
            assert(r == rr);
            assert forall|i: int| 0 <= i < r.len() implies exists|j: int|
                0 <= j < s.len() && s[j] == #[trigger] r[i] by {
                let j0 = choose|j0: int| 0 <= j0 < rest.len() && rest[j0] == rr[i];
                assert(s[j0 + 1] == r[i]);
            }
            assert forall|k2: u64| k2 != k && has_key(s, k2) implies #[trigger] has_key(r, k2) by {
                let j = choose|j: int| 0 <= j < s.len() && (#[trigger] s[j]).nm == k2;
                assert(j >= 1);
                assert(rest[j - 1].nm == k2);
                assert(has_key(rest, k2));
            }
        } else {
            assert(r == seq![s.first()] + rr);
            assert(r.first() == s.first());
            assert forall|i: int| 0 <= i < rr.len() implies #[trigger] rr[i] == r[i + 1] by {}
            assert(!has_key(r, k)) by {
                if has_key(r, k) {
                    let i = choose|i: int| 0 <= i < r.len() && (#[trigger] r[i]).nm == k;
                    assert(i >= 1);
                    assert(rr[i - 1].nm == k);
                    assert(has_key(rr, k));
                }
            }
            assert forall|i: int| 0 <= i < r.len() implies exists|j: int|
                0 <= j < s.len() && s[j] == #[trigger] r[i] by {
                if i == 0 {
                    assert(s[0] == r[0]);
                } else {
                    let j0 = choose|j0: int| 0 <= j0 < rest.len() && rest[j0] == rr[i - 1];
                    assert(s[j0 + 1] == r[i]);
                }
            }
            assert forall|k2: u64| k2 != k && has_key(s, k2) implies #[trigger] has_key(r, k2) by {
                let j = choose|j: int| 0 <= j < s.len() && (#[trigger] s[j]).nm == k2;
                if j == 0 {
                    assert(r[0].nm == k2);
                    assert(has_key(r, k2));
                } else {
                    assert(rest[j - 1].nm == k2);
                    assert(has_key(rest, k2));
                    assert(has_key(rr, k2));
                    let i = choose|i: int| 0 <= i < rr.len() && (#[trigger] rr[i]).nm == k2;
                    assert(r[i + 1].nm == k2);
                    assert(has_key(r, k2));
                }
            }
            assert forall|k2: u64| k2 != k && has_key(r, k2) implies #[trigger] has_key(s, k2) by {
                let i = choose|i: int| 0 <= i < r.len() && (#[trigger] r[i]).nm == k2;
                if i == 0 {
                    assert(s[0].nm == k2);
                } else {
                    assert(rr[i - 1].nm == k2);
                    assert(has_key(rr, k2));
                    assert(has_key(rest, k2));
                    let j = choose|j: int| 0 <= j < rest.len() && (#[trigger] rest[j]).nm == k2;
                    assert(s[j + 1].nm == k2);
                }
            }
            if unique_keys(s) {
                assert(unique_keys(rest));
                assert forall|i: int, j: int| 0 <= i < j < r.len() implies (#[trigger] r[i]).nm
                    != (#[trigger] r[j]).nm by {
                    if i == 0 {
                        assert(rr[j - 1].nm == r[j].nm);
                        let j2 = choose|j2: int|
                            0 <= j2 < rest.len() && rest[j2] == rr[j - 1];
                        assert(s[j2 + 1].nm == r[j].nm);
                        assert(s[0].nm != s[j2 + 1].nm);
                    } else {
                        assert(rr[i - 1].nm == r[i].nm);
                        assert(rr[j - 1].nm == r[j].nm);
                    }
                }
            }
        }
        if !has_key(s, k) {
            assert(s.first().nm != k) by {
                if s.first().nm == k {
                    assert((s[0]).nm == k);
                }
            }
            assert(!has_key(rest, k)) by {
                if has_key(rest, k) {
                    let i = choose|i: int| 0 <= i < rest.len() && (#[trigger] rest[i]).nm == k;
                    assert(s[i + 1].nm == k);
                }
            }
            assert(r =~= s);
        }
    }
}

/// The compiled-code root table: the thread-local accumulation buffer
/// for the method being reported, the nursery map and the mature map.
/// Invariant: each map's keys are unique and no key is in both maps.
#[derive(Debug)]
pub struct CodeCacheRoots {
    /// Root slots reported one by one since the last register call.
    pub pending: Vec<u64>,
    /// Methods registered since the last collection cycle.
    pub nursery: Vec<NmethodEntry>,
    /// Methods already promoted by an earlier cycle.
    pub mature: Vec<NmethodEntry>,
}

impl CodeCacheRoots {
    /// Keys unique within each map, and nursery and mature disjoint until
    /// the next merge.
    pub open spec fn wf(self) -> bool {
        &&& unique_keys(self.nursery@)
        &&& unique_keys(self.mature@)
        &&& disjoint_keys(self.nursery@, self.mature@)
    }

    /// An empty table.
    pub fn new() -> (t: CodeCacheRoots)
        ensures
            t.wf(),
            t.pending@ =~= Seq::<u64>::empty(),
            t.nursery@ =~= Seq::<NmethodEntry>::empty(),
            t.mature@ =~= Seq::<NmethodEntry>::empty(),
    {
        CodeCacheRoots { pending: Vec::new(), nursery: Vec::new(), mature: Vec::new() }
    }
}

/// The index of the entry carrying key `nm`, when one exists.
pub(crate) fn index_of(entries: &Vec<NmethodEntry>, nm: u64) -> (r: Option<usize>)
    ensures
        r matches Some(i) ==> i < entries@.len() && entries@[i as int].nm == nm,
        r is None ==> !has_key(entries@, nm),
{
    let mut i: usize = 0;
    while i < entries.len()
        invariant
            i <= entries@.len(),
            forall|j: int| 0 <= j < i ==> (#[trigger] entries@[j]).nm != nm,
        decreases entries@.len() - i,
    {
        if entries[i].nm == nm {
            return Some(i);
        }
        i = i + 1;
    }
    None
}

/// Feeds one method's root slots into the batching bridge, in order.
fn emit_roots(factory: &mut WorkPacketBridge, roots: &Vec<u64>)
    requires
        old(factory).wf(),
    ensures
        final(factory).wf(),
        final(factory).capacity == old(factory).capacity,
        final(factory).all_edges() == old(factory).all_edges() + spec_as_edges(roots@),
{
    let ghost all0 = factory.all_edges();
    let mut r: usize = 0;
    while r < roots.len()
        invariant
            r <= roots@.len(),
            factory.wf(),
            factory.capacity == old(factory).capacity,
            factory.all_edges() == all0 + spec_as_edges(roots@.take(r as int)),
        decreases roots@.len() - r,
    {
        factory.push(OpenJDKEdge { addr: roots[r] });
        proof {
            assert(spec_as_edges(roots@.take(r + 1)) =~= spec_as_edges(roots@.take(r as int)).push(
                OpenJDKEdge { addr: roots@[r as int] },
            ));
            assert(all0 + spec_as_edges(roots@.take(r + 1)) =~= (all0 + spec_as_edges(
                roots@.take(r as int),
            )).push(OpenJDKEdge { addr: roots@[r as int] }));
        }
        r = r + 1;
    }
    proof {
        assert(roots@.take(roots@.len() as int) =~= roots@);
    }
}

/// One relocation-fixup work unit: the compiled methods whose embedded
/// references must be re-written after their referents moved.
#[derive(Debug)]
pub struct FixRelocations {
    pub nmethods: Vec<u64>,
}

/// The methods of a run of fixup packets, in packet order.
pub open spec fn spec_fix_concat(s: Seq<FixRelocations>) -> Seq<u64>
    decreases s.len(),
{
    if s.len() == 0 {
        Seq::empty()
    } else {
        spec_fix_concat(s.drop_last()) + s.last().nmethods@
    }
}

/// Splits the methods needing fixup into packets of at most
/// `NMETHODS_PER_PACKET`, all but the last exactly full.
fn chunk_nmethods(nmethods: Vec<u64>) -> (packets: Vec<FixRelocations>)
    ensures
        spec_fix_concat(packets@) =~= nmethods@,
        forall|i: int|
            0 <= i < packets@.len() ==> 0 < (#[trigger] packets@[i]).nmethods@.len()
                <= NMETHODS_PER_PACKET,
        forall|i: int|
            0 <= i < packets@.len() - 1 ==> (#[trigger] packets@[i]).nmethods@.len()
                == NMETHODS_PER_PACKET,
{
    let mut packets: Vec<FixRelocations> = Vec::new();
    let mut cur: Vec<u64> = Vec::new();
    let mut i: usize = 0;
    while i < nmethods.len()
        invariant
            i <= nmethods@.len(),
            cur@.len() < NMETHODS_PER_PACKET,
            spec_fix_concat(packets@) + cur@ =~= nmethods@.take(i as int),
            forall|j: int|
                0 <= j < packets@.len() ==> (#[trigger] packets@[j]).nmethods@.len()
                    == NMETHODS_PER_PACKET,
        decreases nmethods@.len() - i,
    {
        let ghost packets0 = packets@;
        let ghost cur0 = cur@;
        cur.push(nmethods[i]);
        if cur.len() == NMETHODS_PER_PACKET {
            let mut full: Vec<u64> = Vec::new();
            core::mem::swap(&mut full, &mut cur);
            packets.push(FixRelocations { nmethods: full });
            proof {
                assert(packets@.drop_last() =~= packets0);
                assert(spec_fix_concat(packets@) == spec_fix_concat(packets0) + cur0.push(
                    nmethods@[i as int],
                ));
                assert(spec_fix_concat(packets@) + cur@ =~= (spec_fix_concat(packets0)
                    + cur0).push(nmethods@[i as int]));
            }
        } else {
            proof {
                assert(spec_fix_concat(packets@) + cur@ =~= (spec_fix_concat(packets0)
                    + cur0).push(nmethods@[i as int]));
            }
        }
        proof {
            assert(nmethods@.take(i + 1) =~= nmethods@.take(i as int).push(nmethods@[i as int]));
            assert(spec_fix_concat(packets@) + cur@ =~= nmethods@.take(i + 1));
        }
        i = i + 1;
    }
    if cur.len() > 0 {
        let ghost packets0 = packets@;
        let ghost cur0 = cur@;
        packets.push(FixRelocations { nmethods: cur });
        proof {
            assert(packets@.drop_last() =~= packets0);
            assert(spec_fix_concat(packets@) == spec_fix_concat(packets0) + cur0);
        }
    }
    proof {
        assert(nmethods@.take(nmethods@.len() as int) =~= nmethods@);
        assert(spec_fix_concat(packets@) =~= nmethods@);
    }
    packets
}

/// The scheduler stage at which relocation fixups may run.  Fixup copies
/// forwarded references from method headers back into the machine code,
/// so it must run only after every slot reachable from the method has
/// been finalized to its post-move location, never before.
#[derive(Copy, Clone, PartialEq, Eq, Structural, Debug)]
pub enum WorkBucketStage {
    /// First safe stage when the plan forwards references after the
    /// liveness transitive closure.
    RefForwarding,
    /// First safe stage for scavenging plans that trace the method slots
    /// as roots during the closure stage.
    SoftRefClosure,
}

/// Picks the first stage at which relocation fixup is safe for the
/// current plan.
pub fn fix_relocations_stage(needs_forward_after_liveness: bool) -> (s: WorkBucketStage)
    ensures
        needs_forward_after_liveness ==> s == WorkBucketStage::RefForwarding,
        !needs_forward_after_liveness ==> s == WorkBucketStage::SoftRefClosure,
{
    if needs_forward_after_liveness {
        WorkBucketStage::RefForwarding
    } else {
        WorkBucketStage::SoftRefClosure
    }
}

/// One unit of scheduled work: drain the compiled-code root table for
/// this collection cycle.
pub struct ScanCodeCacheRoots {
    pub factory: WorkPacketBridge,
}

impl ScanCodeCacheRoots {
    /// A drain unit feeding the given batching bridge.
    pub fn new(factory: WorkPacketBridge) -> (s: ScanCodeCacheRoots)
        ensures
            s.factory == factory,
    {
        ScanCodeCacheRoots { factory }
    }

    /// Drains the table for one collection cycle: emits every nursery
    /// entry's roots (and, in a full-heap cycle, every mature entry's),
    /// merges the nursery into the mature map, and returns the
    /// relocation-fixup packets for the emitted methods when the cycle
    /// may move objects.
    pub fn do_work(
        &mut self,
        table: &mut CodeCacheRoots,
        is_current_gc_nursery: bool,
        moves_object: bool,
    ) -> (fix_packets: Vec<FixRelocations>)
        requires
            old(table).wf(),
            old(self).factory.wf(),
        ensures
            final(table).wf(),
            final(table).pending@ == old(table).pending@,
            final(table).nursery@ =~= Seq::<NmethodEntry>::empty(),
            final(table).mature@ =~= old(table).mature@ + old(table).nursery@,
            final(self).factory.wf(),
            final(self).factory.capacity == old(self).factory.capacity,
            final(self).factory.buf@ =~= Seq::<OpenJDKEdge>::empty(),
            final(self).factory.all_edges() =~= old(self).factory.all_edges() + spec_as_edges(
                spec_emitted_roots(old(table).mature@, old(table).nursery@, is_current_gc_nursery),
            ),
            !moves_object ==> fix_packets@.len() == 0,
            moves_object ==> spec_fix_concat(fix_packets@) =~= (
            if is_current_gc_nursery {
                Seq::<u64>::empty()
            } else {
                keys_of(old(table).mature@)
            }) + keys_of(old(table).nursery@),
            forall|i: int|
                0 <= i < fix_packets@.len() ==> 0 < (#[trigger] fix_packets@[i]).nmethods@.len()
                    <= NMETHODS_PER_PACKET,
    {
        let ghost m0 = table.mature@;
        let ghost n0 = table.nursery@;
        let ghost all0 = self.factory.all_edges();
        let ghost mature_part: Seq<u64> = if is_current_gc_nursery {
            Seq::empty()
        } else {
            all_roots(m0)
        };

        let mut nmethods_to_fix: Vec<u64> = Vec::new();

        // Only scan mature roots in full-heap collections.
        if !is_current_gc_nursery {
            proof {
                assert(m0.take(0) =~= Seq::<NmethodEntry>::empty());
                assert(all0 + spec_as_edges(all_roots(m0.take(0))) =~= all0);
                assert(keys_of(m0.take(0)) =~= Seq::<u64>::empty());
            }
            let mut i: usize = 0;
            while i < table.mature.len()
                invariant
                    i <= m0.len(),
                    table.mature@ == m0,
                    table.nursery@ == n0,
                    table.pending@ == old(table).pending@,
                    self.factory.wf(),
                    self.factory.capacity == old(self).factory.capacity,
                    self.factory.all_edges() == all0 + spec_as_edges(all_roots(m0.take(i as int))),
                    moves_object ==> nmethods_to_fix@ == keys_of(m0.take(i as int)),
                    !moves_object ==> nmethods_to_fix@.len() == 0,
                decreases m0.len() - i,
            {
                let entry = &table.mature[i];
                emit_roots(&mut self.factory, &entry.roots);
                if moves_object {
                    nmethods_to_fix.push(entry.nm);
                }
                proof {
                    assert(m0.take(i + 1).drop_last() =~= m0.take(i as int));
                    assert(m0.take(i + 1).last() == m0[i as int]);
                    assert(all_roots(m0.take(i + 1)) == all_roots(m0.take(i as int))
                        + m0[i as int].roots@);
                    assert(spec_as_edges(all_roots(m0.take(i + 1))) =~= spec_as_edges(
                        all_roots(m0.take(i as int)),
                    ) + spec_as_edges(m0[i as int].roots@));
                    assert(all0 + spec_as_edges(all_roots(m0.take(i + 1))) =~= (all0
                        + spec_as_edges(all_roots(m0.take(i as int)))) + spec_as_edges(
                        m0[i as int].roots@,
                    ));
                    assert(keys_of(m0.take(i + 1)) =~= keys_of(m0.take(i as int)).push(
                        m0[i as int].nm,
                    ));
                }
                i = i + 1;
            }
            proof {
                assert(m0.take(m0.len() as int) =~= m0);
            }
        }

        // Drain the nursery: emit each entry's roots and promote the
        // entry into the mature map.
        let ghost fix_mature: Seq<u64> = if moves_object && !is_current_gc_nursery {
            keys_of(m0)
        } else {
            Seq::empty()
        };
        proof {
            assert(nmethods_to_fix@ == fix_mature);
            assert(table.nursery@ =~= n0.skip(0));
            assert(table.mature@ =~= m0 + n0.take(0));
            assert(n0.take(0) =~= Seq::<NmethodEntry>::empty());
            assert(mature_part + all_roots(n0.take(0)) =~= mature_part);
            assert(fix_mature + keys_of(n0.take(0)) =~= fix_mature);
            if is_current_gc_nursery {
                assert(mature_part =~= Seq::<u64>::empty());
                assert(all0 + spec_as_edges(mature_part) =~= all0);
            }
        }
        let ghost mut j: int = 0;
        while table.nursery.len() > 0
            invariant
                0 <= j <= n0.len(),
                table.nursery@ =~= n0.skip(j),
                table.mature@ =~= m0 + n0.take(j),
                table.pending@ == old(table).pending@,
                self.factory.wf(),
                self.factory.capacity == old(self).factory.capacity,
                self.factory.all_edges() == all0 + spec_as_edges(
                    mature_part + all_roots(n0.take(j)),
                ),
                moves_object ==> nmethods_to_fix@ =~= fix_mature + keys_of(n0.take(j)),
                !moves_object ==> nmethods_to_fix@.len() == 0,
            decreases table.nursery@.len(),
        {
            proof {
                assert(j < n0.len());
                assert(table.nursery@[0] == n0.skip(j)[0]);
                assert(n0.skip(j)[0] == n0[j]);
            }
            let entry = table.nursery.remove(0);
            emit_roots(&mut self.factory, &entry.roots);
            if moves_object {
                nmethods_to_fix.push(entry.nm);
            }
            table.mature.push(entry);
            proof {
                assert(table.nursery@ =~= n0.skip(j + 1));
                assert(n0.take(j + 1).drop_last() =~= n0.take(j));
                assert(n0.take(j + 1).last() == n0[j]);
                assert(table.mature@ =~= m0 + n0.take(j + 1));
                assert(all_roots(n0.take(j + 1)) == all_roots(n0.take(j)) + n0[j].roots@);
                assert(spec_as_edges(mature_part + all_roots(n0.take(j + 1))) =~= spec_as_edges(
                    mature_part + all_roots(n0.take(j)),
                ) + spec_as_edges(n0[j].roots@));
                assert(all0 + spec_as_edges(mature_part + all_roots(n0.take(j + 1))) =~= (all0
                    + spec_as_edges(mature_part + all_roots(n0.take(j)))) + spec_as_edges(
                    n0[j].roots@,
                ));
                if moves_object {
                    assert(keys_of(n0.take(j + 1)) =~= keys_of(n0.take(j)).push(n0[j].nm));
                    assert(nmethods_to_fix@ =~= fix_mature + keys_of(n0.take(j + 1)));
                }
                j = j + 1;
            }
        }
        proof {
            assert(j == n0.len());
            assert(n0.take(j) =~= n0);
            assert(table.mature@ =~= m0 + n0);
        }

        self.factory.flush();

        proof {
            // The merged mature map keeps unique keys: the two halves
            // were individually unique and mutually disjoint.
            let merged = m0 + n0;
            assert forall|i: int, j: int| 0 <= i < j < merged.len() implies (#[trigger] merged[i]).nm
                != (#[trigger] merged[j]).nm by {
                if i < m0.len() && j >= m0.len() {
                    assert(merged[i] == m0[i]);
                    assert(merged[j] == n0[j - m0.len()]);
                    assert(has_key(n0, n0[j - m0.len()].nm));
                    if m0[i].nm == n0[j - m0.len()].nm {
                        assert(has_key(m0, m0[i].nm));
                    }
                } else if i >= m0.len() {
                    assert(merged[i] == n0[i - m0.len()]);
                    assert(merged[j] == n0[j - m0.len()]);
                } else {
                    assert(merged[i] == m0[i]);
                    assert(merged[j] == m0[j]);
                }
            }
            if !is_current_gc_nursery {
                assert(spec_as_edges(mature_part + all_roots(n0)) =~= spec_as_edges(
                    spec_emitted_roots(m0, n0, is_current_gc_nursery),
                ));
            } else {
                assert(mature_part + all_roots(n0) =~= all_roots(n0));
                assert(spec_as_edges(mature_part + all_roots(n0)) =~= spec_as_edges(
                    spec_emitted_roots(m0, n0, is_current_gc_nursery),
                ));
            }
        }

        if moves_object {
            let packets = chunk_nmethods(nmethods_to_fix);
            proof {
                if is_current_gc_nursery {
                    assert(fix_mature + keys_of(n0) =~= keys_of(n0));
                }
            }
            packets
        } else {
            Vec::new()
        }
    }
}

/// Nursery/mature merge law: a method sitting in the nursery when a
/// cycle starts is afterwards in the mature map under a unique key, and
/// the cycle emits its roots exactly once, as one contiguous block
/// flanked by the roots of the other methods.
pub proof fn lemma_nursery_mature_merge(
    mature: Seq<NmethodEntry>,
    nursery: Seq<NmethodEntry>,
    i: int,
)
    requires
        unique_keys(mature),
        unique_keys(nursery),
        disjoint_keys(nursery, mature),
        0 <= i < nursery.len(),
    ensures
        has_key(mature + nursery, nursery[i].nm),
        unique_keys(mature + nursery),
        spec_emitted_roots(mature, nursery, false) =~= all_roots(mature + nursery),
        all_roots(mature + nursery) =~= all_roots((mature + nursery).take(mature.len() + i))
            + nursery[i].roots@ + all_roots((mature + nursery).skip(mature.len() + i + 1)),
        forall|j: int|
            0 <= j < (mature + nursery).len() && j != mature.len() + i ==> (#[trigger] (mature
                + nursery)[j]).nm != nursery[i].nm,
{
    let merged = mature + nursery;
    assert(merged[mature.len() + i] == nursery[i]);
    lemma_all_roots_add(mature, nursery);
    lemma_all_roots_decompose(merged, mature.len() + i);
    assert forall|j: int| 0 <= j < merged.len() && j != mature.len() + i implies (
    #[trigger] merged[j]).nm != nursery[i].nm by {
        assert(has_key(nursery, nursery[i].nm));
        if j < mature.len() {
            assert(merged[j] == mature[j]);
            if mature[j].nm == nursery[i].nm {
                assert(has_key(mature, mature[j].nm));
            }
        } else {
            assert(merged[j] == nursery[j - mature.len()]);
        }
    }
    assert forall|a: int, b: int| 0 <= a < b < merged.len() implies (#[trigger] merged[a]).nm != (
    #[trigger] merged[b]).nm by {
        if a < mature.len() && b >= mature.len() {
            assert(merged[a] == mature[a]);
            assert(merged[b] == nursery[b - mature.len()]);
            assert(has_key(nursery, nursery[b - mature.len()].nm));
            if mature[a].nm == nursery[b - mature.len()].nm {
                assert(has_key(mature, mature[a].nm));
            }
        } else if a >= mature.len() {
            assert(merged[a] == nursery[a - mature.len()]);
            assert(merged[b] == nursery[b - mature.len()]);
        } else {
            assert(merged[a] == mature[a]);
            assert(merged[b] == mature[b]);
        }
    }
}

/// Unregister law: once a method's key is out of both maps, no entry of
/// any later cycle's emission carries it, so its roots are never emitted
/// again.
pub proof fn lemma_unregister_correctness(
    mature: Seq<NmethodEntry>,
    nursery: Seq<NmethodEntry>,
    nm: u64,
)
    requires
        !has_key(nursery, nm),
        !has_key(mature, nm),
    ensures
        forall|j: int| 0 <= j < (mature + nursery).len() ==> (#[trigger] (mature + nursery)[j]).nm
            != nm,
{
    let merged = mature + nursery;
    assert forall|j: int| 0 <= j < merged.len() implies (#[trigger] merged[j]).nm != nm by {
        if j < mature.len() {
            assert(merged[j] == mature[j]);
            if mature[j].nm == nm {
                assert(has_key(mature, nm));
            }
        } else {
            assert(merged[j] == nursery[j - mature.len()]);
            if nursery[j - mature.len()].nm == nm {
                assert(has_key(nursery, nm));
            }
        }
    }
}

} // verus!
