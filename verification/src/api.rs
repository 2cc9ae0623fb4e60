//! The compiled-method registration surface the host calls into.
//!
//! After compiling a method, the host reports each embedded reference
//! slot one by one into an accumulation buffer, then registers the
//! method, which moves the accumulated slots into the nursery map as one
//! entry.  Invalidating a method unregisters it, removing its entry from
//! whichever map currently holds it.

use vstd::prelude::*;

use crate::gc_work::CodeCacheRoots;
use crate::gc_work::NmethodEntry;
use crate::gc_work::has_key;
use crate::gc_work::index_of;
use crate::gc_work::lemma_remove_key;
use crate::gc_work::remove_key;

verus! {

/// Reports one reference slot of the method currently being compiled;
/// the slot joins the accumulation buffer until the register call.
pub fn mmtk_add_nmethod_oop(table: &mut CodeCacheRoots, addr: u64)
    ensures
        final(table).pending@ == old(table).pending@.push(addr),
        final(table).nursery@ == old(table).nursery@,
        final(table).mature@ == old(table).mature@,
{
    table.pending.push(addr);
}

/// Registers a compiled method: moves the accumulated slots into the
/// nursery map as the method's entry.  Reporting no slots registers
/// nothing.  A method may be re-registered while still in the nursery
/// (its entry is replaced); a promoted method must be unregistered
/// first, which keeps the nursery and mature keys disjoint.
pub fn mmtk_register_nmethod(table: &mut CodeCacheRoots, nm: u64)
    requires
        old(table).wf(),
        !has_key(old(table).mature@, nm),
    ensures
        final(table).wf(),
        final(table).mature@ == old(table).mature@,
        final(table).pending@.len() == 0,
        old(table).pending@.len() == 0 ==> final(table).nursery@ == old(table).nursery@,
        old(table).pending@.len() > 0 ==> has_key(final(table).nursery@, nm),
        old(table).pending@.len() > 0 && !has_key(old(table).nursery@, nm) ==> {
            &&& final(table).nursery@.len() == old(table).nursery@.len() + 1
            &&& (forall|i: int|
                0 <= i < old(table).nursery@.len() ==> #[trigger] final(table).nursery@[i] == old(
                    table,
                ).nursery@[i])
            &&& final(table).nursery@.last().nm == nm
            &&& final(table).nursery@.last().roots@ == old(table).pending@
        },
        old(table).pending@.len() > 0 && has_key(old(table).nursery@, nm) ==> {
            &&& final(table).nursery@.len() == old(table).nursery@.len()
            &&& (forall|i: int|
                0 <= i < old(table).nursery@.len() && (#[trigger] old(table).nursery@[i]).nm != nm
                    ==> final(table).nursery@[i] == old(table).nursery@[i])
            &&& (forall|i: int|
                0 <= i < old(table).nursery@.len() && (#[trigger] old(table).nursery@[i]).nm == nm
                    ==> final(table).nursery@[i].nm == nm && final(table).nursery@[i].roots@ == old(
                    table,
                ).pending@)
        },
{
    if table.pending.len() > 0 {
        let mut roots: Vec<u64> = Vec::new();
        core::mem::swap(&mut roots, &mut table.pending);
        let entry = NmethodEntry { nm, roots };
        match index_of(&table.nursery, nm) {
            Some(i) => {
                table.nursery.set(i, entry);
                proof {
                    let n0 = old(table).nursery@;
                    let n1 = table.nursery@;
                    assert(has_key(n0, nm)) by {
                        assert(n0[i as int].nm == nm);
                    }
                    assert(has_key(n1, nm)) by {
                        assert(n1[i as int].nm == nm);
                    }
                    assert forall|a: int|
                        0 <= a < n0.len() && (#[trigger] n0[a]).nm != nm implies n1[a] == n0[a] by {
                        assert(a != i);
                    }
                    assert forall|a: int|
                        0 <= a < n0.len() && (#[trigger] n0[a]).nm == nm implies n1[a].nm == nm
                            && n1[a].roots@ == old(table).pending@ by {
                        if a != i as int {
                            assert(n0[a].nm != n0[i as int].nm);
                            assert(false);
                        }
                    }
                    assert forall|a: int, b: int| 0 <= a < b < n1.len() implies (
                    #[trigger] n1[a]).nm != (#[trigger] n1[b]).nm by {
                        assert(n1[a].nm == n0[a].nm);
                        assert(n1[b].nm == n0[b].nm);
                    }
                    assert forall|k: u64| #[trigger] has_key(n1, k) implies !has_key(
                        table.mature@,
                        k,
                    ) by {
                        let a = choose|a: int| 0 <= a < n1.len() && (#[trigger] n1[a]).nm == k;
                        assert(n0[a].nm == k);
                        assert(has_key(n0, k));
                    }
                }
            },
            None => {
                table.nursery.push(entry);
                proof {
                    let n0 = old(table).nursery@;
                    let n1 = table.nursery@;
                    assert(n1.last().nm == nm);
                    assert(has_key(n1, nm)) by {
                        assert(n1[n1.len() - 1].nm == nm);
                    }
                    assert forall|a: int, b: int| 0 <= a < b < n1.len() implies (
                    #[trigger] n1[a]).nm != (#[trigger] n1[b]).nm by {
                        if b == n1.len() - 1 {
                            if n0[a].nm == nm {
                                assert(has_key(n0, nm));
                            }
                        }
                    }
                    assert forall|k: u64| #[trigger] has_key(n1, k) implies !has_key(
                        table.mature@,
                        k,
                    ) by {
                        let a = choose|a: int| 0 <= a < n1.len() && (#[trigger] n1[a]).nm == k;
                        if a < n0.len() {
                            assert(has_key(n0, k));
                        } else {
                            assert(k == nm);
                        }
                    }
                }
            },
        }
    }
}

/// Removes every entry of key `nm` from a map, keeping the order of the
/// remaining entries.
fn remove_key_exec(entries: &mut Vec<NmethodEntry>, nm: u64)
    ensures
        final(entries)@ =~= remove_key(old(entries)@, nm),
{
    let ghost orig = entries@;
    let mut kept: Vec<NmethodEntry> = Vec::new();
    while entries.len() > 0
        invariant
            kept@ + remove_key(entries@, nm) =~= remove_key(orig, nm),
        decreases entries@.len(),
    {
        let ghost before = entries@;
        let e = entries.remove(0);
        proof {
            assert(before.first() == e);
            assert(entries@ =~= before.drop_first());
        }
        if e.nm != nm {
            kept.push(e);
            proof {
                assert(remove_key(before, nm) =~= seq![e] + remove_key(entries@, nm));
                assert(kept@ + remove_key(entries@, nm) =~= remove_key(orig, nm));
            }
        } else {
            proof {
                assert(remove_key(before, nm) =~= remove_key(entries@, nm));
            }
        }
    }
    core::mem::swap(entries, &mut kept);
    proof {
        assert(remove_key(kept@, nm) =~= Seq::<NmethodEntry>::empty());
        assert(entries@ + Seq::<NmethodEntry>::empty() =~= entries@);
    }
}

/// Unregisters an invalidated compiled method: its entry leaves
/// whichever map holds it, nursery or mature, and later collections
/// never see it again.
pub fn mmtk_unregister_nmethod(table: &mut CodeCacheRoots, nm: u64)
    requires
        old(table).wf(),
    ensures
        final(table).wf(),
        final(table).pending@ == old(table).pending@,
        final(table).nursery@ =~= remove_key(old(table).nursery@, nm),
        final(table).mature@ =~= remove_key(old(table).mature@, nm),
        !has_key(final(table).nursery@, nm),
        !has_key(final(table).mature@, nm),
{
    remove_key_exec(&mut table.nursery, nm);
    remove_key_exec(&mut table.mature, nm);
    proof {
        let n0 = old(table).nursery@;
        let m0 = old(table).mature@;
        lemma_remove_key(n0, nm);
        lemma_remove_key(m0, nm);
        assert forall|k: u64| #[trigger] has_key(table.nursery@, k) implies !has_key(
            table.mature@,
            k,
        ) by {
            assert(k != nm);
            assert(has_key(remove_key(n0, nm), k));
            assert(has_key(n0, k));
            assert(!has_key(m0, k));
            if has_key(table.mature@, k) {
                assert(has_key(remove_key(m0, nm), k));
            }
        }
    }
}

} // verus!
