//! The object-model surface the collector reads object geometry
//! through.  For this host, an object reference is the object's start
//! address (header included), so the address mappings are identities and
//! the size and alignment queries follow from the layout helper alone.

use vstd::prelude::*;

use crate::abi::OopDesc;
use crate::abi::spec_object_size;

verus! {

/// The object-model interface the collector calls into.
pub struct VMObjectModel {}

impl VMObjectModel {
    /// The object's current size in bytes, where the layout helper
    /// determines it; `None` where only the host's slow path can.
    pub fn get_current_size(object: &OopDesc) -> (r: Option<u64>)
        requires
            object.klass.layout_helper < 0 ==> object.array_length * vstd::arithmetic::power2::pow2(
                crate::abi::spec_log2_element_size(object.klass.layout_helper) as nat,
            ) + 262 <= u64::MAX,
        ensures
            r is None <==> spec_object_size(*object) is None,
            r matches Some(s) ==> spec_object_size(*object) == Some(s as int),
    {
        object.size()
    }

    /// An object keeps its size when copied.
    pub fn get_size_when_copied(object: &OopDesc) -> (r: Option<u64>)
        requires
            object.klass.layout_helper < 0 ==> object.array_length * vstd::arithmetic::power2::pow2(
                crate::abi::spec_log2_element_size(object.klass.layout_helper) as nat,
            ) + 262 <= u64::MAX,
        ensures
            r is None <==> spec_object_size(*object) is None,
            r matches Some(s) ==> spec_object_size(*object) == Some(s as int),
    {
        Self::get_current_size(object)
    }

    /// The alignment a copied object needs: one word.
    pub fn get_align_when_copied(_object: &OopDesc) -> (r: u64)
        ensures
            r == 8,
    {
        8
    }

    /// The alignment offset of a copied object: none.
    pub fn get_align_offset_when_copied(_object: &OopDesc) -> (r: u64)
        ensures
            r == 0,
    {
        0
    }

    /// Where the object a reference names begins: the reference itself,
    /// since references address the header directly.
    pub fn ref_to_object_start(object: u64) -> (r: u64)
        ensures
            r == object,
    {
        object
    }

    /// Where the object's header lies: at the reference itself.
    pub fn ref_to_header(object: u64) -> (r: u64)
        ensures
            r == object,
    {
        object
    }

    /// The reference a copied object will be known by: its target
    /// address, which is never null.
    pub fn get_reference_when_copied_to(_from: u64, to: u64) -> (r: u64)
        requires
            to != 0,
        ensures
            r == to,
    {
        to
    }
}

} // verus!
