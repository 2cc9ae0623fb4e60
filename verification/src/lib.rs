//! Scanning core of a garbage-collector binding for a managed runtime.
//!
//! Given a model of a heap object (its address and its parsed type
//! descriptor), the library discovers every outgoing reference slot the
//! object holds, enumerates collector roots, batches the discovered slots
//! into bounded work packets for a tracing scheduler, and tracks roots
//! embedded in just-in-time-compiled method bodies across generational
//! boundaries.  Reference slots may be stored native-width or compressed
//! to half width relative to a global base and shift.

use vstd::prelude::*;

pub mod abi;
pub mod api;
pub mod edges;
pub mod gc_work;
pub mod object_model;
pub mod object_scanning;
pub mod scanning;

verus! {

use crate::abi::HostLayout;
use crate::edges::CompressedOops;

/// The collector's smallest object alignment, in bytes: every object
/// address and every heap slot address is a multiple of this.
pub const MIN_ALIGNMENT: u64 = 8;

/// An empty buffer handed back to the host through the batch-return
/// protocol: the host fills it with root slot addresses and returns it.
pub struct NewBuffer {
    pub buf: Vec<u64>,
    pub capacity: usize,
}

/// Bytes in one chunk, the granule the collector's address space is
/// carved into: heap bounds are chunk-aligned.
pub const BYTES_IN_CHUNK: u64 = 0x40_0000;

/// The virtual-address-space layout the collector must be configured
/// with when compressed pointers are in use.
#[derive(Copy, Clone, PartialEq, Eq, Structural, Debug)]
pub struct VMLayout {
    pub log_address_space: u32,
    pub heap_start: u64,
    pub heap_end: u64,
    pub log_space_extent: u32,
    pub force_use_contiguous_spaces: bool,
}

/// Rounds an address down to a chunk boundary.
pub fn chunk_align_down(x: u64) -> (r: u64)
    ensures
        r == (x / BYTES_IN_CHUNK) * BYTES_IN_CHUNK,
{
    (x / BYTES_IN_CHUNK) * BYTES_IN_CHUNK
}

/// Rounds an address up to a chunk boundary.
pub fn chunk_align_up(x: u64) -> (r: u64)
    requires
        x + BYTES_IN_CHUNK <= u64::MAX,
    ensures
        r as int == (((x + (BYTES_IN_CHUNK - 1)) as int) / (BYTES_IN_CHUNK as int)) * (
        BYTES_IN_CHUNK as int),
{
    ((x + (BYTES_IN_CHUNK - 1)) / BYTES_IN_CHUNK) * BYTES_IN_CHUNK
}

/// Computes the address-space layout for a compressed-pointer heap of at
/// most 32 GiB: the heap starts at a fixed low address and ends at the
/// smallest of the three encoding tiers that holds it, so that the
/// derived base and shift keep every encoded reference within 32 bits.
pub fn set_compressed_pointer_vm_layout(max_heap_size: u64) -> (l: VMLayout)
    requires
        0 < max_heap_size <= crate::edges::THIRTY_TWO_GB,
    ensures
        l.heap_start == 0x4000_0000u64,
        0x4000_0000 + max_heap_size <= crate::edges::FOUR_GB ==> l.heap_end
            == crate::edges::FOUR_GB,
        crate::edges::FOUR_GB < 0x4000_0000 + max_heap_size <= crate::edges::THIRTY_TWO_GB
            ==> l.heap_end == crate::edges::THIRTY_TWO_GB,
        0x4000_0000 + max_heap_size > crate::edges::THIRTY_TWO_GB ==> l.heap_end == 0x4000_0000u64
            + crate::edges::THIRTY_TWO_GB,
        l.log_address_space == 35,
        l.log_space_extent == 31,
        !l.force_use_contiguous_spaces,
{
    let start: u64 = 0x4000_0000;
    let end: u64 = if start + max_heap_size <= crate::edges::FOUR_GB {
        crate::edges::FOUR_GB
    } else if start + max_heap_size <= crate::edges::THIRTY_TWO_GB {
        crate::edges::THIRTY_TWO_GB
    } else {
        start + crate::edges::THIRTY_TWO_GB
    };
    VMLayout {
        log_address_space: 35,
        heap_start: chunk_align_down(start),
        heap_end: chunk_align_up(end),
        log_space_extent: 31,
        force_use_contiguous_spaces: false,
    }
}

/// The binding instance: the immutable configuration that every scanning
/// component reads.  It is constructed once at initialization and passed
/// by reference, so there is no global mutable state.
pub struct OpenJDK {
    /// Compressed-pointer mode and its base/shift encoding parameters.
    pub compressed_oops: CompressedOops,
    /// Field offsets inside host object headers, reported by the host at
    /// startup.
    pub layout: HostLayout,
    /// When set, reference-object referents get no special treatment and
    /// are traced as strong references.
    pub no_reference_types: bool,
}

} // verus!
