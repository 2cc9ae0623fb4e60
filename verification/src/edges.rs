//! The edge (slot) abstraction: a typed handle to a memory location that
//! holds one reference, together with the compressed-pointer encoding.
//!
//! In compressed mode an in-heap slot stores a 32-bit value that encodes
//! an object address relative to a global base and shift, with `0`
//! reserved for "no reference".  Root slots reported by the host may
//! instead hold a native-width pointer; such a slot is marked by setting
//! the top bit of the slot's own address, so a single collection can mix
//! both widths.

use vstd::prelude::*;

verus! {

/// 4 GiB: the largest heap whose addresses fit an unshifted 32-bit encoding.
pub const FOUR_GB: u64 = 0x1_0000_0000;

/// 32 GiB: the largest heap whose addresses fit a 32-bit encoding shifted
/// by the object alignment.
pub const THIRTY_TWO_GB: u64 = 0x8_0000_0000;

/// The top bit of an edge address marks the slot as holding a
/// native-width (uncompressed) pointer.
pub const EDGE_TAG_MASK: u64 = 0x8000_0000_0000_0000;

/// Compressed-pointer configuration: decided once before any heap access
/// and read-only thereafter.  `base` and `shift` are derived from the heap
/// address range so that every encoded value fits in 32 bits.
pub struct CompressedOops {
    /// Whether references are stored compressed at all.
    pub enabled: bool,
    /// Base address subtracted before shifting.
    pub base: u64,
    /// Right-shift applied after subtracting the base: 0 or 3.
    pub shift: u64,
    /// Lowest address of the heap range.
    pub heap_start: u64,
    /// One past the highest address of the heap range.
    pub heap_end: u64,
}

impl CompressedOops {
    /// Bytes covered by one step of the encoded value: `1 << shift`.
    pub open spec fn encoding_unit(self) -> int {
        if self.shift == 0 {
            1
        } else {
            8
        }
    }

    /// Well-formedness: the encoding parameters cover the heap range
    /// within 32 bits, and the base is below (and aligned like) every
    /// object address, so no valid object encodes to the null sentinel.
    pub open spec fn wf(self) -> bool {
        &&& 0 < self.heap_start < self.heap_end <= 0x1_0000_0000_0000u64
        &&& self.heap_start % 8 == 0
        &&& self.enabled ==> {
            &&& self.shift == 0 || self.shift == 3
            &&& self.base % 8 == 0
            &&& self.base < self.heap_start
            &&& self.heap_end - self.base <= 0x1_0000_0000 * self.encoding_unit()
        }
    }

    /// The 32-bit encoding of object address `o`, as a mathematical value.
    pub open spec fn spec_compress(self, o: u64) -> int {
        (o - self.base) / self.encoding_unit()
    }

    /// The object address encoded by `v`, with `0` meaning "no reference".
    pub open spec fn spec_decompress(self, v: u32) -> Option<u64> {
        if v == 0 {
            None
        } else {
            Some((self.base + v * self.encoding_unit()) as u64)
        }
    }
}

/// A fresh configuration for the given heap range, before compressed
/// pointers are switched on or the encoding is derived.
pub fn new_compressed_oops(heap_start: u64, heap_end: u64) -> (cfg: CompressedOops)
    requires
        0 < heap_start < heap_end <= 0x1_0000_0000_0000u64,
        heap_start % 8 == 0,
    ensures
        cfg.wf(),
        !cfg.enabled,
        cfg.heap_start == heap_start,
        cfg.heap_end == heap_end,
{
    CompressedOops { enabled: false, base: 0, shift: 0, heap_start, heap_end }
}

/// Switches compressed pointers on.  May happen only once, before any
/// heap is created.
pub fn enable_compressed_oops(cfg: &mut CompressedOops)
    requires
        !old(cfg).enabled,
    ensures
        final(cfg).enabled,
        final(cfg).base == old(cfg).base,
        final(cfg).shift == old(cfg).shift,
        final(cfg).heap_start == old(cfg).heap_start,
        final(cfg).heap_end == old(cfg).heap_end,
{
    cfg.enabled = true;
}

/// Whether compressed pointers are enabled.
pub fn use_compressed_oops(cfg: &CompressedOops) -> (r: bool)
    ensures
        r == cfg.enabled,
{
    cfg.enabled
}

/// Derives the compressed-pointer base and shift from the heap range.
/// Three tiers keep the encoded values within 32 bits while keeping the
/// shift small: an unshifted zero base for heaps under 4 GiB, a shifted
/// zero base under 32 GiB, and a shifted base just below the heap start
/// otherwise (just below, so that no object address encodes to the null
/// sentinel).
pub fn initialize_compressed_oops_base_and_shift(cfg: &mut CompressedOops)
    requires
        old(cfg).enabled,
        0 < old(cfg).heap_start < old(cfg).heap_end <= 0x1_0000_0000_0000u64,
        old(cfg).heap_start % 8 == 0,
        old(cfg).heap_start >= 4096,
        old(cfg).heap_end > THIRTY_TWO_GB ==> old(cfg).heap_end - old(cfg).heap_start
            <= THIRTY_TWO_GB - 4096,
    ensures
        final(cfg).wf(),
        final(cfg).enabled,
        final(cfg).heap_start == old(cfg).heap_start,
        final(cfg).heap_end == old(cfg).heap_end,
        old(cfg).heap_end <= FOUR_GB ==> final(cfg).base == 0 && final(cfg).shift == 0,
        FOUR_GB < old(cfg).heap_end <= THIRTY_TWO_GB ==> final(cfg).base == 0
            && final(cfg).shift == 3,
        old(cfg).heap_end > THIRTY_TWO_GB ==> final(cfg).base == old(cfg).heap_start - 4096
            && final(cfg).shift == 3,
{
    if cfg.heap_end <= FOUR_GB {
        cfg.base = 0;
        cfg.shift = 0;
    } else if cfg.heap_end <= THIRTY_TWO_GB {
        cfg.base = 0;
        cfg.shift = 3;
    } else {
        cfg.base = cfg.heap_start - 4096;
        cfg.shift = 3;
    }
}

/// Encodes a non-null object address into its 32-bit compressed form.
pub fn compress(cfg: &CompressedOops, o: u64) -> (r: u32)
    requires
        cfg.wf(),
        cfg.enabled,
        cfg.heap_start <= o < cfg.heap_end,
        o % crate::MIN_ALIGNMENT == 0,
    ensures
        r as int == cfg.spec_compress(o),
        r != 0,
{
    let d = o - cfg.base;
    let s = d >> cfg.shift;
    proof {
        if cfg.shift == 0 {
            assert(d >> 0u64 == d) by (bit_vector);
        } else {
            assert(d >> 3u64 == d / 8) by (bit_vector);
        }
        assert(d / 8 < 0x1_0000_0000);
    }
    s as u32
}

/// Decodes a 32-bit compressed value; `0` decodes to "no reference".
pub fn decompress(cfg: &CompressedOops, v: u32) -> (r: Option<u64>)
    requires
        cfg.wf(),
        cfg.enabled,
    ensures
        r == cfg.spec_decompress(v),
{
    if v == 0 {
        None
    } else {
        let w = (v as u64) << cfg.shift;
        proof {
            let x = v as u64;
            if cfg.shift == 0 {
                assert(x << 0u64 == x) by (bit_vector);
            } else {
                assert(x < 0x1_0000_0000 ==> x << 3u64 == x * 8) by (bit_vector);
            }
        }
        Some(cfg.base + w)
    }
}

/// Compression round-trip: every aligned, non-null address inside the
/// configured heap range decodes back to itself, and the null sentinel
/// always decodes to "no reference".
pub proof fn lemma_compress_decompress_roundtrip(cfg: CompressedOops, o: u64)
    requires
        cfg.wf(),
        cfg.enabled,
        cfg.heap_start <= o < cfg.heap_end,
        o % crate::MIN_ALIGNMENT == 0,
    ensures
        0 < cfg.spec_compress(o) < 0x1_0000_0000,
        cfg.spec_decompress(cfg.spec_compress(o) as u32) == Some(o),
        cfg.spec_decompress(0) is None,
{
    let u = cfg.encoding_unit();
    let d = o - cfg.base;
    assert(d % u == 0);
    assert(cfg.spec_compress(o) * u == d);
}

/// The encoding is a bijection on the non-null value space: an encoded
/// value that decodes to an (aligned) address inside the heap range
/// encodes back to itself.
pub proof fn lemma_decompress_compress_roundtrip(cfg: CompressedOops, v: u32)
    requires
        cfg.wf(),
        cfg.enabled,
        v != 0,
        cfg.heap_start <= cfg.base + v * cfg.encoding_unit() < cfg.heap_end,
        (cfg.base + v * cfg.encoding_unit()) % 8 == 0,
    ensures
        cfg.spec_decompress(v) matches Some(o) && cfg.spec_compress(o) == v,
{
    let u = cfg.encoding_unit();
    assert((v * u) / u == v as int) by (nonlinear_arith)
        requires
            u == 1 || u == 8,
    ;
}

/// A slot holding one reference, identified by the slot's address.  The
/// top address bit tags a slot that holds a native-width pointer even in
/// compressed mode.
#[derive(Clone, Copy, PartialEq, Eq, Structural, Debug)]
pub struct OpenJDKEdge {
    pub addr: u64,
}

impl OpenJDKEdge {
    /// Whether this slot holds a 32-bit compressed value (only meaningful
    /// when compressed pointers are enabled).
    pub open spec fn spec_is_compressed(self) -> bool {
        self.addr & EDGE_TAG_MASK == 0
    }

    /// Checks the tag bit: an untagged slot holds a compressed value.
    pub fn is_compressed(&self) -> (r: bool)
        ensures
            r == self.spec_is_compressed(),
    {
        self.addr & EDGE_TAG_MASK == 0
    }

    /// The slot address with the tag bit stripped.
    pub fn untagged_address(&self) -> (r: u64)
        ensures
            r == self.addr % 0x8000_0000_0000_0000u64,
            self.spec_is_compressed() ==> r == self.addr,
    {
        let a = self.addr;
        proof {
            assert((a << 1u64) >> 1u64 == a % 0x8000_0000_0000_0000u64) by (bit_vector);
            assert(a & 0x8000_0000_0000_0000u64 == 0 ==> (a << 1u64) >> 1u64 == a)
                by (bit_vector);
        }
        a << 1u64 >> 1u64
    }
}

/// Decodes the raw bits of a native-width slot: `0` means "no reference".
pub fn decode_wide(raw: u64) -> (r: Option<u64>)
    ensures
        raw == 0 ==> r is None,
        raw != 0 ==> r == Some(raw),
{
    if raw == 0 {
        None
    } else {
        Some(raw)
    }
}

/// Log2 of the bytes one slot occupies under the current mode: 2 when
/// references are compressed, 3 when they are native width.
pub fn log_bytes_in_slot(cfg: &CompressedOops) -> (r: u64)
    ensures
        cfg.enabled ==> r == 2,
        !cfg.enabled ==> r == 3,
{
    if cfg.enabled {
        2
    } else {
        3
    }
}

/// Bytes occupied by one slot: 4 compressed, 8 native.
pub open spec fn spec_bytes_in_edge(compressed: bool) -> u64 {
    if compressed {
        4
    } else {
        8
    }
}

/// Bytes occupied by one slot: 4 compressed, 8 native.
pub fn bytes_in_edge(compressed: bool) -> (r: u64)
    ensures
        r == spec_bytes_in_edge(compressed),
{
    if compressed {
        4
    } else {
        8
    }
}

/// A contiguous range of equally-sized slots, as found in the body of a
/// reference array.
#[derive(Clone, Copy, PartialEq, Eq, Structural, Debug)]
pub struct OpenJDKEdgeRange {
    pub start: u64,
    pub end: u64,
    pub compressed: bool,
}

impl OpenJDKEdgeRange {
    /// The range covers whole slots.
    pub open spec fn wf(self) -> bool {
        &&& self.start <= self.end
        &&& (self.end - self.start) % spec_bytes_in_edge(self.compressed) as int == 0
    }

    /// First slot address of the range.
    pub fn start(&self) -> (r: u64)
        ensures
            r == self.start,
    {
        self.start
    }

    /// Size of the range in bytes.
    pub fn bytes(&self) -> (r: u64)
        requires
            self.wf(),
        ensures
            r == self.end - self.start,
    {
        self.end - self.start
    }

    /// The enclosing object, when one is known.  A bare slot range knows
    /// none.
    pub fn object(&self) -> (r: Option<u64>)
        ensures
            r is None,
    {
        None
    }

    /// An iterator over the slots of the range, in address order.
    pub fn iter_edges(&self) -> (it: OpenJDKEdgeRangeIterator)
        ensures
            it.cursor == self.start,
            it.limit == self.end,
            it.compressed == self.compressed,
    {
        OpenJDKEdgeRangeIterator { cursor: self.start, limit: self.end, compressed: self.compressed }
    }
}

/// Walks the slots of an `OpenJDKEdgeRange` in address order.
pub struct OpenJDKEdgeRangeIterator {
    pub cursor: u64,
    pub limit: u64,
    pub compressed: bool,
}

impl OpenJDKEdgeRangeIterator {
    /// The cursor still covers whole slots up to the limit.
    pub open spec fn wf(self) -> bool {
        &&& self.cursor <= self.limit
        &&& (self.limit - self.cursor) % spec_bytes_in_edge(self.compressed) as int == 0
    }

    /// The next slot, advancing the cursor by one slot width.
    pub fn next(&mut self) -> (r: Option<OpenJDKEdge>)
        requires
            old(self).wf(),
        ensures
            final(self).wf(),
            final(self).limit == old(self).limit,
            final(self).compressed == old(self).compressed,
            old(self).cursor == old(self).limit ==> r is None && final(self).cursor == old(
                self,
            ).cursor,
            old(self).cursor < old(self).limit ==> r == Some(
                OpenJDKEdge { addr: old(self).cursor },
            ) && final(self).cursor == old(self).cursor + spec_bytes_in_edge(
                old(self).compressed,
            ),
    {
        if self.cursor >= self.limit {
            None
        } else {
            let edge = OpenJDKEdge { addr: self.cursor };
            self.cursor = self.cursor + bytes_in_edge(self.compressed);
            Some(edge)
        }
    }
}

} // verus!
