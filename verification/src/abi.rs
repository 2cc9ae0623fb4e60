//! The host runtime's binary object layout, modelled as validated data.
//!
//! The host stores a type descriptor (a "klass") in every object header.
//! Instead of reinterpreting raw header bytes by discriminant, the model
//! keeps one tagged variant per category, so every use is an exhaustive
//! match and an out-of-range discriminant is rejected at parse time.

use vstd::prelude::*;
use vstd::arithmetic::power2::pow2;

use crate::edges::OpenJDKEdge;
use crate::edges::OpenJDKEdgeRange;
use crate::edges::bytes_in_edge;
use crate::edges::spec_bytes_in_edge;

verus! {

/// Bytes in one heap word.
pub const BYTES_IN_WORD: u64 = 8;

/// Bytes in one 32-bit integer.
pub const BYTES_IN_INT: u64 = 4;

/// Bytes in one 64-bit integer.
pub const BYTES_IN_LONG: u64 = 8;

/// Layout-helper bit: instance size must be computed on a slow path.
pub const LH_NEUTRAL_VALUE: i32 = 0;

/// Layout-helper bit: instance size must be computed on a slow path.
pub const LH_INSTANCE_SLOW_PATH_BIT: i32 = 0x01;

/// Layout-helper shift of the log2 element size field.
pub const LH_LOG2_ELEMENT_SIZE_SHIFT: u32 = 0;

/// Layout-helper mask of the log2 element size field.
pub const LH_LOG2_ELEMENT_SIZE_MASK: u32 = 63;

/// Layout-helper shift of the array header size field.
pub const LH_HEADER_SIZE_SHIFT: u32 = 16;

/// Layout-helper mask of the array header size field.
pub const LH_HEADER_SIZE_MASK: u32 = 255;

/// The categories of type descriptor the host distinguishes, in the
/// host's discriminant order.
#[derive(Copy, Clone, PartialEq, Eq, Structural, Debug)]
pub enum KlassID {
    Instance,
    InstanceRef,
    InstanceMirror,
    InstanceClassLoader,
    TypeArray,
    ObjArray,
}

impl KlassID {
    /// Validates a raw category discriminant read from an object header.
    /// An out-of-range value is layout corruption and yields `None`; the
    /// caller must treat it as fatal and never walk the object.
    pub fn from_raw(v: i32) -> (r: Option<KlassID>)
        ensures
            v == 0 ==> r == Some(KlassID::Instance),
            v == 1 ==> r == Some(KlassID::InstanceRef),
            v == 2 ==> r == Some(KlassID::InstanceMirror),
            v == 3 ==> r == Some(KlassID::InstanceClassLoader),
            v == 4 ==> r == Some(KlassID::TypeArray),
            v == 5 ==> r == Some(KlassID::ObjArray),
            v < 0 || v > 5 ==> r is None,
    {
        if v == 0 {
            Some(KlassID::Instance)
        } else if v == 1 {
            Some(KlassID::InstanceRef)
        } else if v == 2 {
            Some(KlassID::InstanceMirror)
        } else if v == 3 {
            Some(KlassID::InstanceClassLoader)
        } else if v == 4 {
            Some(KlassID::TypeArray)
        } else if v == 5 {
            Some(KlassID::ObjArray)
        } else {
            None
        }
    }
}

/// The host's primitive and reference value categories.
#[derive(Copy, Clone, PartialEq, Eq, Structural, Debug)]
#[allow(non_camel_case_types)]
pub enum BasicType {
    T_BOOLEAN,
    T_CHAR,
    T_FLOAT,
    T_DOUBLE,
    T_BYTE,
    T_SHORT,
    T_INT,
    T_LONG,
    T_OBJECT,
    T_ARRAY,
    T_VOID,
    T_ADDRESS,
    T_NARROWOOP,
    T_METADATA,
    T_NARROWKLASS,
    T_CONFLICT,
    T_ILLEGAL,
}

/// The reference semantics of a reference-object class.  `Regular` means
/// no reference semantics at all; it belongs to ordinary classes and must
/// never be seen on a reference-object instance.
#[derive(Copy, Clone, PartialEq, Eq, Structural, Debug)]
pub enum ReferenceType {
    Regular,
    Other,
    Soft,
    Weak,
    Final,
    Phantom,
}

impl ReferenceType {
    /// Validates a raw reference-kind byte read from a type descriptor.
    pub fn from_raw(v: u8) -> (r: Option<ReferenceType>)
        ensures
            v == 0 ==> r == Some(ReferenceType::Regular),
            v == 1 ==> r == Some(ReferenceType::Other),
            v == 2 ==> r == Some(ReferenceType::Soft),
            v == 3 ==> r == Some(ReferenceType::Weak),
            v == 4 ==> r == Some(ReferenceType::Final),
            v == 5 ==> r == Some(ReferenceType::Phantom),
            v > 5 ==> r is None,
    {
        if v == 0 {
            Some(ReferenceType::Regular)
        } else if v == 1 {
            Some(ReferenceType::Other)
        } else if v == 2 {
            Some(ReferenceType::Soft)
        } else if v == 3 {
            Some(ReferenceType::Weak)
        } else if v == 4 {
            Some(ReferenceType::Final)
        } else if v == 5 {
            Some(ReferenceType::Phantom)
        } else {
            None
        }
    }
}

/// One run of reference-bearing fields in a plain instance: `count`
/// consecutive slots starting `offset` bytes into the object.
#[derive(Copy, Clone, PartialEq, Eq, Structural, Debug)]
pub struct OopMapBlock {
    pub offset: i32,
    pub count: u32,
}

/// The reference-field layout of a plain instance class.
#[derive(Debug)]
pub struct InstanceKlass {
    /// Reference semantics of the class; `Regular` for ordinary classes.
    pub reference_type: ReferenceType,
    /// The runs of reference-bearing instance fields, in layout order.
    pub oop_maps: Vec<OopMapBlock>,
}

impl InstanceKlass {
    /// How many reference-field runs the class declares.
    pub fn nonstatic_oop_map_count(&self) -> (r: usize)
        ensures
            r == self.oop_maps@.len(),
    {
        self.oop_maps.len()
    }

    /// The reference-field runs of the class, in layout order.
    pub fn nonstatic_oop_maps(&self) -> (r: &Vec<OopMapBlock>)
        ensures
            r == &self.oop_maps,
    {
        &self.oop_maps
    }
}

/// A class-mirror class: a plain instance that additionally carries the
/// mirrored class's static reference fields.
#[derive(Debug)]
pub struct InstanceMirrorKlass {
    pub instance_klass: InstanceKlass,
}

/// A class-loader class: scanned exactly like a plain instance.
#[derive(Debug)]
pub struct InstanceClassLoaderKlass {
    pub instance_klass: InstanceKlass,
}

/// A reference-object class (weak, soft, phantom, final-like or other).
#[derive(Debug)]
pub struct InstanceRefKlass {
    pub instance_klass: InstanceKlass,
}

/// Data common to both array categories.
#[derive(Copy, Clone, PartialEq, Eq, Structural, Debug)]
pub struct ArrayKlass {
    pub dimension: i32,
}

/// An array-of-references class.
#[derive(Copy, Clone, PartialEq, Eq, Structural, Debug)]
pub struct ObjArrayKlass {
    pub array_klass: ArrayKlass,
}

/// An array-of-primitives class: its elements can hold no references.
#[derive(Copy, Clone, PartialEq, Eq, Structural, Debug)]
pub struct TypeArrayKlass {
    pub array_klass: ArrayKlass,
    pub element_type: BasicType,
    pub max_length: i32,
}

/// The category-specific body of a type descriptor: exactly one variant
/// per category, so dispatch is an exhaustive match.
#[derive(Debug)]
pub enum KlassKind {
    Instance(InstanceKlass),
    InstanceRef(InstanceRefKlass),
    InstanceMirror(InstanceMirrorKlass),
    InstanceClassLoader(InstanceClassLoaderKlass),
    TypeArray(TypeArrayKlass),
    ObjArray(ObjArrayKlass),
}

/// A type descriptor read from an object header: the layout helper word
/// and the category-specific body.
#[derive(Debug)]
pub struct Klass {
    pub layout_helper: i32,
    pub kind: KlassKind,
}

impl Klass {
    /// The category discriminant, derived from the variant.
    pub fn id(&self) -> (r: KlassID)
        ensures
            r == (match self.kind {
                KlassKind::Instance(_) => KlassID::Instance,
                KlassKind::InstanceRef(_) => KlassID::InstanceRef,
                KlassKind::InstanceMirror(_) => KlassID::InstanceMirror,
                KlassKind::InstanceClassLoader(_) => KlassID::InstanceClassLoader,
                KlassKind::TypeArray(_) => KlassID::TypeArray,
                KlassKind::ObjArray(_) => KlassID::ObjArray,
            }),
    {
        match self.kind {
            KlassKind::Instance(_) => KlassID::Instance,
            KlassKind::InstanceRef(_) => KlassID::InstanceRef,
            KlassKind::InstanceMirror(_) => KlassID::InstanceMirror,
            KlassKind::InstanceClassLoader(_) => KlassID::InstanceClassLoader,
            KlassKind::TypeArray(_) => KlassID::TypeArray,
            KlassKind::ObjArray(_) => KlassID::ObjArray,
        }
    }

    /// Whether the instance size must be computed on the slow path.
    pub fn layout_helper_needs_slow_path(lh: i32) -> (r: bool)
        ensures
            r == ((lh as u32) & (LH_INSTANCE_SLOW_PATH_BIT as u32) != 0),
    {
        (lh as u32) & (LH_INSTANCE_SLOW_PATH_BIT as u32) != 0
    }

    /// The log2 array element size packed into a layout helper.
    pub fn layout_helper_log2_element_size(lh: i32) -> (r: i32)
        ensures
            r == (((lh as u32) >> LH_LOG2_ELEMENT_SIZE_SHIFT) & LH_LOG2_ELEMENT_SIZE_MASK) as i32,
            0 <= r <= 63,
    {
        let v: u32 = ((lh as u32) >> LH_LOG2_ELEMENT_SIZE_SHIFT) & LH_LOG2_ELEMENT_SIZE_MASK;
        proof {
            let x = lh as u32;
            assert((x >> 0u32) & 63u32 <= 63) by (bit_vector);
        }
        v as i32
    }

    /// The array header size in words packed into a layout helper.
    pub fn layout_helper_header_size(lh: i32) -> (r: i32)
        ensures
            r == (((lh as u32) >> LH_HEADER_SIZE_SHIFT) & LH_HEADER_SIZE_MASK) as i32,
            0 <= r <= 255,
    {
        let v: u32 = ((lh as u32) >> LH_HEADER_SIZE_SHIFT) & LH_HEADER_SIZE_MASK;
        proof {
            let x = lh as u32;
            assert((x >> 16u32) & 255u32 <= 255) by (bit_vector);
        }
        v as i32
    }
}

/// A 32-bit compressed class pointer, as stored in an object header when
/// compressed pointers are enabled.
#[derive(Copy, Clone, PartialEq, Eq, Structural, Debug)]
pub struct NarrowKlass(pub u32);

/// The class-pointer decode parameters: when references are compressed,
/// class pointers are compressed too, and the host reports the base and
/// shift that decode them.
#[derive(Copy, Clone, PartialEq, Eq, Structural, Debug)]
pub struct CompressedKlass {
    pub base: u64,
    pub shift: u64,
}

/// Records the compressed class-pointer base and shift the host reports
/// at startup; object scanning needs them to reach type descriptors.
pub fn set_compressed_klass_base_and_shift(base: u64, shift: u64) -> (r: CompressedKlass)
    requires
        shift == 0 || shift == 3,
    ensures
        r.base == base,
        r.shift == shift,
{
    CompressedKlass { base, shift }
}

impl NarrowKlass {
    /// The type descriptor's address: base plus the shifted encoding.
    pub fn klass_address(&self, ck: &CompressedKlass) -> (r: u64)
        requires
            ck.shift == 0 || ck.shift == 3,
            ck.base + self.0 * (if ck.shift == 0 {
                1int
            } else {
                8int
            }) <= u64::MAX,
        ensures
            r == ck.base + self.0 * (if ck.shift == 0 {
                1int
            } else {
                8int
            }),
    {
        let w = (self.0 as u64) << ck.shift;
        proof {
            let x = self.0 as u64;
            if ck.shift == 0 {
                assert(x << 0u64 == x) by (bit_vector);
            } else {
                assert(x < 0x1_0000_0000 ==> x << 3u64 == x * 8) by (bit_vector);
            }
        }
        ck.base + w
    }
}

/// Field offsets inside host object headers that only the host knows;
/// reported once at startup and immutable afterwards.
#[derive(Copy, Clone, PartialEq, Eq, Structural, Debug)]
pub struct HostLayout {
    /// Byte offset of a class mirror's static-field block.
    pub offset_of_static_fields: u32,
    /// Byte offset of a reference object's referent field.
    pub referent_offset: u32,
    /// Byte offset of a reference object's discovered-linkage field.
    pub discovered_offset: u32,
}

/// A heap object as the scanner sees it: its address, its parsed type
/// descriptor, and the per-object header words the host would store in
/// the object itself.
#[derive(Debug)]
pub struct OopDesc {
    /// The object's address; never null.
    pub start: u64,
    /// The object's parsed type descriptor.
    pub klass: Klass,
    /// The length word, meaningful only for array objects.
    pub array_length: u32,
    /// The static-reference-field count word, meaningful only for class
    /// mirrors.
    pub static_oop_field_count: u32,
}

impl OopDesc {
    /// The address of the field `offset` bytes into the object.
    pub fn get_field_address(&self, offset: i32) -> (r: u64)
        requires
            offset >= 0,
            self.start + offset <= u64::MAX,
        ensures
            r == self.start + offset,
    {
        self.start + (offset as u64)
    }

    /// Views an array object through the array layout.
    pub fn as_array_oop(&self) -> (r: ArrayOopDesc)
        ensures
            r.start == self.start,
            r.length == self.array_length,
    {
        ArrayOopDesc { start: self.start, length: self.array_length }
    }
}

/// An array object: its address and its length word.
#[derive(Copy, Clone, PartialEq, Eq, Structural, Debug)]
pub struct ArrayOopDesc {
    pub start: u64,
    pub length: u32,
}

/// The log2 element size packed into an array layout helper.
pub open spec fn spec_log2_element_size(lh: i32) -> u32 {
    (lh as u32) & 63u32
}

/// The array header size in bytes packed into an array layout helper.
pub open spec fn spec_array_header_bytes(lh: i32) -> u32 {
    ((lh as u32) >> 16u32) & 255u32
}

/// An array object's size in bytes: elements shifted by the element
/// size, plus the header, rounded up to the word size.
pub open spec fn spec_array_size_bytes(lh: i32, length: u32) -> int {
    let unaligned = length * pow2(spec_log2_element_size(lh) as nat)
        + spec_array_header_bytes(lh);
    ((unaligned + 7) / 8) * 8
}

/// What the layout helper says an object's size is: the scalar instance
/// size when stored directly, the array formula for arrays, and `None`
/// where only the host's slow path can compute it.
pub open spec fn spec_object_size(oop: OopDesc) -> Option<int> {
    let lh = oop.klass.layout_helper;
    if lh > 0 {
        if (lh as u32) & (LH_INSTANCE_SLOW_PATH_BIT as u32) == 0 {
            Some(lh as int)
        } else {
            None
        }
    } else if lh < 0 {
        Some(spec_array_size_bytes(lh, oop.array_length))
    } else {
        None
    }
}

impl OopDesc {
    /// The object's size in bytes, computed from its layout helper: a
    /// positive helper stores the scalar instance size directly (unless
    /// its slow-path bit is set), a negative helper describes an array
    /// whose size follows from the length word, and in the remaining
    /// cases only the host can compute the size, so the call must go out
    /// to its slow path (`None`).
    pub fn size(&self) -> (r: Option<u64>)
        requires
            self.klass.layout_helper < 0 ==> self.array_length * pow2(
                spec_log2_element_size(self.klass.layout_helper) as nat,
            ) + 262 <= u64::MAX,
        ensures
            r is None <==> spec_object_size(*self) is None,
            r matches Some(s) ==> spec_object_size(*self) == Some(s as int),
    {
        let lh = self.klass.layout_helper;
        if lh > 0 {
            if !Klass::layout_helper_needs_slow_path(lh) {
                Some(lh as u64)
            } else {
                None
            }
        } else if lh < 0 {
            let log2 = Klass::layout_helper_log2_element_size(lh);
            let hdr = Klass::layout_helper_header_size(lh);
            proof {
                let y = lh as u32;
                assert((y >> 0u32) & 63u32 == y & 63u32) by (bit_vector);
                assert((y >> 0u32) & 63u32 <= 63u32) by (bit_vector);
                assert((y >> 16u32) & 255u32 <= 255u32) by (bit_vector);
                assert(log2 as u32 == spec_log2_element_size(lh));
                assert(hdr as u32 == spec_array_header_bytes(lh));
                assert((log2 as u64) as nat == spec_log2_element_size(lh) as nat);
                assert((self.array_length as u64) * pow2((log2 as u64) as nat) + 262
                    <= u64::MAX);
                vstd::bits::lemma_u64_shl_is_mul(self.array_length as u64, log2 as u64);
            }
            let size_in_bytes = (self.array_length as u64) << (log2 as u64);
            let total = size_in_bytes + (hdr as u64);
            let t7 = total + 7;
            let aligned = t7 & 0xFFFF_FFFF_FFFF_FFF8u64;
            proof {
                assert(t7 & 0xFFFF_FFFF_FFFF_FFF8u64 == (t7 / 8) * 8) by (bit_vector);
            }
            Some(aligned)
        } else {
            None
        }
    }
}

/// Rounds `x` up to a multiple of the heap word size.
pub fn raw_align_up(x: u64, align: u64) -> (r: u64)
    requires
        align == BYTES_IN_WORD,
        x + 7 <= u64::MAX,
    ensures
        r == ((x + 7) / 8) * 8,
        r % 8 == 0,
        x <= r < x + 8,
{
    ((x + (align - 1)) / align) * align
}

/// Byte offset of an array's length word: it follows the mark word and
/// the (possibly compressed) class pointer.
pub open spec fn spec_length_offset(compressed: bool) -> u64 {
    if compressed {
        12
    } else {
        16
    }
}

/// The array header size in words for elements of type `ty`, after the
/// alignment rule for 8-byte element types.
pub open spec fn spec_header_size(compressed: bool, ty: BasicType) -> u64 {
    if ty == BasicType::T_DOUBLE || ty == BasicType::T_LONG {
        8
    } else if compressed {
        2
    } else {
        3
    }
}

/// The address of the first element of a reference array at `start`.
pub open spec fn spec_obj_array_base(start: u64, compressed: bool) -> int {
    start + spec_header_size(compressed, BasicType::T_OBJECT) * 8
}

impl ArrayOopDesc {
    /// Byte offset of the length word within the array header.
    pub fn length_offset(compressed: bool) -> (r: u64)
        ensures
            r == spec_length_offset(compressed),
    {
        let klass_offset_in_bytes: u64 = 8;
        if compressed {
            klass_offset_in_bytes + 4
        } else {
            klass_offset_in_bytes + 8
        }
    }

    /// Whether elements of type `ty` need 8-byte alignment.
    pub fn element_type_should_be_aligned(ty: BasicType) -> (r: bool)
        ensures
            r == (ty == BasicType::T_DOUBLE || ty == BasicType::T_LONG),
    {
        ty == BasicType::T_DOUBLE || ty == BasicType::T_LONG
    }

    /// The array header size in words for elements of type `ty`: the
    /// header rounded up to a word, rounded up again to 8 words when the
    /// element type requires 8-byte alignment.
    pub fn header_size(compressed: bool, ty: BasicType) -> (r: u64)
        ensures
            r == spec_header_size(compressed, ty),
    {
        let typesize_in_bytes = raw_align_up(
            Self::length_offset(compressed) + BYTES_IN_INT,
            BYTES_IN_LONG,
        );
        if Self::element_type_should_be_aligned(ty) {
            raw_align_up(typesize_in_bytes / BYTES_IN_WORD, BYTES_IN_LONG)
        } else {
            typesize_in_bytes / BYTES_IN_WORD
        }
    }

    /// The array's length word.
    pub fn length(&self) -> (r: u32)
        ensures
            r == self.length,
    {
        self.length
    }

    /// The address of the first element, for elements of type `ty`.
    pub fn base(&self, compressed: bool, ty: BasicType) -> (r: u64)
        requires
            self.start + 64 <= u64::MAX,
        ensures
            r == self.start + spec_header_size(compressed, ty) * 8,
    {
        let base_offset_in_bytes = Self::header_size(compressed, ty) * BYTES_IN_WORD;
        self.start + base_offset_in_bytes
    }

    /// The slot range covering the array's elements, one slot per
    /// element.
    pub fn slice(&self, compressed: bool, ty: BasicType) -> (r: OpenJDKEdgeRange)
        requires
            self.start + 64 + self.length * spec_bytes_in_edge(compressed) <= u64::MAX,
        ensures
            r.start == self.start + spec_header_size(compressed, ty) * 8,
            r.end == r.start + self.length * spec_bytes_in_edge(compressed),
            r.compressed == compressed,
            r.wf(),
    {
        let base = self.base(compressed, ty);
        let end = base + (self.length as u64) * bytes_in_edge(compressed);
        proof {
            if compressed {
                assert((self.length as int * 4) % 4 == 0) by (nonlinear_arith);
            } else {
                assert((self.length as int * 8) % 8 == 0) by (nonlinear_arith);
            }
        }
        OpenJDKEdgeRange { start: base, end, compressed }
    }
}

impl InstanceMirrorKlass {
    /// The address of the mirrored class's static-field block inside the
    /// mirror object.
    pub fn start_of_static_fields(layout: &HostLayout, oop: &OopDesc) -> (r: u64)
        requires
            oop.start + layout.offset_of_static_fields <= u64::MAX,
        ensures
            r == oop.start + layout.offset_of_static_fields,
    {
        oop.start + (layout.offset_of_static_fields as u64)
    }

    /// How many static reference fields the mirror carries, read from the
    /// mirror object's count word.
    pub fn static_oop_field_count(oop: &OopDesc) -> (r: u32)
        ensures
            r == oop.static_oop_field_count,
    {
        oop.static_oop_field_count
    }
}

impl InstanceRefKlass {
    /// The slot holding the reference object's referent.
    pub fn referent_address(layout: &HostLayout, oop: &OopDesc) -> (r: OpenJDKEdge)
        requires
            oop.start + layout.referent_offset <= u64::MAX,
        ensures
            r.addr == oop.start + layout.referent_offset,
    {
        OpenJDKEdge { addr: oop.start + (layout.referent_offset as u64) }
    }

    /// The slot holding the reference object's discovered linkage.
    pub fn discovered_address(layout: &HostLayout, oop: &OopDesc) -> (r: OpenJDKEdge)
        requires
            oop.start + layout.discovered_offset <= u64::MAX,
        ensures
            r.addr == oop.start + layout.discovered_offset,
    {
        OpenJDKEdge { addr: oop.start + (layout.discovered_offset as u64) }
    }
}

/// XOR of a list of structure sizes: the layout checksum both sides of
/// the binding compute over the object-header structures they believe in.
pub open spec fn spec_layout_checksum(sizes: Seq<u64>) -> u64
    decreases sizes.len(),
{
    if sizes.len() == 0 {
        0
    } else {
        spec_layout_checksum(sizes.drop_last()) ^ sizes.last()
    }
}

/// Compares the host's live layout checksum against the checksum of the
/// structure sizes this binding was built with.  A mismatch means the
/// compiled-in layout disagrees with the host and initialization must
/// abort before any heap operation.
pub fn validate_memory_layouts(vm_checksum: u64, binding_sizes: &Vec<u64>) -> (r: bool)
    ensures
        r == (vm_checksum == spec_layout_checksum(binding_sizes@)),
{
    let mut acc: u64 = 0;
    let mut i: usize = 0;
    while i < binding_sizes.len()
        invariant
            i <= binding_sizes@.len(),
            acc == spec_layout_checksum(binding_sizes@.take(i as int)),
        decreases binding_sizes@.len() - i,
    {
        acc = acc ^ binding_sizes[i];
        proof {
            assert(binding_sizes@.take(i + 1).drop_last() =~= binding_sizes@.take(i as int));
        }
        i = i + 1;
    }
    proof {
        assert(binding_sizes@.take(binding_sizes@.len() as int) =~= binding_sizes@);
    }
    vm_checksum == acc
}

} // verus!
