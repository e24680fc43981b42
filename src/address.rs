//! The packed 64-bit handle of an allocation: segment id in bits 0..16, size
//! class exponent in bits 16..24, zero padding in bits 24..32 and the byte
//! offset inside the segment in bits 32..64.
use crate::size_class::{ObjectOffset, ObjectSize, MAX_CLASS};
use vstd::arithmetic::power2::pow2;
use vstd::prelude::*;

verus! {

/// Identifies a segment in the arena's registry.
#[derive(Clone, Copy, Debug, PartialEq, Eq, Structural)]
pub struct ShmemId(pub u16);

/// The four fields of an address as they stand in its 64 bits.
#[derive(Clone, Copy, Debug, PartialEq, Eq, Structural)]
pub struct RawSharedAddress {
    pub shmem_id: u16,
    pub object_size: u8,
    pub padding: u8,
    pub object_offset: u32,
}

/// The wire format: packs the four fields into 64 bits.
pub open spec fn pack(r: RawSharedAddress) -> u64 {
    (r.shmem_id as u64) | ((r.object_size as u64) << 16u64) | ((r.padding as u64) << 24u64) | ((
    r.object_offset as u64) << 32u64)
}

/// The wire format read back: the four fields of 64 bits.
pub open spec fn unpack(bits: u64) -> RawSharedAddress {
    RawSharedAddress {
        shmem_id: (bits & 0xffffu64) as u16,
        object_size: ((bits >> 16u64) & 0xffu64) as u8,
        padding: ((bits >> 24u64) & 0xffu64) as u8,
        object_offset: (bits >> 32u64) as u32,
    }
}

/// The validity predicate of a handle: a nonzero size class and zero padding.
pub open spec fn raw_is_valid(r: RawSharedAddress) -> bool {
    r.object_size != 0 && r.padding == 0
}

/// Unpacking what was packed gives the fields back.
pub proof fn lemma_unpack_pack(r: RawSharedAddress)
    ensures
        unpack(pack(r)) == r,
{
    let (s, c, p, o) = (r.shmem_id, r.object_size, r.padding, r.object_offset);
    assert(((s as u64) | ((c as u64) << 16u64) | ((p as u64) << 24u64) | ((o as u64) << 32u64))
        & 0xffffu64 == s as u64) by (bit_vector);
    assert(((((s as u64) | ((c as u64) << 16u64) | ((p as u64) << 24u64) | ((o as u64)
        << 32u64)) >> 16u64) & 0xffu64) == c as u64) by (bit_vector);
    assert(((((s as u64) | ((c as u64) << 16u64) | ((p as u64) << 24u64) | ((o as u64)
        << 32u64)) >> 24u64) & 0xffu64) == p as u64) by (bit_vector);
    assert((((s as u64) | ((c as u64) << 16u64) | ((p as u64) << 24u64) | ((o as u64)
        << 32u64)) >> 32u64) == o as u64) by (bit_vector);
}

/// Packing what was unpacked gives the bits back.
pub proof fn lemma_pack_unpack(bits: u64)
    ensures
        pack(unpack(bits)) == bits,
{
    assert((((bits & 0xffffu64) as u16) as u64) | (((((bits >> 16u64) & 0xffu64) as u8) as u64)
        << 16u64) | (((((bits >> 24u64) & 0xffu64) as u8) as u64) << 24u64) | ((((bits
        >> 32u64) as u32) as u64) << 32u64) == bits) by (bit_vector);
}

/// A handle with a nonzero size class is never the all-zero "no address".
pub proof fn lemma_valid_is_nonzero(r: RawSharedAddress)
    requires
        r.object_size != 0,
    ensures
        pack(r) != 0,
{
    let (s, c, p, o) = (r.shmem_id, r.object_size, r.padding, r.object_offset);
    assert(c != 0 ==> ((s as u64) | ((c as u64) << 16u64) | ((p as u64) << 24u64) | ((o as u64)
        << 32u64)) != 0) by (bit_vector);
}

/// Encoding and decoding are inverse: decoding an encoded `(segment, class,
/// offset)` gives the triple back, and the handle is valid and nonzero.
pub proof fn lemma_round_trip(shmem_id: u16, object_size: u8, object_offset: u32)
    requires
        1 <= object_size <= MAX_CLASS,
    ensures
        ({
            let r = RawSharedAddress { shmem_id, object_size, padding: 0, object_offset };
            &&& unpack(pack(r)) == r
            &&& raw_is_valid(unpack(pack(r)))
            &&& pack(r) != 0
        }),
{
    let r = RawSharedAddress { shmem_id, object_size, padding: 0, object_offset };
    lemma_unpack_pack(r);
    lemma_valid_is_nonzero(r);
}

/// The fields of `r` with the offset advanced by `d`, modulo `2^32`.
pub open spec fn advanced_raw(r: RawSharedAddress, d: u32) -> RawSharedAddress {
    RawSharedAddress { object_offset: r.object_offset.wrapping_add(d), ..r }
}

/// Adding `d << 32` to a handle's bits (wrapping, as an atomic add does) keeps its
/// segment, class and padding, and advances its offset by `d` modulo `2^32`; where
/// the offset does not wrap, the sum does not overflow either.
pub proof fn lemma_offset_add(bits: u64, d: u32)
    ensures
        unpack(bits.wrapping_add((d as u64) << 32u64)) == advanced_raw(unpack(bits), d),
        (unpack(bits).object_offset + d) < 0x1_0000_0000 ==> bits.wrapping_add((d as u64) << 32u64)
            == bits + ((d as u64) << 32u64),
{
    assert((bits.wrapping_add((d as u64) << 32u64) & 0xffffu64) == bits & 0xffffu64)
        by (bit_vector);
    assert(((bits.wrapping_add((d as u64) << 32u64) >> 16u64) & 0xffu64) == (bits >> 16u64)
        & 0xffu64) by (bit_vector);
    assert(((bits.wrapping_add((d as u64) << 32u64) >> 24u64) & 0xffu64) == (bits >> 24u64)
        & 0xffu64) by (bit_vector);
    assert(((bits.wrapping_add((d as u64) << 32u64) >> 32u64) as u32) == ((bits >> 32u64)
        as u32).wrapping_add(d)) by (bit_vector);
    assert(((bits >> 32u64) as u32) + d < 0x1_0000_0000 ==> bits.wrapping_add((d as u64) << 32u64)
        == bits + ((d as u64) << 32u64)) by (bit_vector);
}

/// The address that 64 bits decode to, where they form one.
pub closed spec fn decode_bits(bits: u64) -> Option<SharedAddress> {
    if raw_is_valid(unpack(bits)) {
        Some(SharedAddress(bits))
    } else {
        None
    }
}

/// Decoding succeeds exactly on the bits of an address, and gives those bits back.
pub proof fn lemma_decode_bits(bits: u64)
    ensures
        decode_bits(bits) is Some <==> raw_is_valid(unpack(bits)),
        decode_bits(bits) matches Some(a) ==> a.bits() == bits,
{
}

/// An address is determined by its 64 bits: decoding the bits another process
/// exported gives the same address, with the same segment, class and offset.
pub proof fn lemma_bits_determine_address(a: SharedAddress, b: SharedAddress)
    requires
        a.bits() == b.bits(),
    ensures
        a == b,
        a.fields() == b.fields(),
{
}

impl RawSharedAddress {
    /// Decodes 64 bits into the four fields.
    pub fn from_u64(bits: u64) -> (r: RawSharedAddress)
        ensures
            r == unpack(bits),
    {
        RawSharedAddress {
            shmem_id: (bits & 0xffff) as u16,
            object_size: ((bits >> 16) & 0xff) as u8,
            padding: ((bits >> 24) & 0xff) as u8,
            object_offset: (bits >> 32) as u32,
        }
    }

    /// Encodes the four fields into 64 bits.
    pub fn to_u64(self) -> (r: u64)
        ensures
            r == pack(self),
    {
        (self.shmem_id as u64) | ((self.object_size as u64) << 16) | ((self.padding as u64) << 24)
            | ((self.object_offset as u64) << 32)
    }

    /// Whether the size class field is nonzero and the padding zero.
    pub fn is_valid(self) -> (r: bool)
        ensures
            r == raw_is_valid(self),
    {
        (self.object_size != 0) && (self.padding == 0)
    }
}

/// The handle of one allocation: 64 bits whose fields name a segment, a size
/// class and an offset. Never zero, so zero can stand for "no address".
#[derive(Clone, Copy, Debug, PartialEq, Eq, Structural)]
pub struct SharedAddress(u64);

impl SharedAddress {
    #[verifier::type_invariant]
    spec fn is_address(self) -> bool {
        raw_is_valid(unpack(self.0))
    }

    /// The 64 bits of the handle.
    pub closed spec fn bits(self) -> u64 {
        self.0
    }

    /// The fields of the handle.
    pub open spec fn raw(self) -> RawSharedAddress {
        unpack(self.bits())
    }

    /// Segment id, exponent and offset of the handle.
    pub open spec fn fields(self) -> (u16, u8, u32) {
        (self.raw().shmem_id, self.raw().object_size, self.raw().object_offset)
    }

    /// The byte after the object's last one, relative to the segment start.
    pub open spec fn end(self) -> nat {
        self.raw().object_offset as nat + pow2(self.raw().object_size as nat)
    }

    /// The handle's fields satisfy the validity predicate and name a class.
    pub(crate) fn address_facts(&self)
        ensures
            raw_is_valid(self.raw()),
            self.bits() != 0,
            self.bits() == pack(self.raw()),
    {
        proof {
            use_type_invariant(self);
            lemma_pack_unpack(self.0);
            lemma_unpack_pack(unpack(self.0));
            lemma_valid_is_nonzero(unpack(self.0));
        }
    }

    /// The handle of fields that form an address, or `None`.
    pub fn from_raw(raw: RawSharedAddress) -> (r: Option<SharedAddress>)
        ensures
            r is Some <==> raw_is_valid(raw),
            r matches Some(a) ==> a.raw() == raw,
    {
        if raw.is_valid() {
            proof {
                lemma_unpack_pack(raw);
            }
            Some(SharedAddress(raw.to_u64()))
        } else {
            None
        }
    }

    /// Decodes 64 bits; `None` where they do not form an address (zero among them).
    pub fn from_bits(bits: u64) -> (r: Option<SharedAddress>)
        ensures
            r == decode_bits(bits),
            r is Some <==> raw_is_valid(unpack(bits)),
            r matches Some(a) ==> a.bits() == bits,
    {
        let raw = RawSharedAddress::from_u64(bits);
        if raw.is_valid() {
            Some(SharedAddress(bits))
        } else {
            None
        }
    }

    /// The 64 bits of the handle, as they cross process boundaries.
    pub fn to_bits(self) -> (r: u64)
        ensures
            r == self.bits(),
            r == pack(self.raw()),
            r != 0,
            raw_is_valid(self.raw()),
    {
        self.address_facts();
        self.0
    }

    /// The fields of the handle.
    pub fn as_raw(self) -> (r: RawSharedAddress)
        ensures
            r == self.raw(),
            raw_is_valid(r),
    {
        self.address_facts();
        RawSharedAddress::from_u64(self.0)
    }

    /// Encodes a segment, a size class and an offset.
    pub fn new(shmem_id: ShmemId, size: ObjectSize, offset: ObjectOffset) -> (r: SharedAddress)
        ensures
            r.fields() == (shmem_id.0, size.exp(), offset.0),
            r.raw().padding == 0,
            r.raw().object_size >= 1,
    {
        let raw = RawSharedAddress {
            shmem_id: shmem_id.0,
            object_size: size.exponent(),
            padding: 0,
            object_offset: offset.0,
        };
        proof {
            lemma_unpack_pack(raw);
        }
        SharedAddress(raw.to_u64())
    }

    /// The address `span` bytes further in the same segment and class: the bits
    /// plus `span << 32`, wrapping, as an atomic add on the bits leaves them.
    pub fn advance(self, span: ObjectOffset) -> (r: SharedAddress)
        ensures
            r.bits() == self.bits().wrapping_add((span.0 as u64) << 32u64),
            r.raw() == advanced_raw(self.raw(), span.0),
    {
        proof {
            use_type_invariant(self);
            lemma_offset_add(self.0, span.0);
        }
        SharedAddress(self.0.wrapping_add((span.0 as u64) << 32u64))
    }

    /// The segment that holds the object.
    pub fn shmem_id(self) -> (r: ShmemId)
        ensures
            r.0 == self.raw().shmem_id,
    {
        ShmemId(self.as_raw().shmem_id)
    }

    /// The size class of the object, where its exponent names one (at most 63).
    /// A valid handle may carry a larger exponent, which names no class.
    pub fn object_size(&self) -> (r: Option<ObjectSize>)
        ensures
            r is Some <==> self.raw().object_size <= MAX_CLASS,
            r matches Some(s) ==> s.exp() == self.raw().object_size,
    {
        proof {
            use_type_invariant(self);
        }
        ObjectSize::from_exponent(self.as_raw().object_size)
    }

    /// The object's offset inside its segment.
    pub fn object_offset(&self) -> (r: ObjectOffset)
        ensures
            r.0 == self.raw().object_offset,
    {
        ObjectOffset(self.as_raw().object_offset)
    }

    /// The offset just past the object: its offset plus its class's span, where
    /// the exponent names a class (the sum then fits in 64 bits).
    pub fn object_end(&self) -> (r: Option<u64>)
        ensures
            r is Some <==> self.raw().object_size <= MAX_CLASS,
            r matches Some(e) ==> e == self.end(),
    {
        let size = match self.object_size() {
            Some(size) => size,
            None => return None,
        };
        let bytes = size.bytes();
        proof {
            vstd::arithmetic::power2::lemma2_to64_rest();
            if self.raw().object_size < 63 {
                vstd::arithmetic::power2::lemma_pow2_strictly_increases(
                    self.raw().object_size as nat,
                    63,
                );
            }
        }
        Some(self.object_offset().as_u64() + bytes)
    }
}

} // verus!
