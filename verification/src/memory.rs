//! The packed-pointer protocol: a byte buffer's address and length combined
//! into one 64-bit word, `(length << 32) | address`.

use vstd::prelude::*;

verus! {

/// The 64-bit word that stands for the region: the length in the high
/// 32 bits, the address in the low 32 bits.
pub open spec fn spec_pack(addr: u32, size: usize) -> u64 {
    ((size as u64) << 32) | (addr as u64)
}

/// Pack a buffer address and its byte length into one 64-bit word.
/// A length of 2^32 or more is truncated to its low 32 bits.
pub fn pack_pointer(addr: u32, size: usize) -> (ptr: u64)
    ensures
        ptr == spec_pack(addr, size),
        ptr & 0xFFFF_FFFF == addr as u64,
        ptr >> 32 == (size as u64) & 0xFFFF_FFFF,
{
    proof {
        assert((((size as u64) << 32) | (addr as u64)) & 0xFFFF_FFFF == addr as u64)
            by (bit_vector);
        assert((((size as u64) << 32) | (addr as u64)) >> 32 == (size as u64) & 0xFFFF_FFFF)
            by (bit_vector);
    }
    ((size as u64) << 32) | (addr as u64)
}

/// Split a packed pointer back into its (address, length) pair.
pub fn unpack_pointer(ptr: u64) -> (r: (u32, usize))
    ensures
        r.0 == (ptr & 0xFFFF_FFFF) as u32,
        r.1 == (ptr >> 32) as usize,
{
    ((ptr & 0xFFFF_FFFF) as u32, (ptr >> 32) as usize)
}

/// Packing an (address, length) pair and unpacking the result gives the
/// pair back exactly, whenever the length fits in 32 bits.
pub proof fn lemma_pack_unpack_roundtrip(addr: u32, size: usize)
    requires
        size < 0x1_0000_0000,
    ensures
        (spec_pack(addr, size) & 0xFFFF_FFFF) as u32 == addr,
        (spec_pack(addr, size) >> 32) as usize == size,
{
    assert(((((size as u64) << 32) | (addr as u64)) & 0xFFFF_FFFF) as u32 == addr)
        by (bit_vector);
    assert(size < 0x1_0000_0000 ==> ((((size as u64) << 32) | (addr as u64)) >> 32) == size
        as u64) by (bit_vector);
}

} // verus!
