//! Little-endian byte images of the integer types used by the format.

use vstd::prelude::*;
use vstd::bytes::*;

verus! {

/// The number of bytes of a `usize` on this architecture.
pub open spec fn usize_bytes() -> nat {
    (usize::BITS / 8) as nat
}

/// Exec counterpart of [`usize_bytes`].
pub fn usize_size() -> (r: usize)
    ensures
        r == usize_bytes(),
        r == 4 || r == 8,
{
    proof { lemma_usize_bits(); }
    (usize::BITS / 8) as usize
}

/// A `usize` has either 32 or 64 bits.
pub proof fn lemma_usize_bits()
    ensures
        usize::BITS == 32 || usize::BITS == 64,
        usize::BITS == 64 ==> usize::MAX == u64::MAX,
        usize::BITS == 32 ==> usize::MAX == u32::MAX,
{
}

/// The little-endian image of a `usize`, `usize_bytes()` bytes long.
pub open spec fn spec_usize_le(x: usize) -> Seq<u8> {
    if usize::BITS == 64 { spec_u64_to_le_bytes(x as u64) } else { spec_u32_to_le_bytes(x as u32) }
}

/// The `usize` whose little-endian image is `s`.
pub open spec fn spec_usize_from_le(s: Seq<u8>) -> usize {
    if usize::BITS == 64 { spec_u64_from_le_bytes(s) as usize } else { spec_u32_from_le_bytes(s) as usize }
}

/// The image of a `usize`.
pub fn usize_to_le(x: usize) -> (r: Vec<u8>)
    ensures
        r@ == spec_usize_le(x),
        r@.len() == usize_bytes(),
{
    proof { lemma_usize_bits(); lemma_auto_spec_u64_to_from_le_bytes(); lemma_auto_spec_u32_to_from_le_bytes(); }
    if usize::BITS == 64 { u64_to_le_bytes(x as u64) } else { u32_to_le_bytes(x as u32) }
}

/// The `usize` whose image is `s`.
pub fn usize_from_le(s: &[u8]) -> (r: usize)
    requires
        s@.len() == usize_bytes(),
    ensures
        r == spec_usize_from_le(s@),
{
    proof { lemma_usize_bits(); }
    if usize::BITS == 64 { u64_from_le_bytes(s) as usize } else { u32_from_le_bytes(s) as usize }
}

/// Decoding the image of a `usize` gives it back, and every image has the right length.
pub proof fn lemma_usize_le(x: usize)
    ensures
        spec_usize_le(x).len() == usize_bytes(),
        spec_usize_from_le(spec_usize_le(x)) == x,
{
    lemma_usize_bits();
    lemma_auto_spec_u64_to_from_le_bytes();
    lemma_auto_spec_u32_to_from_le_bytes();
    if usize::BITS == 64 {
        assert(spec_u64_from_le_bytes(spec_u64_to_le_bytes(x as u64)) == x as u64);
        assert((x as u64) as usize == x);
    } else {
        let y = x as u32;
        assert(spec_u32_to_le_bytes(y).len() == 4);
        assert(spec_u32_from_le_bytes(spec_u32_to_le_bytes(y)) == y);
        assert(x <= u32::MAX);
        assert((x as u32) as usize == x);
    }
}

} // verus!
