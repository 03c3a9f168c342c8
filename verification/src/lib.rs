//! ε-serde: a binary format for serializing data structures so that they can be
//! read back either by a full copy or by an ε-copy that borrows from the bytes.

use vstd::prelude::*;

pub mod bytes;
pub mod traits;
pub mod ser;
pub mod deser;
pub mod text;
pub mod impls;
pub mod prelude;
pub mod utils;
pub mod derive;
pub mod laws;

verus! {

/// (Major, Minor) version of the file format; it follows semantic versioning.
pub const VERSION: (u16, u16) = (1, 1);

/// Magic cookie, also used as endianness marker: the bytes `epserde `
/// read as a little-endian `u64`.
pub const MAGIC: u64 = 0x2065_6472_6573_7065u64;

/// What we read in place of [`MAGIC`] if the endianness is mismatched.
pub const MAGIC_REV: u64 = 0x6570_7365_7264_6520u64;

/// Whether `align` is a power of two (as required of alignments).
pub open spec fn is_pow2_align(align: usize) -> bool {
    align > 0 && align & (align - 1) as usize == 0
}

/// The two's complement negation of `value`, that is, `value.wrapping_neg()`.
pub open spec fn spec_wrapping_neg(value: usize) -> usize {
    ((!value) + 1) as usize
}

/// The padding computed by [`pad_align_to`]: the low bits of `-value` below `align_to`.
pub open spec fn spec_pad_align_to(value: usize, align_to: usize) -> usize {
    spec_wrapping_neg(value) & (align_to - 1) as usize
}

/// The number of zero bytes written (or skipped) to align the stream position `pos`
/// to `align`.
pub open spec fn spec_padding(pos: nat, align: usize) -> nat {
    spec_pad_align_to(pos as usize, align) as nat
}

/// The alignments of primitive types are powers of two.
pub proof fn lemma_small_pow2()
    ensures
        is_pow2_align(1),
        is_pow2_align(2),
        is_pow2_align(4),
        is_pow2_align(8),
        is_pow2_align(16),
{
    assert(1usize & 0 == 0 && 2usize & 1 == 0 && 4usize & 3 == 0 && 8usize & 7 == 0 && 16usize & 15 == 0)
        by (bit_vector);
}

/// Compute the padding needed for alignment, that is, the smallest
/// number such that `((value + pad_align_to(value, align_to)) & (align_to - 1)) == 0`.
pub fn pad_align_to(value: usize, align_to: usize) -> (r: usize)
    requires
        align_to > 0,
    ensures
        r == spec_pad_align_to(value, align_to),
{
    assert(value != 0 ==> ((!value) + 1) as usize == (!value) + 1) by (bit_vector);
    assert(value == 0 ==> ((!value) + 1) as usize == 0) by (bit_vector);
    let neg: usize = if value == 0 { 0 } else { !value + 1 };
    neg & (align_to - 1)
}

/// Law: for a power-of-two `align_to`, adding the padding makes `value` a multiple of
/// `align_to` (its low bits vanish), the padding is smaller than `align_to`, and it is
/// zero exactly when `value` is already aligned.
pub proof fn lemma_pad_align_to_aligns(value: usize, align_to: usize)
    requires
        is_pow2_align(align_to),
    ensures
        ((value + spec_pad_align_to(value, align_to)) as usize) & ((align_to - 1) as usize) == 0,
        spec_pad_align_to(value, align_to) < align_to,
        spec_pad_align_to(value, align_to) == 0 <==> value & ((align_to - 1) as usize) == 0,
{
    let m = (align_to - 1) as usize;
    let r = spec_pad_align_to(value, align_to);
    assert(r == (((!value) + 1) as usize) & m);
    assert(align_to > 0 && align_to & m == 0 && m == align_to - 1 && r == (((!value) + 1) as usize) & m
        ==> ((value + r) as usize) & m == 0 && r < align_to && (r == 0 <==> value & m == 0))
        by (bit_vector);
}

/// For a power-of-two `align`, a value whose bits below `align` are all zero is a
/// multiple of `align`.
pub proof fn lemma_low_bits_zero_is_multiple(x: usize, align: usize)
    requires
        is_pow2_align(align),
        x & ((align - 1) as usize) == 0,
    ensures
        x % align == 0,
    decreases align,
{
    if align > 1 {
        assert(((align / 2) & (((align / 2) - 1) as usize)) == 0 && align % 2 == 0 && align / 2 > 0) by (bit_vector)
            requires
                align > 1,
                align & ((align - 1) as usize) == 0,
        ;
        assert(((x / 2) & (((align / 2) - 1) as usize)) == 0 && x % 2 == 0) by (bit_vector)
            requires
                align > 1,
                align & ((align - 1) as usize) == 0,
                x & ((align - 1) as usize) == 0,
        ;
        let h = align / 2;
        let y = x / 2;
        lemma_low_bits_zero_is_multiple(y, h);
        let q = y / h;
        assert(y == h * q) by {
            vstd::arithmetic::div_mod::lemma_fundamental_div_mod(y as int, h as int);
        }
        assert(x == align * q) by (nonlinear_arith)
            requires
                x == 2 * y,
                align == 2 * h,
                y == h * q,
        ;
        vstd::arithmetic::div_mod::lemma_mod_multiples_basic(q as int, align as int);
        assert(x as int == q * align) by (nonlinear_arith)
            requires
                x == align * q,
        ;
    }
}

} // verus!
