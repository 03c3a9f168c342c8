//! Laws on the bytes written for a value: the wire format, stated in terms of the
//! little-endian images of integers, of lengths and of alignment padding.

use vstd::prelude::*;
use vstd::bytes::*;
use vstd::utf8::encode_utf8;
use crate::spec_padding;
use crate::bytes::{spec_usize_le, usize_bytes};
use crate::ser::{SerializeInner, spec_zeros};
use crate::traits::{DeepCopy, MaxSizeOf, ReprHash, TypeHash, TypeName, ZeroCopy, spec_repr_hash_value, spec_type_hash};
use crate::{MAGIC, VERSION};
use crate::ser::serialize::spec_header;

verus! {

/// Law: integers are written as their little-endian images, with no padding;
/// booleans as the byte 1 or 0, characters as the image of their code point.
pub proof fn lemma_primitive_bytes(pos: nat, a: u8, b: u16, c: u32, d: u64, e: u128, f: usize, g: i8, h: i16, i: i32, j: i64, k: i128, l: isize, m: bool, n: char)
    ensures
        a.spec_ser(pos) == seq![a],
        b.spec_ser(pos) == spec_u16_to_le_bytes(b),
        c.spec_ser(pos) == spec_u32_to_le_bytes(c),
        d.spec_ser(pos) == spec_u64_to_le_bytes(d),
        e.spec_ser(pos) == spec_u128_to_le_bytes(e),
        f.spec_ser(pos) == spec_usize_le(f),
        g.spec_ser(pos) == seq![g as u8],
        h.spec_ser(pos) == spec_u16_to_le_bytes(h as u16),
        i.spec_ser(pos) == spec_u32_to_le_bytes(i as u32),
        j.spec_ser(pos) == spec_u64_to_le_bytes(j as u64),
        k.spec_ser(pos) == spec_u128_to_le_bytes(k as u128),
        l.spec_ser(pos) == spec_usize_le(l as usize),
        m.spec_ser(pos) == seq![if m { 1u8 } else { 0u8 }],
        n.spec_ser(pos) == spec_u32_to_le_bytes(n as u32),
{
}

/// Law: an option is written as the tag 0 for `None`, and as the tag 1 followed by the
/// value, written at the next position, for `Some`.
pub proof fn lemma_option_bytes<T: SerializeInner>(v: Option<T>, pos: nat)
    ensures
        v.spec_ser(pos) == match v {
            None => seq![0u8],
            Some(x) => seq![1u8] + x.spec_ser(pos + 1),
        },
{
}

/// The bytes of values written one after the other from `pos`.
pub open spec fn spec_one_after_another<T: SerializeInner>(s: Seq<T>, pos: nat) -> Seq<u8>
    decreases s.len(),
{
    if s.len() == 0 {
        Seq::empty()
    } else {
        let first = s[0].spec_ser(pos);
        first + spec_one_after_another(s.skip(1), pos + first.len())
    }
}

/// The images of zero-copy values, one after the other.
pub open spec fn spec_concat_images<T: ZeroCopy>(s: Seq<T>) -> Seq<u8>
    decreases s.len(),
{
    if s.len() == 0 {
        Seq::empty()
    } else {
        s[0].spec_image() + spec_concat_images(s.skip(1))
    }
}

/// Law: a string is written as the length of its UTF-8 bytes, then the bytes.
pub proof fn lemma_string_bytes(s: String, pos: nat)
    ensures
        s.spec_ser(pos) == spec_usize_le(encode_utf8(s@).len() as usize) + encode_utf8(s@),
{
    let bytes = encode_utf8(s@);
    lemma_pad_to_one(pos + usize_bytes());
    lemma_u8_images(bytes);
    assert(spec_zeros(0) =~= Seq::<u8>::empty());
    assert(s.spec_ser(pos) =~= spec_usize_le(bytes.len() as usize) + bytes);
}

/// No padding is needed to align to one byte.
proof fn lemma_pad_to_one(pos: nat)
    ensures
        spec_padding(pos, 1) == 0,
{
    let v = pos as usize;
    assert(((!v) + 1) as usize & 0usize == 0usize) by (bit_vector);
}

/// The images of bytes are the bytes.
proof fn lemma_u8_images(s: Seq<u8>)
    ensures
        crate::ser::helpers::spec_images(s) == s,
    decreases s.len(),
{
    if s.len() > 0 {
        lemma_u8_images(s.drop_last());
        assert(s.drop_last() + seq![s.last()] =~= s);
    }
}

/// Images one after the other, whether the sequence is read from the front or from the
/// back, agree.
proof fn lemma_concat_images<T: ZeroCopy>(s: Seq<T>)
    ensures
        spec_concat_images(s) == crate::ser::helpers::spec_images(s),
    decreases s.len(),
{
    if s.len() > 0 {
        lemma_concat_images(s.drop_last());
        lemma_concat_images_push(s.drop_last(), s.last());
        assert(s.drop_last().push(s.last()) =~= s);
    }
}

proof fn lemma_concat_images_push<T: ZeroCopy>(t: Seq<T>, x: T)
    ensures
        spec_concat_images(t.push(x)) == spec_concat_images(t) + x.spec_image(),
    decreases t.len(),
{
    if t.len() == 0 {
        assert(t.push(x).skip(1) =~= Seq::<T>::empty());
        assert(t.push(x)[0] == x);
        assert(spec_concat_images(t.push(x).skip(1)) == Seq::<u8>::empty());
        assert(spec_concat_images(t) == Seq::<u8>::empty());
        assert(spec_concat_images(t.push(x)) =~= x.spec_image());
    } else {
        lemma_concat_images_push(t.skip(1), x);
        assert(t.push(x).skip(1) =~= t.skip(1).push(x));
        assert(spec_concat_images(t.push(x)) =~= spec_concat_images(t) + x.spec_image());
    }
}

/// Values written one after the other, whether the sequence is read from the front or
/// from the back, agree.
proof fn lemma_one_after_another<T: SerializeInner>(s: Seq<T>, pos: nat)
    ensures
        spec_one_after_another(s, pos) == crate::ser::helpers::spec_ser_seq(s, pos),
    decreases s.len(),
{
    if s.len() > 0 {
        lemma_one_after_another(s.drop_last(), pos);
        lemma_one_after_another_push(s.drop_last(), s.last(), pos);
        assert(s.drop_last().push(s.last()) =~= s);
    }
}

proof fn lemma_one_after_another_push<T: SerializeInner>(t: Seq<T>, x: T, pos: nat)
    ensures
        spec_one_after_another(t.push(x), pos) == spec_one_after_another(t, pos) + x.spec_ser(
            pos + spec_one_after_another(t, pos).len(),
        ),
    decreases t.len(),
{
    if t.len() == 0 {
        assert(t.push(x).skip(1) =~= Seq::<T>::empty());
        assert(t.push(x)[0] == x);
        assert(spec_one_after_another(t.push(x).skip(1), pos + x.spec_ser(pos).len()) == Seq::<u8>::empty());
        assert(spec_one_after_another(t, pos) == Seq::<u8>::empty());
        assert(spec_one_after_another(t.push(x), pos) =~= x.spec_ser(pos));
    } else {
        let first = t[0].spec_ser(pos);
        lemma_one_after_another_push(t.skip(1), x, pos + first.len());
        assert(t.push(x).skip(1) =~= t.skip(1).push(x));
        assert(spec_one_after_another(t.push(x), pos) =~= spec_one_after_another(t, pos) + x.spec_ser(
            pos + spec_one_after_another(t, pos).len()));
    }
}

/// Law: a vector or a boxed slice of zero-copy items is written as its length, zero
/// padding from the next position to the alignment of the items, then the images of the
/// items one after the other.
pub proof fn lemma_zero_vec_bytes<T: ZeroCopy>(v: Vec<T>, b: Box<[T]>, pos: nat)
    ensures
        v.spec_ser(pos) == spec_usize_le(v@.len() as usize) + spec_zeros(spec_padding(pos + usize_bytes(), T::spec_max_size_of()))
            + spec_concat_images(v@),
        b.spec_ser(pos) == spec_usize_le(b@.len() as usize) + spec_zeros(spec_padding(pos + usize_bytes(), T::spec_max_size_of()))
            + spec_concat_images(b@),
{
    lemma_concat_images(v@);
    lemma_concat_images(b@);
}

/// Law: a vector or a boxed slice of deep-copy items is written as its length, then each
/// item written in turn at the position where the previous one ends.
pub proof fn lemma_deep_vec_bytes<T: DeepCopy + SerializeInner>(v: Vec<T>, b: Box<[T]>, pos: nat)
    ensures
        v.spec_ser(pos) == spec_usize_le(v@.len() as usize) + spec_one_after_another(v@, pos + usize_bytes()),
        b.spec_ser(pos) == spec_usize_le(b@.len() as usize) + spec_one_after_another(b@, pos + usize_bytes()),
{
    lemma_one_after_another(v@, pos + usize_bytes());
    lemma_one_after_another(b@, pos + usize_bytes());
}

/// Law: an array of zero-copy items is written as zero padding to the alignment of the
/// items, then their images; an array of deep-copy items as each item in turn.
pub proof fn lemma_array_bytes<T: ZeroCopy, U: DeepCopy + SerializeInner, const N: usize>(a: [T; N], d: [U; N], pos: nat)
    ensures
        a.spec_ser(pos) == spec_zeros(spec_padding(pos, T::spec_max_size_of())) + spec_concat_images(a@),
        d.spec_ser(pos) == spec_one_after_another(d@, pos),
{
    lemma_concat_images(a@);
    lemma_one_after_another(d@, pos);
}

/// Law: the image of a primitive value, as stored in zero-copy data, is the bytes it is
/// written as.
pub proof fn lemma_primitive_images(pos: nat, a: u8, b: u16, c: u32, d: u64, e: u128, f: usize, g: i8, h: i16, i: i32, j: i64, k: i128, l: isize, m: bool, n: char)
    ensures
        a.spec_image() == a.spec_ser(pos),
        b.spec_image() == b.spec_ser(pos),
        c.spec_image() == c.spec_ser(pos),
        d.spec_image() == d.spec_ser(pos),
        e.spec_image() == e.spec_ser(pos),
        f.spec_image() == f.spec_ser(pos),
        g.spec_image() == g.spec_ser(pos),
        h.spec_image() == h.spec_ser(pos),
        i.spec_image() == i.spec_ser(pos),
        j.spec_image() == j.spec_ser(pos),
        k.spec_image() == k.spec_ser(pos),
        l.spec_image() == l.spec_ser(pos),
        m.spec_image() == m.spec_ser(pos),
        n.spec_image() == n.spec_ser(pos),
{
}

/// Law: a tuple of 1 element is written as zero padding to its alignment, then the
/// images of its elements one after the other, which make its image.
pub proof fn lemma_tuple1_bytes<T0: ZeroCopy>(v: (T0,), pos: nat)
    ensures
        v.spec_image() == v.0.spec_image(),
        v.spec_ser(pos) == spec_zeros(spec_padding(pos, <(T0,) as MaxSizeOf>::spec_max_size_of())) + (v.0.spec_image()),
{
}

/// Law: a tuple of 2 elements is written as zero padding to its alignment, then the
/// images of its elements one after the other, which make its image.
pub proof fn lemma_tuple2_bytes<T0: ZeroCopy, T1: ZeroCopy>(v: (T0, T1), pos: nat)
    ensures
        v.spec_image() == v.0.spec_image() + v.1.spec_image(),
        v.spec_ser(pos) == spec_zeros(spec_padding(pos, <(T0, T1) as MaxSizeOf>::spec_max_size_of())) + (v.0.spec_image() + v.1.spec_image()),
{
}

/// Law: a tuple of 3 elements is written as zero padding to its alignment, then the
/// images of its elements one after the other, which make its image.
pub proof fn lemma_tuple3_bytes<T0: ZeroCopy, T1: ZeroCopy, T2: ZeroCopy>(v: (T0, T1, T2), pos: nat)
    ensures
        v.spec_image() == v.0.spec_image() + v.1.spec_image() + v.2.spec_image(),
        v.spec_ser(pos) == spec_zeros(spec_padding(pos, <(T0, T1, T2) as MaxSizeOf>::spec_max_size_of())) + (v.0.spec_image() + v.1.spec_image() + v.2.spec_image()),
{
}

/// Law: a tuple of 4 elements is written as zero padding to its alignment, then the
/// images of its elements one after the other, which make its image.
pub proof fn lemma_tuple4_bytes<T0: ZeroCopy, T1: ZeroCopy, T2: ZeroCopy, T3: ZeroCopy>(v: (T0, T1, T2, T3), pos: nat)
    ensures
        v.spec_image() == v.0.spec_image() + v.1.spec_image() + v.2.spec_image() + v.3.spec_image(),
        v.spec_ser(pos) == spec_zeros(spec_padding(pos, <(T0, T1, T2, T3) as MaxSizeOf>::spec_max_size_of())) + (v.0.spec_image() + v.1.spec_image() + v.2.spec_image() + v.3.spec_image()),
{
}

/// Law: a tuple of 5 elements is written as zero padding to its alignment, then the
/// images of its elements one after the other, which make its image.
pub proof fn lemma_tuple5_bytes<T0: ZeroCopy, T1: ZeroCopy, T2: ZeroCopy, T3: ZeroCopy, T4: ZeroCopy>(v: (T0, T1, T2, T3, T4), pos: nat)
    ensures
        v.spec_image() == v.0.spec_image() + v.1.spec_image() + v.2.spec_image() + v.3.spec_image() + v.4.spec_image(),
        v.spec_ser(pos) == spec_zeros(spec_padding(pos, <(T0, T1, T2, T3, T4) as MaxSizeOf>::spec_max_size_of())) + (v.0.spec_image() + v.1.spec_image() + v.2.spec_image() + v.3.spec_image() + v.4.spec_image()),
{
}

/// Law: a tuple of 6 elements is written as zero padding to its alignment, then the
/// images of its elements one after the other, which make its image.
pub proof fn lemma_tuple6_bytes<T0: ZeroCopy, T1: ZeroCopy, T2: ZeroCopy, T3: ZeroCopy, T4: ZeroCopy, T5: ZeroCopy>(v: (T0, T1, T2, T3, T4, T5), pos: nat)
    ensures
        v.spec_image() == v.0.spec_image() + v.1.spec_image() + v.2.spec_image() + v.3.spec_image() + v.4.spec_image() + v.5.spec_image(),
        v.spec_ser(pos) == spec_zeros(spec_padding(pos, <(T0, T1, T2, T3, T4, T5) as MaxSizeOf>::spec_max_size_of())) + (v.0.spec_image() + v.1.spec_image() + v.2.spec_image() + v.3.spec_image() + v.4.spec_image() + v.5.spec_image()),
{
}

/// Law: a tuple of 7 elements is written as zero padding to its alignment, then the
/// images of its elements one after the other, which make its image.
pub proof fn lemma_tuple7_bytes<T0: ZeroCopy, T1: ZeroCopy, T2: ZeroCopy, T3: ZeroCopy, T4: ZeroCopy, T5: ZeroCopy, T6: ZeroCopy>(v: (T0, T1, T2, T3, T4, T5, T6), pos: nat)
    ensures
        v.spec_image() == v.0.spec_image() + v.1.spec_image() + v.2.spec_image() + v.3.spec_image() + v.4.spec_image() + v.5.spec_image() + v.6.spec_image(),
        v.spec_ser(pos) == spec_zeros(spec_padding(pos, <(T0, T1, T2, T3, T4, T5, T6) as MaxSizeOf>::spec_max_size_of())) + (v.0.spec_image() + v.1.spec_image() + v.2.spec_image() + v.3.spec_image() + v.4.spec_image() + v.5.spec_image() + v.6.spec_image()),
{
}

/// Law: a tuple of 8 elements is written as zero padding to its alignment, then the
/// images of its elements one after the other, which make its image.
pub proof fn lemma_tuple8_bytes<T0: ZeroCopy, T1: ZeroCopy, T2: ZeroCopy, T3: ZeroCopy, T4: ZeroCopy, T5: ZeroCopy, T6: ZeroCopy, T7: ZeroCopy>(v: (T0, T1, T2, T3, T4, T5, T6, T7), pos: nat)
    ensures
        v.spec_image() == v.0.spec_image() + v.1.spec_image() + v.2.spec_image() + v.3.spec_image() + v.4.spec_image() + v.5.spec_image() + v.6.spec_image() + v.7.spec_image(),
        v.spec_ser(pos) == spec_zeros(spec_padding(pos, <(T0, T1, T2, T3, T4, T5, T6, T7) as MaxSizeOf>::spec_max_size_of())) + (v.0.spec_image() + v.1.spec_image() + v.2.spec_image() + v.3.spec_image() + v.4.spec_image() + v.5.spec_image() + v.6.spec_image() + v.7.spec_image()),
{
}

/// Law: a tuple of 9 elements is written as zero padding to its alignment, then the
/// images of its elements one after the other, which make its image.
pub proof fn lemma_tuple9_bytes<T0: ZeroCopy, T1: ZeroCopy, T2: ZeroCopy, T3: ZeroCopy, T4: ZeroCopy, T5: ZeroCopy, T6: ZeroCopy, T7: ZeroCopy, T8: ZeroCopy>(v: (T0, T1, T2, T3, T4, T5, T6, T7, T8), pos: nat)
    ensures
        v.spec_image() == v.0.spec_image() + v.1.spec_image() + v.2.spec_image() + v.3.spec_image() + v.4.spec_image() + v.5.spec_image() + v.6.spec_image() + v.7.spec_image() + v.8.spec_image(),
        v.spec_ser(pos) == spec_zeros(spec_padding(pos, <(T0, T1, T2, T3, T4, T5, T6, T7, T8) as MaxSizeOf>::spec_max_size_of())) + (v.0.spec_image() + v.1.spec_image() + v.2.spec_image() + v.3.spec_image() + v.4.spec_image() + v.5.spec_image() + v.6.spec_image() + v.7.spec_image() + v.8.spec_image()),
{
}

/// Law: a tuple of 10 elements is written as zero padding to its alignment, then the
/// images of its elements one after the other, which make its image.
pub proof fn lemma_tuple10_bytes<T0: ZeroCopy, T1: ZeroCopy, T2: ZeroCopy, T3: ZeroCopy, T4: ZeroCopy, T5: ZeroCopy, T6: ZeroCopy, T7: ZeroCopy, T8: ZeroCopy, T9: ZeroCopy>(v: (T0, T1, T2, T3, T4, T5, T6, T7, T8, T9), pos: nat)
    ensures
        v.spec_image() == v.0.spec_image() + v.1.spec_image() + v.2.spec_image() + v.3.spec_image() + v.4.spec_image() + v.5.spec_image() + v.6.spec_image() + v.7.spec_image() + v.8.spec_image() + v.9.spec_image(),
        v.spec_ser(pos) == spec_zeros(spec_padding(pos, <(T0, T1, T2, T3, T4, T5, T6, T7, T8, T9) as MaxSizeOf>::spec_max_size_of())) + (v.0.spec_image() + v.1.spec_image() + v.2.spec_image() + v.3.spec_image() + v.4.spec_image() + v.5.spec_image() + v.6.spec_image() + v.7.spec_image() + v.8.spec_image() + v.9.spec_image()),
{
}

/// Law: a tuple of 11 elements is written as zero padding to its alignment, then the
/// images of its elements one after the other, which make its image.
pub proof fn lemma_tuple11_bytes<T0: ZeroCopy, T1: ZeroCopy, T2: ZeroCopy, T3: ZeroCopy, T4: ZeroCopy, T5: ZeroCopy, T6: ZeroCopy, T7: ZeroCopy, T8: ZeroCopy, T9: ZeroCopy, T10: ZeroCopy>(v: (T0, T1, T2, T3, T4, T5, T6, T7, T8, T9, T10), pos: nat)
    ensures
        v.spec_image() == v.0.spec_image() + v.1.spec_image() + v.2.spec_image() + v.3.spec_image() + v.4.spec_image() + v.5.spec_image() + v.6.spec_image() + v.7.spec_image() + v.8.spec_image() + v.9.spec_image() + v.10.spec_image(),
        v.spec_ser(pos) == spec_zeros(spec_padding(pos, <(T0, T1, T2, T3, T4, T5, T6, T7, T8, T9, T10) as MaxSizeOf>::spec_max_size_of())) + (v.0.spec_image() + v.1.spec_image() + v.2.spec_image() + v.3.spec_image() + v.4.spec_image() + v.5.spec_image() + v.6.spec_image() + v.7.spec_image() + v.8.spec_image() + v.9.spec_image() + v.10.spec_image()),
{
}

/// Law: the header written before a value of type `T` at `pos` holds, in order, the
/// magic cookie (the bytes `epserde ` with a trailing space), the major and minor
/// version as 16-bit little-endian integers, the size of a `usize` as one byte, the type
/// hash and the representation hash as 64-bit little-endian integers, then the type's
/// name as a string: its UTF-8 length, then its bytes.
pub proof fn lemma_header_bytes<T: TypeName + TypeHash + ReprHash>(pos: nat)
    ensures
        ({
            let h = spec_header::<T>(pos);
            let name = encode_utf8(T::spec_type_name());
            &&& h.subrange(0, 8) == seq![0x65u8, 0x70, 0x73, 0x65, 0x72, 0x64, 0x65, 0x20]
            &&& h.subrange(8, 10) == spec_u16_to_le_bytes(VERSION.0)
            &&& h.subrange(10, 12) == spec_u16_to_le_bytes(VERSION.1)
            &&& h[12] as nat == usize_bytes()
            &&& h.subrange(13, 21) == spec_u64_to_le_bytes(spec_type_hash::<T>())
            &&& h.subrange(21, 29) == spec_u64_to_le_bytes(spec_repr_hash_value::<T>())
            &&& h.skip(29) == spec_usize_le(name.len() as usize) + name
        }),
{
    let h = spec_header::<T>(pos);
    let name = encode_utf8(T::spec_type_name());
    lemma_auto_spec_u64_to_from_le_bytes();
    lemma_auto_spec_u16_to_from_le_bytes();
    lemma_pad_to_one(pos + 29 + usize_bytes());
    lemma_u8_images(name);
    assert(spec_zeros(0) =~= Seq::<u8>::empty());
    let m = spec_u64_to_le_bytes(MAGIC);
    assert(m.len() == 8);
    lemma_u64_le_bytes_of_magic();
    assert(h.subrange(0, 8) =~= m);
    assert(h.subrange(0, 8) =~= seq![0x65u8, 0x70, 0x73, 0x65, 0x72, 0x64, 0x65, 0x20]);
    assert(h.subrange(8, 10) =~= spec_u16_to_le_bytes(VERSION.0));
    assert(h.subrange(10, 12) =~= spec_u16_to_le_bytes(VERSION.1));
    assert(h.subrange(13, 21) =~= spec_u64_to_le_bytes(spec_type_hash::<T>()));
    assert(h.subrange(21, 29) =~= spec_u64_to_le_bytes(spec_repr_hash_value::<T>()));
    assert(h.skip(29) =~= spec_usize_le(name.len() as usize) + name);
}

/// The little-endian bytes of the magic cookie.
proof fn lemma_u64_le_bytes_of_magic()
    ensures
        spec_u64_to_le_bytes(MAGIC) == seq![0x65u8, 0x70, 0x73, 0x65, 0x72, 0x64, 0x65, 0x20],
{
    spec_u64_to_le_bytes_to_open(MAGIC);
    let x = MAGIC;
    assert((x & 0xff) as u8 == 0x65u8 && ((x >> 8) & 0xff) as u8 == 0x70u8 && ((x >> 16) & 0xff) as u8 == 0x73u8
        && ((x >> 24) & 0xff) as u8 == 0x65u8 && ((x >> 32) & 0xff) as u8 == 0x72u8 && ((x >> 40) & 0xff) as u8 == 0x64u8
        && ((x >> 48) & 0xff) as u8 == 0x65u8 && ((x >> 56) & 0xff) as u8 == 0x20u8) by (bit_vector)
        requires
            x == 0x2065_6472_6573_7065u64,
    ;
    assert(spec_u64_to_le_bytes(MAGIC) =~= seq![0x65u8, 0x70, 0x73, 0x65, 0x72, 0x64, 0x65, 0x20]);
}

} // verus!
