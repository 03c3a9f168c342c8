//! Laws on the names and representation hashes of types: the name written in the
//! header, and what the representation hash feeds for the layout of a zero-copy type.

use vstd::prelude::*;
use vstd::layout::*;
use core::marker::PhantomData;
use std::collections::hash_map::DefaultHasher;
use crate::spec_padding;
use crate::bytes::spec_usize_le;
use crate::text::spec_dec;
use crate::traits::{ReprHash, TypeName};

verus! {

/// Law: each primitive type and string type is named as in Rust source.
pub proof fn lemma_primitive_type_names()
    ensures
        <u8 as TypeName>::spec_type_name() == "u8"@,
        <u16 as TypeName>::spec_type_name() == "u16"@,
        <u32 as TypeName>::spec_type_name() == "u32"@,
        <u64 as TypeName>::spec_type_name() == "u64"@,
        <u128 as TypeName>::spec_type_name() == "u128"@,
        <usize as TypeName>::spec_type_name() == "usize"@,
        <i8 as TypeName>::spec_type_name() == "i8"@,
        <i16 as TypeName>::spec_type_name() == "i16"@,
        <i32 as TypeName>::spec_type_name() == "i32"@,
        <i64 as TypeName>::spec_type_name() == "i64"@,
        <i128 as TypeName>::spec_type_name() == "i128"@,
        <isize as TypeName>::spec_type_name() == "isize"@,
        <bool as TypeName>::spec_type_name() == "bool"@,
        <char as TypeName>::spec_type_name() == "char"@,
        <() as TypeName>::spec_type_name() == "()"@,
        <String as TypeName>::spec_type_name() == "String"@,
        <str as TypeName>::spec_type_name() == "str"@,
        <Box<str> as TypeName>::spec_type_name() == "Box<str>"@,
        <DefaultHasher as TypeName>::spec_type_name() == "std::hash::DefaultHasher"@,
{
}

/// Law: containers are named from the name of their item type, as in Rust source.
pub proof fn lemma_container_type_names<T: TypeName, const N: usize>()
    ensures
        <Option<T> as TypeName>::spec_type_name() == "Option<"@ + T::spec_type_name() + ">"@,
        <Vec<T> as TypeName>::spec_type_name() == "Vec<"@ + T::spec_type_name() + ">"@,
        <Box<[T]> as TypeName>::spec_type_name() == "Box<["@ + T::spec_type_name() + "]>"@,
        <[T] as TypeName>::spec_type_name() == "["@ + T::spec_type_name() + "]"@,
        <[T; N] as TypeName>::spec_type_name() == "["@ + T::spec_type_name() + "; "@ + spec_dec(N as nat) + "]"@,
        <PhantomData<T> as TypeName>::spec_type_name() == "PhantomData<"@ + T::spec_type_name() + ">"@,
{
}

/// Law: a tuple of 1 element is named from the names of its elements, as in Rust source.
pub proof fn lemma_tuple1_type_name<T0: TypeName>()
    ensures
        <(T0,) as TypeName>::spec_type_name() == "("@ + T0::spec_type_name() + ",)"@,
{
}

/// Law: a tuple of 2 elements is named from the names of its elements, as in Rust source.
pub proof fn lemma_tuple2_type_name<T0: TypeName, T1: TypeName>()
    ensures
        <(T0, T1) as TypeName>::spec_type_name() == "("@ + T0::spec_type_name() + ", "@ + T1::spec_type_name() + ")"@,
{
}

/// Law: a tuple of 3 elements is named from the names of its elements, as in Rust source.
pub proof fn lemma_tuple3_type_name<T0: TypeName, T1: TypeName, T2: TypeName>()
    ensures
        <(T0, T1, T2) as TypeName>::spec_type_name() == "("@ + T0::spec_type_name() + ", "@ + T1::spec_type_name() + ", "@ + T2::spec_type_name() + ")"@,
{
}

/// Law: a tuple of 4 elements is named from the names of its elements, as in Rust source.
pub proof fn lemma_tuple4_type_name<T0: TypeName, T1: TypeName, T2: TypeName, T3: TypeName>()
    ensures
        <(T0, T1, T2, T3) as TypeName>::spec_type_name() == "("@ + T0::spec_type_name() + ", "@ + T1::spec_type_name() + ", "@ + T2::spec_type_name() + ", "@ + T3::spec_type_name() + ")"@,
{
}

/// Law: a tuple of 5 elements is named from the names of its elements, as in Rust source.
pub proof fn lemma_tuple5_type_name<T0: TypeName, T1: TypeName, T2: TypeName, T3: TypeName, T4: TypeName>()
    ensures
        <(T0, T1, T2, T3, T4) as TypeName>::spec_type_name() == "("@ + T0::spec_type_name() + ", "@ + T1::spec_type_name() + ", "@ + T2::spec_type_name() + ", "@ + T3::spec_type_name() + ", "@ + T4::spec_type_name() + ")"@,
{
}

/// Law: a tuple of 6 elements is named from the names of its elements, as in Rust source.
pub proof fn lemma_tuple6_type_name<T0: TypeName, T1: TypeName, T2: TypeName, T3: TypeName, T4: TypeName, T5: TypeName>()
    ensures
        <(T0, T1, T2, T3, T4, T5) as TypeName>::spec_type_name() == "("@ + T0::spec_type_name() + ", "@ + T1::spec_type_name() + ", "@ + T2::spec_type_name() + ", "@ + T3::spec_type_name() + ", "@ + T4::spec_type_name() + ", "@ + T5::spec_type_name() + ")"@,
{
}

/// Law: a tuple of 7 elements is named from the names of its elements, as in Rust source.
pub proof fn lemma_tuple7_type_name<T0: TypeName, T1: TypeName, T2: TypeName, T3: TypeName, T4: TypeName, T5: TypeName, T6: TypeName>()
    ensures
        <(T0, T1, T2, T3, T4, T5, T6) as TypeName>::spec_type_name() == "("@ + T0::spec_type_name() + ", "@ + T1::spec_type_name() + ", "@ + T2::spec_type_name() + ", "@ + T3::spec_type_name() + ", "@ + T4::spec_type_name() + ", "@ + T5::spec_type_name() + ", "@ + T6::spec_type_name() + ")"@,
{
}

/// Law: a tuple of 8 elements is named from the names of its elements, as in Rust source.
pub proof fn lemma_tuple8_type_name<T0: TypeName, T1: TypeName, T2: TypeName, T3: TypeName, T4: TypeName, T5: TypeName, T6: TypeName, T7: TypeName>()
    ensures
        <(T0, T1, T2, T3, T4, T5, T6, T7) as TypeName>::spec_type_name() == "("@ + T0::spec_type_name() + ", "@ + T1::spec_type_name() + ", "@ + T2::spec_type_name() + ", "@ + T3::spec_type_name() + ", "@ + T4::spec_type_name() + ", "@ + T5::spec_type_name() + ", "@ + T6::spec_type_name() + ", "@ + T7::spec_type_name() + ")"@,
{
}

/// Law: a tuple of 9 elements is named from the names of its elements, as in Rust source.
pub proof fn lemma_tuple9_type_name<T0: TypeName, T1: TypeName, T2: TypeName, T3: TypeName, T4: TypeName, T5: TypeName, T6: TypeName, T7: TypeName, T8: TypeName>()
    ensures
        <(T0, T1, T2, T3, T4, T5, T6, T7, T8) as TypeName>::spec_type_name() == "("@ + T0::spec_type_name() + ", "@ + T1::spec_type_name() + ", "@ + T2::spec_type_name() + ", "@ + T3::spec_type_name() + ", "@ + T4::spec_type_name() + ", "@ + T5::spec_type_name() + ", "@ + T6::spec_type_name() + ", "@ + T7::spec_type_name() + ", "@ + T8::spec_type_name() + ")"@,
{
}

/// Law: a tuple of 10 elements is named from the names of its elements, as in Rust source.
pub proof fn lemma_tuple10_type_name<T0: TypeName, T1: TypeName, T2: TypeName, T3: TypeName, T4: TypeName, T5: TypeName, T6: TypeName, T7: TypeName, T8: TypeName, T9: TypeName>()
    ensures
        <(T0, T1, T2, T3, T4, T5, T6, T7, T8, T9) as TypeName>::spec_type_name() == "("@ + T0::spec_type_name() + ", "@ + T1::spec_type_name() + ", "@ + T2::spec_type_name() + ", "@ + T3::spec_type_name() + ", "@ + T4::spec_type_name() + ", "@ + T5::spec_type_name() + ", "@ + T6::spec_type_name() + ", "@ + T7::spec_type_name() + ", "@ + T8::spec_type_name() + ", "@ + T9::spec_type_name() + ")"@,
{
}

/// Law: a tuple of 11 elements is named from the names of its elements, as in Rust source.
pub proof fn lemma_tuple11_type_name<T0: TypeName, T1: TypeName, T2: TypeName, T3: TypeName, T4: TypeName, T5: TypeName, T6: TypeName, T7: TypeName, T8: TypeName, T9: TypeName, T10: TypeName>()
    ensures
        <(T0, T1, T2, T3, T4, T5, T6, T7, T8, T9, T10) as TypeName>::spec_type_name() == "("@ + T0::spec_type_name() + ", "@ + T1::spec_type_name() + ", "@ + T2::spec_type_name() + ", "@ + T3::spec_type_name() + ", "@ + T4::spec_type_name() + ", "@ + T5::spec_type_name() + ", "@ + T6::spec_type_name() + ", "@ + T7::spec_type_name() + ", "@ + T8::spec_type_name() + ", "@ + T9::spec_type_name() + ", "@ + T10::spec_type_name() + ")"@,
{
}

/// What the representation hash of a basic type of alignment `align` and size `size`
/// feeds at `offset`, and the offset after it: the padding to the alignment, then the
/// size.
pub open spec fn spec_layout_feed(offset: nat, align: nat, size: nat) -> (Seq<u8>, nat) {
    let pad = spec_padding(offset, align as usize);
    (spec_usize_le(pad as usize) + spec_usize_le(size as usize), offset + pad + size)
}

/// Law: a primitive type feeds its layout in memory: the padding from the offset to its
/// alignment, then its size; the offset moves past the value.
pub proof fn lemma_primitive_repr_hash(offset: nat)
    ensures
        <u8 as ReprHash>::spec_repr_hash(offset) == spec_layout_feed(offset, align_of::<u8>(), size_of::<u8>()),
        <u16 as ReprHash>::spec_repr_hash(offset) == spec_layout_feed(offset, align_of::<u16>(), size_of::<u16>()),
        <u32 as ReprHash>::spec_repr_hash(offset) == spec_layout_feed(offset, align_of::<u32>(), size_of::<u32>()),
        <u64 as ReprHash>::spec_repr_hash(offset) == spec_layout_feed(offset, align_of::<u64>(), size_of::<u64>()),
        <u128 as ReprHash>::spec_repr_hash(offset) == spec_layout_feed(offset, align_of::<u128>(), size_of::<u128>()),
        <usize as ReprHash>::spec_repr_hash(offset) == spec_layout_feed(offset, align_of::<usize>(), size_of::<usize>()),
        <i8 as ReprHash>::spec_repr_hash(offset) == spec_layout_feed(offset, align_of::<i8>(), size_of::<i8>()),
        <i16 as ReprHash>::spec_repr_hash(offset) == spec_layout_feed(offset, align_of::<i16>(), size_of::<i16>()),
        <i32 as ReprHash>::spec_repr_hash(offset) == spec_layout_feed(offset, align_of::<i32>(), size_of::<i32>()),
        <i64 as ReprHash>::spec_repr_hash(offset) == spec_layout_feed(offset, align_of::<i64>(), size_of::<i64>()),
        <i128 as ReprHash>::spec_repr_hash(offset) == spec_layout_feed(offset, align_of::<i128>(), size_of::<i128>()),
        <isize as ReprHash>::spec_repr_hash(offset) == spec_layout_feed(offset, align_of::<isize>(), size_of::<isize>()),
        <bool as ReprHash>::spec_repr_hash(offset) == spec_layout_feed(offset, align_of::<bool>(), size_of::<bool>()),
        <char as ReprHash>::spec_repr_hash(offset) == spec_layout_feed(offset, align_of::<char>(), size_of::<char>()),
        <() as ReprHash>::spec_repr_hash(offset) == spec_layout_feed(offset, align_of::<()>(), size_of::<()>()),
        <DefaultHasher as ReprHash>::spec_repr_hash(offset) == spec_layout_feed(offset, align_of::<DefaultHasher>(), size_of::<DefaultHasher>()),
{
}

/// Law: an array feeds its own layout; options, vectors and boxed slices feed the layout
/// of their content from offset zero, as it lies on its own in memory; strings and
/// phantom markers feed nothing and keep the offset.
pub proof fn lemma_container_repr_hash<T: ReprHash, const N: usize>(offset: nat)
    ensures
        <[T; N] as ReprHash>::spec_repr_hash(offset) == spec_layout_feed(offset, align_of::<[T; N]>(), size_of::<[T; N]>()),
        <Option<T> as ReprHash>::spec_repr_hash(offset) == T::spec_repr_hash(0),
        <Vec<T> as ReprHash>::spec_repr_hash(offset) == T::spec_repr_hash(0),
        <Box<[T]> as ReprHash>::spec_repr_hash(offset) == T::spec_repr_hash(0),
        <String as ReprHash>::spec_repr_hash(offset) == (Seq::<u8>::empty(), offset),
        <Box<str> as ReprHash>::spec_repr_hash(offset) == (Seq::<u8>::empty(), offset),
        <PhantomData<T> as ReprHash>::spec_repr_hash(offset) == (Seq::<u8>::empty(), offset),
{
}

/// Law: a tuple of 1 element feeds what each element feeds at its offset, the
/// offsets following the sizes of the elements before it; when all offsets fit, the
/// offset moves past the tuple.
pub proof fn lemma_tuple1_repr_hash<T0: ReprHash>(offset: nat)
    ensures
        ({
            let o0 = offset;
            let o1 = o0 + size_of::<T0>();
            &&& <(T0,) as ReprHash>::spec_repr_hash(offset).0 == T0::spec_repr_hash(o0).0
            &&& T0::spec_repr_hash(o0).1 <= usize::MAX && o1 <= usize::MAX ==> <(T0,) as ReprHash>::spec_repr_hash(offset).1 == o1
        }),
{
}

/// Law: a tuple of 2 elements feeds what each element feeds at its offset, the
/// offsets following the sizes of the elements before it; when all offsets fit, the
/// offset moves past the tuple.
pub proof fn lemma_tuple2_repr_hash<T0: ReprHash, T1: ReprHash>(offset: nat)
    ensures
        ({
            let o0 = offset;
            let o1 = o0 + size_of::<T0>();
            let o2 = o1 + size_of::<T1>();
            &&& <(T0, T1) as ReprHash>::spec_repr_hash(offset).0 == T0::spec_repr_hash(o0).0 + T1::spec_repr_hash(o1).0
            &&& T0::spec_repr_hash(o0).1 <= usize::MAX && o1 <= usize::MAX && T1::spec_repr_hash(o1).1 <= usize::MAX && o2 <= usize::MAX ==> <(T0, T1) as ReprHash>::spec_repr_hash(offset).1 == o2
        }),
{
}

/// Law: a tuple of 3 elements feeds what each element feeds at its offset, the
/// offsets following the sizes of the elements before it; when all offsets fit, the
/// offset moves past the tuple.
pub proof fn lemma_tuple3_repr_hash<T0: ReprHash, T1: ReprHash, T2: ReprHash>(offset: nat)
    ensures
        ({
            let o0 = offset;
            let o1 = o0 + size_of::<T0>();
            let o2 = o1 + size_of::<T1>();
            let o3 = o2 + size_of::<T2>();
            &&& <(T0, T1, T2) as ReprHash>::spec_repr_hash(offset).0 == T0::spec_repr_hash(o0).0 + T1::spec_repr_hash(o1).0 + T2::spec_repr_hash(o2).0
            &&& T0::spec_repr_hash(o0).1 <= usize::MAX && o1 <= usize::MAX && T1::spec_repr_hash(o1).1 <= usize::MAX && o2 <= usize::MAX && T2::spec_repr_hash(o2).1 <= usize::MAX && o3 <= usize::MAX ==> <(T0, T1, T2) as ReprHash>::spec_repr_hash(offset).1 == o3
        }),
{
}

/// Law: a tuple of 4 elements feeds what each element feeds at its offset, the
/// offsets following the sizes of the elements before it; when all offsets fit, the
/// offset moves past the tuple.
pub proof fn lemma_tuple4_repr_hash<T0: ReprHash, T1: ReprHash, T2: ReprHash, T3: ReprHash>(offset: nat)
    ensures
        ({
            let o0 = offset;
            let o1 = o0 + size_of::<T0>();
            let o2 = o1 + size_of::<T1>();
            let o3 = o2 + size_of::<T2>();
            let o4 = o3 + size_of::<T3>();
            &&& <(T0, T1, T2, T3) as ReprHash>::spec_repr_hash(offset).0 == T0::spec_repr_hash(o0).0 + T1::spec_repr_hash(o1).0 + T2::spec_repr_hash(o2).0 + T3::spec_repr_hash(o3).0
            &&& T0::spec_repr_hash(o0).1 <= usize::MAX && o1 <= usize::MAX && T1::spec_repr_hash(o1).1 <= usize::MAX && o2 <= usize::MAX && T2::spec_repr_hash(o2).1 <= usize::MAX && o3 <= usize::MAX && T3::spec_repr_hash(o3).1 <= usize::MAX && o4 <= usize::MAX ==> <(T0, T1, T2, T3) as ReprHash>::spec_repr_hash(offset).1 == o4
        }),
{
}

/// Law: a tuple of 5 elements feeds what each element feeds at its offset, the
/// offsets following the sizes of the elements before it; when all offsets fit, the
/// offset moves past the tuple.
pub proof fn lemma_tuple5_repr_hash<T0: ReprHash, T1: ReprHash, T2: ReprHash, T3: ReprHash, T4: ReprHash>(offset: nat)
    ensures
        ({
            let o0 = offset;
            let o1 = o0 + size_of::<T0>();
            let o2 = o1 + size_of::<T1>();
            let o3 = o2 + size_of::<T2>();
            let o4 = o3 + size_of::<T3>();
            let o5 = o4 + size_of::<T4>();
            &&& <(T0, T1, T2, T3, T4) as ReprHash>::spec_repr_hash(offset).0 == T0::spec_repr_hash(o0).0 + T1::spec_repr_hash(o1).0 + T2::spec_repr_hash(o2).0 + T3::spec_repr_hash(o3).0 + T4::spec_repr_hash(o4).0
            &&& T0::spec_repr_hash(o0).1 <= usize::MAX && o1 <= usize::MAX && T1::spec_repr_hash(o1).1 <= usize::MAX && o2 <= usize::MAX && T2::spec_repr_hash(o2).1 <= usize::MAX && o3 <= usize::MAX && T3::spec_repr_hash(o3).1 <= usize::MAX && o4 <= usize::MAX && T4::spec_repr_hash(o4).1 <= usize::MAX && o5 <= usize::MAX ==> <(T0, T1, T2, T3, T4) as ReprHash>::spec_repr_hash(offset).1 == o5
        }),
{
}

/// Law: a tuple of 6 elements feeds what each element feeds at its offset, the
/// offsets following the sizes of the elements before it; when all offsets fit, the
/// offset moves past the tuple.
pub proof fn lemma_tuple6_repr_hash<T0: ReprHash, T1: ReprHash, T2: ReprHash, T3: ReprHash, T4: ReprHash, T5: ReprHash>(offset: nat)
    ensures
        ({
            let o0 = offset;
            let o1 = o0 + size_of::<T0>();
            let o2 = o1 + size_of::<T1>();
            let o3 = o2 + size_of::<T2>();
            let o4 = o3 + size_of::<T3>();
            let o5 = o4 + size_of::<T4>();
            let o6 = o5 + size_of::<T5>();
            &&& <(T0, T1, T2, T3, T4, T5) as ReprHash>::spec_repr_hash(offset).0 == T0::spec_repr_hash(o0).0 + T1::spec_repr_hash(o1).0 + T2::spec_repr_hash(o2).0 + T3::spec_repr_hash(o3).0 + T4::spec_repr_hash(o4).0 + T5::spec_repr_hash(o5).0
            &&& T0::spec_repr_hash(o0).1 <= usize::MAX && o1 <= usize::MAX && T1::spec_repr_hash(o1).1 <= usize::MAX && o2 <= usize::MAX && T2::spec_repr_hash(o2).1 <= usize::MAX && o3 <= usize::MAX && T3::spec_repr_hash(o3).1 <= usize::MAX && o4 <= usize::MAX && T4::spec_repr_hash(o4).1 <= usize::MAX && o5 <= usize::MAX && T5::spec_repr_hash(o5).1 <= usize::MAX && o6 <= usize::MAX ==> <(T0, T1, T2, T3, T4, T5) as ReprHash>::spec_repr_hash(offset).1 == o6
        }),
{
}

/// Law: a tuple of 7 elements feeds what each element feeds at its offset, the
/// offsets following the sizes of the elements before it; when all offsets fit, the
/// offset moves past the tuple.
pub proof fn lemma_tuple7_repr_hash<T0: ReprHash, T1: ReprHash, T2: ReprHash, T3: ReprHash, T4: ReprHash, T5: ReprHash, T6: ReprHash>(offset: nat)
    ensures
        ({
            let o0 = offset;
            let o1 = o0 + size_of::<T0>();
            let o2 = o1 + size_of::<T1>();
            let o3 = o2 + size_of::<T2>();
            let o4 = o3 + size_of::<T3>();
            let o5 = o4 + size_of::<T4>();
            let o6 = o5 + size_of::<T5>();
            let o7 = o6 + size_of::<T6>();
            &&& <(T0, T1, T2, T3, T4, T5, T6) as ReprHash>::spec_repr_hash(offset).0 == T0::spec_repr_hash(o0).0 + T1::spec_repr_hash(o1).0 + T2::spec_repr_hash(o2).0 + T3::spec_repr_hash(o3).0 + T4::spec_repr_hash(o4).0 + T5::spec_repr_hash(o5).0 + T6::spec_repr_hash(o6).0
            &&& T0::spec_repr_hash(o0).1 <= usize::MAX && o1 <= usize::MAX && T1::spec_repr_hash(o1).1 <= usize::MAX && o2 <= usize::MAX && T2::spec_repr_hash(o2).1 <= usize::MAX && o3 <= usize::MAX && T3::spec_repr_hash(o3).1 <= usize::MAX && o4 <= usize::MAX && T4::spec_repr_hash(o4).1 <= usize::MAX && o5 <= usize::MAX && T5::spec_repr_hash(o5).1 <= usize::MAX && o6 <= usize::MAX && T6::spec_repr_hash(o6).1 <= usize::MAX && o7 <= usize::MAX ==> <(T0, T1, T2, T3, T4, T5, T6) as ReprHash>::spec_repr_hash(offset).1 == o7
        }),
{
}

/// Law: a tuple of 8 elements feeds what each element feeds at its offset, the
/// offsets following the sizes of the elements before it; when all offsets fit, the
/// offset moves past the tuple.
pub proof fn lemma_tuple8_repr_hash<T0: ReprHash, T1: ReprHash, T2: ReprHash, T3: ReprHash, T4: ReprHash, T5: ReprHash, T6: ReprHash, T7: ReprHash>(offset: nat)
    ensures
        ({
            let o0 = offset;
            let o1 = o0 + size_of::<T0>();
            let o2 = o1 + size_of::<T1>();
            let o3 = o2 + size_of::<T2>();
            let o4 = o3 + size_of::<T3>();
            let o5 = o4 + size_of::<T4>();
            let o6 = o5 + size_of::<T5>();
            let o7 = o6 + size_of::<T6>();
            let o8 = o7 + size_of::<T7>();
            &&& <(T0, T1, T2, T3, T4, T5, T6, T7) as ReprHash>::spec_repr_hash(offset).0 == T0::spec_repr_hash(o0).0 + T1::spec_repr_hash(o1).0 + T2::spec_repr_hash(o2).0 + T3::spec_repr_hash(o3).0 + T4::spec_repr_hash(o4).0 + T5::spec_repr_hash(o5).0 + T6::spec_repr_hash(o6).0 + T7::spec_repr_hash(o7).0
            &&& T0::spec_repr_hash(o0).1 <= usize::MAX && o1 <= usize::MAX && T1::spec_repr_hash(o1).1 <= usize::MAX && o2 <= usize::MAX && T2::spec_repr_hash(o2).1 <= usize::MAX && o3 <= usize::MAX && T3::spec_repr_hash(o3).1 <= usize::MAX && o4 <= usize::MAX && T4::spec_repr_hash(o4).1 <= usize::MAX && o5 <= usize::MAX && T5::spec_repr_hash(o5).1 <= usize::MAX && o6 <= usize::MAX && T6::spec_repr_hash(o6).1 <= usize::MAX && o7 <= usize::MAX && T7::spec_repr_hash(o7).1 <= usize::MAX && o8 <= usize::MAX ==> <(T0, T1, T2, T3, T4, T5, T6, T7) as ReprHash>::spec_repr_hash(offset).1 == o8
        }),
{
}

/// Law: a tuple of 9 elements feeds what each element feeds at its offset, the
/// offsets following the sizes of the elements before it; when all offsets fit, the
/// offset moves past the tuple.
pub proof fn lemma_tuple9_repr_hash<T0: ReprHash, T1: ReprHash, T2: ReprHash, T3: ReprHash, T4: ReprHash, T5: ReprHash, T6: ReprHash, T7: ReprHash, T8: ReprHash>(offset: nat)
    ensures
        ({
            let o0 = offset;
            let o1 = o0 + size_of::<T0>();
            let o2 = o1 + size_of::<T1>();
            let o3 = o2 + size_of::<T2>();
            let o4 = o3 + size_of::<T3>();
            let o5 = o4 + size_of::<T4>();
            let o6 = o5 + size_of::<T5>();
            let o7 = o6 + size_of::<T6>();
            let o8 = o7 + size_of::<T7>();
            let o9 = o8 + size_of::<T8>();
            &&& <(T0, T1, T2, T3, T4, T5, T6, T7, T8) as ReprHash>::spec_repr_hash(offset).0 == T0::spec_repr_hash(o0).0 + T1::spec_repr_hash(o1).0 + T2::spec_repr_hash(o2).0 + T3::spec_repr_hash(o3).0 + T4::spec_repr_hash(o4).0 + T5::spec_repr_hash(o5).0 + T6::spec_repr_hash(o6).0 + T7::spec_repr_hash(o7).0 + T8::spec_repr_hash(o8).0
            &&& T0::spec_repr_hash(o0).1 <= usize::MAX && o1 <= usize::MAX && T1::spec_repr_hash(o1).1 <= usize::MAX && o2 <= usize::MAX && T2::spec_repr_hash(o2).1 <= usize::MAX && o3 <= usize::MAX && T3::spec_repr_hash(o3).1 <= usize::MAX && o4 <= usize::MAX && T4::spec_repr_hash(o4).1 <= usize::MAX && o5 <= usize::MAX && T5::spec_repr_hash(o5).1 <= usize::MAX && o6 <= usize::MAX && T6::spec_repr_hash(o6).1 <= usize::MAX && o7 <= usize::MAX && T7::spec_repr_hash(o7).1 <= usize::MAX && o8 <= usize::MAX && T8::spec_repr_hash(o8).1 <= usize::MAX && o9 <= usize::MAX ==> <(T0, T1, T2, T3, T4, T5, T6, T7, T8) as ReprHash>::spec_repr_hash(offset).1 == o9
        }),
{
}

/// Law: a tuple of 10 elements feeds what each element feeds at its offset, the
/// offsets following the sizes of the elements before it; when all offsets fit, the
/// offset moves past the tuple.
pub proof fn lemma_tuple10_repr_hash<T0: ReprHash, T1: ReprHash, T2: ReprHash, T3: ReprHash, T4: ReprHash, T5: ReprHash, T6: ReprHash, T7: ReprHash, T8: ReprHash, T9: ReprHash>(offset: nat)
    ensures
        ({
            let o0 = offset;
            let o1 = o0 + size_of::<T0>();
            let o2 = o1 + size_of::<T1>();
            let o3 = o2 + size_of::<T2>();
            let o4 = o3 + size_of::<T3>();
            let o5 = o4 + size_of::<T4>();
            let o6 = o5 + size_of::<T5>();
            let o7 = o6 + size_of::<T6>();
            let o8 = o7 + size_of::<T7>();
            let o9 = o8 + size_of::<T8>();
            let o10 = o9 + size_of::<T9>();
            &&& <(T0, T1, T2, T3, T4, T5, T6, T7, T8, T9) as ReprHash>::spec_repr_hash(offset).0 == T0::spec_repr_hash(o0).0 + T1::spec_repr_hash(o1).0 + T2::spec_repr_hash(o2).0 + T3::spec_repr_hash(o3).0 + T4::spec_repr_hash(o4).0 + T5::spec_repr_hash(o5).0 + T6::spec_repr_hash(o6).0 + T7::spec_repr_hash(o7).0 + T8::spec_repr_hash(o8).0 + T9::spec_repr_hash(o9).0
            &&& T0::spec_repr_hash(o0).1 <= usize::MAX && o1 <= usize::MAX && T1::spec_repr_hash(o1).1 <= usize::MAX && o2 <= usize::MAX && T2::spec_repr_hash(o2).1 <= usize::MAX && o3 <= usize::MAX && T3::spec_repr_hash(o3).1 <= usize::MAX && o4 <= usize::MAX && T4::spec_repr_hash(o4).1 <= usize::MAX && o5 <= usize::MAX && T5::spec_repr_hash(o5).1 <= usize::MAX && o6 <= usize::MAX && T6::spec_repr_hash(o6).1 <= usize::MAX && o7 <= usize::MAX && T7::spec_repr_hash(o7).1 <= usize::MAX && o8 <= usize::MAX && T8::spec_repr_hash(o8).1 <= usize::MAX && o9 <= usize::MAX && T9::spec_repr_hash(o9).1 <= usize::MAX && o10 <= usize::MAX ==> <(T0, T1, T2, T3, T4, T5, T6, T7, T8, T9) as ReprHash>::spec_repr_hash(offset).1 == o10
        }),
{
}

/// Law: a tuple of 11 elements feeds what each element feeds at its offset, the
/// offsets following the sizes of the elements before it; when all offsets fit, the
/// offset moves past the tuple.
pub proof fn lemma_tuple11_repr_hash<T0: ReprHash, T1: ReprHash, T2: ReprHash, T3: ReprHash, T4: ReprHash, T5: ReprHash, T6: ReprHash, T7: ReprHash, T8: ReprHash, T9: ReprHash, T10: ReprHash>(offset: nat)
    ensures
        ({
            let o0 = offset;
            let o1 = o0 + size_of::<T0>();
            let o2 = o1 + size_of::<T1>();
            let o3 = o2 + size_of::<T2>();
            let o4 = o3 + size_of::<T3>();
            let o5 = o4 + size_of::<T4>();
            let o6 = o5 + size_of::<T5>();
            let o7 = o6 + size_of::<T6>();
            let o8 = o7 + size_of::<T7>();
            let o9 = o8 + size_of::<T8>();
            let o10 = o9 + size_of::<T9>();
            let o11 = o10 + size_of::<T10>();
            &&& <(T0, T1, T2, T3, T4, T5, T6, T7, T8, T9, T10) as ReprHash>::spec_repr_hash(offset).0 == T0::spec_repr_hash(o0).0 + T1::spec_repr_hash(o1).0 + T2::spec_repr_hash(o2).0 + T3::spec_repr_hash(o3).0 + T4::spec_repr_hash(o4).0 + T5::spec_repr_hash(o5).0 + T6::spec_repr_hash(o6).0 + T7::spec_repr_hash(o7).0 + T8::spec_repr_hash(o8).0 + T9::spec_repr_hash(o9).0 + T10::spec_repr_hash(o10).0
            &&& T0::spec_repr_hash(o0).1 <= usize::MAX && o1 <= usize::MAX && T1::spec_repr_hash(o1).1 <= usize::MAX && o2 <= usize::MAX && T2::spec_repr_hash(o2).1 <= usize::MAX && o3 <= usize::MAX && T3::spec_repr_hash(o3).1 <= usize::MAX && o4 <= usize::MAX && T4::spec_repr_hash(o4).1 <= usize::MAX && o5 <= usize::MAX && T5::spec_repr_hash(o5).1 <= usize::MAX && o6 <= usize::MAX && T6::spec_repr_hash(o6).1 <= usize::MAX && o7 <= usize::MAX && T7::spec_repr_hash(o7).1 <= usize::MAX && o8 <= usize::MAX && T8::spec_repr_hash(o8).1 <= usize::MAX && o9 <= usize::MAX && T9::spec_repr_hash(o9).1 <= usize::MAX && o10 <= usize::MAX && T10::spec_repr_hash(o10).1 <= usize::MAX && o11 <= usize::MAX ==> <(T0, T1, T2, T3, T4, T5, T6, T7, T8, T9, T10) as ReprHash>::spec_repr_hash(offset).1 == o11
        }),
{
}

} // verus!
