//! Laws on the alignment used for zero-copy data: primitive types are aligned to their
//! size, and composite types to the largest alignment of their parts.

use vstd::prelude::*;
use vstd::layout::*;
use crate::traits::MaxSizeOf;

verus! {

broadcast use vstd::layout::layout_of_primitives, vstd::layout::align_properties;

/// Law: a primitive type is aligned, when serialized, to its size in memory, which is
/// a multiple of its alignment in memory.
pub proof fn lemma_primitive_max_size_of()
    ensures
        <u8 as MaxSizeOf>::spec_max_size_of() as nat == size_of::<u8>() && size_of::<u8>() == 1,
        <u16 as MaxSizeOf>::spec_max_size_of() as nat == size_of::<u16>() && size_of::<u16>() == 2,
        <u32 as MaxSizeOf>::spec_max_size_of() as nat == size_of::<u32>() && size_of::<u32>() == 4,
        <u64 as MaxSizeOf>::spec_max_size_of() as nat == size_of::<u64>() && size_of::<u64>() == 8,
        <u128 as MaxSizeOf>::spec_max_size_of() as nat == size_of::<u128>() && size_of::<u128>() == 16,
        <i8 as MaxSizeOf>::spec_max_size_of() as nat == size_of::<i8>() && size_of::<i8>() == 1,
        <i16 as MaxSizeOf>::spec_max_size_of() as nat == size_of::<i16>() && size_of::<i16>() == 2,
        <i32 as MaxSizeOf>::spec_max_size_of() as nat == size_of::<i32>() && size_of::<i32>() == 4,
        <i64 as MaxSizeOf>::spec_max_size_of() as nat == size_of::<i64>() && size_of::<i64>() == 8,
        <i128 as MaxSizeOf>::spec_max_size_of() as nat == size_of::<i128>() && size_of::<i128>() == 16,
        <bool as MaxSizeOf>::spec_max_size_of() as nat == size_of::<bool>() && size_of::<bool>() == 1,
        <char as MaxSizeOf>::spec_max_size_of() as nat == size_of::<char>() && size_of::<char>() == 4,
        <usize as MaxSizeOf>::spec_max_size_of() as nat == size_of::<usize>(),
        <isize as MaxSizeOf>::spec_max_size_of() as nat == size_of::<isize>(),
        <usize as MaxSizeOf>::spec_max_size_of() * 8 == usize::BITS,
        <() as MaxSizeOf>::spec_max_size_of() as nat == size_of::<()>(),
{
}

/// Law: the serialized alignment of a primitive type is at least its alignment in
/// memory.
pub proof fn lemma_primitive_max_size_of_aligns()
    ensures
        align_of::<u8>() <= <u8 as MaxSizeOf>::spec_max_size_of(),
        align_of::<u16>() <= <u16 as MaxSizeOf>::spec_max_size_of(),
        align_of::<u32>() <= <u32 as MaxSizeOf>::spec_max_size_of(),
        align_of::<u64>() <= <u64 as MaxSizeOf>::spec_max_size_of(),
        align_of::<u128>() <= <u128 as MaxSizeOf>::spec_max_size_of(),
        align_of::<i8>() <= <i8 as MaxSizeOf>::spec_max_size_of(),
        align_of::<i16>() <= <i16 as MaxSizeOf>::spec_max_size_of(),
        align_of::<i32>() <= <i32 as MaxSizeOf>::spec_max_size_of(),
        align_of::<i64>() <= <i64 as MaxSizeOf>::spec_max_size_of(),
        align_of::<i128>() <= <i128 as MaxSizeOf>::spec_max_size_of(),
        align_of::<bool>() <= <bool as MaxSizeOf>::spec_max_size_of(),
        align_of::<char>() <= <char as MaxSizeOf>::spec_max_size_of(),
        align_of::<usize>() <= <usize as MaxSizeOf>::spec_max_size_of(),
        align_of::<isize>() <= <isize as MaxSizeOf>::spec_max_size_of(),
{
    lemma_align_at_most_size::<u8>();
    lemma_align_at_most_size::<u16>();
    lemma_align_at_most_size::<u32>();
    lemma_align_at_most_size::<u64>();
    lemma_align_at_most_size::<u128>();
    lemma_align_at_most_size::<i8>();
    lemma_align_at_most_size::<i16>();
    lemma_align_at_most_size::<i32>();
    lemma_align_at_most_size::<i64>();
    lemma_align_at_most_size::<i128>();
    lemma_align_at_most_size::<bool>();
    lemma_align_at_most_size::<char>();
    lemma_align_at_most_size::<usize>();
    lemma_align_at_most_size::<isize>();
}

/// The alignment of a type of nonzero size is at most its size.
proof fn lemma_align_at_most_size<T>()
    requires
        size_of::<T>() > 0,
    ensures
        align_of::<T>() <= size_of::<T>(),
{
    broadcast use vstd::layout::align_nonzero;
    let a = align_of::<T>() as int;
    let s = size_of::<T>() as int;
    vstd::arithmetic::div_mod::lemma_fundamental_div_mod(s, a);
    assert(s == a * (s / a));
    assert(s / a >= 1) by (nonlinear_arith)
        requires
            s > 0,
            a > 0,
            s == a * (s / a),
    ;
    assert(a <= s) by (nonlinear_arith)
        requires
            s / a >= 1,
            a > 0,
            s == a * (s / a),
    ;
}

/// Law: an array is aligned as its items.
pub proof fn lemma_array_max_size_of<T: MaxSizeOf, const N: usize>()
    ensures
        <[T; N] as MaxSizeOf>::spec_max_size_of() == T::spec_max_size_of(),
{
}

/// Law: a tuple of 1 element is aligned to the largest alignment among its elements.
pub proof fn lemma_tuple1_max_size_of<T0: MaxSizeOf>()
    ensures
        T0::spec_max_size_of() <= <(T0,) as MaxSizeOf>::spec_max_size_of(),
        <(T0,) as MaxSizeOf>::spec_max_size_of() == T0::spec_max_size_of(),
{
}

/// Law: a tuple of 2 elements is aligned to the largest alignment among its elements.
pub proof fn lemma_tuple2_max_size_of<T0: MaxSizeOf, T1: MaxSizeOf>()
    ensures
        T0::spec_max_size_of() <= <(T0, T1) as MaxSizeOf>::spec_max_size_of(),
        T1::spec_max_size_of() <= <(T0, T1) as MaxSizeOf>::spec_max_size_of(),
        <(T0, T1) as MaxSizeOf>::spec_max_size_of() == T0::spec_max_size_of() || <(T0, T1) as MaxSizeOf>::spec_max_size_of() == T1::spec_max_size_of(),
{
}

/// Law: a tuple of 3 elements is aligned to the largest alignment among its elements.
pub proof fn lemma_tuple3_max_size_of<T0: MaxSizeOf, T1: MaxSizeOf, T2: MaxSizeOf>()
    ensures
        T0::spec_max_size_of() <= <(T0, T1, T2) as MaxSizeOf>::spec_max_size_of(),
        T1::spec_max_size_of() <= <(T0, T1, T2) as MaxSizeOf>::spec_max_size_of(),
        T2::spec_max_size_of() <= <(T0, T1, T2) as MaxSizeOf>::spec_max_size_of(),
        <(T0, T1, T2) as MaxSizeOf>::spec_max_size_of() == T0::spec_max_size_of() || <(T0, T1, T2) as MaxSizeOf>::spec_max_size_of() == T1::spec_max_size_of() || <(T0, T1, T2) as MaxSizeOf>::spec_max_size_of() == T2::spec_max_size_of(),
{
}

/// Law: a tuple of 4 elements is aligned to the largest alignment among its elements.
pub proof fn lemma_tuple4_max_size_of<T0: MaxSizeOf, T1: MaxSizeOf, T2: MaxSizeOf, T3: MaxSizeOf>()
    ensures
        T0::spec_max_size_of() <= <(T0, T1, T2, T3) as MaxSizeOf>::spec_max_size_of(),
        T1::spec_max_size_of() <= <(T0, T1, T2, T3) as MaxSizeOf>::spec_max_size_of(),
        T2::spec_max_size_of() <= <(T0, T1, T2, T3) as MaxSizeOf>::spec_max_size_of(),
        T3::spec_max_size_of() <= <(T0, T1, T2, T3) as MaxSizeOf>::spec_max_size_of(),
        <(T0, T1, T2, T3) as MaxSizeOf>::spec_max_size_of() == T0::spec_max_size_of() || <(T0, T1, T2, T3) as MaxSizeOf>::spec_max_size_of() == T1::spec_max_size_of() || <(T0, T1, T2, T3) as MaxSizeOf>::spec_max_size_of() == T2::spec_max_size_of() || <(T0, T1, T2, T3) as MaxSizeOf>::spec_max_size_of() == T3::spec_max_size_of(),
{
}

/// Law: a tuple of 5 elements is aligned to the largest alignment among its elements.
pub proof fn lemma_tuple5_max_size_of<T0: MaxSizeOf, T1: MaxSizeOf, T2: MaxSizeOf, T3: MaxSizeOf, T4: MaxSizeOf>()
    ensures
        T0::spec_max_size_of() <= <(T0, T1, T2, T3, T4) as MaxSizeOf>::spec_max_size_of(),
        T1::spec_max_size_of() <= <(T0, T1, T2, T3, T4) as MaxSizeOf>::spec_max_size_of(),
        T2::spec_max_size_of() <= <(T0, T1, T2, T3, T4) as MaxSizeOf>::spec_max_size_of(),
        T3::spec_max_size_of() <= <(T0, T1, T2, T3, T4) as MaxSizeOf>::spec_max_size_of(),
        T4::spec_max_size_of() <= <(T0, T1, T2, T3, T4) as MaxSizeOf>::spec_max_size_of(),
        <(T0, T1, T2, T3, T4) as MaxSizeOf>::spec_max_size_of() == T0::spec_max_size_of() || <(T0, T1, T2, T3, T4) as MaxSizeOf>::spec_max_size_of() == T1::spec_max_size_of() || <(T0, T1, T2, T3, T4) as MaxSizeOf>::spec_max_size_of() == T2::spec_max_size_of() || <(T0, T1, T2, T3, T4) as MaxSizeOf>::spec_max_size_of() == T3::spec_max_size_of() || <(T0, T1, T2, T3, T4) as MaxSizeOf>::spec_max_size_of() == T4::spec_max_size_of(),
{
}

/// Law: a tuple of 6 elements is aligned to the largest alignment among its elements.
pub proof fn lemma_tuple6_max_size_of<T0: MaxSizeOf, T1: MaxSizeOf, T2: MaxSizeOf, T3: MaxSizeOf, T4: MaxSizeOf, T5: MaxSizeOf>()
    ensures
        T0::spec_max_size_of() <= <(T0, T1, T2, T3, T4, T5) as MaxSizeOf>::spec_max_size_of(),
        T1::spec_max_size_of() <= <(T0, T1, T2, T3, T4, T5) as MaxSizeOf>::spec_max_size_of(),
        T2::spec_max_size_of() <= <(T0, T1, T2, T3, T4, T5) as MaxSizeOf>::spec_max_size_of(),
        T3::spec_max_size_of() <= <(T0, T1, T2, T3, T4, T5) as MaxSizeOf>::spec_max_size_of(),
        T4::spec_max_size_of() <= <(T0, T1, T2, T3, T4, T5) as MaxSizeOf>::spec_max_size_of(),
        T5::spec_max_size_of() <= <(T0, T1, T2, T3, T4, T5) as MaxSizeOf>::spec_max_size_of(),
        <(T0, T1, T2, T3, T4, T5) as MaxSizeOf>::spec_max_size_of() == T0::spec_max_size_of() || <(T0, T1, T2, T3, T4, T5) as MaxSizeOf>::spec_max_size_of() == T1::spec_max_size_of() || <(T0, T1, T2, T3, T4, T5) as MaxSizeOf>::spec_max_size_of() == T2::spec_max_size_of() || <(T0, T1, T2, T3, T4, T5) as MaxSizeOf>::spec_max_size_of() == T3::spec_max_size_of() || <(T0, T1, T2, T3, T4, T5) as MaxSizeOf>::spec_max_size_of() == T4::spec_max_size_of() || <(T0, T1, T2, T3, T4, T5) as MaxSizeOf>::spec_max_size_of() == T5::spec_max_size_of(),
{
}

/// Law: a tuple of 7 elements is aligned to the largest alignment among its elements.
pub proof fn lemma_tuple7_max_size_of<T0: MaxSizeOf, T1: MaxSizeOf, T2: MaxSizeOf, T3: MaxSizeOf, T4: MaxSizeOf, T5: MaxSizeOf, T6: MaxSizeOf>()
    ensures
        T0::spec_max_size_of() <= <(T0, T1, T2, T3, T4, T5, T6) as MaxSizeOf>::spec_max_size_of(),
        T1::spec_max_size_of() <= <(T0, T1, T2, T3, T4, T5, T6) as MaxSizeOf>::spec_max_size_of(),
        T2::spec_max_size_of() <= <(T0, T1, T2, T3, T4, T5, T6) as MaxSizeOf>::spec_max_size_of(),
        T3::spec_max_size_of() <= <(T0, T1, T2, T3, T4, T5, T6) as MaxSizeOf>::spec_max_size_of(),
        T4::spec_max_size_of() <= <(T0, T1, T2, T3, T4, T5, T6) as MaxSizeOf>::spec_max_size_of(),
        T5::spec_max_size_of() <= <(T0, T1, T2, T3, T4, T5, T6) as MaxSizeOf>::spec_max_size_of(),
        T6::spec_max_size_of() <= <(T0, T1, T2, T3, T4, T5, T6) as MaxSizeOf>::spec_max_size_of(),
        <(T0, T1, T2, T3, T4, T5, T6) as MaxSizeOf>::spec_max_size_of() == T0::spec_max_size_of() || <(T0, T1, T2, T3, T4, T5, T6) as MaxSizeOf>::spec_max_size_of() == T1::spec_max_size_of() || <(T0, T1, T2, T3, T4, T5, T6) as MaxSizeOf>::spec_max_size_of() == T2::spec_max_size_of() || <(T0, T1, T2, T3, T4, T5, T6) as MaxSizeOf>::spec_max_size_of() == T3::spec_max_size_of() || <(T0, T1, T2, T3, T4, T5, T6) as MaxSizeOf>::spec_max_size_of() == T4::spec_max_size_of() || <(T0, T1, T2, T3, T4, T5, T6) as MaxSizeOf>::spec_max_size_of() == T5::spec_max_size_of() || <(T0, T1, T2, T3, T4, T5, T6) as MaxSizeOf>::spec_max_size_of() == T6::spec_max_size_of(),
{
}

/// Law: a tuple of 8 elements is aligned to the largest alignment among its elements.
pub proof fn lemma_tuple8_max_size_of<T0: MaxSizeOf, T1: MaxSizeOf, T2: MaxSizeOf, T3: MaxSizeOf, T4: MaxSizeOf, T5: MaxSizeOf, T6: MaxSizeOf, T7: MaxSizeOf>()
    ensures
        T0::spec_max_size_of() <= <(T0, T1, T2, T3, T4, T5, T6, T7) as MaxSizeOf>::spec_max_size_of(),
        T1::spec_max_size_of() <= <(T0, T1, T2, T3, T4, T5, T6, T7) as MaxSizeOf>::spec_max_size_of(),
        T2::spec_max_size_of() <= <(T0, T1, T2, T3, T4, T5, T6, T7) as MaxSizeOf>::spec_max_size_of(),
        T3::spec_max_size_of() <= <(T0, T1, T2, T3, T4, T5, T6, T7) as MaxSizeOf>::spec_max_size_of(),
        T4::spec_max_size_of() <= <(T0, T1, T2, T3, T4, T5, T6, T7) as MaxSizeOf>::spec_max_size_of(),
        T5::spec_max_size_of() <= <(T0, T1, T2, T3, T4, T5, T6, T7) as MaxSizeOf>::spec_max_size_of(),
        T6::spec_max_size_of() <= <(T0, T1, T2, T3, T4, T5, T6, T7) as MaxSizeOf>::spec_max_size_of(),
        T7::spec_max_size_of() <= <(T0, T1, T2, T3, T4, T5, T6, T7) as MaxSizeOf>::spec_max_size_of(),
        <(T0, T1, T2, T3, T4, T5, T6, T7) as MaxSizeOf>::spec_max_size_of() == T0::spec_max_size_of() || <(T0, T1, T2, T3, T4, T5, T6, T7) as MaxSizeOf>::spec_max_size_of() == T1::spec_max_size_of() || <(T0, T1, T2, T3, T4, T5, T6, T7) as MaxSizeOf>::spec_max_size_of() == T2::spec_max_size_of() || <(T0, T1, T2, T3, T4, T5, T6, T7) as MaxSizeOf>::spec_max_size_of() == T3::spec_max_size_of() || <(T0, T1, T2, T3, T4, T5, T6, T7) as MaxSizeOf>::spec_max_size_of() == T4::spec_max_size_of() || <(T0, T1, T2, T3, T4, T5, T6, T7) as MaxSizeOf>::spec_max_size_of() == T5::spec_max_size_of() || <(T0, T1, T2, T3, T4, T5, T6, T7) as MaxSizeOf>::spec_max_size_of() == T6::spec_max_size_of() || <(T0, T1, T2, T3, T4, T5, T6, T7) as MaxSizeOf>::spec_max_size_of() == T7::spec_max_size_of(),
{
}

/// Law: a tuple of 9 elements is aligned to the largest alignment among its elements.
pub proof fn lemma_tuple9_max_size_of<T0: MaxSizeOf, T1: MaxSizeOf, T2: MaxSizeOf, T3: MaxSizeOf, T4: MaxSizeOf, T5: MaxSizeOf, T6: MaxSizeOf, T7: MaxSizeOf, T8: MaxSizeOf>()
    ensures
        T0::spec_max_size_of() <= <(T0, T1, T2, T3, T4, T5, T6, T7, T8) as MaxSizeOf>::spec_max_size_of(),
        T1::spec_max_size_of() <= <(T0, T1, T2, T3, T4, T5, T6, T7, T8) as MaxSizeOf>::spec_max_size_of(),
        T2::spec_max_size_of() <= <(T0, T1, T2, T3, T4, T5, T6, T7, T8) as MaxSizeOf>::spec_max_size_of(),
        T3::spec_max_size_of() <= <(T0, T1, T2, T3, T4, T5, T6, T7, T8) as MaxSizeOf>::spec_max_size_of(),
        T4::spec_max_size_of() <= <(T0, T1, T2, T3, T4, T5, T6, T7, T8) as MaxSizeOf>::spec_max_size_of(),
        T5::spec_max_size_of() <= <(T0, T1, T2, T3, T4, T5, T6, T7, T8) as MaxSizeOf>::spec_max_size_of(),
        T6::spec_max_size_of() <= <(T0, T1, T2, T3, T4, T5, T6, T7, T8) as MaxSizeOf>::spec_max_size_of(),
        T7::spec_max_size_of() <= <(T0, T1, T2, T3, T4, T5, T6, T7, T8) as MaxSizeOf>::spec_max_size_of(),
        T8::spec_max_size_of() <= <(T0, T1, T2, T3, T4, T5, T6, T7, T8) as MaxSizeOf>::spec_max_size_of(),
        <(T0, T1, T2, T3, T4, T5, T6, T7, T8) as MaxSizeOf>::spec_max_size_of() == T0::spec_max_size_of() || <(T0, T1, T2, T3, T4, T5, T6, T7, T8) as MaxSizeOf>::spec_max_size_of() == T1::spec_max_size_of() || <(T0, T1, T2, T3, T4, T5, T6, T7, T8) as MaxSizeOf>::spec_max_size_of() == T2::spec_max_size_of() || <(T0, T1, T2, T3, T4, T5, T6, T7, T8) as MaxSizeOf>::spec_max_size_of() == T3::spec_max_size_of() || <(T0, T1, T2, T3, T4, T5, T6, T7, T8) as MaxSizeOf>::spec_max_size_of() == T4::spec_max_size_of() || <(T0, T1, T2, T3, T4, T5, T6, T7, T8) as MaxSizeOf>::spec_max_size_of() == T5::spec_max_size_of() || <(T0, T1, T2, T3, T4, T5, T6, T7, T8) as MaxSizeOf>::spec_max_size_of() == T6::spec_max_size_of() || <(T0, T1, T2, T3, T4, T5, T6, T7, T8) as MaxSizeOf>::spec_max_size_of() == T7::spec_max_size_of() || <(T0, T1, T2, T3, T4, T5, T6, T7, T8) as MaxSizeOf>::spec_max_size_of() == T8::spec_max_size_of(),
{
}

/// Law: a tuple of 10 elements is aligned to the largest alignment among its elements.
pub proof fn lemma_tuple10_max_size_of<T0: MaxSizeOf, T1: MaxSizeOf, T2: MaxSizeOf, T3: MaxSizeOf, T4: MaxSizeOf, T5: MaxSizeOf, T6: MaxSizeOf, T7: MaxSizeOf, T8: MaxSizeOf, T9: MaxSizeOf>()
    ensures
        T0::spec_max_size_of() <= <(T0, T1, T2, T3, T4, T5, T6, T7, T8, T9) as MaxSizeOf>::spec_max_size_of(),
        T1::spec_max_size_of() <= <(T0, T1, T2, T3, T4, T5, T6, T7, T8, T9) as MaxSizeOf>::spec_max_size_of(),
        T2::spec_max_size_of() <= <(T0, T1, T2, T3, T4, T5, T6, T7, T8, T9) as MaxSizeOf>::spec_max_size_of(),
        T3::spec_max_size_of() <= <(T0, T1, T2, T3, T4, T5, T6, T7, T8, T9) as MaxSizeOf>::spec_max_size_of(),
        T4::spec_max_size_of() <= <(T0, T1, T2, T3, T4, T5, T6, T7, T8, T9) as MaxSizeOf>::spec_max_size_of(),
        T5::spec_max_size_of() <= <(T0, T1, T2, T3, T4, T5, T6, T7, T8, T9) as MaxSizeOf>::spec_max_size_of(),
        T6::spec_max_size_of() <= <(T0, T1, T2, T3, T4, T5, T6, T7, T8, T9) as MaxSizeOf>::spec_max_size_of(),
        T7::spec_max_size_of() <= <(T0, T1, T2, T3, T4, T5, T6, T7, T8, T9) as MaxSizeOf>::spec_max_size_of(),
        T8::spec_max_size_of() <= <(T0, T1, T2, T3, T4, T5, T6, T7, T8, T9) as MaxSizeOf>::spec_max_size_of(),
        T9::spec_max_size_of() <= <(T0, T1, T2, T3, T4, T5, T6, T7, T8, T9) as MaxSizeOf>::spec_max_size_of(),
        <(T0, T1, T2, T3, T4, T5, T6, T7, T8, T9) as MaxSizeOf>::spec_max_size_of() == T0::spec_max_size_of() || <(T0, T1, T2, T3, T4, T5, T6, T7, T8, T9) as MaxSizeOf>::spec_max_size_of() == T1::spec_max_size_of() || <(T0, T1, T2, T3, T4, T5, T6, T7, T8, T9) as MaxSizeOf>::spec_max_size_of() == T2::spec_max_size_of() || <(T0, T1, T2, T3, T4, T5, T6, T7, T8, T9) as MaxSizeOf>::spec_max_size_of() == T3::spec_max_size_of() || <(T0, T1, T2, T3, T4, T5, T6, T7, T8, T9) as MaxSizeOf>::spec_max_size_of() == T4::spec_max_size_of() || <(T0, T1, T2, T3, T4, T5, T6, T7, T8, T9) as MaxSizeOf>::spec_max_size_of() == T5::spec_max_size_of() || <(T0, T1, T2, T3, T4, T5, T6, T7, T8, T9) as MaxSizeOf>::spec_max_size_of() == T6::spec_max_size_of() || <(T0, T1, T2, T3, T4, T5, T6, T7, T8, T9) as MaxSizeOf>::spec_max_size_of() == T7::spec_max_size_of() || <(T0, T1, T2, T3, T4, T5, T6, T7, T8, T9) as MaxSizeOf>::spec_max_size_of() == T8::spec_max_size_of() || <(T0, T1, T2, T3, T4, T5, T6, T7, T8, T9) as MaxSizeOf>::spec_max_size_of() == T9::spec_max_size_of(),
{
}

/// Law: a tuple of 11 elements is aligned to the largest alignment among its elements.
pub proof fn lemma_tuple11_max_size_of<T0: MaxSizeOf, T1: MaxSizeOf, T2: MaxSizeOf, T3: MaxSizeOf, T4: MaxSizeOf, T5: MaxSizeOf, T6: MaxSizeOf, T7: MaxSizeOf, T8: MaxSizeOf, T9: MaxSizeOf, T10: MaxSizeOf>()
    ensures
        T0::spec_max_size_of() <= <(T0, T1, T2, T3, T4, T5, T6, T7, T8, T9, T10) as MaxSizeOf>::spec_max_size_of(),
        T1::spec_max_size_of() <= <(T0, T1, T2, T3, T4, T5, T6, T7, T8, T9, T10) as MaxSizeOf>::spec_max_size_of(),
        T2::spec_max_size_of() <= <(T0, T1, T2, T3, T4, T5, T6, T7, T8, T9, T10) as MaxSizeOf>::spec_max_size_of(),
        T3::spec_max_size_of() <= <(T0, T1, T2, T3, T4, T5, T6, T7, T8, T9, T10) as MaxSizeOf>::spec_max_size_of(),
        T4::spec_max_size_of() <= <(T0, T1, T2, T3, T4, T5, T6, T7, T8, T9, T10) as MaxSizeOf>::spec_max_size_of(),
        T5::spec_max_size_of() <= <(T0, T1, T2, T3, T4, T5, T6, T7, T8, T9, T10) as MaxSizeOf>::spec_max_size_of(),
        T6::spec_max_size_of() <= <(T0, T1, T2, T3, T4, T5, T6, T7, T8, T9, T10) as MaxSizeOf>::spec_max_size_of(),
        T7::spec_max_size_of() <= <(T0, T1, T2, T3, T4, T5, T6, T7, T8, T9, T10) as MaxSizeOf>::spec_max_size_of(),
        T8::spec_max_size_of() <= <(T0, T1, T2, T3, T4, T5, T6, T7, T8, T9, T10) as MaxSizeOf>::spec_max_size_of(),
        T9::spec_max_size_of() <= <(T0, T1, T2, T3, T4, T5, T6, T7, T8, T9, T10) as MaxSizeOf>::spec_max_size_of(),
        T10::spec_max_size_of() <= <(T0, T1, T2, T3, T4, T5, T6, T7, T8, T9, T10) as MaxSizeOf>::spec_max_size_of(),
        <(T0, T1, T2, T3, T4, T5, T6, T7, T8, T9, T10) as MaxSizeOf>::spec_max_size_of() == T0::spec_max_size_of() || <(T0, T1, T2, T3, T4, T5, T6, T7, T8, T9, T10) as MaxSizeOf>::spec_max_size_of() == T1::spec_max_size_of() || <(T0, T1, T2, T3, T4, T5, T6, T7, T8, T9, T10) as MaxSizeOf>::spec_max_size_of() == T2::spec_max_size_of() || <(T0, T1, T2, T3, T4, T5, T6, T7, T8, T9, T10) as MaxSizeOf>::spec_max_size_of() == T3::spec_max_size_of() || <(T0, T1, T2, T3, T4, T5, T6, T7, T8, T9, T10) as MaxSizeOf>::spec_max_size_of() == T4::spec_max_size_of() || <(T0, T1, T2, T3, T4, T5, T6, T7, T8, T9, T10) as MaxSizeOf>::spec_max_size_of() == T5::spec_max_size_of() || <(T0, T1, T2, T3, T4, T5, T6, T7, T8, T9, T10) as MaxSizeOf>::spec_max_size_of() == T6::spec_max_size_of() || <(T0, T1, T2, T3, T4, T5, T6, T7, T8, T9, T10) as MaxSizeOf>::spec_max_size_of() == T7::spec_max_size_of() || <(T0, T1, T2, T3, T4, T5, T6, T7, T8, T9, T10) as MaxSizeOf>::spec_max_size_of() == T8::spec_max_size_of() || <(T0, T1, T2, T3, T4, T5, T6, T7, T8, T9, T10) as MaxSizeOf>::spec_max_size_of() == T9::spec_max_size_of() || <(T0, T1, T2, T3, T4, T5, T6, T7, T8, T9, T10) as MaxSizeOf>::spec_max_size_of() == T10::spec_max_size_of(),
{
}

} // verus!
