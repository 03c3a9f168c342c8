//! Laws on the type hash: what each type feeds to the hasher, so that two types with
//! different structure are told apart when a file is read back.

use vstd::prelude::*;
use vstd::string::*;
use vstd::utf8::encode_utf8_decode_utf8;
use core::marker::PhantomData;
use std::collections::hash_map::DefaultHasher;
use crate::bytes::spec_usize_le;
use crate::traits::{TypeHash, spec_str_hash_input};

verus! {

/// Law: two names with different text feed different bytes.
pub proof fn lemma_str_hash_input_injective(a: &str, b: &str)
    requires
        a@ != b@,
    ensures
        spec_str_hash_input(a) != spec_str_hash_input(b),
{
    encode_utf8_decode_utf8(a@);
    encode_utf8_decode_utf8(b@);
    if spec_str_hash_input(a) == spec_str_hash_input(b) {
        assert(spec_str_hash_input(a).drop_last() =~= a.spec_bytes());
        assert(spec_str_hash_input(b).drop_last() =~= b.spec_bytes());
    }
}

/// Law: after a common prefix, and before a common suffix, different middles give
/// different sequences.
pub proof fn lemma_middle_differs(p: Seq<u8>, x: Seq<u8>, y: Seq<u8>, r: Seq<u8>)
    requires
        x != y,
    ensures
        p + x + r != p + y + r,
{
    if p + x + r == p + y + r {
        assert((p + x + r).len() == (p + y + r).len());
        assert(x.len() == y.len());
        assert forall|i: int| 0 <= i < x.len() implies x[i] == y[i] by {
            assert((p + x + r)[p.len() + i] == x[i]);
            assert((p + y + r)[p.len() + i] == y[i]);
        }
        assert(x =~= y);
    }
}

/// Law: each primitive type feeds exactly its name.
pub proof fn lemma_primitive_type_hash_inputs()
    ensures
        <u8 as TypeHash>::spec_type_hash_input() == spec_str_hash_input("u8"),
        <u16 as TypeHash>::spec_type_hash_input() == spec_str_hash_input("u16"),
        <u32 as TypeHash>::spec_type_hash_input() == spec_str_hash_input("u32"),
        <u64 as TypeHash>::spec_type_hash_input() == spec_str_hash_input("u64"),
        <u128 as TypeHash>::spec_type_hash_input() == spec_str_hash_input("u128"),
        <usize as TypeHash>::spec_type_hash_input() == spec_str_hash_input("usize"),
        <i8 as TypeHash>::spec_type_hash_input() == spec_str_hash_input("i8"),
        <i16 as TypeHash>::spec_type_hash_input() == spec_str_hash_input("i16"),
        <i32 as TypeHash>::spec_type_hash_input() == spec_str_hash_input("i32"),
        <i64 as TypeHash>::spec_type_hash_input() == spec_str_hash_input("i64"),
        <i128 as TypeHash>::spec_type_hash_input() == spec_str_hash_input("i128"),
        <isize as TypeHash>::spec_type_hash_input() == spec_str_hash_input("isize"),
        <bool as TypeHash>::spec_type_hash_input() == spec_str_hash_input("bool"),
        <char as TypeHash>::spec_type_hash_input() == spec_str_hash_input("char"),
        <() as TypeHash>::spec_type_hash_input() == spec_str_hash_input("()"),
        <String as TypeHash>::spec_type_hash_input() == spec_str_hash_input("String"),
        <str as TypeHash>::spec_type_hash_input() == spec_str_hash_input("str"),
        <Box<str> as TypeHash>::spec_type_hash_input() == spec_str_hash_input("Box<str>"),
        <DefaultHasher as TypeHash>::spec_type_hash_input() == spec_str_hash_input("std::hash::DefaultHasher"),
{
}

/// Law: a signed and an unsigned integer type of the same width are told apart, and so
/// are the integer types of different widths.
pub proof fn lemma_integer_type_hash_inputs_differ()
    ensures
        <u8 as TypeHash>::spec_type_hash_input() != <u16 as TypeHash>::spec_type_hash_input(),
        <u8 as TypeHash>::spec_type_hash_input() != <u32 as TypeHash>::spec_type_hash_input(),
        <u8 as TypeHash>::spec_type_hash_input() != <u64 as TypeHash>::spec_type_hash_input(),
        <u8 as TypeHash>::spec_type_hash_input() != <u128 as TypeHash>::spec_type_hash_input(),
        <u8 as TypeHash>::spec_type_hash_input() != <usize as TypeHash>::spec_type_hash_input(),
        <u8 as TypeHash>::spec_type_hash_input() != <i8 as TypeHash>::spec_type_hash_input(),
        <u8 as TypeHash>::spec_type_hash_input() != <i16 as TypeHash>::spec_type_hash_input(),
        <u8 as TypeHash>::spec_type_hash_input() != <i32 as TypeHash>::spec_type_hash_input(),
        <u8 as TypeHash>::spec_type_hash_input() != <i64 as TypeHash>::spec_type_hash_input(),
        <u8 as TypeHash>::spec_type_hash_input() != <i128 as TypeHash>::spec_type_hash_input(),
        <u8 as TypeHash>::spec_type_hash_input() != <isize as TypeHash>::spec_type_hash_input(),
        <u16 as TypeHash>::spec_type_hash_input() != <u32 as TypeHash>::spec_type_hash_input(),
        <u16 as TypeHash>::spec_type_hash_input() != <u64 as TypeHash>::spec_type_hash_input(),
        <u16 as TypeHash>::spec_type_hash_input() != <u128 as TypeHash>::spec_type_hash_input(),
        <u16 as TypeHash>::spec_type_hash_input() != <usize as TypeHash>::spec_type_hash_input(),
        <u16 as TypeHash>::spec_type_hash_input() != <i8 as TypeHash>::spec_type_hash_input(),
        <u16 as TypeHash>::spec_type_hash_input() != <i16 as TypeHash>::spec_type_hash_input(),
        <u16 as TypeHash>::spec_type_hash_input() != <i32 as TypeHash>::spec_type_hash_input(),
        <u16 as TypeHash>::spec_type_hash_input() != <i64 as TypeHash>::spec_type_hash_input(),
        <u16 as TypeHash>::spec_type_hash_input() != <i128 as TypeHash>::spec_type_hash_input(),
        <u16 as TypeHash>::spec_type_hash_input() != <isize as TypeHash>::spec_type_hash_input(),
        <u32 as TypeHash>::spec_type_hash_input() != <u64 as TypeHash>::spec_type_hash_input(),
        <u32 as TypeHash>::spec_type_hash_input() != <u128 as TypeHash>::spec_type_hash_input(),
        <u32 as TypeHash>::spec_type_hash_input() != <usize as TypeHash>::spec_type_hash_input(),
        <u32 as TypeHash>::spec_type_hash_input() != <i8 as TypeHash>::spec_type_hash_input(),
        <u32 as TypeHash>::spec_type_hash_input() != <i16 as TypeHash>::spec_type_hash_input(),
        <u32 as TypeHash>::spec_type_hash_input() != <i32 as TypeHash>::spec_type_hash_input(),
        <u32 as TypeHash>::spec_type_hash_input() != <i64 as TypeHash>::spec_type_hash_input(),
        <u32 as TypeHash>::spec_type_hash_input() != <i128 as TypeHash>::spec_type_hash_input(),
        <u32 as TypeHash>::spec_type_hash_input() != <isize as TypeHash>::spec_type_hash_input(),
        <u64 as TypeHash>::spec_type_hash_input() != <u128 as TypeHash>::spec_type_hash_input(),
        <u64 as TypeHash>::spec_type_hash_input() != <usize as TypeHash>::spec_type_hash_input(),
        <u64 as TypeHash>::spec_type_hash_input() != <i8 as TypeHash>::spec_type_hash_input(),
        <u64 as TypeHash>::spec_type_hash_input() != <i16 as TypeHash>::spec_type_hash_input(),
        <u64 as TypeHash>::spec_type_hash_input() != <i32 as TypeHash>::spec_type_hash_input(),
        <u64 as TypeHash>::spec_type_hash_input() != <i64 as TypeHash>::spec_type_hash_input(),
        <u64 as TypeHash>::spec_type_hash_input() != <i128 as TypeHash>::spec_type_hash_input(),
        <u64 as TypeHash>::spec_type_hash_input() != <isize as TypeHash>::spec_type_hash_input(),
        <u128 as TypeHash>::spec_type_hash_input() != <usize as TypeHash>::spec_type_hash_input(),
        <u128 as TypeHash>::spec_type_hash_input() != <i8 as TypeHash>::spec_type_hash_input(),
        <u128 as TypeHash>::spec_type_hash_input() != <i16 as TypeHash>::spec_type_hash_input(),
        <u128 as TypeHash>::spec_type_hash_input() != <i32 as TypeHash>::spec_type_hash_input(),
        <u128 as TypeHash>::spec_type_hash_input() != <i64 as TypeHash>::spec_type_hash_input(),
        <u128 as TypeHash>::spec_type_hash_input() != <i128 as TypeHash>::spec_type_hash_input(),
        <u128 as TypeHash>::spec_type_hash_input() != <isize as TypeHash>::spec_type_hash_input(),
        <usize as TypeHash>::spec_type_hash_input() != <i8 as TypeHash>::spec_type_hash_input(),
        <usize as TypeHash>::spec_type_hash_input() != <i16 as TypeHash>::spec_type_hash_input(),
        <usize as TypeHash>::spec_type_hash_input() != <i32 as TypeHash>::spec_type_hash_input(),
        <usize as TypeHash>::spec_type_hash_input() != <i64 as TypeHash>::spec_type_hash_input(),
        <usize as TypeHash>::spec_type_hash_input() != <i128 as TypeHash>::spec_type_hash_input(),
        <usize as TypeHash>::spec_type_hash_input() != <isize as TypeHash>::spec_type_hash_input(),
        <i8 as TypeHash>::spec_type_hash_input() != <i16 as TypeHash>::spec_type_hash_input(),
        <i8 as TypeHash>::spec_type_hash_input() != <i32 as TypeHash>::spec_type_hash_input(),
        <i8 as TypeHash>::spec_type_hash_input() != <i64 as TypeHash>::spec_type_hash_input(),
        <i8 as TypeHash>::spec_type_hash_input() != <i128 as TypeHash>::spec_type_hash_input(),
        <i8 as TypeHash>::spec_type_hash_input() != <isize as TypeHash>::spec_type_hash_input(),
        <i16 as TypeHash>::spec_type_hash_input() != <i32 as TypeHash>::spec_type_hash_input(),
        <i16 as TypeHash>::spec_type_hash_input() != <i64 as TypeHash>::spec_type_hash_input(),
        <i16 as TypeHash>::spec_type_hash_input() != <i128 as TypeHash>::spec_type_hash_input(),
        <i16 as TypeHash>::spec_type_hash_input() != <isize as TypeHash>::spec_type_hash_input(),
        <i32 as TypeHash>::spec_type_hash_input() != <i64 as TypeHash>::spec_type_hash_input(),
        <i32 as TypeHash>::spec_type_hash_input() != <i128 as TypeHash>::spec_type_hash_input(),
        <i32 as TypeHash>::spec_type_hash_input() != <isize as TypeHash>::spec_type_hash_input(),
        <i64 as TypeHash>::spec_type_hash_input() != <i128 as TypeHash>::spec_type_hash_input(),
        <i64 as TypeHash>::spec_type_hash_input() != <isize as TypeHash>::spec_type_hash_input(),
        <i128 as TypeHash>::spec_type_hash_input() != <isize as TypeHash>::spec_type_hash_input(),
{
    reveal_strlit("u8");
    reveal_strlit("u16");
    reveal_strlit("u32");
    reveal_strlit("u64");
    reveal_strlit("u128");
    reveal_strlit("usize");
    reveal_strlit("i8");
    reveal_strlit("i16");
    reveal_strlit("i32");
    reveal_strlit("i64");
    reveal_strlit("i128");
    reveal_strlit("isize");
    lemma_str_hash_input_injective("u8", "u16");
    lemma_str_hash_input_injective("u8", "u32");
    lemma_str_hash_input_injective("u8", "u64");
    lemma_str_hash_input_injective("u8", "u128");
    lemma_str_hash_input_injective("u8", "usize");
    assert("u8"@[0] != "i8"@[0]);
    lemma_str_hash_input_injective("u8", "i8");
    lemma_str_hash_input_injective("u8", "i16");
    lemma_str_hash_input_injective("u8", "i32");
    lemma_str_hash_input_injective("u8", "i64");
    lemma_str_hash_input_injective("u8", "i128");
    lemma_str_hash_input_injective("u8", "isize");
    assert("u16"@[1] != "u32"@[1]);
    lemma_str_hash_input_injective("u16", "u32");
    assert("u16"@[1] != "u64"@[1]);
    lemma_str_hash_input_injective("u16", "u64");
    lemma_str_hash_input_injective("u16", "u128");
    lemma_str_hash_input_injective("u16", "usize");
    lemma_str_hash_input_injective("u16", "i8");
    assert("u16"@[0] != "i16"@[0]);
    lemma_str_hash_input_injective("u16", "i16");
    assert("u16"@[0] != "i32"@[0]);
    lemma_str_hash_input_injective("u16", "i32");
    assert("u16"@[0] != "i64"@[0]);
    lemma_str_hash_input_injective("u16", "i64");
    lemma_str_hash_input_injective("u16", "i128");
    lemma_str_hash_input_injective("u16", "isize");
    assert("u32"@[1] != "u64"@[1]);
    lemma_str_hash_input_injective("u32", "u64");
    lemma_str_hash_input_injective("u32", "u128");
    lemma_str_hash_input_injective("u32", "usize");
    lemma_str_hash_input_injective("u32", "i8");
    assert("u32"@[0] != "i16"@[0]);
    lemma_str_hash_input_injective("u32", "i16");
    assert("u32"@[0] != "i32"@[0]);
    lemma_str_hash_input_injective("u32", "i32");
    assert("u32"@[0] != "i64"@[0]);
    lemma_str_hash_input_injective("u32", "i64");
    lemma_str_hash_input_injective("u32", "i128");
    lemma_str_hash_input_injective("u32", "isize");
    lemma_str_hash_input_injective("u64", "u128");
    lemma_str_hash_input_injective("u64", "usize");
    lemma_str_hash_input_injective("u64", "i8");
    assert("u64"@[0] != "i16"@[0]);
    lemma_str_hash_input_injective("u64", "i16");
    assert("u64"@[0] != "i32"@[0]);
    lemma_str_hash_input_injective("u64", "i32");
    assert("u64"@[0] != "i64"@[0]);
    lemma_str_hash_input_injective("u64", "i64");
    lemma_str_hash_input_injective("u64", "i128");
    lemma_str_hash_input_injective("u64", "isize");
    lemma_str_hash_input_injective("u128", "usize");
    lemma_str_hash_input_injective("u128", "i8");
    lemma_str_hash_input_injective("u128", "i16");
    lemma_str_hash_input_injective("u128", "i32");
    lemma_str_hash_input_injective("u128", "i64");
    assert("u128"@[0] != "i128"@[0]);
    lemma_str_hash_input_injective("u128", "i128");
    lemma_str_hash_input_injective("u128", "isize");
    lemma_str_hash_input_injective("usize", "i8");
    lemma_str_hash_input_injective("usize", "i16");
    lemma_str_hash_input_injective("usize", "i32");
    lemma_str_hash_input_injective("usize", "i64");
    lemma_str_hash_input_injective("usize", "i128");
    assert("usize"@[0] != "isize"@[0]);
    lemma_str_hash_input_injective("usize", "isize");
    lemma_str_hash_input_injective("i8", "i16");
    lemma_str_hash_input_injective("i8", "i32");
    lemma_str_hash_input_injective("i8", "i64");
    lemma_str_hash_input_injective("i8", "i128");
    lemma_str_hash_input_injective("i8", "isize");
    assert("i16"@[1] != "i32"@[1]);
    lemma_str_hash_input_injective("i16", "i32");
    assert("i16"@[1] != "i64"@[1]);
    lemma_str_hash_input_injective("i16", "i64");
    lemma_str_hash_input_injective("i16", "i128");
    lemma_str_hash_input_injective("i16", "isize");
    assert("i32"@[1] != "i64"@[1]);
    lemma_str_hash_input_injective("i32", "i64");
    lemma_str_hash_input_injective("i32", "i128");
    lemma_str_hash_input_injective("i32", "isize");
    lemma_str_hash_input_injective("i64", "i128");
    lemma_str_hash_input_injective("i64", "isize");
    lemma_str_hash_input_injective("i128", "isize");
}

/// Law: an option feeds `Option` and then what its content type feeds.
pub proof fn lemma_option_type_hash_input<T: TypeHash>()
    ensures
        <Option<T> as TypeHash>::spec_type_hash_input() == spec_str_hash_input("Option") + T::spec_type_hash_input(),
{
}

/// Law: options of content types feeding different bytes feed different bytes.
pub proof fn lemma_option_type_hash_injective<T: TypeHash, U: TypeHash>()
    requires
        T::spec_type_hash_input() != U::spec_type_hash_input(),
    ensures
        <Option<T> as TypeHash>::spec_type_hash_input() != <Option<U> as TypeHash>::spec_type_hash_input(),
{
    lemma_middle_differs(spec_str_hash_input("Option"), T::spec_type_hash_input(), U::spec_type_hash_input(), Seq::empty());
    assert(spec_str_hash_input("Option") + T::spec_type_hash_input() + Seq::<u8>::empty() =~= spec_str_hash_input("Option") + T::spec_type_hash_input());
    assert(spec_str_hash_input("Option") + U::spec_type_hash_input() + Seq::<u8>::empty() =~= spec_str_hash_input("Option") + U::spec_type_hash_input());
}

/// Law: vectors, boxed slices, slices, arrays and phantom markers feed their name (and,
/// for arrays, the length) and then what their item type feeds.
pub proof fn lemma_container_type_hash_inputs<T: TypeHash, const N: usize>()
    ensures
        <Vec<T> as TypeHash>::spec_type_hash_input() == spec_str_hash_input("Vec") + T::spec_type_hash_input(),
        <Box<[T]> as TypeHash>::spec_type_hash_input() == spec_str_hash_input("Box<[]>") + T::spec_type_hash_input(),
        <[T] as TypeHash>::spec_type_hash_input() == spec_str_hash_input("[]") + T::spec_type_hash_input(),
        <[T; N] as TypeHash>::spec_type_hash_input() == spec_str_hash_input("[]") + spec_usize_le(N) + T::spec_type_hash_input(),
        <PhantomData<T> as TypeHash>::spec_type_hash_input() == spec_str_hash_input("PhantomData") + T::spec_type_hash_input(),
{
}

/// Law: containers of item types feeding different bytes feed different bytes.
pub proof fn lemma_container_type_hash_injective<T: TypeHash, U: TypeHash, const N: usize>()
    requires
        T::spec_type_hash_input() != U::spec_type_hash_input(),
    ensures
        <Vec<T> as TypeHash>::spec_type_hash_input() != <Vec<U> as TypeHash>::spec_type_hash_input(),
        <Box<[T]> as TypeHash>::spec_type_hash_input() != <Box<[U]> as TypeHash>::spec_type_hash_input(),
        <[T; N] as TypeHash>::spec_type_hash_input() != <[U; N] as TypeHash>::spec_type_hash_input(),
{
    let (t, u) = (T::spec_type_hash_input(), U::spec_type_hash_input());
    let e = Seq::<u8>::empty();
    lemma_middle_differs(spec_str_hash_input("Vec"), t, u, e);
    assert(spec_str_hash_input("Vec") + t + e =~= spec_str_hash_input("Vec") + t);
    assert(spec_str_hash_input("Vec") + u + e =~= spec_str_hash_input("Vec") + u);
    lemma_middle_differs(spec_str_hash_input("Box<[]>"), t, u, e);
    assert(spec_str_hash_input("Box<[]>") + t + e =~= spec_str_hash_input("Box<[]>") + t);
    assert(spec_str_hash_input("Box<[]>") + u + e =~= spec_str_hash_input("Box<[]>") + u);
    let p = spec_str_hash_input("[]") + spec_usize_le(N);
    lemma_middle_differs(p, t, u, e);
    assert(p + t + e =~= p + t);
    assert(p + u + e =~= p + u);
}

/// Law: a tuple of 1 element feeds `()` and then what each element type feeds, in order.
pub proof fn lemma_tuple1_type_hash_input<T0: TypeHash>()
    ensures
        <(T0,) as TypeHash>::spec_type_hash_input() == spec_str_hash_input("()") + T0::spec_type_hash_input(),
{
}

/// Law: a tuple of 2 elements feeds `()` and then what each element type feeds, in order.
pub proof fn lemma_tuple2_type_hash_input<T0: TypeHash, T1: TypeHash>()
    ensures
        <(T0, T1) as TypeHash>::spec_type_hash_input() == spec_str_hash_input("()") + T0::spec_type_hash_input() + T1::spec_type_hash_input(),
{
}

/// Law: a tuple of 3 elements feeds `()` and then what each element type feeds, in order.
pub proof fn lemma_tuple3_type_hash_input<T0: TypeHash, T1: TypeHash, T2: TypeHash>()
    ensures
        <(T0, T1, T2) as TypeHash>::spec_type_hash_input() == spec_str_hash_input("()") + T0::spec_type_hash_input() + T1::spec_type_hash_input() + T2::spec_type_hash_input(),
{
}

/// Law: a tuple of 4 elements feeds `()` and then what each element type feeds, in order.
pub proof fn lemma_tuple4_type_hash_input<T0: TypeHash, T1: TypeHash, T2: TypeHash, T3: TypeHash>()
    ensures
        <(T0, T1, T2, T3) as TypeHash>::spec_type_hash_input() == spec_str_hash_input("()") + T0::spec_type_hash_input() + T1::spec_type_hash_input() + T2::spec_type_hash_input() + T3::spec_type_hash_input(),
{
}

/// Law: a tuple of 5 elements feeds `()` and then what each element type feeds, in order.
pub proof fn lemma_tuple5_type_hash_input<T0: TypeHash, T1: TypeHash, T2: TypeHash, T3: TypeHash, T4: TypeHash>()
    ensures
        <(T0, T1, T2, T3, T4) as TypeHash>::spec_type_hash_input() == spec_str_hash_input("()") + T0::spec_type_hash_input() + T1::spec_type_hash_input() + T2::spec_type_hash_input() + T3::spec_type_hash_input() + T4::spec_type_hash_input(),
{
}

/// Law: a tuple of 6 elements feeds `()` and then what each element type feeds, in order.
pub proof fn lemma_tuple6_type_hash_input<T0: TypeHash, T1: TypeHash, T2: TypeHash, T3: TypeHash, T4: TypeHash, T5: TypeHash>()
    ensures
        <(T0, T1, T2, T3, T4, T5) as TypeHash>::spec_type_hash_input() == spec_str_hash_input("()") + T0::spec_type_hash_input() + T1::spec_type_hash_input() + T2::spec_type_hash_input() + T3::spec_type_hash_input() + T4::spec_type_hash_input() + T5::spec_type_hash_input(),
{
}

/// Law: a tuple of 7 elements feeds `()` and then what each element type feeds, in order.
pub proof fn lemma_tuple7_type_hash_input<T0: TypeHash, T1: TypeHash, T2: TypeHash, T3: TypeHash, T4: TypeHash, T5: TypeHash, T6: TypeHash>()
    ensures
        <(T0, T1, T2, T3, T4, T5, T6) as TypeHash>::spec_type_hash_input() == spec_str_hash_input("()") + T0::spec_type_hash_input() + T1::spec_type_hash_input() + T2::spec_type_hash_input() + T3::spec_type_hash_input() + T4::spec_type_hash_input() + T5::spec_type_hash_input() + T6::spec_type_hash_input(),
{
}

/// Law: a tuple of 8 elements feeds `()` and then what each element type feeds, in order.
pub proof fn lemma_tuple8_type_hash_input<T0: TypeHash, T1: TypeHash, T2: TypeHash, T3: TypeHash, T4: TypeHash, T5: TypeHash, T6: TypeHash, T7: TypeHash>()
    ensures
        <(T0, T1, T2, T3, T4, T5, T6, T7) as TypeHash>::spec_type_hash_input() == spec_str_hash_input("()") + T0::spec_type_hash_input() + T1::spec_type_hash_input() + T2::spec_type_hash_input() + T3::spec_type_hash_input() + T4::spec_type_hash_input() + T5::spec_type_hash_input() + T6::spec_type_hash_input() + T7::spec_type_hash_input(),
{
}

/// Law: a tuple of 9 elements feeds `()` and then what each element type feeds, in order.
pub proof fn lemma_tuple9_type_hash_input<T0: TypeHash, T1: TypeHash, T2: TypeHash, T3: TypeHash, T4: TypeHash, T5: TypeHash, T6: TypeHash, T7: TypeHash, T8: TypeHash>()
    ensures
        <(T0, T1, T2, T3, T4, T5, T6, T7, T8) as TypeHash>::spec_type_hash_input() == spec_str_hash_input("()") + T0::spec_type_hash_input() + T1::spec_type_hash_input() + T2::spec_type_hash_input() + T3::spec_type_hash_input() + T4::spec_type_hash_input() + T5::spec_type_hash_input() + T6::spec_type_hash_input() + T7::spec_type_hash_input() + T8::spec_type_hash_input(),
{
}

/// Law: a tuple of 10 elements feeds `()` and then what each element type feeds, in order.
pub proof fn lemma_tuple10_type_hash_input<T0: TypeHash, T1: TypeHash, T2: TypeHash, T3: TypeHash, T4: TypeHash, T5: TypeHash, T6: TypeHash, T7: TypeHash, T8: TypeHash, T9: TypeHash>()
    ensures
        <(T0, T1, T2, T3, T4, T5, T6, T7, T8, T9) as TypeHash>::spec_type_hash_input() == spec_str_hash_input("()") + T0::spec_type_hash_input() + T1::spec_type_hash_input() + T2::spec_type_hash_input() + T3::spec_type_hash_input() + T4::spec_type_hash_input() + T5::spec_type_hash_input() + T6::spec_type_hash_input() + T7::spec_type_hash_input() + T8::spec_type_hash_input() + T9::spec_type_hash_input(),
{
}

/// Law: a tuple of 11 elements feeds `()` and then what each element type feeds, in order.
pub proof fn lemma_tuple11_type_hash_input<T0: TypeHash, T1: TypeHash, T2: TypeHash, T3: TypeHash, T4: TypeHash, T5: TypeHash, T6: TypeHash, T7: TypeHash, T8: TypeHash, T9: TypeHash, T10: TypeHash>()
    ensures
        <(T0, T1, T2, T3, T4, T5, T6, T7, T8, T9, T10) as TypeHash>::spec_type_hash_input() == spec_str_hash_input("()") + T0::spec_type_hash_input() + T1::spec_type_hash_input() + T2::spec_type_hash_input() + T3::spec_type_hash_input() + T4::spec_type_hash_input() + T5::spec_type_hash_input() + T6::spec_type_hash_input() + T7::spec_type_hash_input() + T8::spec_type_hash_input() + T9::spec_type_hash_input() + T10::spec_type_hash_input(),
{
}

/// Law: in a tuple, changing the type of one element to one feeding different bytes,
/// the others being kept, changes what the tuple feeds: with `before` what the elements
/// before it feed and `after` what the elements after it feed.
pub proof fn lemma_tuple_element_changes(before: Seq<u8>, x: Seq<u8>, y: Seq<u8>, after: Seq<u8>)
    requires
        x != y,
    ensures
        spec_str_hash_input("()") + before + x + after != spec_str_hash_input("()") + before + y + after,
{
    lemma_middle_differs(spec_str_hash_input("()") + before, x, y, after);
}

/// Law: two pairs that differ only in the type of their second element, with different
/// inputs, are told apart; and so are two pairs differing only in the first.
pub proof fn lemma_pair_type_hash_injective<A: TypeHash, B: TypeHash, C: TypeHash>()
    requires
        B::spec_type_hash_input() != C::spec_type_hash_input(),
    ensures
        <(A, B) as TypeHash>::spec_type_hash_input() != <(A, C) as TypeHash>::spec_type_hash_input(),
        <(B, A) as TypeHash>::spec_type_hash_input() != <(C, A) as TypeHash>::spec_type_hash_input(),
{
    let e = Seq::<u8>::empty();
    lemma_tuple_element_changes(A::spec_type_hash_input(), B::spec_type_hash_input(), C::spec_type_hash_input(), e);
    assert(spec_str_hash_input("()") + A::spec_type_hash_input() + B::spec_type_hash_input() + e =~= <(A, B) as TypeHash>::spec_type_hash_input());
    assert(spec_str_hash_input("()") + A::spec_type_hash_input() + C::spec_type_hash_input() + e =~= <(A, C) as TypeHash>::spec_type_hash_input());
    lemma_tuple_element_changes(e, B::spec_type_hash_input(), C::spec_type_hash_input(), A::spec_type_hash_input());
    assert(spec_str_hash_input("()") + e + B::spec_type_hash_input() + A::spec_type_hash_input() =~= <(B, A) as TypeHash>::spec_type_hash_input());
    assert(spec_str_hash_input("()") + e + C::spec_type_hash_input() + A::spec_type_hash_input() =~= <(C, A) as TypeHash>::spec_type_hash_input());
}

} // verus!
