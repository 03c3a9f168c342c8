//! Implementations for primitive types, `()` and [`PhantomData`].

use vstd::prelude::*;
use vstd::bytes::*;
use vstd::layout::*;
use vstd::string::*;
use crate::bytes::{spec_usize_le, spec_usize_from_le, usize_to_le, usize_from_le, usize_bytes, usize_size, lemma_usize_le, lemma_usize_bits};
use crate::ser::{Result as SerResult, SerializeInner, WriteWithNames};
use crate::traits::{CopyType, MaxSizeOf, ReprHash, TypeHash, TypeHasher, TypeName, Zero, ZeroCopy, spec_std_repr_hash_of, spec_str_hash_input, std_repr_hash};
use crate::deser::{DeserializeInner, Error as DeError, Result as DeResult, ReadWithPos, SliceWithPos};
use crate::deser::helpers::{check_image, spec_image_len_at, spec_image_decodes, deserialize_image, lemma_image_read_back};
use vstd::utf8::{is_scalar, char_is_scalar, char_u32_cast};
use core::marker::PhantomData;


use crate::ser::{RowView, spec_rows_view};
verus! {

broadcast use {vstd::layout::layout_of_primitives, vstd::layout::layout_of_unit_tuple};

impl CopyType for u8 {
    type Copy = Zero;
}

impl TypeName for u8 {
    open spec fn spec_type_name() -> Seq<char> {
        "u8"@
    }

    fn type_name_str() -> (r: String) {
        String::from_str("u8")
    }
}

impl TypeHash for u8 {
    open spec fn spec_type_hash_input() -> Seq<u8> {
        spec_str_hash_input("u8")
    }

    fn type_hash(hasher: &mut TypeHasher) {
        hasher.write_str("u8");
    }
}

impl ReprHash for u8 {
    open spec fn spec_repr_hash(offset_of: nat) -> (Seq<u8>, nat) {
        spec_std_repr_hash_of::<u8>(offset_of)
    }

    fn repr_hash(hasher: &mut TypeHasher, offset_of: &mut usize) {
        std_repr_hash::<u8>(hasher, offset_of)
    }
}

impl MaxSizeOf for u8 {
    open spec fn spec_max_size_of() -> usize {
        size_of::<u8>() as usize
    }

    fn max_size_of() -> (r: usize) {
        core::mem::size_of::<u8>()
    }
}

impl ZeroCopy for u8 {
    open spec fn spec_image(&self) -> Seq<u8> {
        seq![*self]
    }

    open spec fn spec_image_len() -> nat {
        1
    }

    open spec fn spec_from_image(image: Seq<u8>) -> Self {
        image[0]
    }

    open spec fn spec_valid_image(image: Seq<u8>) -> bool {
        true
    }

    fn image_len() -> (r: Option<usize>) {
        Some(1)
    }

    fn is_valid_image(image: &[u8]) -> (r: bool) {
        true
    }

    fn write_image(&self, out: &mut Vec<u8>) {
        out.push(*self);
    }

    fn from_image(image: &[u8]) -> (r: Self) {
        image[0]
    }

    proof fn lemma_image(v: Self) {
        lemma_usize_bits();
        crate::lemma_small_pow2();
        assert(seq![v][0] == v);
    }
}

impl SerializeInner for u8 {
    const IS_ZERO_COPY: bool = true;

    const ZERO_COPY_MISMATCH: bool = false;

    open spec fn spec_ser(&self, pos: nat) -> Seq<u8> {
        seq![*self]
    }

    open spec fn spec_rows(&self, pos: nat, path: Seq<Seq<char>>) -> Seq<RowView> {
        Seq::empty()
    }

    fn _serialize_inner<W: WriteWithNames>(&self, backend: &mut W) -> (r: SerResult<()>) {
        let mut bytes: Vec<u8> = Vec::new();
        bytes.push(*self);
        backend.write_all(bytes.as_slice())
    }
}

impl DeserializeInner for u8 {
    type DeserType<'a> = Self;

    open spec fn spec_aligns() -> bool {
        false
    }

    fn _check(data: &[u8], pos: usize) -> (r: Option<Option<usize>>) {
        check_image::<u8>(data, pos)
    }

    open spec fn spec_deser_len(data: Seq<u8>, pos: nat) -> Option<core::result::Result<nat, DeError>> {
        spec_image_len_at::<u8>(data, pos)
    }

    open spec fn spec_decodes(v: Self, data: Seq<u8>, pos: nat) -> bool {
        spec_image_decodes(v, data)
    }

    open spec fn spec_eps_decodes<'a>(d: Self::DeserType<'a>, data: Seq<u8>, pos: nat) -> bool {
        spec_image_decodes(d, data)
    }

    fn _deserialize_full_inner<R: ReadWithPos>(backend: &mut R) -> (r: DeResult<Self>) {
        deserialize_image::<u8, R>(backend)
    }

    fn _deserialize_eps_inner<'a>(backend: &mut SliceWithPos<'a>) -> (r: DeResult<Self::DeserType<'a>>) {
        deserialize_image::<u8, SliceWithPos<'a>>(backend)
    }

    open spec fn spec_same(a: Self, b: Self) -> bool {
        a == b
    }

    open spec fn spec_eps_same<'a>(d: Self::DeserType<'a>, v: Self) -> bool {
        d == v
    }

    proof fn lemma_read_back(v: Self, w: Self, pos: nat, rest: Seq<u8>) {
        Self::lemma_image(v);
        lemma_image_read_back(v, pos, rest);
    }

    proof fn lemma_eps_read_back<'a>(v: Self, d: Self::DeserType<'a>, pos: nat, rest: Seq<u8>) {
        Self::lemma_image(v);
        lemma_image_read_back(v, pos, rest);
    }

    proof fn lemma_deser_len_fits(data: Seq<u8>, pos: nat) {
    }

    proof fn lemma_deser_ser(v: Self, pos: nat, rest: Seq<u8>) {
        Self::lemma_image(v);
        lemma_image_read_back(v, pos, rest);
    }
}

impl CopyType for u16 {
    type Copy = Zero;
}

impl TypeName for u16 {
    open spec fn spec_type_name() -> Seq<char> {
        "u16"@
    }

    fn type_name_str() -> (r: String) {
        String::from_str("u16")
    }
}

impl TypeHash for u16 {
    open spec fn spec_type_hash_input() -> Seq<u8> {
        spec_str_hash_input("u16")
    }

    fn type_hash(hasher: &mut TypeHasher) {
        hasher.write_str("u16");
    }
}

impl ReprHash for u16 {
    open spec fn spec_repr_hash(offset_of: nat) -> (Seq<u8>, nat) {
        spec_std_repr_hash_of::<u16>(offset_of)
    }

    fn repr_hash(hasher: &mut TypeHasher, offset_of: &mut usize) {
        std_repr_hash::<u16>(hasher, offset_of)
    }
}

impl MaxSizeOf for u16 {
    open spec fn spec_max_size_of() -> usize {
        size_of::<u16>() as usize
    }

    fn max_size_of() -> (r: usize) {
        core::mem::size_of::<u16>()
    }
}

impl ZeroCopy for u16 {
    open spec fn spec_image(&self) -> Seq<u8> {
        spec_u16_to_le_bytes(*self)
    }

    open spec fn spec_image_len() -> nat {
        2
    }

    open spec fn spec_from_image(image: Seq<u8>) -> Self {
        spec_u16_from_le_bytes(image)
    }

    open spec fn spec_valid_image(image: Seq<u8>) -> bool {
        true
    }

    fn image_len() -> (r: Option<usize>) {
        Some(2)
    }

    fn is_valid_image(image: &[u8]) -> (r: bool) {
        true
    }

    fn write_image(&self, out: &mut Vec<u8>) {
        let bytes = u16_to_le_bytes(*self);
        append_all(out, bytes.as_slice());
    }

    fn from_image(image: &[u8]) -> (r: Self) {
        u16_from_le_bytes(image)
    }

    proof fn lemma_image(v: Self) {
        lemma_usize_bits();
        crate::lemma_small_pow2();
        lemma_auto_spec_u16_to_from_le_bytes();
        assert(spec_u16_to_le_bytes(v).len() == 2);
    }
}

impl SerializeInner for u16 {
    const IS_ZERO_COPY: bool = true;

    const ZERO_COPY_MISMATCH: bool = false;

    open spec fn spec_ser(&self, pos: nat) -> Seq<u8> {
        spec_u16_to_le_bytes(*self)
    }

    open spec fn spec_rows(&self, pos: nat, path: Seq<Seq<char>>) -> Seq<RowView> {
        Seq::empty()
    }

    fn _serialize_inner<W: WriteWithNames>(&self, backend: &mut W) -> (r: SerResult<()>) {
        let bytes = u16_to_le_bytes(*self);
        backend.write_all(bytes.as_slice())
    }
}

impl DeserializeInner for u16 {
    type DeserType<'a> = Self;

    open spec fn spec_aligns() -> bool {
        false
    }

    fn _check(data: &[u8], pos: usize) -> (r: Option<Option<usize>>) {
        check_image::<u16>(data, pos)
    }

    open spec fn spec_deser_len(data: Seq<u8>, pos: nat) -> Option<core::result::Result<nat, DeError>> {
        spec_image_len_at::<u16>(data, pos)
    }

    open spec fn spec_decodes(v: Self, data: Seq<u8>, pos: nat) -> bool {
        spec_image_decodes(v, data)
    }

    open spec fn spec_eps_decodes<'a>(d: Self::DeserType<'a>, data: Seq<u8>, pos: nat) -> bool {
        spec_image_decodes(d, data)
    }

    fn _deserialize_full_inner<R: ReadWithPos>(backend: &mut R) -> (r: DeResult<Self>) {
        deserialize_image::<u16, R>(backend)
    }

    fn _deserialize_eps_inner<'a>(backend: &mut SliceWithPos<'a>) -> (r: DeResult<Self::DeserType<'a>>) {
        deserialize_image::<u16, SliceWithPos<'a>>(backend)
    }

    open spec fn spec_same(a: Self, b: Self) -> bool {
        a == b
    }

    open spec fn spec_eps_same<'a>(d: Self::DeserType<'a>, v: Self) -> bool {
        d == v
    }

    proof fn lemma_read_back(v: Self, w: Self, pos: nat, rest: Seq<u8>) {
        Self::lemma_image(v);
        lemma_image_read_back(v, pos, rest);
    }

    proof fn lemma_eps_read_back<'a>(v: Self, d: Self::DeserType<'a>, pos: nat, rest: Seq<u8>) {
        Self::lemma_image(v);
        lemma_image_read_back(v, pos, rest);
    }

    proof fn lemma_deser_len_fits(data: Seq<u8>, pos: nat) {
    }

    proof fn lemma_deser_ser(v: Self, pos: nat, rest: Seq<u8>) {
        Self::lemma_image(v);
        lemma_image_read_back(v, pos, rest);
    }
}

impl CopyType for u32 {
    type Copy = Zero;
}

impl TypeName for u32 {
    open spec fn spec_type_name() -> Seq<char> {
        "u32"@
    }

    fn type_name_str() -> (r: String) {
        String::from_str("u32")
    }
}

impl TypeHash for u32 {
    open spec fn spec_type_hash_input() -> Seq<u8> {
        spec_str_hash_input("u32")
    }

    fn type_hash(hasher: &mut TypeHasher) {
        hasher.write_str("u32");
    }
}

impl ReprHash for u32 {
    open spec fn spec_repr_hash(offset_of: nat) -> (Seq<u8>, nat) {
        spec_std_repr_hash_of::<u32>(offset_of)
    }

    fn repr_hash(hasher: &mut TypeHasher, offset_of: &mut usize) {
        std_repr_hash::<u32>(hasher, offset_of)
    }
}

impl MaxSizeOf for u32 {
    open spec fn spec_max_size_of() -> usize {
        size_of::<u32>() as usize
    }

    fn max_size_of() -> (r: usize) {
        core::mem::size_of::<u32>()
    }
}

impl ZeroCopy for u32 {
    open spec fn spec_image(&self) -> Seq<u8> {
        spec_u32_to_le_bytes(*self)
    }

    open spec fn spec_image_len() -> nat {
        4
    }

    open spec fn spec_from_image(image: Seq<u8>) -> Self {
        spec_u32_from_le_bytes(image)
    }

    open spec fn spec_valid_image(image: Seq<u8>) -> bool {
        true
    }

    fn image_len() -> (r: Option<usize>) {
        Some(4)
    }

    fn is_valid_image(image: &[u8]) -> (r: bool) {
        true
    }

    fn write_image(&self, out: &mut Vec<u8>) {
        let bytes = u32_to_le_bytes(*self);
        append_all(out, bytes.as_slice());
    }

    fn from_image(image: &[u8]) -> (r: Self) {
        u32_from_le_bytes(image)
    }

    proof fn lemma_image(v: Self) {
        lemma_usize_bits();
        crate::lemma_small_pow2();
        lemma_auto_spec_u32_to_from_le_bytes();
        assert(spec_u32_to_le_bytes(v).len() == 4);
    }
}

impl SerializeInner for u32 {
    const IS_ZERO_COPY: bool = true;

    const ZERO_COPY_MISMATCH: bool = false;

    open spec fn spec_ser(&self, pos: nat) -> Seq<u8> {
        spec_u32_to_le_bytes(*self)
    }

    open spec fn spec_rows(&self, pos: nat, path: Seq<Seq<char>>) -> Seq<RowView> {
        Seq::empty()
    }

    fn _serialize_inner<W: WriteWithNames>(&self, backend: &mut W) -> (r: SerResult<()>) {
        let bytes = u32_to_le_bytes(*self);
        backend.write_all(bytes.as_slice())
    }
}

impl DeserializeInner for u32 {
    type DeserType<'a> = Self;

    open spec fn spec_aligns() -> bool {
        false
    }

    fn _check(data: &[u8], pos: usize) -> (r: Option<Option<usize>>) {
        check_image::<u32>(data, pos)
    }

    open spec fn spec_deser_len(data: Seq<u8>, pos: nat) -> Option<core::result::Result<nat, DeError>> {
        spec_image_len_at::<u32>(data, pos)
    }

    open spec fn spec_decodes(v: Self, data: Seq<u8>, pos: nat) -> bool {
        spec_image_decodes(v, data)
    }

    open spec fn spec_eps_decodes<'a>(d: Self::DeserType<'a>, data: Seq<u8>, pos: nat) -> bool {
        spec_image_decodes(d, data)
    }

    fn _deserialize_full_inner<R: ReadWithPos>(backend: &mut R) -> (r: DeResult<Self>) {
        deserialize_image::<u32, R>(backend)
    }

    fn _deserialize_eps_inner<'a>(backend: &mut SliceWithPos<'a>) -> (r: DeResult<Self::DeserType<'a>>) {
        deserialize_image::<u32, SliceWithPos<'a>>(backend)
    }

    open spec fn spec_same(a: Self, b: Self) -> bool {
        a == b
    }

    open spec fn spec_eps_same<'a>(d: Self::DeserType<'a>, v: Self) -> bool {
        d == v
    }

    proof fn lemma_read_back(v: Self, w: Self, pos: nat, rest: Seq<u8>) {
        Self::lemma_image(v);
        lemma_image_read_back(v, pos, rest);
    }

    proof fn lemma_eps_read_back<'a>(v: Self, d: Self::DeserType<'a>, pos: nat, rest: Seq<u8>) {
        Self::lemma_image(v);
        lemma_image_read_back(v, pos, rest);
    }

    proof fn lemma_deser_len_fits(data: Seq<u8>, pos: nat) {
    }

    proof fn lemma_deser_ser(v: Self, pos: nat, rest: Seq<u8>) {
        Self::lemma_image(v);
        lemma_image_read_back(v, pos, rest);
    }
}

impl CopyType for u64 {
    type Copy = Zero;
}

impl TypeName for u64 {
    open spec fn spec_type_name() -> Seq<char> {
        "u64"@
    }

    fn type_name_str() -> (r: String) {
        String::from_str("u64")
    }
}

impl TypeHash for u64 {
    open spec fn spec_type_hash_input() -> Seq<u8> {
        spec_str_hash_input("u64")
    }

    fn type_hash(hasher: &mut TypeHasher) {
        hasher.write_str("u64");
    }
}

impl ReprHash for u64 {
    open spec fn spec_repr_hash(offset_of: nat) -> (Seq<u8>, nat) {
        spec_std_repr_hash_of::<u64>(offset_of)
    }

    fn repr_hash(hasher: &mut TypeHasher, offset_of: &mut usize) {
        std_repr_hash::<u64>(hasher, offset_of)
    }
}

impl MaxSizeOf for u64 {
    open spec fn spec_max_size_of() -> usize {
        size_of::<u64>() as usize
    }

    fn max_size_of() -> (r: usize) {
        core::mem::size_of::<u64>()
    }
}

impl ZeroCopy for u64 {
    open spec fn spec_image(&self) -> Seq<u8> {
        spec_u64_to_le_bytes(*self)
    }

    open spec fn spec_image_len() -> nat {
        8
    }

    open spec fn spec_from_image(image: Seq<u8>) -> Self {
        spec_u64_from_le_bytes(image)
    }

    open spec fn spec_valid_image(image: Seq<u8>) -> bool {
        true
    }

    fn image_len() -> (r: Option<usize>) {
        Some(8)
    }

    fn is_valid_image(image: &[u8]) -> (r: bool) {
        true
    }

    fn write_image(&self, out: &mut Vec<u8>) {
        let bytes = u64_to_le_bytes(*self);
        append_all(out, bytes.as_slice());
    }

    fn from_image(image: &[u8]) -> (r: Self) {
        u64_from_le_bytes(image)
    }

    proof fn lemma_image(v: Self) {
        lemma_usize_bits();
        crate::lemma_small_pow2();
        lemma_auto_spec_u64_to_from_le_bytes();
        assert(spec_u64_to_le_bytes(v).len() == 8);
    }
}

impl SerializeInner for u64 {
    const IS_ZERO_COPY: bool = true;

    const ZERO_COPY_MISMATCH: bool = false;

    open spec fn spec_ser(&self, pos: nat) -> Seq<u8> {
        spec_u64_to_le_bytes(*self)
    }

    open spec fn spec_rows(&self, pos: nat, path: Seq<Seq<char>>) -> Seq<RowView> {
        Seq::empty()
    }

    fn _serialize_inner<W: WriteWithNames>(&self, backend: &mut W) -> (r: SerResult<()>) {
        let bytes = u64_to_le_bytes(*self);
        backend.write_all(bytes.as_slice())
    }
}

impl DeserializeInner for u64 {
    type DeserType<'a> = Self;

    open spec fn spec_aligns() -> bool {
        false
    }

    fn _check(data: &[u8], pos: usize) -> (r: Option<Option<usize>>) {
        check_image::<u64>(data, pos)
    }

    open spec fn spec_deser_len(data: Seq<u8>, pos: nat) -> Option<core::result::Result<nat, DeError>> {
        spec_image_len_at::<u64>(data, pos)
    }

    open spec fn spec_decodes(v: Self, data: Seq<u8>, pos: nat) -> bool {
        spec_image_decodes(v, data)
    }

    open spec fn spec_eps_decodes<'a>(d: Self::DeserType<'a>, data: Seq<u8>, pos: nat) -> bool {
        spec_image_decodes(d, data)
    }

    fn _deserialize_full_inner<R: ReadWithPos>(backend: &mut R) -> (r: DeResult<Self>) {
        deserialize_image::<u64, R>(backend)
    }

    fn _deserialize_eps_inner<'a>(backend: &mut SliceWithPos<'a>) -> (r: DeResult<Self::DeserType<'a>>) {
        deserialize_image::<u64, SliceWithPos<'a>>(backend)
    }

    open spec fn spec_same(a: Self, b: Self) -> bool {
        a == b
    }

    open spec fn spec_eps_same<'a>(d: Self::DeserType<'a>, v: Self) -> bool {
        d == v
    }

    proof fn lemma_read_back(v: Self, w: Self, pos: nat, rest: Seq<u8>) {
        Self::lemma_image(v);
        lemma_image_read_back(v, pos, rest);
    }

    proof fn lemma_eps_read_back<'a>(v: Self, d: Self::DeserType<'a>, pos: nat, rest: Seq<u8>) {
        Self::lemma_image(v);
        lemma_image_read_back(v, pos, rest);
    }

    proof fn lemma_deser_len_fits(data: Seq<u8>, pos: nat) {
    }

    proof fn lemma_deser_ser(v: Self, pos: nat, rest: Seq<u8>) {
        Self::lemma_image(v);
        lemma_image_read_back(v, pos, rest);
    }
}

impl CopyType for u128 {
    type Copy = Zero;
}

impl TypeName for u128 {
    open spec fn spec_type_name() -> Seq<char> {
        "u128"@
    }

    fn type_name_str() -> (r: String) {
        String::from_str("u128")
    }
}

impl TypeHash for u128 {
    open spec fn spec_type_hash_input() -> Seq<u8> {
        spec_str_hash_input("u128")
    }

    fn type_hash(hasher: &mut TypeHasher) {
        hasher.write_str("u128");
    }
}

impl ReprHash for u128 {
    open spec fn spec_repr_hash(offset_of: nat) -> (Seq<u8>, nat) {
        spec_std_repr_hash_of::<u128>(offset_of)
    }

    fn repr_hash(hasher: &mut TypeHasher, offset_of: &mut usize) {
        std_repr_hash::<u128>(hasher, offset_of)
    }
}

impl MaxSizeOf for u128 {
    open spec fn spec_max_size_of() -> usize {
        size_of::<u128>() as usize
    }

    fn max_size_of() -> (r: usize) {
        core::mem::size_of::<u128>()
    }
}

impl ZeroCopy for u128 {
    open spec fn spec_image(&self) -> Seq<u8> {
        spec_u128_to_le_bytes(*self)
    }

    open spec fn spec_image_len() -> nat {
        16
    }

    open spec fn spec_from_image(image: Seq<u8>) -> Self {
        spec_u128_from_le_bytes(image)
    }

    open spec fn spec_valid_image(image: Seq<u8>) -> bool {
        true
    }

    fn image_len() -> (r: Option<usize>) {
        Some(16)
    }

    fn is_valid_image(image: &[u8]) -> (r: bool) {
        true
    }

    fn write_image(&self, out: &mut Vec<u8>) {
        let bytes = u128_to_le_bytes(*self);
        append_all(out, bytes.as_slice());
    }

    fn from_image(image: &[u8]) -> (r: Self) {
        u128_from_le_bytes(image)
    }

    proof fn lemma_image(v: Self) {
        lemma_usize_bits();
        crate::lemma_small_pow2();
        lemma_auto_spec_u128_to_from_le_bytes();
        assert(spec_u128_to_le_bytes(v).len() == 16);
    }
}

impl SerializeInner for u128 {
    const IS_ZERO_COPY: bool = true;

    const ZERO_COPY_MISMATCH: bool = false;

    open spec fn spec_ser(&self, pos: nat) -> Seq<u8> {
        spec_u128_to_le_bytes(*self)
    }

    open spec fn spec_rows(&self, pos: nat, path: Seq<Seq<char>>) -> Seq<RowView> {
        Seq::empty()
    }

    fn _serialize_inner<W: WriteWithNames>(&self, backend: &mut W) -> (r: SerResult<()>) {
        let bytes = u128_to_le_bytes(*self);
        backend.write_all(bytes.as_slice())
    }
}

impl DeserializeInner for u128 {
    type DeserType<'a> = Self;

    open spec fn spec_aligns() -> bool {
        false
    }

    fn _check(data: &[u8], pos: usize) -> (r: Option<Option<usize>>) {
        check_image::<u128>(data, pos)
    }

    open spec fn spec_deser_len(data: Seq<u8>, pos: nat) -> Option<core::result::Result<nat, DeError>> {
        spec_image_len_at::<u128>(data, pos)
    }

    open spec fn spec_decodes(v: Self, data: Seq<u8>, pos: nat) -> bool {
        spec_image_decodes(v, data)
    }

    open spec fn spec_eps_decodes<'a>(d: Self::DeserType<'a>, data: Seq<u8>, pos: nat) -> bool {
        spec_image_decodes(d, data)
    }

    fn _deserialize_full_inner<R: ReadWithPos>(backend: &mut R) -> (r: DeResult<Self>) {
        deserialize_image::<u128, R>(backend)
    }

    fn _deserialize_eps_inner<'a>(backend: &mut SliceWithPos<'a>) -> (r: DeResult<Self::DeserType<'a>>) {
        deserialize_image::<u128, SliceWithPos<'a>>(backend)
    }

    open spec fn spec_same(a: Self, b: Self) -> bool {
        a == b
    }

    open spec fn spec_eps_same<'a>(d: Self::DeserType<'a>, v: Self) -> bool {
        d == v
    }

    proof fn lemma_read_back(v: Self, w: Self, pos: nat, rest: Seq<u8>) {
        Self::lemma_image(v);
        lemma_image_read_back(v, pos, rest);
    }

    proof fn lemma_eps_read_back<'a>(v: Self, d: Self::DeserType<'a>, pos: nat, rest: Seq<u8>) {
        Self::lemma_image(v);
        lemma_image_read_back(v, pos, rest);
    }

    proof fn lemma_deser_len_fits(data: Seq<u8>, pos: nat) {
    }

    proof fn lemma_deser_ser(v: Self, pos: nat, rest: Seq<u8>) {
        Self::lemma_image(v);
        lemma_image_read_back(v, pos, rest);
    }
}

impl CopyType for usize {
    type Copy = Zero;
}

impl TypeName for usize {
    open spec fn spec_type_name() -> Seq<char> {
        "usize"@
    }

    fn type_name_str() -> (r: String) {
        String::from_str("usize")
    }
}

impl TypeHash for usize {
    open spec fn spec_type_hash_input() -> Seq<u8> {
        spec_str_hash_input("usize")
    }

    fn type_hash(hasher: &mut TypeHasher) {
        hasher.write_str("usize");
    }
}

impl ReprHash for usize {
    open spec fn spec_repr_hash(offset_of: nat) -> (Seq<u8>, nat) {
        spec_std_repr_hash_of::<usize>(offset_of)
    }

    fn repr_hash(hasher: &mut TypeHasher, offset_of: &mut usize) {
        std_repr_hash::<usize>(hasher, offset_of)
    }
}

impl MaxSizeOf for usize {
    open spec fn spec_max_size_of() -> usize {
        size_of::<usize>() as usize
    }

    fn max_size_of() -> (r: usize) {
        core::mem::size_of::<usize>()
    }
}

impl ZeroCopy for usize {
    open spec fn spec_image(&self) -> Seq<u8> {
        spec_usize_le(*self)
    }

    open spec fn spec_image_len() -> nat {
        usize_bytes()
    }

    open spec fn spec_from_image(image: Seq<u8>) -> Self {
        spec_usize_from_le(image)
    }

    open spec fn spec_valid_image(image: Seq<u8>) -> bool {
        true
    }

    fn image_len() -> (r: Option<usize>) {
        Some(usize_size())
    }

    fn is_valid_image(image: &[u8]) -> (r: bool) {
        true
    }

    fn write_image(&self, out: &mut Vec<u8>) {
        let bytes = usize_to_le(*self);
        append_all(out, bytes.as_slice());
    }

    fn from_image(image: &[u8]) -> (r: Self) {
        usize_from_le(image)
    }

    proof fn lemma_image(v: Self) {
        lemma_usize_bits();
        crate::lemma_small_pow2();
        lemma_usize_le(v);
    }
}

impl SerializeInner for usize {
    const IS_ZERO_COPY: bool = true;

    const ZERO_COPY_MISMATCH: bool = false;

    open spec fn spec_ser(&self, pos: nat) -> Seq<u8> {
        spec_usize_le(*self)
    }

    open spec fn spec_rows(&self, pos: nat, path: Seq<Seq<char>>) -> Seq<RowView> {
        Seq::empty()
    }

    fn _serialize_inner<W: WriteWithNames>(&self, backend: &mut W) -> (r: SerResult<()>) {
        let bytes = usize_to_le(*self);
        backend.write_all(bytes.as_slice())
    }
}

impl DeserializeInner for usize {
    type DeserType<'a> = Self;

    open spec fn spec_aligns() -> bool {
        false
    }

    fn _check(data: &[u8], pos: usize) -> (r: Option<Option<usize>>) {
        check_image::<usize>(data, pos)
    }

    open spec fn spec_deser_len(data: Seq<u8>, pos: nat) -> Option<core::result::Result<nat, DeError>> {
        spec_image_len_at::<usize>(data, pos)
    }

    open spec fn spec_decodes(v: Self, data: Seq<u8>, pos: nat) -> bool {
        spec_image_decodes(v, data)
    }

    open spec fn spec_eps_decodes<'a>(d: Self::DeserType<'a>, data: Seq<u8>, pos: nat) -> bool {
        spec_image_decodes(d, data)
    }

    fn _deserialize_full_inner<R: ReadWithPos>(backend: &mut R) -> (r: DeResult<Self>) {
        deserialize_image::<usize, R>(backend)
    }

    fn _deserialize_eps_inner<'a>(backend: &mut SliceWithPos<'a>) -> (r: DeResult<Self::DeserType<'a>>) {
        deserialize_image::<usize, SliceWithPos<'a>>(backend)
    }

    open spec fn spec_same(a: Self, b: Self) -> bool {
        a == b
    }

    open spec fn spec_eps_same<'a>(d: Self::DeserType<'a>, v: Self) -> bool {
        d == v
    }

    proof fn lemma_read_back(v: Self, w: Self, pos: nat, rest: Seq<u8>) {
        Self::lemma_image(v);
        lemma_image_read_back(v, pos, rest);
    }

    proof fn lemma_eps_read_back<'a>(v: Self, d: Self::DeserType<'a>, pos: nat, rest: Seq<u8>) {
        Self::lemma_image(v);
        lemma_image_read_back(v, pos, rest);
    }

    proof fn lemma_deser_len_fits(data: Seq<u8>, pos: nat) {
    }

    proof fn lemma_deser_ser(v: Self, pos: nat, rest: Seq<u8>) {
        Self::lemma_image(v);
        lemma_image_read_back(v, pos, rest);
    }
}

impl CopyType for i8 {
    type Copy = Zero;
}

impl TypeName for i8 {
    open spec fn spec_type_name() -> Seq<char> {
        "i8"@
    }

    fn type_name_str() -> (r: String) {
        String::from_str("i8")
    }
}

impl TypeHash for i8 {
    open spec fn spec_type_hash_input() -> Seq<u8> {
        spec_str_hash_input("i8")
    }

    fn type_hash(hasher: &mut TypeHasher) {
        hasher.write_str("i8");
    }
}

impl ReprHash for i8 {
    open spec fn spec_repr_hash(offset_of: nat) -> (Seq<u8>, nat) {
        spec_std_repr_hash_of::<i8>(offset_of)
    }

    fn repr_hash(hasher: &mut TypeHasher, offset_of: &mut usize) {
        std_repr_hash::<i8>(hasher, offset_of)
    }
}

impl MaxSizeOf for i8 {
    open spec fn spec_max_size_of() -> usize {
        size_of::<i8>() as usize
    }

    fn max_size_of() -> (r: usize) {
        core::mem::size_of::<i8>()
    }
}

impl ZeroCopy for i8 {
    open spec fn spec_image(&self) -> Seq<u8> {
        seq![*self as u8]
    }

    open spec fn spec_image_len() -> nat {
        1
    }

    open spec fn spec_from_image(image: Seq<u8>) -> Self {
        image[0] as i8
    }

    open spec fn spec_valid_image(image: Seq<u8>) -> bool {
        true
    }

    fn image_len() -> (r: Option<usize>) {
        Some(1)
    }

    fn is_valid_image(image: &[u8]) -> (r: bool) {
        true
    }

    fn write_image(&self, out: &mut Vec<u8>) {
        out.push(*self as u8);
    }

    fn from_image(image: &[u8]) -> (r: Self) {
        image[0] as i8
    }

    proof fn lemma_image(v: Self) {
        lemma_usize_bits();
        crate::lemma_small_pow2();
        let w = v as u8;
        assert(seq![w][0] == w);
        assert((v as u8) as i8 == v) by (bit_vector);
    }
}

impl SerializeInner for i8 {
    const IS_ZERO_COPY: bool = true;

    const ZERO_COPY_MISMATCH: bool = false;

    open spec fn spec_ser(&self, pos: nat) -> Seq<u8> {
        seq![*self as u8]
    }

    open spec fn spec_rows(&self, pos: nat, path: Seq<Seq<char>>) -> Seq<RowView> {
        Seq::empty()
    }

    fn _serialize_inner<W: WriteWithNames>(&self, backend: &mut W) -> (r: SerResult<()>) {
        let mut bytes: Vec<u8> = Vec::new();
        bytes.push(*self as u8);
        backend.write_all(bytes.as_slice())
    }
}

impl DeserializeInner for i8 {
    type DeserType<'a> = Self;

    open spec fn spec_aligns() -> bool {
        false
    }

    fn _check(data: &[u8], pos: usize) -> (r: Option<Option<usize>>) {
        check_image::<i8>(data, pos)
    }

    open spec fn spec_deser_len(data: Seq<u8>, pos: nat) -> Option<core::result::Result<nat, DeError>> {
        spec_image_len_at::<i8>(data, pos)
    }

    open spec fn spec_decodes(v: Self, data: Seq<u8>, pos: nat) -> bool {
        spec_image_decodes(v, data)
    }

    open spec fn spec_eps_decodes<'a>(d: Self::DeserType<'a>, data: Seq<u8>, pos: nat) -> bool {
        spec_image_decodes(d, data)
    }

    fn _deserialize_full_inner<R: ReadWithPos>(backend: &mut R) -> (r: DeResult<Self>) {
        deserialize_image::<i8, R>(backend)
    }

    fn _deserialize_eps_inner<'a>(backend: &mut SliceWithPos<'a>) -> (r: DeResult<Self::DeserType<'a>>) {
        deserialize_image::<i8, SliceWithPos<'a>>(backend)
    }

    open spec fn spec_same(a: Self, b: Self) -> bool {
        a == b
    }

    open spec fn spec_eps_same<'a>(d: Self::DeserType<'a>, v: Self) -> bool {
        d == v
    }

    proof fn lemma_read_back(v: Self, w: Self, pos: nat, rest: Seq<u8>) {
        Self::lemma_image(v);
        lemma_image_read_back(v, pos, rest);
    }

    proof fn lemma_eps_read_back<'a>(v: Self, d: Self::DeserType<'a>, pos: nat, rest: Seq<u8>) {
        Self::lemma_image(v);
        lemma_image_read_back(v, pos, rest);
    }

    proof fn lemma_deser_len_fits(data: Seq<u8>, pos: nat) {
    }

    proof fn lemma_deser_ser(v: Self, pos: nat, rest: Seq<u8>) {
        Self::lemma_image(v);
        lemma_image_read_back(v, pos, rest);
    }
}

impl CopyType for i16 {
    type Copy = Zero;
}

impl TypeName for i16 {
    open spec fn spec_type_name() -> Seq<char> {
        "i16"@
    }

    fn type_name_str() -> (r: String) {
        String::from_str("i16")
    }
}

impl TypeHash for i16 {
    open spec fn spec_type_hash_input() -> Seq<u8> {
        spec_str_hash_input("i16")
    }

    fn type_hash(hasher: &mut TypeHasher) {
        hasher.write_str("i16");
    }
}

impl ReprHash for i16 {
    open spec fn spec_repr_hash(offset_of: nat) -> (Seq<u8>, nat) {
        spec_std_repr_hash_of::<i16>(offset_of)
    }

    fn repr_hash(hasher: &mut TypeHasher, offset_of: &mut usize) {
        std_repr_hash::<i16>(hasher, offset_of)
    }
}

impl MaxSizeOf for i16 {
    open spec fn spec_max_size_of() -> usize {
        size_of::<i16>() as usize
    }

    fn max_size_of() -> (r: usize) {
        core::mem::size_of::<i16>()
    }
}

impl ZeroCopy for i16 {
    open spec fn spec_image(&self) -> Seq<u8> {
        spec_u16_to_le_bytes(*self as u16)
    }

    open spec fn spec_image_len() -> nat {
        2
    }

    open spec fn spec_from_image(image: Seq<u8>) -> Self {
        spec_u16_from_le_bytes(image) as i16
    }

    open spec fn spec_valid_image(image: Seq<u8>) -> bool {
        true
    }

    fn image_len() -> (r: Option<usize>) {
        Some(2)
    }

    fn is_valid_image(image: &[u8]) -> (r: bool) {
        true
    }

    fn write_image(&self, out: &mut Vec<u8>) {
        let bytes = u16_to_le_bytes(*self as u16);
        append_all(out, bytes.as_slice());
    }

    fn from_image(image: &[u8]) -> (r: Self) {
        u16_from_le_bytes(image) as i16
    }

    proof fn lemma_image(v: Self) {
        lemma_usize_bits();
        crate::lemma_small_pow2();
        lemma_auto_spec_u16_to_from_le_bytes();
        let w = v as u16;
        assert(spec_u16_to_le_bytes(w).len() == 2);
        assert(spec_u16_from_le_bytes(spec_u16_to_le_bytes(w)) == w);
        assert((v as u16) as i16 == v) by (bit_vector);
    }
}

impl SerializeInner for i16 {
    const IS_ZERO_COPY: bool = true;

    const ZERO_COPY_MISMATCH: bool = false;

    open spec fn spec_ser(&self, pos: nat) -> Seq<u8> {
        spec_u16_to_le_bytes(*self as u16)
    }

    open spec fn spec_rows(&self, pos: nat, path: Seq<Seq<char>>) -> Seq<RowView> {
        Seq::empty()
    }

    fn _serialize_inner<W: WriteWithNames>(&self, backend: &mut W) -> (r: SerResult<()>) {
        let bytes = u16_to_le_bytes(*self as u16);
        backend.write_all(bytes.as_slice())
    }
}

impl DeserializeInner for i16 {
    type DeserType<'a> = Self;

    open spec fn spec_aligns() -> bool {
        false
    }

    fn _check(data: &[u8], pos: usize) -> (r: Option<Option<usize>>) {
        check_image::<i16>(data, pos)
    }

    open spec fn spec_deser_len(data: Seq<u8>, pos: nat) -> Option<core::result::Result<nat, DeError>> {
        spec_image_len_at::<i16>(data, pos)
    }

    open spec fn spec_decodes(v: Self, data: Seq<u8>, pos: nat) -> bool {
        spec_image_decodes(v, data)
    }

    open spec fn spec_eps_decodes<'a>(d: Self::DeserType<'a>, data: Seq<u8>, pos: nat) -> bool {
        spec_image_decodes(d, data)
    }

    fn _deserialize_full_inner<R: ReadWithPos>(backend: &mut R) -> (r: DeResult<Self>) {
        deserialize_image::<i16, R>(backend)
    }

    fn _deserialize_eps_inner<'a>(backend: &mut SliceWithPos<'a>) -> (r: DeResult<Self::DeserType<'a>>) {
        deserialize_image::<i16, SliceWithPos<'a>>(backend)
    }

    open spec fn spec_same(a: Self, b: Self) -> bool {
        a == b
    }

    open spec fn spec_eps_same<'a>(d: Self::DeserType<'a>, v: Self) -> bool {
        d == v
    }

    proof fn lemma_read_back(v: Self, w: Self, pos: nat, rest: Seq<u8>) {
        Self::lemma_image(v);
        lemma_image_read_back(v, pos, rest);
    }

    proof fn lemma_eps_read_back<'a>(v: Self, d: Self::DeserType<'a>, pos: nat, rest: Seq<u8>) {
        Self::lemma_image(v);
        lemma_image_read_back(v, pos, rest);
    }

    proof fn lemma_deser_len_fits(data: Seq<u8>, pos: nat) {
    }

    proof fn lemma_deser_ser(v: Self, pos: nat, rest: Seq<u8>) {
        Self::lemma_image(v);
        lemma_image_read_back(v, pos, rest);
    }
}

impl CopyType for i32 {
    type Copy = Zero;
}

impl TypeName for i32 {
    open spec fn spec_type_name() -> Seq<char> {
        "i32"@
    }

    fn type_name_str() -> (r: String) {
        String::from_str("i32")
    }
}

impl TypeHash for i32 {
    open spec fn spec_type_hash_input() -> Seq<u8> {
        spec_str_hash_input("i32")
    }

    fn type_hash(hasher: &mut TypeHasher) {
        hasher.write_str("i32");
    }
}

impl ReprHash for i32 {
    open spec fn spec_repr_hash(offset_of: nat) -> (Seq<u8>, nat) {
        spec_std_repr_hash_of::<i32>(offset_of)
    }

    fn repr_hash(hasher: &mut TypeHasher, offset_of: &mut usize) {
        std_repr_hash::<i32>(hasher, offset_of)
    }
}

impl MaxSizeOf for i32 {
    open spec fn spec_max_size_of() -> usize {
        size_of::<i32>() as usize
    }

    fn max_size_of() -> (r: usize) {
        core::mem::size_of::<i32>()
    }
}

impl ZeroCopy for i32 {
    open spec fn spec_image(&self) -> Seq<u8> {
        spec_u32_to_le_bytes(*self as u32)
    }

    open spec fn spec_image_len() -> nat {
        4
    }

    open spec fn spec_from_image(image: Seq<u8>) -> Self {
        spec_u32_from_le_bytes(image) as i32
    }

    open spec fn spec_valid_image(image: Seq<u8>) -> bool {
        true
    }

    fn image_len() -> (r: Option<usize>) {
        Some(4)
    }

    fn is_valid_image(image: &[u8]) -> (r: bool) {
        true
    }

    fn write_image(&self, out: &mut Vec<u8>) {
        let bytes = u32_to_le_bytes(*self as u32);
        append_all(out, bytes.as_slice());
    }

    fn from_image(image: &[u8]) -> (r: Self) {
        u32_from_le_bytes(image) as i32
    }

    proof fn lemma_image(v: Self) {
        lemma_usize_bits();
        crate::lemma_small_pow2();
        lemma_auto_spec_u32_to_from_le_bytes();
        let w = v as u32;
        assert(spec_u32_to_le_bytes(w).len() == 4);
        assert(spec_u32_from_le_bytes(spec_u32_to_le_bytes(w)) == w);
        assert((v as u32) as i32 == v) by (bit_vector);
    }
}

impl SerializeInner for i32 {
    const IS_ZERO_COPY: bool = true;

    const ZERO_COPY_MISMATCH: bool = false;

    open spec fn spec_ser(&self, pos: nat) -> Seq<u8> {
        spec_u32_to_le_bytes(*self as u32)
    }

    open spec fn spec_rows(&self, pos: nat, path: Seq<Seq<char>>) -> Seq<RowView> {
        Seq::empty()
    }

    fn _serialize_inner<W: WriteWithNames>(&self, backend: &mut W) -> (r: SerResult<()>) {
        let bytes = u32_to_le_bytes(*self as u32);
        backend.write_all(bytes.as_slice())
    }
}

impl DeserializeInner for i32 {
    type DeserType<'a> = Self;

    open spec fn spec_aligns() -> bool {
        false
    }

    fn _check(data: &[u8], pos: usize) -> (r: Option<Option<usize>>) {
        check_image::<i32>(data, pos)
    }

    open spec fn spec_deser_len(data: Seq<u8>, pos: nat) -> Option<core::result::Result<nat, DeError>> {
        spec_image_len_at::<i32>(data, pos)
    }

    open spec fn spec_decodes(v: Self, data: Seq<u8>, pos: nat) -> bool {
        spec_image_decodes(v, data)
    }

    open spec fn spec_eps_decodes<'a>(d: Self::DeserType<'a>, data: Seq<u8>, pos: nat) -> bool {
        spec_image_decodes(d, data)
    }

    fn _deserialize_full_inner<R: ReadWithPos>(backend: &mut R) -> (r: DeResult<Self>) {
        deserialize_image::<i32, R>(backend)
    }

    fn _deserialize_eps_inner<'a>(backend: &mut SliceWithPos<'a>) -> (r: DeResult<Self::DeserType<'a>>) {
        deserialize_image::<i32, SliceWithPos<'a>>(backend)
    }

    open spec fn spec_same(a: Self, b: Self) -> bool {
        a == b
    }

    open spec fn spec_eps_same<'a>(d: Self::DeserType<'a>, v: Self) -> bool {
        d == v
    }

    proof fn lemma_read_back(v: Self, w: Self, pos: nat, rest: Seq<u8>) {
        Self::lemma_image(v);
        lemma_image_read_back(v, pos, rest);
    }

    proof fn lemma_eps_read_back<'a>(v: Self, d: Self::DeserType<'a>, pos: nat, rest: Seq<u8>) {
        Self::lemma_image(v);
        lemma_image_read_back(v, pos, rest);
    }

    proof fn lemma_deser_len_fits(data: Seq<u8>, pos: nat) {
    }

    proof fn lemma_deser_ser(v: Self, pos: nat, rest: Seq<u8>) {
        Self::lemma_image(v);
        lemma_image_read_back(v, pos, rest);
    }
}

impl CopyType for i64 {
    type Copy = Zero;
}

impl TypeName for i64 {
    open spec fn spec_type_name() -> Seq<char> {
        "i64"@
    }

    fn type_name_str() -> (r: String) {
        String::from_str("i64")
    }
}

impl TypeHash for i64 {
    open spec fn spec_type_hash_input() -> Seq<u8> {
        spec_str_hash_input("i64")
    }

    fn type_hash(hasher: &mut TypeHasher) {
        hasher.write_str("i64");
    }
}

impl ReprHash for i64 {
    open spec fn spec_repr_hash(offset_of: nat) -> (Seq<u8>, nat) {
        spec_std_repr_hash_of::<i64>(offset_of)
    }

    fn repr_hash(hasher: &mut TypeHasher, offset_of: &mut usize) {
        std_repr_hash::<i64>(hasher, offset_of)
    }
}

impl MaxSizeOf for i64 {
    open spec fn spec_max_size_of() -> usize {
        size_of::<i64>() as usize
    }

    fn max_size_of() -> (r: usize) {
        core::mem::size_of::<i64>()
    }
}

impl ZeroCopy for i64 {
    open spec fn spec_image(&self) -> Seq<u8> {
        spec_u64_to_le_bytes(*self as u64)
    }

    open spec fn spec_image_len() -> nat {
        8
    }

    open spec fn spec_from_image(image: Seq<u8>) -> Self {
        spec_u64_from_le_bytes(image) as i64
    }

    open spec fn spec_valid_image(image: Seq<u8>) -> bool {
        true
    }

    fn image_len() -> (r: Option<usize>) {
        Some(8)
    }

    fn is_valid_image(image: &[u8]) -> (r: bool) {
        true
    }

    fn write_image(&self, out: &mut Vec<u8>) {
        let bytes = u64_to_le_bytes(*self as u64);
        append_all(out, bytes.as_slice());
    }

    fn from_image(image: &[u8]) -> (r: Self) {
        u64_from_le_bytes(image) as i64
    }

    proof fn lemma_image(v: Self) {
        lemma_usize_bits();
        crate::lemma_small_pow2();
        lemma_auto_spec_u64_to_from_le_bytes();
        let w = v as u64;
        assert(spec_u64_to_le_bytes(w).len() == 8);
        assert(spec_u64_from_le_bytes(spec_u64_to_le_bytes(w)) == w);
        assert((v as u64) as i64 == v) by (bit_vector);
    }
}

impl SerializeInner for i64 {
    const IS_ZERO_COPY: bool = true;

    const ZERO_COPY_MISMATCH: bool = false;

    open spec fn spec_ser(&self, pos: nat) -> Seq<u8> {
        spec_u64_to_le_bytes(*self as u64)
    }

    open spec fn spec_rows(&self, pos: nat, path: Seq<Seq<char>>) -> Seq<RowView> {
        Seq::empty()
    }

    fn _serialize_inner<W: WriteWithNames>(&self, backend: &mut W) -> (r: SerResult<()>) {
        let bytes = u64_to_le_bytes(*self as u64);
        backend.write_all(bytes.as_slice())
    }
}

impl DeserializeInner for i64 {
    type DeserType<'a> = Self;

    open spec fn spec_aligns() -> bool {
        false
    }

    fn _check(data: &[u8], pos: usize) -> (r: Option<Option<usize>>) {
        check_image::<i64>(data, pos)
    }

    open spec fn spec_deser_len(data: Seq<u8>, pos: nat) -> Option<core::result::Result<nat, DeError>> {
        spec_image_len_at::<i64>(data, pos)
    }

    open spec fn spec_decodes(v: Self, data: Seq<u8>, pos: nat) -> bool {
        spec_image_decodes(v, data)
    }

    open spec fn spec_eps_decodes<'a>(d: Self::DeserType<'a>, data: Seq<u8>, pos: nat) -> bool {
        spec_image_decodes(d, data)
    }

    fn _deserialize_full_inner<R: ReadWithPos>(backend: &mut R) -> (r: DeResult<Self>) {
        deserialize_image::<i64, R>(backend)
    }

    fn _deserialize_eps_inner<'a>(backend: &mut SliceWithPos<'a>) -> (r: DeResult<Self::DeserType<'a>>) {
        deserialize_image::<i64, SliceWithPos<'a>>(backend)
    }

    open spec fn spec_same(a: Self, b: Self) -> bool {
        a == b
    }

    open spec fn spec_eps_same<'a>(d: Self::DeserType<'a>, v: Self) -> bool {
        d == v
    }

    proof fn lemma_read_back(v: Self, w: Self, pos: nat, rest: Seq<u8>) {
        Self::lemma_image(v);
        lemma_image_read_back(v, pos, rest);
    }

    proof fn lemma_eps_read_back<'a>(v: Self, d: Self::DeserType<'a>, pos: nat, rest: Seq<u8>) {
        Self::lemma_image(v);
        lemma_image_read_back(v, pos, rest);
    }

    proof fn lemma_deser_len_fits(data: Seq<u8>, pos: nat) {
    }

    proof fn lemma_deser_ser(v: Self, pos: nat, rest: Seq<u8>) {
        Self::lemma_image(v);
        lemma_image_read_back(v, pos, rest);
    }
}

impl CopyType for i128 {
    type Copy = Zero;
}

impl TypeName for i128 {
    open spec fn spec_type_name() -> Seq<char> {
        "i128"@
    }

    fn type_name_str() -> (r: String) {
        String::from_str("i128")
    }
}

impl TypeHash for i128 {
    open spec fn spec_type_hash_input() -> Seq<u8> {
        spec_str_hash_input("i128")
    }

    fn type_hash(hasher: &mut TypeHasher) {
        hasher.write_str("i128");
    }
}

impl ReprHash for i128 {
    open spec fn spec_repr_hash(offset_of: nat) -> (Seq<u8>, nat) {
        spec_std_repr_hash_of::<i128>(offset_of)
    }

    fn repr_hash(hasher: &mut TypeHasher, offset_of: &mut usize) {
        std_repr_hash::<i128>(hasher, offset_of)
    }
}

impl MaxSizeOf for i128 {
    open spec fn spec_max_size_of() -> usize {
        size_of::<i128>() as usize
    }

    fn max_size_of() -> (r: usize) {
        core::mem::size_of::<i128>()
    }
}

impl ZeroCopy for i128 {
    open spec fn spec_image(&self) -> Seq<u8> {
        spec_u128_to_le_bytes(*self as u128)
    }

    open spec fn spec_image_len() -> nat {
        16
    }

    open spec fn spec_from_image(image: Seq<u8>) -> Self {
        spec_u128_from_le_bytes(image) as i128
    }

    open spec fn spec_valid_image(image: Seq<u8>) -> bool {
        true
    }

    fn image_len() -> (r: Option<usize>) {
        Some(16)
    }

    fn is_valid_image(image: &[u8]) -> (r: bool) {
        true
    }

    fn write_image(&self, out: &mut Vec<u8>) {
        let bytes = u128_to_le_bytes(*self as u128);
        append_all(out, bytes.as_slice());
    }

    fn from_image(image: &[u8]) -> (r: Self) {
        u128_from_le_bytes(image) as i128
    }

    proof fn lemma_image(v: Self) {
        lemma_usize_bits();
        crate::lemma_small_pow2();
        lemma_auto_spec_u128_to_from_le_bytes();
        let w = v as u128;
        assert(spec_u128_to_le_bytes(w).len() == 16);
        assert(spec_u128_from_le_bytes(spec_u128_to_le_bytes(w)) == w);
        assert((v as u128) as i128 == v) by (bit_vector);
    }
}

impl SerializeInner for i128 {
    const IS_ZERO_COPY: bool = true;

    const ZERO_COPY_MISMATCH: bool = false;

    open spec fn spec_ser(&self, pos: nat) -> Seq<u8> {
        spec_u128_to_le_bytes(*self as u128)
    }

    open spec fn spec_rows(&self, pos: nat, path: Seq<Seq<char>>) -> Seq<RowView> {
        Seq::empty()
    }

    fn _serialize_inner<W: WriteWithNames>(&self, backend: &mut W) -> (r: SerResult<()>) {
        let bytes = u128_to_le_bytes(*self as u128);
        backend.write_all(bytes.as_slice())
    }
}

impl DeserializeInner for i128 {
    type DeserType<'a> = Self;

    open spec fn spec_aligns() -> bool {
        false
    }

    fn _check(data: &[u8], pos: usize) -> (r: Option<Option<usize>>) {
        check_image::<i128>(data, pos)
    }

    open spec fn spec_deser_len(data: Seq<u8>, pos: nat) -> Option<core::result::Result<nat, DeError>> {
        spec_image_len_at::<i128>(data, pos)
    }

    open spec fn spec_decodes(v: Self, data: Seq<u8>, pos: nat) -> bool {
        spec_image_decodes(v, data)
    }

    open spec fn spec_eps_decodes<'a>(d: Self::DeserType<'a>, data: Seq<u8>, pos: nat) -> bool {
        spec_image_decodes(d, data)
    }

    fn _deserialize_full_inner<R: ReadWithPos>(backend: &mut R) -> (r: DeResult<Self>) {
        deserialize_image::<i128, R>(backend)
    }

    fn _deserialize_eps_inner<'a>(backend: &mut SliceWithPos<'a>) -> (r: DeResult<Self::DeserType<'a>>) {
        deserialize_image::<i128, SliceWithPos<'a>>(backend)
    }

    open spec fn spec_same(a: Self, b: Self) -> bool {
        a == b
    }

    open spec fn spec_eps_same<'a>(d: Self::DeserType<'a>, v: Self) -> bool {
        d == v
    }

    proof fn lemma_read_back(v: Self, w: Self, pos: nat, rest: Seq<u8>) {
        Self::lemma_image(v);
        lemma_image_read_back(v, pos, rest);
    }

    proof fn lemma_eps_read_back<'a>(v: Self, d: Self::DeserType<'a>, pos: nat, rest: Seq<u8>) {
        Self::lemma_image(v);
        lemma_image_read_back(v, pos, rest);
    }

    proof fn lemma_deser_len_fits(data: Seq<u8>, pos: nat) {
    }

    proof fn lemma_deser_ser(v: Self, pos: nat, rest: Seq<u8>) {
        Self::lemma_image(v);
        lemma_image_read_back(v, pos, rest);
    }
}

impl CopyType for isize {
    type Copy = Zero;
}

impl TypeName for isize {
    open spec fn spec_type_name() -> Seq<char> {
        "isize"@
    }

    fn type_name_str() -> (r: String) {
        String::from_str("isize")
    }
}

impl TypeHash for isize {
    open spec fn spec_type_hash_input() -> Seq<u8> {
        spec_str_hash_input("isize")
    }

    fn type_hash(hasher: &mut TypeHasher) {
        hasher.write_str("isize");
    }
}

impl ReprHash for isize {
    open spec fn spec_repr_hash(offset_of: nat) -> (Seq<u8>, nat) {
        spec_std_repr_hash_of::<isize>(offset_of)
    }

    fn repr_hash(hasher: &mut TypeHasher, offset_of: &mut usize) {
        std_repr_hash::<isize>(hasher, offset_of)
    }
}

impl MaxSizeOf for isize {
    open spec fn spec_max_size_of() -> usize {
        size_of::<isize>() as usize
    }

    fn max_size_of() -> (r: usize) {
        core::mem::size_of::<isize>()
    }
}

impl ZeroCopy for isize {
    open spec fn spec_image(&self) -> Seq<u8> {
        spec_usize_le(*self as usize)
    }

    open spec fn spec_image_len() -> nat {
        usize_bytes()
    }

    open spec fn spec_from_image(image: Seq<u8>) -> Self {
        spec_usize_from_le(image) as isize
    }

    open spec fn spec_valid_image(image: Seq<u8>) -> bool {
        true
    }

    fn image_len() -> (r: Option<usize>) {
        Some(usize_size())
    }

    fn is_valid_image(image: &[u8]) -> (r: bool) {
        true
    }

    fn write_image(&self, out: &mut Vec<u8>) {
        let bytes = usize_to_le(*self as usize);
        append_all(out, bytes.as_slice());
    }

    fn from_image(image: &[u8]) -> (r: Self) {
        usize_from_le(image) as isize
    }

    proof fn lemma_image(v: Self) {
        lemma_usize_bits();
        crate::lemma_small_pow2();
        lemma_usize_le(v as usize);
        assert((v as usize) as isize == v) by (bit_vector);
    }
}

impl SerializeInner for isize {
    const IS_ZERO_COPY: bool = true;

    const ZERO_COPY_MISMATCH: bool = false;

    open spec fn spec_ser(&self, pos: nat) -> Seq<u8> {
        spec_usize_le(*self as usize)
    }

    open spec fn spec_rows(&self, pos: nat, path: Seq<Seq<char>>) -> Seq<RowView> {
        Seq::empty()
    }

    fn _serialize_inner<W: WriteWithNames>(&self, backend: &mut W) -> (r: SerResult<()>) {
        let bytes = usize_to_le(*self as usize);
        backend.write_all(bytes.as_slice())
    }
}

impl DeserializeInner for isize {
    type DeserType<'a> = Self;

    open spec fn spec_aligns() -> bool {
        false
    }

    fn _check(data: &[u8], pos: usize) -> (r: Option<Option<usize>>) {
        check_image::<isize>(data, pos)
    }

    open spec fn spec_deser_len(data: Seq<u8>, pos: nat) -> Option<core::result::Result<nat, DeError>> {
        spec_image_len_at::<isize>(data, pos)
    }

    open spec fn spec_decodes(v: Self, data: Seq<u8>, pos: nat) -> bool {
        spec_image_decodes(v, data)
    }

    open spec fn spec_eps_decodes<'a>(d: Self::DeserType<'a>, data: Seq<u8>, pos: nat) -> bool {
        spec_image_decodes(d, data)
    }

    fn _deserialize_full_inner<R: ReadWithPos>(backend: &mut R) -> (r: DeResult<Self>) {
        deserialize_image::<isize, R>(backend)
    }

    fn _deserialize_eps_inner<'a>(backend: &mut SliceWithPos<'a>) -> (r: DeResult<Self::DeserType<'a>>) {
        deserialize_image::<isize, SliceWithPos<'a>>(backend)
    }

    open spec fn spec_same(a: Self, b: Self) -> bool {
        a == b
    }

    open spec fn spec_eps_same<'a>(d: Self::DeserType<'a>, v: Self) -> bool {
        d == v
    }

    proof fn lemma_read_back(v: Self, w: Self, pos: nat, rest: Seq<u8>) {
        Self::lemma_image(v);
        lemma_image_read_back(v, pos, rest);
    }

    proof fn lemma_eps_read_back<'a>(v: Self, d: Self::DeserType<'a>, pos: nat, rest: Seq<u8>) {
        Self::lemma_image(v);
        lemma_image_read_back(v, pos, rest);
    }

    proof fn lemma_deser_len_fits(data: Seq<u8>, pos: nat) {
    }

    proof fn lemma_deser_ser(v: Self, pos: nat, rest: Seq<u8>) {
        Self::lemma_image(v);
        lemma_image_read_back(v, pos, rest);
    }
}

impl CopyType for bool {
    type Copy = Zero;
}

impl TypeName for bool {
    open spec fn spec_type_name() -> Seq<char> {
        "bool"@
    }

    fn type_name_str() -> (r: String) {
        String::from_str("bool")
    }
}

impl TypeHash for bool {
    open spec fn spec_type_hash_input() -> Seq<u8> {
        spec_str_hash_input("bool")
    }

    fn type_hash(hasher: &mut TypeHasher) {
        hasher.write_str("bool");
    }
}

impl ReprHash for bool {
    open spec fn spec_repr_hash(offset_of: nat) -> (Seq<u8>, nat) {
        spec_std_repr_hash_of::<bool>(offset_of)
    }

    fn repr_hash(hasher: &mut TypeHasher, offset_of: &mut usize) {
        std_repr_hash::<bool>(hasher, offset_of)
    }
}

impl MaxSizeOf for bool {
    open spec fn spec_max_size_of() -> usize {
        size_of::<bool>() as usize
    }

    fn max_size_of() -> (r: usize) {
        core::mem::size_of::<bool>()
    }
}

/// A boolean is stored as the byte 1 (true) or 0 (false); any nonzero byte reads as true.
impl ZeroCopy for bool {
    open spec fn spec_image(&self) -> Seq<u8> {
        seq![if *self { 1u8 } else { 0u8 }]
    }

    open spec fn spec_image_len() -> nat {
        1
    }

    open spec fn spec_from_image(image: Seq<u8>) -> Self {
        image[0] != 0
    }

    open spec fn spec_valid_image(image: Seq<u8>) -> bool {
        true
    }

    fn image_len() -> (r: Option<usize>) {
        Some(1)
    }

    fn is_valid_image(image: &[u8]) -> (r: bool) {
        true
    }

    fn write_image(&self, out: &mut Vec<u8>) {
        out.push(if *self { 1u8 } else { 0u8 });
    }

    fn from_image(image: &[u8]) -> (r: Self) {
        image[0] != 0
    }

    proof fn lemma_image(v: Self) {
        crate::lemma_small_pow2();
    }
}

impl SerializeInner for bool {
    const IS_ZERO_COPY: bool = true;

    const ZERO_COPY_MISMATCH: bool = false;

    open spec fn spec_ser(&self, pos: nat) -> Seq<u8> {
        seq![if *self { 1u8 } else { 0u8 }]
    }

    open spec fn spec_rows(&self, pos: nat, path: Seq<Seq<char>>) -> Seq<RowView> {
        Seq::empty()
    }

    fn _serialize_inner<W: WriteWithNames>(&self, backend: &mut W) -> (r: SerResult<()>) {
        let mut out: Vec<u8> = Vec::new();
        out.push(if *self { 1u8 } else { 0u8 });
        backend.write_all(out.as_slice())
    }
}

impl DeserializeInner for bool {
    type DeserType<'a> = Self;

    open spec fn spec_aligns() -> bool {
        false
    }

    fn _check(data: &[u8], pos: usize) -> (r: Option<Option<usize>>) {
        check_image::<bool>(data, pos)
    }

    open spec fn spec_deser_len(data: Seq<u8>, pos: nat) -> Option<core::result::Result<nat, DeError>> {
        spec_image_len_at::<bool>(data, pos)
    }

    open spec fn spec_decodes(v: Self, data: Seq<u8>, pos: nat) -> bool {
        spec_image_decodes(v, data)
    }

    open spec fn spec_eps_decodes<'a>(d: Self::DeserType<'a>, data: Seq<u8>, pos: nat) -> bool {
        spec_image_decodes(d, data)
    }

    fn _deserialize_full_inner<R: ReadWithPos>(backend: &mut R) -> (r: DeResult<Self>) {
        deserialize_image::<bool, R>(backend)
    }

    fn _deserialize_eps_inner<'a>(backend: &mut SliceWithPos<'a>) -> (r: DeResult<Self::DeserType<'a>>) {
        deserialize_image::<bool, SliceWithPos<'a>>(backend)
    }

    open spec fn spec_same(a: Self, b: Self) -> bool {
        a == b
    }

    open spec fn spec_eps_same<'a>(d: Self::DeserType<'a>, v: Self) -> bool {
        d == v
    }

    proof fn lemma_read_back(v: Self, w: Self, pos: nat, rest: Seq<u8>) {
        Self::lemma_image(v);
        lemma_image_read_back(v, pos, rest);
    }

    proof fn lemma_eps_read_back<'a>(v: Self, d: Self::DeserType<'a>, pos: nat, rest: Seq<u8>) {
        Self::lemma_image(v);
        lemma_image_read_back(v, pos, rest);
    }

    proof fn lemma_deser_len_fits(data: Seq<u8>, pos: nat) {
    }

    proof fn lemma_deser_ser(v: Self, pos: nat, rest: Seq<u8>) {
        Self::lemma_image(v);
        lemma_image_read_back(v, pos, rest);
    }
}

/// Calls `char::from_u32`, which gives a character exactly when `u` is a Unicode scalar
/// value, and then the character whose code is `u`.
#[verifier::external_body]
fn char_from_u32(u: u32) -> (r: Option<char>)
    ensures
        r is Some <==> is_scalar(u),
        r matches Some(c) ==> c as u32 == u,
{
    char::from_u32(u)
}

impl CopyType for char {
    type Copy = Zero;
}

impl TypeName for char {
    open spec fn spec_type_name() -> Seq<char> {
        "char"@
    }

    fn type_name_str() -> (r: String) {
        String::from_str("char")
    }
}

impl TypeHash for char {
    open spec fn spec_type_hash_input() -> Seq<u8> {
        spec_str_hash_input("char")
    }

    fn type_hash(hasher: &mut TypeHasher) {
        hasher.write_str("char");
    }
}

impl ReprHash for char {
    open spec fn spec_repr_hash(offset_of: nat) -> (Seq<u8>, nat) {
        spec_std_repr_hash_of::<char>(offset_of)
    }

    fn repr_hash(hasher: &mut TypeHasher, offset_of: &mut usize) {
        std_repr_hash::<char>(hasher, offset_of)
    }
}

impl MaxSizeOf for char {
    open spec fn spec_max_size_of() -> usize {
        size_of::<char>() as usize
    }

    fn max_size_of() -> (r: usize) {
        core::mem::size_of::<char>()
    }
}

/// A character is stored as the image of its code, a `u32`; an image is valid when
/// the code is a Unicode scalar value.
impl ZeroCopy for char {
    open spec fn spec_image(&self) -> Seq<u8> {
        spec_u32_to_le_bytes(*self as u32)
    }

    open spec fn spec_image_len() -> nat {
        4
    }

    open spec fn spec_from_image(image: Seq<u8>) -> Self {
        spec_u32_from_le_bytes(image) as char
    }

    open spec fn spec_valid_image(image: Seq<u8>) -> bool {
        is_scalar(spec_u32_from_le_bytes(image))
    }

    fn image_len() -> (r: Option<usize>) {
        Some(4)
    }

    fn is_valid_image(image: &[u8]) -> (r: bool) {
        char_from_u32(u32_from_le_bytes(image)).is_some()
    }

    fn write_image(&self, out: &mut Vec<u8>) {
        let bytes = u32_to_le_bytes(*self as u32);
        append_all(out, bytes.as_slice());
    }

    fn from_image(image: &[u8]) -> (r: Self) {
        let code = u32_from_le_bytes(image);
        let c = char_from_u32(code).unwrap();
        proof { char_u32_cast(c, code); }
        c
    }

    proof fn lemma_image(v: Self) {
        crate::lemma_small_pow2();
        lemma_auto_spec_u32_to_from_le_bytes();
        let code = v as u32;
        assert(spec_u32_to_le_bytes(code).len() == 4);
        assert(spec_u32_from_le_bytes(spec_u32_to_le_bytes(code)) == code);
        char_is_scalar(v);
        char_u32_cast(v, code);
    }
}

impl SerializeInner for char {
    const IS_ZERO_COPY: bool = true;

    const ZERO_COPY_MISMATCH: bool = false;

    open spec fn spec_ser(&self, pos: nat) -> Seq<u8> {
        spec_u32_to_le_bytes(*self as u32)
    }

    open spec fn spec_rows(&self, pos: nat, path: Seq<Seq<char>>) -> Seq<RowView> {
        Seq::empty()
    }

    fn _serialize_inner<W: WriteWithNames>(&self, backend: &mut W) -> (r: SerResult<()>) {
        let bytes = u32_to_le_bytes(*self as u32);
        backend.write_all(bytes.as_slice())
    }
}

impl DeserializeInner for char {
    type DeserType<'a> = Self;

    open spec fn spec_aligns() -> bool {
        false
    }

    fn _check(data: &[u8], pos: usize) -> (r: Option<Option<usize>>) {
        check_image::<char>(data, pos)
    }

    /// A code that is not a Unicode scalar value cannot be decoded.
    open spec fn spec_deser_len(data: Seq<u8>, pos: nat) -> Option<core::result::Result<nat, DeError>> {
        spec_image_len_at::<char>(data, pos)
    }

    open spec fn spec_decodes(v: Self, data: Seq<u8>, pos: nat) -> bool {
        spec_image_decodes(v, data)
    }

    open spec fn spec_eps_decodes<'a>(d: Self::DeserType<'a>, data: Seq<u8>, pos: nat) -> bool {
        spec_image_decodes(d, data)
    }

    fn _deserialize_full_inner<R: ReadWithPos>(backend: &mut R) -> (r: DeResult<Self>) {
        deserialize_image::<char, R>(backend)
    }

    fn _deserialize_eps_inner<'a>(backend: &mut SliceWithPos<'a>) -> (r: DeResult<Self::DeserType<'a>>) {
        deserialize_image::<char, SliceWithPos<'a>>(backend)
    }

    open spec fn spec_same(a: Self, b: Self) -> bool {
        a == b
    }

    open spec fn spec_eps_same<'a>(d: Self::DeserType<'a>, v: Self) -> bool {
        d == v
    }

    proof fn lemma_read_back(v: Self, w: Self, pos: nat, rest: Seq<u8>) {
        Self::lemma_image(v);
        lemma_image_read_back(v, pos, rest);
    }

    proof fn lemma_eps_read_back<'a>(v: Self, d: Self::DeserType<'a>, pos: nat, rest: Seq<u8>) {
        Self::lemma_image(v);
        lemma_image_read_back(v, pos, rest);
    }

    proof fn lemma_deser_len_fits(data: Seq<u8>, pos: nat) {
    }

    proof fn lemma_deser_ser(v: Self, pos: nat, rest: Seq<u8>) {
        Self::lemma_image(v);
        lemma_image_read_back(v, pos, rest);
    }
}

impl CopyType for () {
    type Copy = Zero;
}

impl TypeName for () {
    open spec fn spec_type_name() -> Seq<char> {
        "()"@
    }

    fn type_name_str() -> (r: String) {
        String::from_str("()")
    }
}

impl TypeHash for () {
    open spec fn spec_type_hash_input() -> Seq<u8> {
        spec_str_hash_input("()")
    }

    fn type_hash(hasher: &mut TypeHasher) {
        hasher.write_str("()");
    }
}

impl ReprHash for () {
    open spec fn spec_repr_hash(offset_of: nat) -> (Seq<u8>, nat) {
        spec_std_repr_hash_of::<()>(offset_of)
    }

    fn repr_hash(hasher: &mut TypeHasher, offset_of: &mut usize) {
        std_repr_hash::<()>(hasher, offset_of)
    }
}

impl MaxSizeOf for () {
    open spec fn spec_max_size_of() -> usize {
        size_of::<()>() as usize
    }

    fn max_size_of() -> (r: usize) {
        core::mem::size_of::<()>()
    }
}

/// The unit value is stored as nothing at all.
impl SerializeInner for () {
    const IS_ZERO_COPY: bool = true;

    const ZERO_COPY_MISMATCH: bool = false;

    open spec fn spec_ser(&self, pos: nat) -> Seq<u8> {
        Seq::empty()
    }

    open spec fn spec_rows(&self, pos: nat, path: Seq<Seq<char>>) -> Seq<RowView> {
        Seq::empty()
    }

    fn _serialize_inner<W: WriteWithNames>(&self, backend: &mut W) -> (r: SerResult<()>) {
        assert(backend.spec_written() + Seq::<u8>::empty() =~= backend.spec_written());
        Ok(())
    }
}

impl DeserializeInner for () {
    type DeserType<'a> = Self;

    open spec fn spec_aligns() -> bool {
        false
    }

    fn _check(data: &[u8], pos: usize) -> (r: Option<Option<usize>>) {
        Some(Some(0))
    }

    open spec fn spec_deser_len(data: Seq<u8>, pos: nat) -> Option<core::result::Result<nat, DeError>> {
        Some(Ok(0))
    }

    open spec fn spec_decodes(v: Self, data: Seq<u8>, pos: nat) -> bool {
        true
    }

    open spec fn spec_eps_decodes<'a>(d: Self::DeserType<'a>, data: Seq<u8>, pos: nat) -> bool {
        true
    }

    fn _deserialize_full_inner<R: ReadWithPos>(backend: &mut R) -> (r: DeResult<Self>) {
        assert(backend.spec_data().skip(0) =~= backend.spec_data());
        Ok(())
    }

    fn _deserialize_eps_inner<'a>(backend: &mut SliceWithPos<'a>) -> (r: DeResult<Self::DeserType<'a>>) {
        assert(backend.data@.skip(0) =~= backend.data@);
        Ok(())
    }

    open spec fn spec_same(a: Self, b: Self) -> bool {
        true
    }

    open spec fn spec_eps_same<'a>(d: Self::DeserType<'a>, v: Self) -> bool {
        true
    }

    proof fn lemma_read_back(v: Self, w: Self, pos: nat, rest: Seq<u8>) {
    }

    proof fn lemma_eps_read_back<'a>(v: Self, d: Self::DeserType<'a>, pos: nat, rest: Seq<u8>) {
    }

    proof fn lemma_deser_len_fits(data: Seq<u8>, pos: nat) {
    }

    proof fn lemma_deser_ser(v: Self, pos: nat, rest: Seq<u8>) {
    }
}

impl<T: ?Sized> CopyType for PhantomData<T> {
    type Copy = Zero;
}

impl<T: ?Sized + TypeName> TypeName for PhantomData<T> {
    open spec fn spec_type_name() -> Seq<char> {
        "PhantomData<"@ + T::spec_type_name() + ">"@
    }

    fn type_name_str() -> (r: String) {
        let mut name = String::from_str("PhantomData<");
        let inner = T::type_name_str();
        name.append(inner.as_str());
        name.append(">");
        name
    }
}

impl<T: ?Sized + TypeHash> TypeHash for PhantomData<T> {
    open spec fn spec_type_hash_input() -> Seq<u8> {
        spec_str_hash_input("PhantomData") + T::spec_type_hash_input()
    }

    fn type_hash(hasher: &mut TypeHasher) {
        hasher.write_str("PhantomData");
        T::type_hash(hasher);
        assert(hasher@ =~= old(hasher)@ + Self::spec_type_hash_input());
    }
}

/// A phantom type has no representation: nothing is hashed and the offset is kept.
impl<T: ?Sized> ReprHash for PhantomData<T> {
    open spec fn spec_repr_hash(offset_of: nat) -> (Seq<u8>, nat) {
        (Seq::empty(), offset_of)
    }

    fn repr_hash(hasher: &mut TypeHasher, offset_of: &mut usize) {
        assert(hasher@ + Seq::<u8>::empty() =~= hasher@);
    }
}

/// A phantom value is stored as nothing at all.
impl<T: ?Sized + TypeName> SerializeInner for PhantomData<T> {
    const IS_ZERO_COPY: bool = true;

    const ZERO_COPY_MISMATCH: bool = false;

    open spec fn spec_ser(&self, pos: nat) -> Seq<u8> {
        Seq::empty()
    }

    open spec fn spec_rows(&self, pos: nat, path: Seq<Seq<char>>) -> Seq<RowView> {
        Seq::empty()
    }

    fn _serialize_inner<W: WriteWithNames>(&self, backend: &mut W) -> (r: SerResult<()>) {
        assert(backend.spec_written() + Seq::<u8>::empty() =~= backend.spec_written());
        Ok(())
    }
}

impl<T: ?Sized + TypeName> DeserializeInner for PhantomData<T> {
    type DeserType<'a> = Self;

    open spec fn spec_aligns() -> bool {
        false
    }

    fn _check(data: &[u8], pos: usize) -> (r: Option<Option<usize>>) {
        Some(Some(0))
    }

    open spec fn spec_deser_len(data: Seq<u8>, pos: nat) -> Option<core::result::Result<nat, DeError>> {
        Some(Ok(0))
    }

    open spec fn spec_decodes(v: Self, data: Seq<u8>, pos: nat) -> bool {
        true
    }

    open spec fn spec_eps_decodes<'a>(d: Self::DeserType<'a>, data: Seq<u8>, pos: nat) -> bool {
        true
    }

    fn _deserialize_full_inner<R: ReadWithPos>(backend: &mut R) -> (r: DeResult<Self>) {
        assert(backend.spec_data().skip(0) =~= backend.spec_data());
        Ok(PhantomData)
    }

    fn _deserialize_eps_inner<'a>(backend: &mut SliceWithPos<'a>) -> (r: DeResult<Self::DeserType<'a>>) {
        assert(backend.data@.skip(0) =~= backend.data@);
        Ok(PhantomData)
    }

    open spec fn spec_same(a: Self, b: Self) -> bool {
        true
    }

    open spec fn spec_eps_same<'a>(d: Self::DeserType<'a>, v: Self) -> bool {
        true
    }

    proof fn lemma_read_back(v: Self, w: Self, pos: nat, rest: Seq<u8>) {
    }

    proof fn lemma_eps_read_back<'a>(v: Self, d: Self::DeserType<'a>, pos: nat, rest: Seq<u8>) {
    }

    proof fn lemma_deser_len_fits(data: Seq<u8>, pos: nat) {
    }

    proof fn lemma_deser_ser(v: Self, pos: nat, rest: Seq<u8>) {
    }
}

/// Append `bytes` to `out`.
fn append_all(out: &mut Vec<u8>, bytes: &[u8])
    ensures
        final(out)@ == old(out)@ + bytes@,
{
    let mut i: usize = 0;
    while i < bytes.len()
        invariant
            i <= bytes@.len(),
            out@ == old(out)@ + bytes@.take(i as int),
        decreases bytes@.len() - i,
    {
        out.push(bytes[i]);
        i = i + 1;
        assert(bytes@.take(i as int) == bytes@.take((i - 1) as int).push(bytes@[i - 1]));
    }
    assert(bytes@.take(i as int) == bytes@);
}

} // verus!
