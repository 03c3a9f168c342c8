//! Implementations for boxed slices.

use vstd::prelude::*;
use vstd::string::*;
use crate::deser::{DeserializeHelper, DeserializeInner, Error as DeError, Result as DeResult, ReadWithPos,
    SliceWithPos, ZeroSlice};
use crate::deser::helpers::{check_vec_deep, check_vec_zero, deserialize_full_vec_deep, deserialize_full_vec_zero, deserialize_eps_slice_zero,
    deserialize_eps_vec_deep, lemma_items_len_fits, lemma_vec_deep_eps_same, lemma_vec_deep_read_back,
    lemma_vec_deep_same, lemma_vec_zero_read_back, spec_read_len, spec_vec_deep_decodes, spec_vec_deep_eps_decodes,
    spec_vec_deep_len, spec_vec_zero_items, spec_vec_zero_len};
use crate::deser::read::spec_fits;
use crate::ser::{Result as SerResult, SerializeHelper, SerializeInner, SerializeSlice, WriteWithNames};
use crate::traits::{CopySelector, CopyType, Deep, DeepCopy, ReprHash, TypeHash, TypeHasher, TypeName, Zero, ZeroCopy,
    spec_str_hash_input};
use crate::bytes::usize_bytes;

use crate::ser::{RowView, spec_rows_view};
verus! {

broadcast use vstd::slice::axiom_spec_len;

/// Calls `Vec::into_boxed_slice`, which keeps the items.
#[verifier::external_body]
fn vec_into_boxed_slice<T>(v: Vec<T>) -> (r: Box<[T]>)
    ensures
        r@ == v@,
{
    v.into_boxed_slice()
}

impl<T> CopyType for Box<[T]> {
    type Copy = Deep;
}

impl<T: TypeName> TypeName for Box<[T]> {
    open spec fn spec_type_name() -> Seq<char> {
        "Box<["@ + T::spec_type_name() + "]>"@
    }

    fn type_name_str() -> (r: String) {
        let mut name = String::from_str("Box<[");
        let inner = T::type_name_str();
        name.append(inner.as_str());
        name.append("]>");
        name
    }
}

impl<T: TypeHash> TypeHash for Box<[T]> {
    open spec fn spec_type_hash_input() -> Seq<u8> {
        spec_str_hash_input("Box<[]>") + T::spec_type_hash_input()
    }

    fn type_hash(hasher: &mut TypeHasher) {
        hasher.write_str("Box<[]>");
        T::type_hash(hasher);
        assert(hasher@ =~= old(hasher)@ + Self::spec_type_hash_input());
    }
}

/// The representation of a boxed slice is that of its items, placed at offset zero.
impl<T: ReprHash> ReprHash for Box<[T]> {
    open spec fn spec_repr_hash(offset_of: nat) -> (Seq<u8>, nat) {
        T::spec_repr_hash(0)
    }

    fn repr_hash(hasher: &mut TypeHasher, offset_of: &mut usize) {
        *offset_of = 0;
        T::repr_hash(hasher, offset_of);
    }
}

/// A boxed slice is serialized as a vector with the same items.
impl<T: CopyType + SerializeInner> SerializeInner for Box<[T]> where Box<[T]>: SerializeHelper<<T as CopyType>::Copy> {
    const IS_ZERO_COPY: bool = false;

    const ZERO_COPY_MISMATCH: bool = false;

    open spec fn spec_ser(&self, pos: nat) -> Seq<u8> {
        <Box<[T]> as SerializeHelper<<T as CopyType>::Copy>>::spec_ser_helper(self, pos)
    }

    open spec fn spec_rows(&self, pos: nat, path: Seq<Seq<char>>) -> Seq<RowView> {
        <Box<[T]> as SerializeHelper<<T as CopyType>::Copy>>::spec_helper_rows(self, pos, path)
    }

    fn _serialize_inner<W: WriteWithNames>(&self, backend: &mut W) -> (r: SerResult<()>) {
        <Box<[T]> as SerializeHelper<<T as CopyType>::Copy>>::_serialize_inner(self, backend)
    }
}

/// A boxed slice is written as a slice of its items.
impl<C: CopySelector, T: SerializeSlice<C>> SerializeHelper<C> for Box<[T]> {
    open spec fn spec_ser_helper(&self, pos: nat) -> Seq<u8> {
        T::spec_ser_slice(self@, pos)
    }

    open spec fn spec_helper_rows(&self, pos: nat, path: Seq<Seq<char>>) -> Seq<RowView> {
        T::spec_slice_rows(self@, pos, path)
    }

    fn _serialize_inner<W: WriteWithNames>(&self, backend: &mut W) -> (r: SerResult<()>) {
        T::_serialize_slice(&**self, backend)
    }
}

impl<T: CopyType + DeserializeInner> DeserializeInner for Box<[T]> where
    Box<[T]>: DeserializeHelper<<T as CopyType>::Copy>,
 {
    type DeserType<'a> = <Box<[T]> as DeserializeHelper<<T as CopyType>::Copy>>::DeserType<'a>;

    open spec fn spec_aligns() -> bool {
        <Box<[T]> as DeserializeHelper<<T as CopyType>::Copy>>::spec_helper_aligns()
    }

    fn _check(data: &[u8], pos: usize) -> (r: Option<Option<usize>>) {
        <Box<[T]> as DeserializeHelper<<T as CopyType>::Copy>>::_helper_check(data, pos)
    }

    open spec fn spec_deser_len(data: Seq<u8>, pos: nat) -> Option<core::result::Result<nat, DeError>> {
        <Box<[T]> as DeserializeHelper<<T as CopyType>::Copy>>::spec_helper_deser_len(data, pos)
    }

    open spec fn spec_decodes(v: Self, data: Seq<u8>, pos: nat) -> bool {
        <Box<[T]> as DeserializeHelper<<T as CopyType>::Copy>>::spec_helper_decodes(v, data, pos)
    }

    open spec fn spec_eps_decodes<'a>(d: Self::DeserType<'a>, data: Seq<u8>, pos: nat) -> bool {
        <Box<[T]> as DeserializeHelper<<T as CopyType>::Copy>>::spec_helper_eps_decodes(d, data, pos)
    }

    fn _deserialize_full_inner<R: ReadWithPos>(backend: &mut R) -> (r: DeResult<Self>) {
        <Box<[T]> as DeserializeHelper<<T as CopyType>::Copy>>::_deserialize_full_inner_impl(backend)
    }

    fn _deserialize_eps_inner<'a>(backend: &mut SliceWithPos<'a>) -> (r: DeResult<Self::DeserType<'a>>) {
        <Box<[T]> as DeserializeHelper<<T as CopyType>::Copy>>::_deserialize_eps_inner_impl(backend)
    }

    open spec fn spec_same(a: Self, b: Self) -> bool {
        <Box<[T]> as DeserializeHelper<<T as CopyType>::Copy>>::spec_helper_same(a, b)
    }

    open spec fn spec_eps_same<'a>(d: Self::DeserType<'a>, v: Self) -> bool {
        <Box<[T]> as DeserializeHelper<<T as CopyType>::Copy>>::spec_helper_eps_same(d, v)
    }

    proof fn lemma_read_back(v: Self, w: Self, pos: nat, rest: Seq<u8>) {
        <Box<[T]> as DeserializeHelper<<T as CopyType>::Copy>>::lemma_helper_read_back(v, w, pos, rest);
    }

    proof fn lemma_eps_read_back<'a>(v: Self, d: Self::DeserType<'a>, pos: nat, rest: Seq<u8>) {
        <Box<[T]> as DeserializeHelper<<T as CopyType>::Copy>>::lemma_helper_eps_read_back(v, d, pos, rest);
    }

    proof fn lemma_deser_len_fits(data: Seq<u8>, pos: nat) {
        <Box<[T]> as DeserializeHelper<<T as CopyType>::Copy>>::lemma_helper_deser_len_fits(data, pos);
    }

    proof fn lemma_deser_ser(v: Self, pos: nat, rest: Seq<u8>) {
        <Box<[T]> as DeserializeHelper<<T as CopyType>::Copy>>::lemma_helper_deser_ser(v, pos, rest);
    }
}

/// A boxed slice of zero-copy items is ε-copied as a [`ZeroSlice`] over its images.
impl<T: ZeroCopy> DeserializeHelper<Zero> for Box<[T]> {
    type DeserType<'a> = ZeroSlice<'a, T>;

    open spec fn spec_helper_aligns() -> bool {
        T::spec_max_size_of() > 1
    }

    fn _helper_check(data: &[u8], pos: usize) -> (r: Option<Option<usize>>) {
        check_vec_zero::<T>(data, pos)
    }

    open spec fn spec_helper_deser_len(data: Seq<u8>, pos: nat) -> Option<core::result::Result<nat, DeError>> {
        spec_vec_zero_len::<T>(data, pos)
    }

    open spec fn spec_helper_decodes(v: Self, data: Seq<u8>, pos: nat) -> bool {
        v@ == spec_vec_zero_items::<T>(data, pos)
    }

    open spec fn spec_helper_eps_decodes<'a>(d: Self::DeserType<'a>, data: Seq<u8>, pos: nat) -> bool {
        d@ == spec_vec_zero_items::<T>(data, pos)
    }

    fn _deserialize_full_inner_impl<R: ReadWithPos>(backend: &mut R) -> (r: DeResult<Self>) {
        match deserialize_full_vec_zero::<T, R>(backend) {
            Ok(v) => Ok(vec_into_boxed_slice(v)),
            Err(e) => Err(e),
        }
    }

    fn _deserialize_eps_inner_impl<'a>(backend: &mut SliceWithPos<'a>) -> (r: DeResult<Self::DeserType<'a>>) {
        deserialize_eps_slice_zero::<T>(backend)
    }

    open spec fn spec_helper_same(a: Self, b: Self) -> bool {
        a@ == b@
    }

    open spec fn spec_helper_eps_same<'a>(d: Self::DeserType<'a>, v: Self) -> bool {
        d@ == v@
    }

    proof fn lemma_helper_read_back(v: Self, w: Self, pos: nat, rest: Seq<u8>) {
        Self::lemma_helper_deser_ser(v, pos, rest);
    }

    proof fn lemma_helper_eps_read_back<'a>(v: Self, d: Self::DeserType<'a>, pos: nat, rest: Seq<u8>) {
        Self::lemma_helper_deser_ser(v, pos, rest);
    }

    proof fn lemma_helper_deser_len_fits(data: Seq<u8>, pos: nat) {
    }

    proof fn lemma_helper_deser_ser(v: Self, pos: nat, rest: Seq<u8>) {
        assert(v@.len() == v.len());
        lemma_vec_zero_read_back::<T>(v@, pos, rest);
    }
}

/// A boxed slice of deep-copy items is ε-copied item by item.
impl<T: DeepCopy + DeserializeInner> DeserializeHelper<Deep> for Box<[T]> {
    type DeserType<'a> = Box<[<T as DeserializeInner>::DeserType<'a>]>;

    open spec fn spec_helper_aligns() -> bool {
        T::spec_aligns()
    }

    fn _helper_check(data: &[u8], pos: usize) -> (r: Option<Option<usize>>) {
        check_vec_deep::<T>(data, pos)
    }

    open spec fn spec_helper_deser_len(data: Seq<u8>, pos: nat) -> Option<core::result::Result<nat, DeError>> {
        spec_vec_deep_len::<T>(data, pos)
    }

    open spec fn spec_helper_decodes(v: Self, data: Seq<u8>, pos: nat) -> bool {
        spec_vec_deep_decodes::<T>(v@, data, pos)
    }

    open spec fn spec_helper_eps_decodes<'a>(d: Self::DeserType<'a>, data: Seq<u8>, pos: nat) -> bool {
        spec_vec_deep_eps_decodes::<T>(d@, data, pos)
    }

    fn _deserialize_full_inner_impl<R: ReadWithPos>(backend: &mut R) -> (r: DeResult<Self>) {
        match deserialize_full_vec_deep::<T, R>(backend) {
            Ok(v) => Ok(vec_into_boxed_slice(v)),
            Err(e) => Err(e),
        }
    }

    fn _deserialize_eps_inner_impl<'a>(backend: &mut SliceWithPos<'a>) -> (r: DeResult<Self::DeserType<'a>>) {
        match deserialize_eps_vec_deep::<T>(backend) {
            Ok(v) => Ok(vec_into_boxed_slice(v)),
            Err(e) => Err(e),
        }
    }

    open spec fn spec_helper_same(a: Self, b: Self) -> bool {
        &&& a@.len() == b@.len()
        &&& forall|i: int| 0 <= i < a@.len() ==> T::spec_same(#[trigger] a@[i], b@[i])
    }

    open spec fn spec_helper_eps_same<'a>(d: Self::DeserType<'a>, v: Self) -> bool {
        &&& d@.len() == v@.len()
        &&& forall|i: int| 0 <= i < d@.len() ==> T::spec_eps_same(#[trigger] d@[i], v@[i])
    }

    proof fn lemma_helper_read_back(v: Self, w: Self, pos: nat, rest: Seq<u8>) {
        assert(v@.len() == v.len());
        lemma_vec_deep_read_back::<T>(v@, pos, rest);
        lemma_vec_deep_same::<T>(v@, w@, pos, rest);
    }

    proof fn lemma_helper_eps_read_back<'a>(v: Self, d: Self::DeserType<'a>, pos: nat, rest: Seq<u8>) {
        assert(v@.len() == v.len());
        lemma_vec_deep_read_back::<T>(v@, pos, rest);
        lemma_vec_deep_eps_same::<T>(v@, d@, pos, rest);
    }

    proof fn lemma_helper_deser_len_fits(data: Seq<u8>, pos: nat) {
        if spec_fits(data, pos, usize_bytes()) {
            lemma_items_len_fits::<T>(data.skip(usize_bytes() as int), pos + usize_bytes(), spec_read_len(data));
        }
    }

    proof fn lemma_helper_deser_ser(v: Self, pos: nat, rest: Seq<u8>) {
        assert(v@.len() == v.len());
        lemma_vec_deep_read_back::<T>(v@, pos, rest);
    }
}

} // verus!
