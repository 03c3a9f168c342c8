//! Implementations for vectors.

use vstd::prelude::*;
use vstd::string::*;
use crate::deser::{DeserializeHelper, DeserializeInner, Error as DeError, Result as DeResult, ReadWithPos, SliceWithPos, ZeroSlice};
use crate::deser::helpers::{check_vec_deep, check_vec_zero, deserialize_full_vec_deep, deserialize_full_vec_zero, deserialize_eps_slice_zero, deserialize_eps_vec_deep, lemma_items_len_fits, lemma_vec_deep_same, lemma_vec_deep_eps_same, lemma_vec_deep_read_back, lemma_vec_zero_read_back, spec_vec_deep_decodes, spec_vec_deep_eps_decodes, spec_vec_deep_len, spec_vec_zero_items, spec_vec_zero_len, spec_read_len};
use crate::deser::read::spec_fits;
use crate::ser::{Result as SerResult, SerializeHelper, SerializeInner, SerializeSlice, WriteWithNames};
use crate::traits::{CopySelector, CopyType, Deep, DeepCopy, ReprHash, TypeHash, TypeHasher, TypeName, Zero, ZeroCopy, spec_str_hash_input};
use crate::bytes::usize_bytes;

use crate::ser::{RowView, spec_rows_view};
verus! {

broadcast use vstd::std_specs::vec::axiom_spec_len;

impl<T> CopyType for Vec<T> {
    type Copy = Deep;
}

impl<T: TypeName> TypeName for Vec<T> {
    open spec fn spec_type_name() -> Seq<char> {
        "Vec<"@ + T::spec_type_name() + ">"@
    }

    fn type_name_str() -> (r: String) {
        let mut name = String::from_str("Vec<");
        let inner = T::type_name_str();
        name.append(inner.as_str());
        name.append(">");
        name
    }
}

impl<T: TypeHash> TypeHash for Vec<T> {
    open spec fn spec_type_hash_input() -> Seq<u8> {
        spec_str_hash_input("Vec") + T::spec_type_hash_input()
    }

    fn type_hash(hasher: &mut TypeHasher) {
        hasher.write_str("Vec");
        T::type_hash(hasher);
        assert(hasher@ =~= old(hasher)@ + Self::spec_type_hash_input());
    }
}

/// The representation of a vector is that of its items, placed at offset zero.
impl<T: ReprHash> ReprHash for Vec<T> {
    open spec fn spec_repr_hash(offset_of: nat) -> (Seq<u8>, nat) {
        T::spec_repr_hash(0)
    }

    fn repr_hash(hasher: &mut TypeHasher, offset_of: &mut usize) {
        *offset_of = 0;
        T::repr_hash(hasher, offset_of);
    }
}

/// A vector is serialized as its length followed by its items: their aligned images
/// when they are zero-copy, each item in turn when they are deep-copy.
impl<T: CopyType + SerializeInner> SerializeInner for Vec<T> where Vec<T>: SerializeHelper<<T as CopyType>::Copy> {
    const IS_ZERO_COPY: bool = false;

    const ZERO_COPY_MISMATCH: bool = false;

    open spec fn spec_ser(&self, pos: nat) -> Seq<u8> {
        <Vec<T> as SerializeHelper<<T as CopyType>::Copy>>::spec_ser_helper(self, pos)
    }

    open spec fn spec_rows(&self, pos: nat, path: Seq<Seq<char>>) -> Seq<RowView> {
        <Vec<T> as SerializeHelper<<T as CopyType>::Copy>>::spec_helper_rows(self, pos, path)
    }

    fn _serialize_inner<W: WriteWithNames>(&self, backend: &mut W) -> (r: SerResult<()>) {
        <Vec<T> as SerializeHelper<<T as CopyType>::Copy>>::_serialize_inner(self, backend)
    }
}

/// A vector is written as a slice of its items.
impl<C: CopySelector, T: SerializeSlice<C>> SerializeHelper<C> for Vec<T> {
    open spec fn spec_ser_helper(&self, pos: nat) -> Seq<u8> {
        T::spec_ser_slice(self@, pos)
    }

    open spec fn spec_helper_rows(&self, pos: nat, path: Seq<Seq<char>>) -> Seq<RowView> {
        T::spec_slice_rows(self@, pos, path)
    }

    fn _serialize_inner<W: WriteWithNames>(&self, backend: &mut W) -> (r: SerResult<()>) {
        T::_serialize_slice(self.as_slice(), backend)
    }
}

impl<T: CopyType + DeserializeInner> DeserializeInner for Vec<T> where
    Vec<T>: DeserializeHelper<<T as CopyType>::Copy>,
 {
    type DeserType<'a> = <Vec<T> as DeserializeHelper<<T as CopyType>::Copy>>::DeserType<'a>;

    open spec fn spec_aligns() -> bool {
        <Vec<T> as DeserializeHelper<<T as CopyType>::Copy>>::spec_helper_aligns()
    }

    fn _check(data: &[u8], pos: usize) -> (r: Option<Option<usize>>) {
        <Vec<T> as DeserializeHelper<<T as CopyType>::Copy>>::_helper_check(data, pos)
    }

    open spec fn spec_deser_len(data: Seq<u8>, pos: nat) -> Option<core::result::Result<nat, DeError>> {
        <Vec<T> as DeserializeHelper<<T as CopyType>::Copy>>::spec_helper_deser_len(data, pos)
    }

    open spec fn spec_decodes(v: Self, data: Seq<u8>, pos: nat) -> bool {
        <Vec<T> as DeserializeHelper<<T as CopyType>::Copy>>::spec_helper_decodes(v, data, pos)
    }

    open spec fn spec_eps_decodes<'a>(d: Self::DeserType<'a>, data: Seq<u8>, pos: nat) -> bool {
        <Vec<T> as DeserializeHelper<<T as CopyType>::Copy>>::spec_helper_eps_decodes(d, data, pos)
    }

    fn _deserialize_full_inner<R: ReadWithPos>(backend: &mut R) -> (r: DeResult<Self>) {
        <Vec<T> as DeserializeHelper<<T as CopyType>::Copy>>::_deserialize_full_inner_impl(backend)
    }

    fn _deserialize_eps_inner<'a>(backend: &mut SliceWithPos<'a>) -> (r: DeResult<Self::DeserType<'a>>) {
        <Vec<T> as DeserializeHelper<<T as CopyType>::Copy>>::_deserialize_eps_inner_impl(backend)
    }

    open spec fn spec_same(a: Self, b: Self) -> bool {
        <Vec<T> as DeserializeHelper<<T as CopyType>::Copy>>::spec_helper_same(a, b)
    }

    open spec fn spec_eps_same<'a>(d: Self::DeserType<'a>, v: Self) -> bool {
        <Vec<T> as DeserializeHelper<<T as CopyType>::Copy>>::spec_helper_eps_same(d, v)
    }

    proof fn lemma_read_back(v: Self, w: Self, pos: nat, rest: Seq<u8>) {
        <Vec<T> as DeserializeHelper<<T as CopyType>::Copy>>::lemma_helper_read_back(v, w, pos, rest);
    }

    proof fn lemma_eps_read_back<'a>(v: Self, d: Self::DeserType<'a>, pos: nat, rest: Seq<u8>) {
        <Vec<T> as DeserializeHelper<<T as CopyType>::Copy>>::lemma_helper_eps_read_back(v, d, pos, rest);
    }

    proof fn lemma_deser_len_fits(data: Seq<u8>, pos: nat) {
        <Vec<T> as DeserializeHelper<<T as CopyType>::Copy>>::lemma_helper_deser_len_fits(data, pos);
    }

    proof fn lemma_deser_ser(v: Self, pos: nat, rest: Seq<u8>) {
        <Vec<T> as DeserializeHelper<<T as CopyType>::Copy>>::lemma_helper_deser_ser(v, pos, rest);
    }
}

/// A vector of zero-copy items is ε-copied as a [`ZeroSlice`] over its images.
impl<T: ZeroCopy> DeserializeHelper<Zero> for Vec<T> {
    type DeserType<'a> = ZeroSlice<'a, T>;

    open spec fn spec_helper_aligns() -> bool {
        T::spec_max_size_of() > 1
    }

    fn _helper_check(data: &[u8], pos: usize) -> (r: Option<Option<usize>>) {
        check_vec_zero::<T>(data, pos)
    }

    open spec fn spec_helper_deser_len(data: Seq<u8>, pos: nat) -> Option<core::result::Result<nat, DeError>> {
        spec_vec_zero_len::<T>(data, pos)
    }

    open spec fn spec_helper_decodes(v: Self, data: Seq<u8>, pos: nat) -> bool {
        v@ == spec_vec_zero_items::<T>(data, pos)
    }

    open spec fn spec_helper_eps_decodes<'a>(d: Self::DeserType<'a>, data: Seq<u8>, pos: nat) -> bool {
        d@ == spec_vec_zero_items::<T>(data, pos)
    }

    fn _deserialize_full_inner_impl<R: ReadWithPos>(backend: &mut R) -> (r: DeResult<Self>) {
        deserialize_full_vec_zero::<T, R>(backend)
    }

    fn _deserialize_eps_inner_impl<'a>(backend: &mut SliceWithPos<'a>) -> (r: DeResult<Self::DeserType<'a>>) {
        deserialize_eps_slice_zero::<T>(backend)
    }

    open spec fn spec_helper_same(a: Self, b: Self) -> bool {
        a@ == b@
    }

    open spec fn spec_helper_eps_same<'a>(d: Self::DeserType<'a>, v: Self) -> bool {
        d@ == v@
    }

    proof fn lemma_helper_read_back(v: Self, w: Self, pos: nat, rest: Seq<u8>) {
        Self::lemma_helper_deser_ser(v, pos, rest);
    }

    proof fn lemma_helper_eps_read_back<'a>(v: Self, d: Self::DeserType<'a>, pos: nat, rest: Seq<u8>) {
        Self::lemma_helper_deser_ser(v, pos, rest);
    }

    proof fn lemma_helper_deser_len_fits(data: Seq<u8>, pos: nat) {
    }

    proof fn lemma_helper_deser_ser(v: Self, pos: nat, rest: Seq<u8>) {
        assert(v@.len() == v.len());
        lemma_vec_zero_read_back::<T>(v@, pos, rest);
    }
}

/// A vector of deep-copy items is ε-copied item by item.
impl<T: DeepCopy + DeserializeInner> DeserializeHelper<Deep> for Vec<T> {
    type DeserType<'a> = Vec<<T as DeserializeInner>::DeserType<'a>>;

    open spec fn spec_helper_aligns() -> bool {
        T::spec_aligns()
    }

    fn _helper_check(data: &[u8], pos: usize) -> (r: Option<Option<usize>>) {
        check_vec_deep::<T>(data, pos)
    }

    open spec fn spec_helper_deser_len(data: Seq<u8>, pos: nat) -> Option<core::result::Result<nat, DeError>> {
        spec_vec_deep_len::<T>(data, pos)
    }

    open spec fn spec_helper_decodes(v: Self, data: Seq<u8>, pos: nat) -> bool {
        spec_vec_deep_decodes::<T>(v@, data, pos)
    }

    open spec fn spec_helper_eps_decodes<'a>(d: Self::DeserType<'a>, data: Seq<u8>, pos: nat) -> bool {
        spec_vec_deep_eps_decodes::<T>(d@, data, pos)
    }

    fn _deserialize_full_inner_impl<R: ReadWithPos>(backend: &mut R) -> (r: DeResult<Self>) {
        deserialize_full_vec_deep::<T, R>(backend)
    }

    fn _deserialize_eps_inner_impl<'a>(backend: &mut SliceWithPos<'a>) -> (r: DeResult<Self::DeserType<'a>>) {
        deserialize_eps_vec_deep::<T>(backend)
    }

    open spec fn spec_helper_same(a: Self, b: Self) -> bool {
        &&& a@.len() == b@.len()
        &&& forall|i: int| 0 <= i < a@.len() ==> T::spec_same(#[trigger] a@[i], b@[i])
    }

    open spec fn spec_helper_eps_same<'a>(d: Self::DeserType<'a>, v: Self) -> bool {
        &&& d@.len() == v@.len()
        &&& forall|i: int| 0 <= i < d@.len() ==> T::spec_eps_same(#[trigger] d@[i], v@[i])
    }

    proof fn lemma_helper_read_back(v: Self, w: Self, pos: nat, rest: Seq<u8>) {
        assert(v@.len() == v.len());
        lemma_vec_deep_read_back::<T>(v@, pos, rest);
        lemma_vec_deep_same::<T>(v@, w@, pos, rest);
    }

    proof fn lemma_helper_eps_read_back<'a>(v: Self, d: Self::DeserType<'a>, pos: nat, rest: Seq<u8>) {
        assert(v@.len() == v.len());
        lemma_vec_deep_read_back::<T>(v@, pos, rest);
        lemma_vec_deep_eps_same::<T>(v@, d@, pos, rest);
    }

    proof fn lemma_helper_deser_len_fits(data: Seq<u8>, pos: nat) {
        if spec_fits(data, pos, usize_bytes()) {
            lemma_items_len_fits::<T>(data.skip(usize_bytes() as int), pos + usize_bytes(), spec_read_len(data));
        }
    }

    proof fn lemma_helper_deser_ser(v: Self, pos: nat, rest: Seq<u8>) {
        assert(v@.len() == v.len());
        lemma_vec_deep_read_back::<T>(v@, pos, rest);
    }
}

/// Law: a vector of deep-copy items serialized at `pos` and followed by any bytes is read
/// back taking exactly the bytes written, and any vector read there has the same number
/// of items, each holding the same data as the item written.
pub proof fn lemma_vec_deep_round_trip<T: DeepCopy + DeserializeInner>(v: Vec<T>, pos: nat, rest: Seq<u8>)
    requires
        pos + v.spec_ser(pos).len() <= usize::MAX,
    ensures
        <Vec<T> as DeserializeInner>::spec_deser_len(v.spec_ser(pos) + rest, pos) == Some(
            Ok::<nat, DeError>(v.spec_ser(pos).len()),
        ),
        forall|w: Vec<T>|
            #[trigger] <Vec<T> as DeserializeInner>::spec_decodes(w, v.spec_ser(pos) + rest, pos) ==> {
                &&& w@.len() == v@.len()
                &&& forall|i: int| 0 <= i < v@.len() ==> T::spec_same(#[trigger] w@[i], v@[i])
            },
{
    <Vec<T> as DeserializeInner>::lemma_deser_ser(v, pos, rest);
    assert forall|w: Vec<T>|
        #[trigger] <Vec<T> as DeserializeInner>::spec_decodes(w, v.spec_ser(pos) + rest, pos) implies {
            &&& w@.len() == v@.len()
            &&& forall|i: int| 0 <= i < v@.len() ==> T::spec_same(#[trigger] w@[i], v@[i])
        } by {
        <Vec<T> as DeserializeInner>::lemma_read_back(v, w, pos, rest);
    }
}

} // verus!
