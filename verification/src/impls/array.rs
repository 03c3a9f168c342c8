//! Implementations for arrays.
//!
//! An array of zero-copy items is zero-copy: its image is the concatenation of the
//! images of its items, aligned to the items. An array of deep-copy items is
//! serialized item by item. Unlike a vector, an array does not store its length,
//! which is part of its type.

use vstd::prelude::*;
use vstd::string::*;
use crate::bytes::spec_usize_le;
use crate::deser::{DeserializeHelper, DeserializeInner, Error as DeError, Result as DeResult, ReadWithPos, SliceWithPos};
use crate::deser::helpers::{check_items, check_zero, deserialize_eps_items, deserialize_eps_zero, deserialize_full_items, deserialize_full_zero, lemma_images_layout, lemma_items_eps_same, lemma_items_len_fits, lemma_items_read_back, lemma_items_same, lemma_zero_read_back, spec_items_decode, spec_items_eps_decode, spec_items_len, spec_zero_decodes, spec_zero_len};
use crate::deser::zero_slice::{decode_images, valid_images, spec_image_at, spec_valid_images, spec_zero_items};
use crate::ser::{Result as SerResult, SerializeHelper, SerializeInner, WriteWithNames, spec_zeros};
use crate::ser::helpers::{append_images, serialize_images, serialize_items, spec_images, spec_ser_seq, spec_ser_zero};
use crate::spec_padding;
use crate::text::{push_dec, spec_dec};
use crate::traits::{CopyType, Deep, DeepCopy, MaxSizeOf, ReprHash, TypeHash, TypeHasher, TypeName, Zero, ZeroCopy, spec_std_repr_hash_of, spec_str_hash_input, std_repr_hash};

use crate::ser::{RowView, spec_rows_view};
use crate::ser::helpers::{spec_items_rows, spec_zero_rows};
verus! {

broadcast use vstd::array::group_array_axioms;

/// Calls `<[T; N] as TryFrom<Vec<T>>>::try_from`, which gives back the items of the
/// vector as an array when the vector holds exactly `N` items, and the vector itself
/// otherwise.
#[verifier::external_body]
fn vec_try_into_array<T, const N: usize>(v: Vec<T>) -> (r: core::result::Result<[T; N], Vec<T>>)
    ensures
        v@.len() == N ==> r is Ok && r->Ok_0@ == v@,
        v@.len() != N ==> r is Err && r->Err_0@ == v@,
{
    <[T; N]>::try_from(v)
}

/// The array holding the items of a vector of `N` items.
fn array_from_vec<T, const N: usize>(v: Vec<T>) -> (r: [T; N])
    requires
        v@.len() == N,
    ensures
        r@ == v@,
{
    match vec_try_into_array::<T, N>(v) {
        Ok(a) => a,
        Err(_) => vstd::pervasive::unreached(),
    }
}

/// Arrays are zero-copy exactly when their items are.
impl<T: CopyType, const N: usize> CopyType for [T; N] {
    type Copy = T::Copy;
}

impl<T: TypeName, const N: usize> TypeName for [T; N] {
    open spec fn spec_type_name() -> Seq<char> {
        "["@ + T::spec_type_name() + "; "@ + spec_dec(N as nat) + "]"@
    }

    fn type_name_str() -> (r: String) {
        let mut name = String::from_str("[");
        let inner = T::type_name_str();
        name.append(inner.as_str());
        name.append("; ");
        push_dec(&mut name, N);
        name.append("]");
        name
    }
}

/// The type hash of an array is that of `[]`, its length and the type hash of its items.
impl<T: TypeHash, const N: usize> TypeHash for [T; N] {
    open spec fn spec_type_hash_input() -> Seq<u8> {
        spec_str_hash_input("[]") + spec_usize_le(N) + T::spec_type_hash_input()
    }

    fn type_hash(hasher: &mut TypeHasher) {
        hasher.write_str("[]");
        hasher.write_usize(N);
        T::type_hash(hasher);
        assert(hasher@ =~= old(hasher)@ + Self::spec_type_hash_input());
    }
}

/// The representation of an array is given by its size and alignment.
impl<T, const N: usize> ReprHash for [T; N] {
    open spec fn spec_repr_hash(offset_of: nat) -> (Seq<u8>, nat) {
        spec_std_repr_hash_of::<[T; N]>(offset_of)
    }

    fn repr_hash(hasher: &mut TypeHasher, offset_of: &mut usize) {
        std_repr_hash::<[T; N]>(hasher, offset_of)
    }
}

/// The maximum size of a primitive field of an array is that of its items.
impl<T: MaxSizeOf, const N: usize> MaxSizeOf for [T; N] {
    open spec fn spec_max_size_of() -> usize {
        T::spec_max_size_of()
    }

    fn max_size_of() -> (r: usize) {
        T::max_size_of()
    }
}

/// The image of an array is the concatenation of the images of its items.
impl<T: ZeroCopy, const N: usize> ZeroCopy for [T; N] {
    open spec fn spec_image(&self) -> Seq<u8> {
        spec_images(self@)
    }

    open spec fn spec_image_len() -> nat {
        N as nat * T::spec_image_len()
    }

    open spec fn spec_from_image(image: Seq<u8>) -> Self {
        choose|a: [T; N]| a@ == spec_zero_items::<T>(image, N as nat)
    }

    open spec fn spec_valid_image(image: Seq<u8>) -> bool {
        spec_valid_images::<T>(image, N as nat)
    }

    fn image_len() -> (r: Option<usize>) {
        if N == 0 {
            assert(N as nat * T::spec_image_len() == 0);
            return Some(0);
        }
        match T::image_len() {
            Some(len) => N.checked_mul(len),
            None => {
                assert(N as nat * T::spec_image_len() >= T::spec_image_len()) by (nonlinear_arith)
                    requires
                        N >= 1,
                ;
                None
            },
        }
    }

    fn is_valid_image(image: &[u8]) -> (r: bool) {
        valid_images::<T>(image, N)
    }

    fn write_image(&self, out: &mut Vec<u8>) {
        append_images(self.as_slice(), out);
    }

    fn from_image(image: &[u8]) -> (r: Self) {
        let items = decode_images::<T>(image, N);
        let a = array_from_vec::<T, N>(items);
        let ghost c = Self::spec_from_image(image@);
        assert(c =~= a);
        a
    }

    proof fn lemma_image(v: Self) {
        T::lemma_image(vstd::pervasive::arbitrary());
        lemma_images_layout(v@);
        let image = v.spec_image();
        assert forall|i: int| 0 <= i < N implies T::spec_valid_image(
            #[trigger] spec_image_at::<T>(image, i),
        ) by {
            T::lemma_image(v@[i]);
        }
        assert(spec_zero_items::<T>(image, N as nat) =~= v@) by {
            assert forall|i: int| 0 <= i < N implies spec_zero_items::<T>(image, N as nat)[i] == v@[i] by {
                T::lemma_image(v@[i]);
            }
        }
        let c = Self::spec_from_image(image);
        assert(c =~= v);
    }
}

/// An array is serialized as its zero-copy image when its items are zero-copy, and
/// item by item when they are deep-copy.
impl<T: CopyType + SerializeInner, const N: usize> SerializeInner for [T; N] where
    [T; N]: SerializeHelper<<T as CopyType>::Copy>,
 {
    const IS_ZERO_COPY: bool = T::IS_ZERO_COPY;

    const ZERO_COPY_MISMATCH: bool = T::ZERO_COPY_MISMATCH;

    open spec fn spec_ser(&self, pos: nat) -> Seq<u8> {
        <[T; N] as SerializeHelper<<T as CopyType>::Copy>>::spec_ser_helper(self, pos)
    }

    open spec fn spec_rows(&self, pos: nat, path: Seq<Seq<char>>) -> Seq<RowView> {
        <[T; N] as SerializeHelper<<T as CopyType>::Copy>>::spec_helper_rows(self, pos, path)
    }

    fn _serialize_inner<W: WriteWithNames>(&self, backend: &mut W) -> (r: SerResult<()>) {
        <[T; N] as SerializeHelper<<T as CopyType>::Copy>>::_serialize_inner(self, backend)
    }
}

impl<T: ZeroCopy, const N: usize> SerializeHelper<Zero> for [T; N] {
    open spec fn spec_ser_helper(&self, pos: nat) -> Seq<u8> {
        spec_zeros(spec_padding(pos, T::spec_max_size_of())) + spec_images(self@)
    }

    open spec fn spec_helper_rows(&self, pos: nat, path: Seq<Seq<char>>) -> Seq<RowView> {
        spec_zero_rows::<T, [T; N]>(pos, path, spec_images(self@).len())
    }

    fn _serialize_inner<W: WriteWithNames>(&self, backend: &mut W) -> (r: SerResult<()>) {
        serialize_images::<T, [T; N], W>(backend, self.as_slice())
    }
}

impl<T: DeepCopy + SerializeInner, const N: usize> SerializeHelper<Deep> for [T; N] {
    open spec fn spec_ser_helper(&self, pos: nat) -> Seq<u8> {
        spec_ser_seq(self@, pos)
    }

    open spec fn spec_helper_rows(&self, pos: nat, path: Seq<Seq<char>>) -> Seq<RowView> {
        spec_items_rows(self@, pos, path)
    }

    fn _serialize_inner<W: WriteWithNames>(&self, backend: &mut W) -> (r: SerResult<()>) {
        serialize_items(backend, self.as_slice())
    }
}

impl<T: CopyType + DeserializeInner, const N: usize> DeserializeInner for [T; N] where
    [T; N]: DeserializeHelper<<T as CopyType>::Copy>,
 {
    type DeserType<'a> = <[T; N] as DeserializeHelper<<T as CopyType>::Copy>>::DeserType<'a>;

    open spec fn spec_aligns() -> bool {
        <[T; N] as DeserializeHelper<<T as CopyType>::Copy>>::spec_helper_aligns()
    }

    fn _check(data: &[u8], pos: usize) -> (r: Option<Option<usize>>) {
        <[T; N] as DeserializeHelper<<T as CopyType>::Copy>>::_helper_check(data, pos)
    }

    open spec fn spec_deser_len(data: Seq<u8>, pos: nat) -> Option<core::result::Result<nat, DeError>> {
        <[T; N] as DeserializeHelper<<T as CopyType>::Copy>>::spec_helper_deser_len(data, pos)
    }

    open spec fn spec_decodes(v: Self, data: Seq<u8>, pos: nat) -> bool {
        <[T; N] as DeserializeHelper<<T as CopyType>::Copy>>::spec_helper_decodes(v, data, pos)
    }

    open spec fn spec_eps_decodes<'a>(d: Self::DeserType<'a>, data: Seq<u8>, pos: nat) -> bool {
        <[T; N] as DeserializeHelper<<T as CopyType>::Copy>>::spec_helper_eps_decodes(d, data, pos)
    }

    fn _deserialize_full_inner<R: ReadWithPos>(backend: &mut R) -> (r: DeResult<Self>) {
        <[T; N] as DeserializeHelper<<T as CopyType>::Copy>>::_deserialize_full_inner_impl(backend)
    }

    fn _deserialize_eps_inner<'a>(backend: &mut SliceWithPos<'a>) -> (r: DeResult<Self::DeserType<'a>>) {
        <[T; N] as DeserializeHelper<<T as CopyType>::Copy>>::_deserialize_eps_inner_impl(backend)
    }

    open spec fn spec_same(a: Self, b: Self) -> bool {
        <[T; N] as DeserializeHelper<<T as CopyType>::Copy>>::spec_helper_same(a, b)
    }

    open spec fn spec_eps_same<'a>(d: Self::DeserType<'a>, v: Self) -> bool {
        <[T; N] as DeserializeHelper<<T as CopyType>::Copy>>::spec_helper_eps_same(d, v)
    }

    proof fn lemma_read_back(v: Self, w: Self, pos: nat, rest: Seq<u8>) {
        <[T; N] as DeserializeHelper<<T as CopyType>::Copy>>::lemma_helper_read_back(v, w, pos, rest);
    }

    proof fn lemma_eps_read_back<'a>(v: Self, d: Self::DeserType<'a>, pos: nat, rest: Seq<u8>) {
        <[T; N] as DeserializeHelper<<T as CopyType>::Copy>>::lemma_helper_eps_read_back(v, d, pos, rest);
    }

    proof fn lemma_deser_len_fits(data: Seq<u8>, pos: nat) {
        <[T; N] as DeserializeHelper<<T as CopyType>::Copy>>::lemma_helper_deser_len_fits(data, pos);
    }

    proof fn lemma_deser_ser(v: Self, pos: nat, rest: Seq<u8>) {
        <[T; N] as DeserializeHelper<<T as CopyType>::Copy>>::lemma_helper_deser_ser(v, pos, rest);
    }
}

/// An array of zero-copy items is read as a zero-copy value; its ε-copy is a copy.
impl<T: ZeroCopy, const N: usize> DeserializeHelper<Zero> for [T; N] {
    type DeserType<'a> = [T; N];

    open spec fn spec_helper_aligns() -> bool {
        T::spec_max_size_of() > 1
    }

    fn _helper_check(data: &[u8], pos: usize) -> (r: Option<Option<usize>>) {
        check_zero::<[T; N]>(data, pos)
    }

    open spec fn spec_helper_deser_len(data: Seq<u8>, pos: nat) -> Option<core::result::Result<nat, DeError>> {
        spec_zero_len::<[T; N]>(data, pos)
    }

    open spec fn spec_helper_decodes(v: Self, data: Seq<u8>, pos: nat) -> bool {
        spec_zero_decodes::<[T; N]>(v, data, pos)
    }

    open spec fn spec_helper_eps_decodes<'a>(d: Self::DeserType<'a>, data: Seq<u8>, pos: nat) -> bool {
        spec_zero_decodes::<[T; N]>(d, data, pos)
    }

    fn _deserialize_full_inner_impl<R: ReadWithPos>(backend: &mut R) -> (r: DeResult<Self>) {
        deserialize_full_zero::<[T; N], R>(backend)
    }

    fn _deserialize_eps_inner_impl<'a>(backend: &mut SliceWithPos<'a>) -> (r: DeResult<Self::DeserType<'a>>) {
        deserialize_eps_zero::<[T; N]>(backend)
    }

    open spec fn spec_helper_same(a: Self, b: Self) -> bool {
        a == b
    }

    open spec fn spec_helper_eps_same<'a>(d: Self::DeserType<'a>, v: Self) -> bool {
        d == v
    }

    proof fn lemma_helper_read_back(v: Self, w: Self, pos: nat, rest: Seq<u8>) {
        Self::lemma_helper_deser_ser(v, pos, rest);
    }

    proof fn lemma_helper_eps_read_back<'a>(v: Self, d: Self::DeserType<'a>, pos: nat, rest: Seq<u8>) {
        Self::lemma_helper_deser_ser(v, pos, rest);
    }

    proof fn lemma_helper_deser_len_fits(data: Seq<u8>, pos: nat) {
    }

    proof fn lemma_helper_deser_ser(v: Self, pos: nat, rest: Seq<u8>) {
        assert(v.spec_ser(pos) == spec_ser_zero(v, pos));
        lemma_zero_read_back(v, pos, rest);
    }
}

/// An array of deep-copy items is read item by item.
impl<T: DeepCopy + DeserializeInner, const N: usize> DeserializeHelper<Deep> for [T; N] {
    type DeserType<'a> = [<T as DeserializeInner>::DeserType<'a>; N];

    open spec fn spec_helper_aligns() -> bool {
        T::spec_aligns()
    }

    fn _helper_check(data: &[u8], pos: usize) -> (r: Option<Option<usize>>) {
        check_items::<T>(data, pos, N)
    }

    open spec fn spec_helper_deser_len(data: Seq<u8>, pos: nat) -> Option<core::result::Result<nat, DeError>> {
        spec_items_len::<T>(data, pos, N as nat)
    }

    open spec fn spec_helper_decodes(v: Self, data: Seq<u8>, pos: nat) -> bool {
        spec_items_decode::<T>(v@, data, pos, N as nat)
    }

    open spec fn spec_helper_eps_decodes<'a>(d: Self::DeserType<'a>, data: Seq<u8>, pos: nat) -> bool {
        spec_items_eps_decode::<T>(d@, data, pos, N as nat)
    }

    fn _deserialize_full_inner_impl<R: ReadWithPos>(backend: &mut R) -> (r: DeResult<Self>) {
        match deserialize_full_items::<T, R>(backend, N) {
            Ok(items) => Ok(array_from_vec::<T, N>(items)),
            Err(e) => Err(e),
        }
    }

    fn _deserialize_eps_inner_impl<'a>(backend: &mut SliceWithPos<'a>) -> (r: DeResult<Self::DeserType<'a>>) {
        match deserialize_eps_items::<T>(backend, N) {
            Ok(items) => Ok(array_from_vec::<<T as DeserializeInner>::DeserType<'a>, N>(items)),
            Err(e) => Err(e),
        }
    }

    open spec fn spec_helper_same(a: Self, b: Self) -> bool {
        forall|i: int| 0 <= i < N ==> T::spec_same(#[trigger] a@[i], b@[i])
    }

    open spec fn spec_helper_eps_same<'a>(d: Self::DeserType<'a>, v: Self) -> bool {
        forall|i: int| 0 <= i < N ==> T::spec_eps_same(#[trigger] d@[i], v@[i])
    }

    proof fn lemma_helper_read_back(v: Self, w: Self, pos: nat, rest: Seq<u8>) {
        lemma_items_same::<T>(v@, w@, pos, rest);
    }

    proof fn lemma_helper_eps_read_back<'a>(v: Self, d: Self::DeserType<'a>, pos: nat, rest: Seq<u8>) {
        lemma_items_eps_same::<T>(v@, d@, pos, rest);
    }

    proof fn lemma_helper_deser_len_fits(data: Seq<u8>, pos: nat) {
        lemma_items_len_fits::<T>(data, pos, N as nat);
    }

    proof fn lemma_helper_deser_ser(v: Self, pos: nat, rest: Seq<u8>) {
        lemma_items_read_back::<T>(v@, pos, rest);
    }
}

} // verus!
