//! Implementations for strings.

use vstd::prelude::*;
use vstd::string::*;
use vstd::utf8::{decode_utf8, encode_utf8, encode_utf8_decode_utf8, encode_utf8_valid_utf8, valid_utf8};
use crate::deser::{DeserializeInner, Error as DeError, Result as DeResult, ReadWithPos, SliceWithPos};
use crate::deser::helpers::{check_vec_zero, lemma_zero_items_prefix, read_len, deserialize_eps_slice_zero, deserialize_full_vec_zero, lemma_images_layout,
    lemma_vec_zero_read_back, spec_vec_zero_items, spec_vec_zero_len};
use crate::deser::zero_slice::{spec_image_at, spec_zero_items};
use crate::ser::{Result as SerResult, SerializeInner, WriteWithNames};
use crate::ser::helpers::{serialize_slice_zero, spec_ser_slice_zero};
use crate::traits::{CopyType, Deep, MaxSizeOf, ReprHash, TypeHash, TypeHasher, TypeName, spec_str_hash_input};
use crate::bytes::{lemma_usize_bits, usize_size};
use crate::pad_align_to;

use crate::ser::{RowView, spec_rows_view};
use crate::ser::helpers::spec_slice_zero_rows;
verus! {

/// Calls `core::str::from_utf8`, which gives a string slice over the bytes exactly
/// when they are valid UTF-8.
#[verifier::external_body]
fn str_from_utf8<'a>(bytes: &'a [u8]) -> (r: Option<&'a str>)
    ensures
        r is Some <==> valid_utf8(bytes@),
        r matches Some(s) ==> s.spec_bytes() == bytes@,
{
    core::str::from_utf8(bytes).ok()
}

/// Bytes read as a slice of `u8` values are themselves.
pub proof fn lemma_byte_items(data: Seq<u8>)
    ensures
        spec_zero_items::<u8>(data, data.len()) == data,
{
    assert forall|i: int| 0 <= i < data.len() implies spec_zero_items::<u8>(data, data.len())[i] == data[i] by {
        assert(spec_image_at::<u8>(data, i)[0] == data[i]);
    }
    assert(spec_zero_items::<u8>(data, data.len()) =~= data);
}

/// The characters of the string stored at `pos`: its bytes decoded as UTF-8.
pub open spec fn spec_string_chars(data: Seq<u8>, pos: nat) -> Seq<char> {
    decode_utf8(spec_vec_zero_items::<u8>(data, pos))
}

/// The characters of a string serialized at `pos` and followed by any bytes are read
/// back, taking exactly the bytes written.
pub proof fn lemma_string_read_back(chars: Seq<char>, pos: nat, rest: Seq<u8>)
    requires
        pos + spec_ser_slice_zero::<u8>(encode_utf8(chars), pos).len() <= usize::MAX,
    ensures
        spec_string_deser_len(spec_ser_slice_zero::<u8>(encode_utf8(chars), pos) + rest, pos) == Some(
            Ok::<nat, DeError>(spec_ser_slice_zero::<u8>(encode_utf8(chars), pos).len()),
        ),
        spec_string_chars(spec_ser_slice_zero::<u8>(encode_utf8(chars), pos) + rest, pos) == chars,
{
    let bytes = encode_utf8(chars);
    lemma_images_layout::<u8>(bytes);
    lemma_vec_zero_read_back::<u8>(bytes, pos, rest);
    encode_utf8_valid_utf8(chars);
    encode_utf8_decode_utf8(chars);
}

impl CopyType for String {
    type Copy = Deep;
}

impl TypeName for String {
    open spec fn spec_type_name() -> Seq<char> {
        "String"@
    }

    fn type_name_str() -> (r: String) {
        String::from_str("String")
    }
}

impl TypeHash for String {
    open spec fn spec_type_hash_input() -> Seq<u8> {
        spec_str_hash_input("String")
    }

    fn type_hash(hasher: &mut TypeHasher) {
        hasher.write_str("String");
    }
}

/// A string has no representation to check: nothing is hashed and the offset is kept.
impl ReprHash for String {
    open spec fn spec_repr_hash(offset_of: nat) -> (Seq<u8>, nat) {
        (Seq::empty(), offset_of)
    }

    fn repr_hash(hasher: &mut TypeHasher, offset_of: &mut usize) {
        assert(hasher@ + Seq::<u8>::empty() =~= hasher@);
    }
}

/// A string is serialized as the slice of its UTF-8 bytes.
impl SerializeInner for String {
    const IS_ZERO_COPY: bool = false;

    const ZERO_COPY_MISMATCH: bool = false;

    open spec fn spec_ser(&self, pos: nat) -> Seq<u8> {
        spec_ser_slice_zero::<u8>(encode_utf8(self@), pos)
    }

    open spec fn spec_rows(&self, pos: nat, path: Seq<Seq<char>>) -> Seq<RowView> {
        spec_slice_zero_rows::<u8>(encode_utf8(self@), pos, path)
    }

    fn _serialize_inner<W: WriteWithNames>(&self, backend: &mut W) -> (r: SerResult<()>) {
        serialize_slice_zero(backend, self.as_str().as_bytes())
    }
}

/// The outcome of reading a string at `pos`: that of reading its bytes, which cannot be
/// decoded if they are not valid UTF-8.
pub open spec fn spec_string_deser_len(data: Seq<u8>, pos: nat) -> Option<core::result::Result<nat, DeError>> {
    match spec_vec_zero_len::<u8>(data, pos) {
        Some(Ok(n)) => if valid_utf8(spec_vec_zero_items::<u8>(data, pos)) {
            Some(Ok(n))
        } else {
            None
        },
        other => other,
    }
}

/// A string is ε-copied as a string slice over its bytes.
impl DeserializeInner for String {
    type DeserType<'a> = &'a str;

    open spec fn spec_aligns() -> bool {
        false
    }

    fn _check(data: &[u8], pos: usize) -> (r: Option<Option<usize>>) {
        match check_vec_zero::<u8>(data, pos) {
            Some(Some(n)) => {
                proof { lemma_usize_bits(); }
                let ub = usize_size();
                let start = ub + pad_align_to(pos + ub, <u8 as MaxSizeOf>::max_size_of());
                let len = read_len(data);
                let bytes = vstd::slice::slice_subrange(data, start, start + len);
                proof {
                    assert(bytes@.take(len as int) =~= bytes@);
                    assert(data@.skip(start as int).take(len as int) =~= bytes@);
                    lemma_zero_items_prefix::<u8>(bytes@, data@.skip(start as int), len as nat);
                    lemma_byte_items(bytes@);
                }
                match str_from_utf8(bytes) {
                    Some(_) => Some(Some(n)),
                    None => None,
                }
            },
            other => other,
        }
    }

    open spec fn spec_deser_len(data: Seq<u8>, pos: nat) -> Option<core::result::Result<nat, DeError>> {
        spec_string_deser_len(data, pos)
    }

    open spec fn spec_decodes(v: Self, data: Seq<u8>, pos: nat) -> bool {
        v@ == spec_string_chars(data, pos)
    }

    open spec fn spec_eps_decodes<'a>(d: Self::DeserType<'a>, data: Seq<u8>, pos: nat) -> bool {
        d@ == spec_string_chars(data, pos)
    }

    fn _deserialize_full_inner<R: ReadWithPos>(backend: &mut R) -> (r: DeResult<Self>) {
        let ghost d0 = backend.spec_data();
        let ghost p0 = backend.spec_pos();
        let bytes = match deserialize_full_vec_zero::<u8, R>(backend) {
            Ok(bytes) => bytes,
            Err(e) => return Err(e),
        };
        let s = str_from_utf8(bytes.as_slice()).unwrap();
        proof { encode_utf8_decode_utf8(s@); }
        Ok(String::from_str(s))
    }

    fn _deserialize_eps_inner<'a>(backend: &mut SliceWithPos<'a>) -> (r: DeResult<Self::DeserType<'a>>) {
        let slice = match deserialize_eps_slice_zero::<u8>(backend) {
            Ok(slice) => slice,
            Err(e) => return Err(e),
        };
        let bytes = slice.as_bytes();
        proof { lemma_byte_items(bytes@); }
        let s = str_from_utf8(bytes).unwrap();
        proof { encode_utf8_decode_utf8(s@); }
        Ok(s)
    }

    open spec fn spec_same(a: Self, b: Self) -> bool {
        a@ == b@
    }

    open spec fn spec_eps_same<'a>(d: Self::DeserType<'a>, v: Self) -> bool {
        d@ == v@
    }

    proof fn lemma_read_back(v: Self, w: Self, pos: nat, rest: Seq<u8>) {
        Self::lemma_deser_ser(v, pos, rest);
    }

    proof fn lemma_eps_read_back<'a>(v: Self, d: Self::DeserType<'a>, pos: nat, rest: Seq<u8>) {
        Self::lemma_deser_ser(v, pos, rest);
    }

    proof fn lemma_deser_len_fits(data: Seq<u8>, pos: nat) {
    }

    proof fn lemma_deser_ser(v: Self, pos: nat, rest: Seq<u8>) {
        lemma_string_read_back(v@, pos, rest);
    }
}

/// Calls `String::into_boxed_str`, which keeps the characters.
#[verifier::external_body]
fn string_into_boxed_str(s: String) -> (r: Box<str>)
    ensures
        r@ == s@,
{
    s.into_boxed_str()
}

impl CopyType for Box<str> {
    type Copy = Deep;
}

impl TypeName for Box<str> {
    open spec fn spec_type_name() -> Seq<char> {
        "Box<str>"@
    }

    fn type_name_str() -> (r: String) {
        String::from_str("Box<str>")
    }
}

impl TypeHash for Box<str> {
    open spec fn spec_type_hash_input() -> Seq<u8> {
        spec_str_hash_input("Box<str>")
    }

    fn type_hash(hasher: &mut TypeHasher) {
        hasher.write_str("Box<str>");
    }
}

/// A boxed string has no representation to check: nothing is hashed and the offset is kept.
impl ReprHash for Box<str> {
    open spec fn spec_repr_hash(offset_of: nat) -> (Seq<u8>, nat) {
        (Seq::empty(), offset_of)
    }

    fn repr_hash(hasher: &mut TypeHasher, offset_of: &mut usize) {
        assert(hasher@ + Seq::<u8>::empty() =~= hasher@);
    }
}

/// A boxed string is serialized as a string with the same characters.
impl SerializeInner for Box<str> {
    const IS_ZERO_COPY: bool = false;

    const ZERO_COPY_MISMATCH: bool = false;

    open spec fn spec_ser(&self, pos: nat) -> Seq<u8> {
        spec_ser_slice_zero::<u8>(encode_utf8(self@), pos)
    }

    open spec fn spec_rows(&self, pos: nat, path: Seq<Seq<char>>) -> Seq<RowView> {
        spec_slice_zero_rows::<u8>(encode_utf8(self@), pos, path)
    }

    fn _serialize_inner<W: WriteWithNames>(&self, backend: &mut W) -> (r: SerResult<()>) {
        serialize_slice_zero(backend, self.as_bytes())
    }
}

/// A boxed string is ε-copied as a string slice over its bytes.
impl DeserializeInner for Box<str> {
    type DeserType<'a> = &'a str;

    open spec fn spec_aligns() -> bool {
        false
    }

    fn _check(data: &[u8], pos: usize) -> (r: Option<Option<usize>>) {
        match check_vec_zero::<u8>(data, pos) {
            Some(Some(n)) => {
                proof { lemma_usize_bits(); }
                let ub = usize_size();
                let start = ub + pad_align_to(pos + ub, <u8 as MaxSizeOf>::max_size_of());
                let len = read_len(data);
                let bytes = vstd::slice::slice_subrange(data, start, start + len);
                proof {
                    assert(bytes@.take(len as int) =~= bytes@);
                    assert(data@.skip(start as int).take(len as int) =~= bytes@);
                    lemma_zero_items_prefix::<u8>(bytes@, data@.skip(start as int), len as nat);
                    lemma_byte_items(bytes@);
                }
                match str_from_utf8(bytes) {
                    Some(_) => Some(Some(n)),
                    None => None,
                }
            },
            other => other,
        }
    }

    open spec fn spec_deser_len(data: Seq<u8>, pos: nat) -> Option<core::result::Result<nat, DeError>> {
        spec_string_deser_len(data, pos)
    }

    open spec fn spec_decodes(v: Self, data: Seq<u8>, pos: nat) -> bool {
        v@ == spec_string_chars(data, pos)
    }

    open spec fn spec_eps_decodes<'a>(d: Self::DeserType<'a>, data: Seq<u8>, pos: nat) -> bool {
        d@ == spec_string_chars(data, pos)
    }

    fn _deserialize_full_inner<R: ReadWithPos>(backend: &mut R) -> (r: DeResult<Self>) {
        match <String as DeserializeInner>::_deserialize_full_inner(backend) {
            Ok(s) => Ok(string_into_boxed_str(s)),
            Err(e) => Err(e),
        }
    }

    fn _deserialize_eps_inner<'a>(backend: &mut SliceWithPos<'a>) -> (r: DeResult<Self::DeserType<'a>>) {
        <String as DeserializeInner>::_deserialize_eps_inner(backend)
    }

    open spec fn spec_same(a: Self, b: Self) -> bool {
        a@ == b@
    }

    open spec fn spec_eps_same<'a>(d: Self::DeserType<'a>, v: Self) -> bool {
        d@ == v@
    }

    proof fn lemma_read_back(v: Self, w: Self, pos: nat, rest: Seq<u8>) {
        lemma_string_read_back(v@, pos, rest);
    }

    proof fn lemma_eps_read_back<'a>(v: Self, d: Self::DeserType<'a>, pos: nat, rest: Seq<u8>) {
        lemma_string_read_back(v@, pos, rest);
    }

    proof fn lemma_deser_len_fits(data: Seq<u8>, pos: nat) {
    }

    proof fn lemma_deser_ser(v: Self, pos: nat, rest: Seq<u8>) {
        lemma_string_read_back(v@, pos, rest);
    }
}

impl TypeName for str {
    open spec fn spec_type_name() -> Seq<char> {
        "str"@
    }

    fn type_name_str() -> (r: String) {
        String::from_str("str")
    }
}

impl TypeHash for str {
    open spec fn spec_type_hash_input() -> Seq<u8> {
        spec_str_hash_input("str")
    }

    fn type_hash(hasher: &mut TypeHasher) {
        hasher.write_str("str");
    }
}

/// A string slice has no representation to check: nothing is hashed and the offset is kept.
impl ReprHash for str {
    open spec fn spec_repr_hash(offset_of: nat) -> (Seq<u8>, nat) {
        (Seq::empty(), offset_of)
    }

    fn repr_hash(hasher: &mut TypeHasher, offset_of: &mut usize) {
        assert(hasher@ + Seq::<u8>::empty() =~= hasher@);
    }
}

} // verus!
