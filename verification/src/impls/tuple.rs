//! Implementations for tuples.
//!
//! Tuples of up to 11 elements are zero-copy when all their elements are zero-copy:
//! the image of a tuple is the concatenation of the images of its elements, aligned as
//! a whole to the largest alignment among them.

use vstd::prelude::*;
use vstd::layout::*;
use vstd::string::*;
use crate::deser::{DeserializeInner, Error as DeError, Result as DeResult, ReadWithPos, SliceWithPos};
use crate::deser::helpers::{check_zero, deserialize_eps_zero, deserialize_full_zero, lemma_zero_read_back, spec_zero_decodes, spec_zero_len};

use crate::ser::{Result as SerResult, SerializeInner, WriteWithNames, lemma_wrote_seq, lemma_wrote_stop, spec_zeros};
use crate::ser::helpers::spec_ser_zero;
use crate::traits::{CopyType, MaxSizeOf, ReprHash, TypeHash, TypeHasher, TypeName, Zero, ZeroCopy, add_image_len, part_image_len, spec_str_hash_input};
use crate::spec_padding;

use crate::ser::{RowView, spec_rows_view};
use crate::ser::helpers::{lemma_zero_rows, spec_zero_rows};
verus! {

impl<T0: ZeroCopy> CopyType for (T0,) {
    type Copy = Zero;
}

impl<T0: TypeName> TypeName for (T0,) {
    open spec fn spec_type_name() -> Seq<char> {
        "("@ + T0::spec_type_name() + ",)"@
    }

    fn type_name_str() -> (r: String) {
        let mut name = String::from_str("(");
        let part0 = T0::type_name_str();
        name.append(part0.as_str());
        name.append(",)");
        name
    }
}

impl<T0: TypeHash> TypeHash for (T0,) {
    open spec fn spec_type_hash_input() -> Seq<u8> {
        spec_str_hash_input("()") + T0::spec_type_hash_input()
    }

    fn type_hash(hasher: &mut TypeHasher) {
        hasher.write_str("()");
        T0::type_hash(hasher);
        assert(hasher@ =~= old(hasher)@ + Self::spec_type_hash_input());
    }
}

/// The representation of a tuple is that of its elements, each placed after the
/// previous one at the offset given by the sizes of the elements before it.
impl<T0: ReprHash> ReprHash for (T0,) {
    open spec fn spec_repr_hash(offset_of: nat) -> (Seq<u8>, nat) {
        let o0 = offset_of;
        let r0 = T0::spec_repr_hash(o0);
        let o1 = o0 + size_of::<T0>();
        if r0.1 <= usize::MAX && o1 <= usize::MAX {
            (r0.0, o1)
        } else {
            (r0.0, usize::MAX as nat + 1)
        }
    }

    fn repr_hash(hasher: &mut TypeHasher, offset_of: &mut usize) {
        let ghost start = *offset_of;
        let ghost h = hasher@;
        let ghost o0 = start as nat;
        let curr = *offset_of;
        T0::repr_hash(hasher, offset_of);
        *offset_of = curr + core::mem::size_of::<T0>();
        assert(hasher@ =~= h + (T0::spec_repr_hash(o0).0));
        assert(hasher@ =~= h + Self::spec_repr_hash(start as nat).0);
    }
}

/// The maximum size of a primitive field of a tuple is that of its elements.
impl<T0: MaxSizeOf> MaxSizeOf for (T0,) {
    open spec fn spec_max_size_of() -> usize {
        let m0 = if 0usize < T0::spec_max_size_of() { T0::spec_max_size_of() } else { 0usize };
        m0
    }

    fn max_size_of() -> (r: usize) {
        let mut max_size_of: usize = 0;
        let m = T0::max_size_of();
        if max_size_of < m {
            max_size_of = m;
        }
        max_size_of
    }
}

/// The image of a tuple is the concatenation of the images of its elements.
impl<T0: ZeroCopy> ZeroCopy for (T0,) {
    open spec fn spec_image(&self) -> Seq<u8> {
        self.0.spec_image()
    }

    open spec fn spec_image_len() -> nat {
        T0::spec_image_len()
    }

    open spec fn spec_from_image(image: Seq<u8>) -> Self {
        let e0 = 0int;
        let e1 = e0 + T0::spec_image_len();
        (T0::spec_from_image(image.subrange(e0, e1)),)
    }

    open spec fn spec_valid_image(image: Seq<u8>) -> bool {
        let e0 = 0int;
        let e1 = e0 + T0::spec_image_len();
        T0::spec_valid_image(image.subrange(e0, e1))
    }

    fn image_len() -> (r: Option<usize>) {
        T0::image_len()
    }

    fn is_valid_image(image: &[u8]) -> (r: bool) {
        let _len: usize = image.len();
        let x0 = 0usize;
        let x1 = x0 + part_image_len::<T0>();
        T0::is_valid_image(vstd::slice::slice_subrange(image, x0, x1))
    }

    fn write_image(&self, out: &mut Vec<u8>) {
        self.0.write_image(out);
        assert(out@ =~= old(out)@ + self.spec_image());
    }

    fn from_image(image: &[u8]) -> (r: Self) {
        let _len: usize = image.len();
        let x0 = 0usize;
        let x1 = x0 + part_image_len::<T0>();
        let v0 = T0::from_image(vstd::slice::slice_subrange(image, x0, x1));
        (v0,)
    }

    proof fn lemma_image(v: Self) {
        T0::lemma_image(v.0);
        let img = v.spec_image();
        let e0 = 0int;
        let e1 = e0 + T0::spec_image_len();
        assert(img.subrange(e0, e1) =~= v.0.spec_image());
        assert(Self::spec_from_image(img) == v);
    }
}

/// A tuple is serialized as a zero-copy value: padding to its alignment, then its image.
impl<T0: ZeroCopy> SerializeInner for (T0,) {
    const IS_ZERO_COPY: bool = true;

    const ZERO_COPY_MISMATCH: bool = false;

    open spec fn spec_ser(&self, pos: nat) -> Seq<u8> {
        spec_zeros(spec_padding(pos, <(T0,) as MaxSizeOf>::spec_max_size_of())) + (self.0.spec_image())
    }

    open spec fn spec_rows(&self, pos: nat, path: Seq<Seq<char>>) -> Seq<RowView> {
        spec_zero_rows::<Self, Self>(pos, path, (self.0.spec_image()).len())
    }

    fn _serialize_inner<W: WriteWithNames>(&self, backend: &mut W) -> (r: SerResult<()>) {
        proof {
            T0::lemma_image(vstd::pervasive::arbitrary());
        }
        let mut buffer: Vec<u8> = Vec::new();
        self.0.write_image(&mut buffer);
        assert(buffer@ =~= self.0.spec_image());
        let ghost pad = spec_zeros(spec_padding(old(backend).spec_written().len(), <(T0,) as MaxSizeOf>::spec_max_size_of()));
        let res = backend.align::<(T0,)>();
        let ghost mid = *backend;
        match res {
            Ok(()) => {},
            Err(e) => {
                proof { lemma_wrote_stop(*old(backend), mid, pad, buffer@, res); }
                return Err(e);
            },
        }
        let res = backend.write_bytes::<(T0,)>(buffer.as_slice());
        proof {
            lemma_wrote_seq(*old(backend), mid, *backend, pad, buffer@, res);
            if res is Ok && W::spec_records() {
                lemma_zero_rows::<W, Self, Self>(*old(backend), mid, *backend, buffer@.len());
            }
        }
        res
    }
}

/// A tuple is read as a zero-copy value; its ε-copy is a copy.
impl<T0: ZeroCopy> DeserializeInner for (T0,) {
    type DeserType<'a> = Self;

    open spec fn spec_aligns() -> bool {
        Self::spec_max_size_of() > 1
    }

    fn _check(data: &[u8], pos: usize) -> (r: Option<Option<usize>>) {
        check_zero::<Self>(data, pos)
    }

    open spec fn spec_deser_len(data: Seq<u8>, pos: nat) -> Option<core::result::Result<nat, DeError>> {
        spec_zero_len::<(T0,)>(data, pos)
    }

    open spec fn spec_decodes(v: Self, data: Seq<u8>, pos: nat) -> bool {
        spec_zero_decodes::<(T0,)>(v, data, pos)
    }

    open spec fn spec_eps_decodes<'a>(d: Self::DeserType<'a>, data: Seq<u8>, pos: nat) -> bool {
        spec_zero_decodes::<(T0,)>(d, data, pos)
    }

    fn _deserialize_full_inner<R: ReadWithPos>(backend: &mut R) -> (r: DeResult<Self>) {
        deserialize_full_zero::<(T0,), R>(backend)
    }

    fn _deserialize_eps_inner<'a>(backend: &mut SliceWithPos<'a>) -> (r: DeResult<Self::DeserType<'a>>) {
        deserialize_eps_zero::<(T0,)>(backend)
    }

    open spec fn spec_same(a: Self, b: Self) -> bool {
        a == b
    }

    open spec fn spec_eps_same<'a>(d: Self::DeserType<'a>, v: Self) -> bool {
        d == v
    }

    proof fn lemma_read_back(v: Self, w: Self, pos: nat, rest: Seq<u8>) {
        assert(v.spec_ser(pos) == spec_ser_zero(v, pos));
        lemma_zero_read_back(v, pos, rest);
    }

    proof fn lemma_eps_read_back<'a>(v: Self, d: Self::DeserType<'a>, pos: nat, rest: Seq<u8>) {
        assert(v.spec_ser(pos) == spec_ser_zero(v, pos));
        lemma_zero_read_back(v, pos, rest);
    }

    proof fn lemma_deser_len_fits(data: Seq<u8>, pos: nat) {
    }

    proof fn lemma_deser_ser(v: Self, pos: nat, rest: Seq<u8>) {
        assert(v.spec_ser(pos) == spec_ser_zero(v, pos));
        lemma_zero_read_back(v, pos, rest);
    }
}

impl<T0: ZeroCopy, T1: ZeroCopy> CopyType for (T0, T1) {
    type Copy = Zero;
}

impl<T0: TypeName, T1: TypeName> TypeName for (T0, T1) {
    open spec fn spec_type_name() -> Seq<char> {
        "("@ + T0::spec_type_name() + ", "@ + T1::spec_type_name() + ")"@
    }

    fn type_name_str() -> (r: String) {
        let mut name = String::from_str("(");
        let part0 = T0::type_name_str();
        name.append(part0.as_str());
        name.append(", ");
        let part1 = T1::type_name_str();
        name.append(part1.as_str());
        name.append(")");
        name
    }
}

impl<T0: TypeHash, T1: TypeHash> TypeHash for (T0, T1) {
    open spec fn spec_type_hash_input() -> Seq<u8> {
        spec_str_hash_input("()") + T0::spec_type_hash_input() + T1::spec_type_hash_input()
    }

    fn type_hash(hasher: &mut TypeHasher) {
        hasher.write_str("()");
        T0::type_hash(hasher);
        T1::type_hash(hasher);
        assert(hasher@ =~= old(hasher)@ + Self::spec_type_hash_input());
    }
}

/// The representation of a tuple is that of its elements, each placed after the
/// previous one at the offset given by the sizes of the elements before it.
impl<T0: ReprHash, T1: ReprHash> ReprHash for (T0, T1) {
    open spec fn spec_repr_hash(offset_of: nat) -> (Seq<u8>, nat) {
        let o0 = offset_of;
        let r0 = T0::spec_repr_hash(o0);
        let o1 = o0 + size_of::<T0>();
        let r1 = T1::spec_repr_hash(o1);
        let o2 = o1 + size_of::<T1>();
        if r0.1 <= usize::MAX && o1 <= usize::MAX && r1.1 <= usize::MAX && o2 <= usize::MAX {
            (r0.0 + r1.0, o2)
        } else {
            (r0.0 + r1.0, usize::MAX as nat + 1)
        }
    }

    fn repr_hash(hasher: &mut TypeHasher, offset_of: &mut usize) {
        let ghost start = *offset_of;
        let ghost h = hasher@;
        let ghost o0 = start as nat;
        let ghost o1 = o0 + size_of::<T0>();
        let curr = *offset_of;
        T0::repr_hash(hasher, offset_of);
        *offset_of = curr + core::mem::size_of::<T0>();
        assert(hasher@ =~= h + (T0::spec_repr_hash(o0).0));
        let curr = *offset_of;
        T1::repr_hash(hasher, offset_of);
        *offset_of = curr + core::mem::size_of::<T1>();
        assert(hasher@ =~= h + (T0::spec_repr_hash(o0).0 + T1::spec_repr_hash(o1).0));
        assert(hasher@ =~= h + Self::spec_repr_hash(start as nat).0);
    }
}

/// The maximum size of a primitive field of a tuple is that of its elements.
impl<T0: MaxSizeOf, T1: MaxSizeOf> MaxSizeOf for (T0, T1) {
    open spec fn spec_max_size_of() -> usize {
        let m0 = if 0usize < T0::spec_max_size_of() { T0::spec_max_size_of() } else { 0usize };
        let m1 = if m0 < T1::spec_max_size_of() { T1::spec_max_size_of() } else { m0 };
        m1
    }

    fn max_size_of() -> (r: usize) {
        let mut max_size_of: usize = 0;
        let m = T0::max_size_of();
        if max_size_of < m {
            max_size_of = m;
        }
        let m = T1::max_size_of();
        if max_size_of < m {
            max_size_of = m;
        }
        max_size_of
    }
}

/// The image of a tuple is the concatenation of the images of its elements.
impl<T0: ZeroCopy, T1: ZeroCopy> ZeroCopy for (T0, T1) {
    open spec fn spec_image(&self) -> Seq<u8> {
        self.0.spec_image() + self.1.spec_image()
    }

    open spec fn spec_image_len() -> nat {
        T0::spec_image_len() + T1::spec_image_len()
    }

    open spec fn spec_from_image(image: Seq<u8>) -> Self {
        let e0 = 0int;
        let e1 = e0 + T0::spec_image_len();
        let e2 = e1 + T1::spec_image_len();
        (T0::spec_from_image(image.subrange(e0, e1)), T1::spec_from_image(image.subrange(e1, e2)))
    }

    open spec fn spec_valid_image(image: Seq<u8>) -> bool {
        let e0 = 0int;
        let e1 = e0 + T0::spec_image_len();
        let e2 = e1 + T1::spec_image_len();
        T0::spec_valid_image(image.subrange(e0, e1)) && T1::spec_valid_image(image.subrange(e1, e2))
    }

    fn image_len() -> (r: Option<usize>) {
        add_image_len(T0::image_len(), T1::image_len())
    }

    fn is_valid_image(image: &[u8]) -> (r: bool) {
        let _len: usize = image.len();
        let x0 = 0usize;
        let x1 = x0 + part_image_len::<T0>();
        let x2 = x1 + part_image_len::<T1>();
        T0::is_valid_image(vstd::slice::slice_subrange(image, x0, x1)) && T1::is_valid_image(vstd::slice::slice_subrange(image, x1, x2))
    }

    fn write_image(&self, out: &mut Vec<u8>) {
        self.0.write_image(out);
        self.1.write_image(out);
        assert(out@ =~= old(out)@ + self.spec_image());
    }

    fn from_image(image: &[u8]) -> (r: Self) {
        let _len: usize = image.len();
        let x0 = 0usize;
        let x1 = x0 + part_image_len::<T0>();
        let x2 = x1 + part_image_len::<T1>();
        let v0 = T0::from_image(vstd::slice::slice_subrange(image, x0, x1));
        let v1 = T1::from_image(vstd::slice::slice_subrange(image, x1, x2));
        (v0, v1)
    }

    proof fn lemma_image(v: Self) {
        T0::lemma_image(v.0);
        T1::lemma_image(v.1);
        let img = v.spec_image();
        let e0 = 0int;
        let e1 = e0 + T0::spec_image_len();
        let e2 = e1 + T1::spec_image_len();
        assert(img.subrange(e0, e1) =~= v.0.spec_image());
        assert(img.subrange(e1, e2) =~= v.1.spec_image());
        assert(Self::spec_from_image(img) == v);
    }
}

/// A tuple is serialized as a zero-copy value: padding to its alignment, then its image.
impl<T0: ZeroCopy, T1: ZeroCopy> SerializeInner for (T0, T1) {
    const IS_ZERO_COPY: bool = true;

    const ZERO_COPY_MISMATCH: bool = false;

    open spec fn spec_ser(&self, pos: nat) -> Seq<u8> {
        spec_zeros(spec_padding(pos, <(T0, T1) as MaxSizeOf>::spec_max_size_of())) + (self.0.spec_image() + self.1.spec_image())
    }

    open spec fn spec_rows(&self, pos: nat, path: Seq<Seq<char>>) -> Seq<RowView> {
        spec_zero_rows::<Self, Self>(pos, path, (self.0.spec_image() + self.1.spec_image()).len())
    }

    fn _serialize_inner<W: WriteWithNames>(&self, backend: &mut W) -> (r: SerResult<()>) {
        proof {
            T0::lemma_image(vstd::pervasive::arbitrary());
            T1::lemma_image(vstd::pervasive::arbitrary());
        }
        let mut buffer: Vec<u8> = Vec::new();
        self.0.write_image(&mut buffer);
        self.1.write_image(&mut buffer);
        assert(buffer@ =~= self.0.spec_image() + self.1.spec_image());
        let ghost pad = spec_zeros(spec_padding(old(backend).spec_written().len(), <(T0, T1) as MaxSizeOf>::spec_max_size_of()));
        let res = backend.align::<(T0, T1)>();
        let ghost mid = *backend;
        match res {
            Ok(()) => {},
            Err(e) => {
                proof { lemma_wrote_stop(*old(backend), mid, pad, buffer@, res); }
                return Err(e);
            },
        }
        let res = backend.write_bytes::<(T0, T1)>(buffer.as_slice());
        proof {
            lemma_wrote_seq(*old(backend), mid, *backend, pad, buffer@, res);
            if res is Ok && W::spec_records() {
                lemma_zero_rows::<W, Self, Self>(*old(backend), mid, *backend, buffer@.len());
            }
        }
        res
    }
}

/// A tuple is read as a zero-copy value; its ε-copy is a copy.
impl<T0: ZeroCopy, T1: ZeroCopy> DeserializeInner for (T0, T1) {
    type DeserType<'a> = Self;

    open spec fn spec_aligns() -> bool {
        Self::spec_max_size_of() > 1
    }

    fn _check(data: &[u8], pos: usize) -> (r: Option<Option<usize>>) {
        check_zero::<Self>(data, pos)
    }

    open spec fn spec_deser_len(data: Seq<u8>, pos: nat) -> Option<core::result::Result<nat, DeError>> {
        spec_zero_len::<(T0, T1)>(data, pos)
    }

    open spec fn spec_decodes(v: Self, data: Seq<u8>, pos: nat) -> bool {
        spec_zero_decodes::<(T0, T1)>(v, data, pos)
    }

    open spec fn spec_eps_decodes<'a>(d: Self::DeserType<'a>, data: Seq<u8>, pos: nat) -> bool {
        spec_zero_decodes::<(T0, T1)>(d, data, pos)
    }

    fn _deserialize_full_inner<R: ReadWithPos>(backend: &mut R) -> (r: DeResult<Self>) {
        deserialize_full_zero::<(T0, T1), R>(backend)
    }

    fn _deserialize_eps_inner<'a>(backend: &mut SliceWithPos<'a>) -> (r: DeResult<Self::DeserType<'a>>) {
        deserialize_eps_zero::<(T0, T1)>(backend)
    }

    open spec fn spec_same(a: Self, b: Self) -> bool {
        a == b
    }

    open spec fn spec_eps_same<'a>(d: Self::DeserType<'a>, v: Self) -> bool {
        d == v
    }

    proof fn lemma_read_back(v: Self, w: Self, pos: nat, rest: Seq<u8>) {
        assert(v.spec_ser(pos) == spec_ser_zero(v, pos));
        lemma_zero_read_back(v, pos, rest);
    }

    proof fn lemma_eps_read_back<'a>(v: Self, d: Self::DeserType<'a>, pos: nat, rest: Seq<u8>) {
        assert(v.spec_ser(pos) == spec_ser_zero(v, pos));
        lemma_zero_read_back(v, pos, rest);
    }

    proof fn lemma_deser_len_fits(data: Seq<u8>, pos: nat) {
    }

    proof fn lemma_deser_ser(v: Self, pos: nat, rest: Seq<u8>) {
        assert(v.spec_ser(pos) == spec_ser_zero(v, pos));
        lemma_zero_read_back(v, pos, rest);
    }
}

impl<T0: ZeroCopy, T1: ZeroCopy, T2: ZeroCopy> CopyType for (T0, T1, T2) {
    type Copy = Zero;
}

impl<T0: TypeName, T1: TypeName, T2: TypeName> TypeName for (T0, T1, T2) {
    open spec fn spec_type_name() -> Seq<char> {
        "("@ + T0::spec_type_name() + ", "@ + T1::spec_type_name() + ", "@ + T2::spec_type_name() + ")"@
    }

    fn type_name_str() -> (r: String) {
        let mut name = String::from_str("(");
        let part0 = T0::type_name_str();
        name.append(part0.as_str());
        name.append(", ");
        let part1 = T1::type_name_str();
        name.append(part1.as_str());
        name.append(", ");
        let part2 = T2::type_name_str();
        name.append(part2.as_str());
        name.append(")");
        name
    }
}

impl<T0: TypeHash, T1: TypeHash, T2: TypeHash> TypeHash for (T0, T1, T2) {
    open spec fn spec_type_hash_input() -> Seq<u8> {
        spec_str_hash_input("()") + T0::spec_type_hash_input() + T1::spec_type_hash_input() + T2::spec_type_hash_input()
    }

    fn type_hash(hasher: &mut TypeHasher) {
        hasher.write_str("()");
        T0::type_hash(hasher);
        T1::type_hash(hasher);
        T2::type_hash(hasher);
        assert(hasher@ =~= old(hasher)@ + Self::spec_type_hash_input());
    }
}

/// The representation of a tuple is that of its elements, each placed after the
/// previous one at the offset given by the sizes of the elements before it.
impl<T0: ReprHash, T1: ReprHash, T2: ReprHash> ReprHash for (T0, T1, T2) {
    open spec fn spec_repr_hash(offset_of: nat) -> (Seq<u8>, nat) {
        let o0 = offset_of;
        let r0 = T0::spec_repr_hash(o0);
        let o1 = o0 + size_of::<T0>();
        let r1 = T1::spec_repr_hash(o1);
        let o2 = o1 + size_of::<T1>();
        let r2 = T2::spec_repr_hash(o2);
        let o3 = o2 + size_of::<T2>();
        if r0.1 <= usize::MAX && o1 <= usize::MAX && r1.1 <= usize::MAX && o2 <= usize::MAX && r2.1 <= usize::MAX && o3 <= usize::MAX {
            (r0.0 + r1.0 + r2.0, o3)
        } else {
            (r0.0 + r1.0 + r2.0, usize::MAX as nat + 1)
        }
    }

    fn repr_hash(hasher: &mut TypeHasher, offset_of: &mut usize) {
        let ghost start = *offset_of;
        let ghost h = hasher@;
        let ghost o0 = start as nat;
        let ghost o1 = o0 + size_of::<T0>();
        let ghost o2 = o1 + size_of::<T1>();
        let curr = *offset_of;
        T0::repr_hash(hasher, offset_of);
        *offset_of = curr + core::mem::size_of::<T0>();
        assert(hasher@ =~= h + (T0::spec_repr_hash(o0).0));
        let curr = *offset_of;
        T1::repr_hash(hasher, offset_of);
        *offset_of = curr + core::mem::size_of::<T1>();
        assert(hasher@ =~= h + (T0::spec_repr_hash(o0).0 + T1::spec_repr_hash(o1).0));
        let curr = *offset_of;
        T2::repr_hash(hasher, offset_of);
        *offset_of = curr + core::mem::size_of::<T2>();
        assert(hasher@ =~= h + (T0::spec_repr_hash(o0).0 + T1::spec_repr_hash(o1).0 + T2::spec_repr_hash(o2).0));
        assert(hasher@ =~= h + Self::spec_repr_hash(start as nat).0);
    }
}

/// The maximum size of a primitive field of a tuple is that of its elements.
impl<T0: MaxSizeOf, T1: MaxSizeOf, T2: MaxSizeOf> MaxSizeOf for (T0, T1, T2) {
    open spec fn spec_max_size_of() -> usize {
        let m0 = if 0usize < T0::spec_max_size_of() { T0::spec_max_size_of() } else { 0usize };
        let m1 = if m0 < T1::spec_max_size_of() { T1::spec_max_size_of() } else { m0 };
        let m2 = if m1 < T2::spec_max_size_of() { T2::spec_max_size_of() } else { m1 };
        m2
    }

    fn max_size_of() -> (r: usize) {
        let mut max_size_of: usize = 0;
        let m = T0::max_size_of();
        if max_size_of < m {
            max_size_of = m;
        }
        let m = T1::max_size_of();
        if max_size_of < m {
            max_size_of = m;
        }
        let m = T2::max_size_of();
        if max_size_of < m {
            max_size_of = m;
        }
        max_size_of
    }
}

/// The image of a tuple is the concatenation of the images of its elements.
impl<T0: ZeroCopy, T1: ZeroCopy, T2: ZeroCopy> ZeroCopy for (T0, T1, T2) {
    open spec fn spec_image(&self) -> Seq<u8> {
        self.0.spec_image() + self.1.spec_image() + self.2.spec_image()
    }

    open spec fn spec_image_len() -> nat {
        T0::spec_image_len() + T1::spec_image_len() + T2::spec_image_len()
    }

    open spec fn spec_from_image(image: Seq<u8>) -> Self {
        let e0 = 0int;
        let e1 = e0 + T0::spec_image_len();
        let e2 = e1 + T1::spec_image_len();
        let e3 = e2 + T2::spec_image_len();
        (T0::spec_from_image(image.subrange(e0, e1)), T1::spec_from_image(image.subrange(e1, e2)), T2::spec_from_image(image.subrange(e2, e3)))
    }

    open spec fn spec_valid_image(image: Seq<u8>) -> bool {
        let e0 = 0int;
        let e1 = e0 + T0::spec_image_len();
        let e2 = e1 + T1::spec_image_len();
        let e3 = e2 + T2::spec_image_len();
        T0::spec_valid_image(image.subrange(e0, e1)) && T1::spec_valid_image(image.subrange(e1, e2)) && T2::spec_valid_image(image.subrange(e2, e3))
    }

    fn image_len() -> (r: Option<usize>) {
        add_image_len(add_image_len(T0::image_len(), T1::image_len()), T2::image_len())
    }

    fn is_valid_image(image: &[u8]) -> (r: bool) {
        let _len: usize = image.len();
        let x0 = 0usize;
        let x1 = x0 + part_image_len::<T0>();
        let x2 = x1 + part_image_len::<T1>();
        let x3 = x2 + part_image_len::<T2>();
        T0::is_valid_image(vstd::slice::slice_subrange(image, x0, x1)) && T1::is_valid_image(vstd::slice::slice_subrange(image, x1, x2)) && T2::is_valid_image(vstd::slice::slice_subrange(image, x2, x3))
    }

    fn write_image(&self, out: &mut Vec<u8>) {
        self.0.write_image(out);
        self.1.write_image(out);
        self.2.write_image(out);
        assert(out@ =~= old(out)@ + self.spec_image());
    }

    fn from_image(image: &[u8]) -> (r: Self) {
        let _len: usize = image.len();
        let x0 = 0usize;
        let x1 = x0 + part_image_len::<T0>();
        let x2 = x1 + part_image_len::<T1>();
        let x3 = x2 + part_image_len::<T2>();
        let v0 = T0::from_image(vstd::slice::slice_subrange(image, x0, x1));
        let v1 = T1::from_image(vstd::slice::slice_subrange(image, x1, x2));
        let v2 = T2::from_image(vstd::slice::slice_subrange(image, x2, x3));
        (v0, v1, v2)
    }

    proof fn lemma_image(v: Self) {
        T0::lemma_image(v.0);
        T1::lemma_image(v.1);
        T2::lemma_image(v.2);
        let img = v.spec_image();
        let e0 = 0int;
        let e1 = e0 + T0::spec_image_len();
        let e2 = e1 + T1::spec_image_len();
        let e3 = e2 + T2::spec_image_len();
        assert(img.subrange(e0, e1) =~= v.0.spec_image());
        assert(img.subrange(e1, e2) =~= v.1.spec_image());
        assert(img.subrange(e2, e3) =~= v.2.spec_image());
        assert(Self::spec_from_image(img) == v);
    }
}

/// A tuple is serialized as a zero-copy value: padding to its alignment, then its image.
impl<T0: ZeroCopy, T1: ZeroCopy, T2: ZeroCopy> SerializeInner for (T0, T1, T2) {
    const IS_ZERO_COPY: bool = true;

    const ZERO_COPY_MISMATCH: bool = false;

    open spec fn spec_ser(&self, pos: nat) -> Seq<u8> {
        spec_zeros(spec_padding(pos, <(T0, T1, T2) as MaxSizeOf>::spec_max_size_of())) + (self.0.spec_image() + self.1.spec_image() + self.2.spec_image())
    }

    open spec fn spec_rows(&self, pos: nat, path: Seq<Seq<char>>) -> Seq<RowView> {
        spec_zero_rows::<Self, Self>(pos, path, (self.0.spec_image() + self.1.spec_image() + self.2.spec_image()).len())
    }

    fn _serialize_inner<W: WriteWithNames>(&self, backend: &mut W) -> (r: SerResult<()>) {
        proof {
            T0::lemma_image(vstd::pervasive::arbitrary());
            T1::lemma_image(vstd::pervasive::arbitrary());
            T2::lemma_image(vstd::pervasive::arbitrary());
        }
        let mut buffer: Vec<u8> = Vec::new();
        self.0.write_image(&mut buffer);
        self.1.write_image(&mut buffer);
        self.2.write_image(&mut buffer);
        assert(buffer@ =~= self.0.spec_image() + self.1.spec_image() + self.2.spec_image());
        let ghost pad = spec_zeros(spec_padding(old(backend).spec_written().len(), <(T0, T1, T2) as MaxSizeOf>::spec_max_size_of()));
        let res = backend.align::<(T0, T1, T2)>();
        let ghost mid = *backend;
        match res {
            Ok(()) => {},
            Err(e) => {
                proof { lemma_wrote_stop(*old(backend), mid, pad, buffer@, res); }
                return Err(e);
            },
        }
        let res = backend.write_bytes::<(T0, T1, T2)>(buffer.as_slice());
        proof {
            lemma_wrote_seq(*old(backend), mid, *backend, pad, buffer@, res);
            if res is Ok && W::spec_records() {
                lemma_zero_rows::<W, Self, Self>(*old(backend), mid, *backend, buffer@.len());
            }
        }
        res
    }
}

/// A tuple is read as a zero-copy value; its ε-copy is a copy.
impl<T0: ZeroCopy, T1: ZeroCopy, T2: ZeroCopy> DeserializeInner for (T0, T1, T2) {
    type DeserType<'a> = Self;

    open spec fn spec_aligns() -> bool {
        Self::spec_max_size_of() > 1
    }

    fn _check(data: &[u8], pos: usize) -> (r: Option<Option<usize>>) {
        check_zero::<Self>(data, pos)
    }

    open spec fn spec_deser_len(data: Seq<u8>, pos: nat) -> Option<core::result::Result<nat, DeError>> {
        spec_zero_len::<(T0, T1, T2)>(data, pos)
    }

    open spec fn spec_decodes(v: Self, data: Seq<u8>, pos: nat) -> bool {
        spec_zero_decodes::<(T0, T1, T2)>(v, data, pos)
    }

    open spec fn spec_eps_decodes<'a>(d: Self::DeserType<'a>, data: Seq<u8>, pos: nat) -> bool {
        spec_zero_decodes::<(T0, T1, T2)>(d, data, pos)
    }

    fn _deserialize_full_inner<R: ReadWithPos>(backend: &mut R) -> (r: DeResult<Self>) {
        deserialize_full_zero::<(T0, T1, T2), R>(backend)
    }

    fn _deserialize_eps_inner<'a>(backend: &mut SliceWithPos<'a>) -> (r: DeResult<Self::DeserType<'a>>) {
        deserialize_eps_zero::<(T0, T1, T2)>(backend)
    }

    open spec fn spec_same(a: Self, b: Self) -> bool {
        a == b
    }

    open spec fn spec_eps_same<'a>(d: Self::DeserType<'a>, v: Self) -> bool {
        d == v
    }

    proof fn lemma_read_back(v: Self, w: Self, pos: nat, rest: Seq<u8>) {
        assert(v.spec_ser(pos) == spec_ser_zero(v, pos));
        lemma_zero_read_back(v, pos, rest);
    }

    proof fn lemma_eps_read_back<'a>(v: Self, d: Self::DeserType<'a>, pos: nat, rest: Seq<u8>) {
        assert(v.spec_ser(pos) == spec_ser_zero(v, pos));
        lemma_zero_read_back(v, pos, rest);
    }

    proof fn lemma_deser_len_fits(data: Seq<u8>, pos: nat) {
    }

    proof fn lemma_deser_ser(v: Self, pos: nat, rest: Seq<u8>) {
        assert(v.spec_ser(pos) == spec_ser_zero(v, pos));
        lemma_zero_read_back(v, pos, rest);
    }
}

impl<T0: ZeroCopy, T1: ZeroCopy, T2: ZeroCopy, T3: ZeroCopy> CopyType for (T0, T1, T2, T3) {
    type Copy = Zero;
}

impl<T0: TypeName, T1: TypeName, T2: TypeName, T3: TypeName> TypeName for (T0, T1, T2, T3) {
    open spec fn spec_type_name() -> Seq<char> {
        "("@ + T0::spec_type_name() + ", "@ + T1::spec_type_name() + ", "@ + T2::spec_type_name() + ", "@ + T3::spec_type_name() + ")"@
    }

    fn type_name_str() -> (r: String) {
        let mut name = String::from_str("(");
        let part0 = T0::type_name_str();
        name.append(part0.as_str());
        name.append(", ");
        let part1 = T1::type_name_str();
        name.append(part1.as_str());
        name.append(", ");
        let part2 = T2::type_name_str();
        name.append(part2.as_str());
        name.append(", ");
        let part3 = T3::type_name_str();
        name.append(part3.as_str());
        name.append(")");
        name
    }
}

impl<T0: TypeHash, T1: TypeHash, T2: TypeHash, T3: TypeHash> TypeHash for (T0, T1, T2, T3) {
    open spec fn spec_type_hash_input() -> Seq<u8> {
        spec_str_hash_input("()") + T0::spec_type_hash_input() + T1::spec_type_hash_input() + T2::spec_type_hash_input() + T3::spec_type_hash_input()
    }

    fn type_hash(hasher: &mut TypeHasher) {
        hasher.write_str("()");
        T0::type_hash(hasher);
        T1::type_hash(hasher);
        T2::type_hash(hasher);
        T3::type_hash(hasher);
        assert(hasher@ =~= old(hasher)@ + Self::spec_type_hash_input());
    }
}

/// The representation of a tuple is that of its elements, each placed after the
/// previous one at the offset given by the sizes of the elements before it.
impl<T0: ReprHash, T1: ReprHash, T2: ReprHash, T3: ReprHash> ReprHash for (T0, T1, T2, T3) {
    open spec fn spec_repr_hash(offset_of: nat) -> (Seq<u8>, nat) {
        let o0 = offset_of;
        let r0 = T0::spec_repr_hash(o0);
        let o1 = o0 + size_of::<T0>();
        let r1 = T1::spec_repr_hash(o1);
        let o2 = o1 + size_of::<T1>();
        let r2 = T2::spec_repr_hash(o2);
        let o3 = o2 + size_of::<T2>();
        let r3 = T3::spec_repr_hash(o3);
        let o4 = o3 + size_of::<T3>();
        if r0.1 <= usize::MAX && o1 <= usize::MAX && r1.1 <= usize::MAX && o2 <= usize::MAX && r2.1 <= usize::MAX && o3 <= usize::MAX && r3.1 <= usize::MAX && o4 <= usize::MAX {
            (r0.0 + r1.0 + r2.0 + r3.0, o4)
        } else {
            (r0.0 + r1.0 + r2.0 + r3.0, usize::MAX as nat + 1)
        }
    }

    fn repr_hash(hasher: &mut TypeHasher, offset_of: &mut usize) {
        let ghost start = *offset_of;
        let ghost h = hasher@;
        let ghost o0 = start as nat;
        let ghost o1 = o0 + size_of::<T0>();
        let ghost o2 = o1 + size_of::<T1>();
        let ghost o3 = o2 + size_of::<T2>();
        let curr = *offset_of;
        T0::repr_hash(hasher, offset_of);
        *offset_of = curr + core::mem::size_of::<T0>();
        assert(hasher@ =~= h + (T0::spec_repr_hash(o0).0));
        let curr = *offset_of;
        T1::repr_hash(hasher, offset_of);
        *offset_of = curr + core::mem::size_of::<T1>();
        assert(hasher@ =~= h + (T0::spec_repr_hash(o0).0 + T1::spec_repr_hash(o1).0));
        let curr = *offset_of;
        T2::repr_hash(hasher, offset_of);
        *offset_of = curr + core::mem::size_of::<T2>();
        assert(hasher@ =~= h + (T0::spec_repr_hash(o0).0 + T1::spec_repr_hash(o1).0 + T2::spec_repr_hash(o2).0));
        let curr = *offset_of;
        T3::repr_hash(hasher, offset_of);
        *offset_of = curr + core::mem::size_of::<T3>();
        assert(hasher@ =~= h + (T0::spec_repr_hash(o0).0 + T1::spec_repr_hash(o1).0 + T2::spec_repr_hash(o2).0 + T3::spec_repr_hash(o3).0));
        assert(hasher@ =~= h + Self::spec_repr_hash(start as nat).0);
    }
}

/// The maximum size of a primitive field of a tuple is that of its elements.
impl<T0: MaxSizeOf, T1: MaxSizeOf, T2: MaxSizeOf, T3: MaxSizeOf> MaxSizeOf for (T0, T1, T2, T3) {
    open spec fn spec_max_size_of() -> usize {
        let m0 = if 0usize < T0::spec_max_size_of() { T0::spec_max_size_of() } else { 0usize };
        let m1 = if m0 < T1::spec_max_size_of() { T1::spec_max_size_of() } else { m0 };
        let m2 = if m1 < T2::spec_max_size_of() { T2::spec_max_size_of() } else { m1 };
        let m3 = if m2 < T3::spec_max_size_of() { T3::spec_max_size_of() } else { m2 };
        m3
    }

    fn max_size_of() -> (r: usize) {
        let mut max_size_of: usize = 0;
        let m = T0::max_size_of();
        if max_size_of < m {
            max_size_of = m;
        }
        let m = T1::max_size_of();
        if max_size_of < m {
            max_size_of = m;
        }
        let m = T2::max_size_of();
        if max_size_of < m {
            max_size_of = m;
        }
        let m = T3::max_size_of();
        if max_size_of < m {
            max_size_of = m;
        }
        max_size_of
    }
}

/// The image of a tuple is the concatenation of the images of its elements.
impl<T0: ZeroCopy, T1: ZeroCopy, T2: ZeroCopy, T3: ZeroCopy> ZeroCopy for (T0, T1, T2, T3) {
    open spec fn spec_image(&self) -> Seq<u8> {
        self.0.spec_image() + self.1.spec_image() + self.2.spec_image() + self.3.spec_image()
    }

    open spec fn spec_image_len() -> nat {
        T0::spec_image_len() + T1::spec_image_len() + T2::spec_image_len() + T3::spec_image_len()
    }

    open spec fn spec_from_image(image: Seq<u8>) -> Self {
        let e0 = 0int;
        let e1 = e0 + T0::spec_image_len();
        let e2 = e1 + T1::spec_image_len();
        let e3 = e2 + T2::spec_image_len();
        let e4 = e3 + T3::spec_image_len();
        (T0::spec_from_image(image.subrange(e0, e1)), T1::spec_from_image(image.subrange(e1, e2)), T2::spec_from_image(image.subrange(e2, e3)), T3::spec_from_image(image.subrange(e3, e4)))
    }

    open spec fn spec_valid_image(image: Seq<u8>) -> bool {
        let e0 = 0int;
        let e1 = e0 + T0::spec_image_len();
        let e2 = e1 + T1::spec_image_len();
        let e3 = e2 + T2::spec_image_len();
        let e4 = e3 + T3::spec_image_len();
        T0::spec_valid_image(image.subrange(e0, e1)) && T1::spec_valid_image(image.subrange(e1, e2)) && T2::spec_valid_image(image.subrange(e2, e3)) && T3::spec_valid_image(image.subrange(e3, e4))
    }

    fn image_len() -> (r: Option<usize>) {
        add_image_len(add_image_len(add_image_len(T0::image_len(), T1::image_len()), T2::image_len()), T3::image_len())
    }

    fn is_valid_image(image: &[u8]) -> (r: bool) {
        let _len: usize = image.len();
        let x0 = 0usize;
        let x1 = x0 + part_image_len::<T0>();
        let x2 = x1 + part_image_len::<T1>();
        let x3 = x2 + part_image_len::<T2>();
        let x4 = x3 + part_image_len::<T3>();
        T0::is_valid_image(vstd::slice::slice_subrange(image, x0, x1)) && T1::is_valid_image(vstd::slice::slice_subrange(image, x1, x2)) && T2::is_valid_image(vstd::slice::slice_subrange(image, x2, x3)) && T3::is_valid_image(vstd::slice::slice_subrange(image, x3, x4))
    }

    fn write_image(&self, out: &mut Vec<u8>) {
        self.0.write_image(out);
        self.1.write_image(out);
        self.2.write_image(out);
        self.3.write_image(out);
        assert(out@ =~= old(out)@ + self.spec_image());
    }

    fn from_image(image: &[u8]) -> (r: Self) {
        let _len: usize = image.len();
        let x0 = 0usize;
        let x1 = x0 + part_image_len::<T0>();
        let x2 = x1 + part_image_len::<T1>();
        let x3 = x2 + part_image_len::<T2>();
        let x4 = x3 + part_image_len::<T3>();
        let v0 = T0::from_image(vstd::slice::slice_subrange(image, x0, x1));
        let v1 = T1::from_image(vstd::slice::slice_subrange(image, x1, x2));
        let v2 = T2::from_image(vstd::slice::slice_subrange(image, x2, x3));
        let v3 = T3::from_image(vstd::slice::slice_subrange(image, x3, x4));
        (v0, v1, v2, v3)
    }

    proof fn lemma_image(v: Self) {
        T0::lemma_image(v.0);
        T1::lemma_image(v.1);
        T2::lemma_image(v.2);
        T3::lemma_image(v.3);
        let img = v.spec_image();
        let e0 = 0int;
        let e1 = e0 + T0::spec_image_len();
        let e2 = e1 + T1::spec_image_len();
        let e3 = e2 + T2::spec_image_len();
        let e4 = e3 + T3::spec_image_len();
        assert(img.subrange(e0, e1) =~= v.0.spec_image());
        assert(img.subrange(e1, e2) =~= v.1.spec_image());
        assert(img.subrange(e2, e3) =~= v.2.spec_image());
        assert(img.subrange(e3, e4) =~= v.3.spec_image());
        assert(Self::spec_from_image(img) == v);
    }
}

/// A tuple is serialized as a zero-copy value: padding to its alignment, then its image.
impl<T0: ZeroCopy, T1: ZeroCopy, T2: ZeroCopy, T3: ZeroCopy> SerializeInner for (T0, T1, T2, T3) {
    const IS_ZERO_COPY: bool = true;

    const ZERO_COPY_MISMATCH: bool = false;

    open spec fn spec_ser(&self, pos: nat) -> Seq<u8> {
        spec_zeros(spec_padding(pos, <(T0, T1, T2, T3) as MaxSizeOf>::spec_max_size_of())) + (self.0.spec_image() + self.1.spec_image() + self.2.spec_image() + self.3.spec_image())
    }

    open spec fn spec_rows(&self, pos: nat, path: Seq<Seq<char>>) -> Seq<RowView> {
        spec_zero_rows::<Self, Self>(pos, path, (self.0.spec_image() + self.1.spec_image() + self.2.spec_image() + self.3.spec_image()).len())
    }

    fn _serialize_inner<W: WriteWithNames>(&self, backend: &mut W) -> (r: SerResult<()>) {
        proof {
            T0::lemma_image(vstd::pervasive::arbitrary());
            T1::lemma_image(vstd::pervasive::arbitrary());
            T2::lemma_image(vstd::pervasive::arbitrary());
            T3::lemma_image(vstd::pervasive::arbitrary());
        }
        let mut buffer: Vec<u8> = Vec::new();
        self.0.write_image(&mut buffer);
        self.1.write_image(&mut buffer);
        self.2.write_image(&mut buffer);
        self.3.write_image(&mut buffer);
        assert(buffer@ =~= self.0.spec_image() + self.1.spec_image() + self.2.spec_image() + self.3.spec_image());
        let ghost pad = spec_zeros(spec_padding(old(backend).spec_written().len(), <(T0, T1, T2, T3) as MaxSizeOf>::spec_max_size_of()));
        let res = backend.align::<(T0, T1, T2, T3)>();
        let ghost mid = *backend;
        match res {
            Ok(()) => {},
            Err(e) => {
                proof { lemma_wrote_stop(*old(backend), mid, pad, buffer@, res); }
                return Err(e);
            },
        }
        let res = backend.write_bytes::<(T0, T1, T2, T3)>(buffer.as_slice());
        proof {
            lemma_wrote_seq(*old(backend), mid, *backend, pad, buffer@, res);
            if res is Ok && W::spec_records() {
                lemma_zero_rows::<W, Self, Self>(*old(backend), mid, *backend, buffer@.len());
            }
        }
        res
    }
}

/// A tuple is read as a zero-copy value; its ε-copy is a copy.
impl<T0: ZeroCopy, T1: ZeroCopy, T2: ZeroCopy, T3: ZeroCopy> DeserializeInner for (T0, T1, T2, T3) {
    type DeserType<'a> = Self;

    open spec fn spec_aligns() -> bool {
        Self::spec_max_size_of() > 1
    }

    fn _check(data: &[u8], pos: usize) -> (r: Option<Option<usize>>) {
        check_zero::<Self>(data, pos)
    }

    open spec fn spec_deser_len(data: Seq<u8>, pos: nat) -> Option<core::result::Result<nat, DeError>> {
        spec_zero_len::<(T0, T1, T2, T3)>(data, pos)
    }

    open spec fn spec_decodes(v: Self, data: Seq<u8>, pos: nat) -> bool {
        spec_zero_decodes::<(T0, T1, T2, T3)>(v, data, pos)
    }

    open spec fn spec_eps_decodes<'a>(d: Self::DeserType<'a>, data: Seq<u8>, pos: nat) -> bool {
        spec_zero_decodes::<(T0, T1, T2, T3)>(d, data, pos)
    }

    fn _deserialize_full_inner<R: ReadWithPos>(backend: &mut R) -> (r: DeResult<Self>) {
        deserialize_full_zero::<(T0, T1, T2, T3), R>(backend)
    }

    fn _deserialize_eps_inner<'a>(backend: &mut SliceWithPos<'a>) -> (r: DeResult<Self::DeserType<'a>>) {
        deserialize_eps_zero::<(T0, T1, T2, T3)>(backend)
    }

    open spec fn spec_same(a: Self, b: Self) -> bool {
        a == b
    }

    open spec fn spec_eps_same<'a>(d: Self::DeserType<'a>, v: Self) -> bool {
        d == v
    }

    proof fn lemma_read_back(v: Self, w: Self, pos: nat, rest: Seq<u8>) {
        assert(v.spec_ser(pos) == spec_ser_zero(v, pos));
        lemma_zero_read_back(v, pos, rest);
    }

    proof fn lemma_eps_read_back<'a>(v: Self, d: Self::DeserType<'a>, pos: nat, rest: Seq<u8>) {
        assert(v.spec_ser(pos) == spec_ser_zero(v, pos));
        lemma_zero_read_back(v, pos, rest);
    }

    proof fn lemma_deser_len_fits(data: Seq<u8>, pos: nat) {
    }

    proof fn lemma_deser_ser(v: Self, pos: nat, rest: Seq<u8>) {
        assert(v.spec_ser(pos) == spec_ser_zero(v, pos));
        lemma_zero_read_back(v, pos, rest);
    }
}

impl<T0: ZeroCopy, T1: ZeroCopy, T2: ZeroCopy, T3: ZeroCopy, T4: ZeroCopy> CopyType for (T0, T1, T2, T3, T4) {
    type Copy = Zero;
}

impl<T0: TypeName, T1: TypeName, T2: TypeName, T3: TypeName, T4: TypeName> TypeName for (T0, T1, T2, T3, T4) {
    open spec fn spec_type_name() -> Seq<char> {
        "("@ + T0::spec_type_name() + ", "@ + T1::spec_type_name() + ", "@ + T2::spec_type_name() + ", "@ + T3::spec_type_name() + ", "@ + T4::spec_type_name() + ")"@
    }

    fn type_name_str() -> (r: String) {
        let mut name = String::from_str("(");
        let part0 = T0::type_name_str();
        name.append(part0.as_str());
        name.append(", ");
        let part1 = T1::type_name_str();
        name.append(part1.as_str());
        name.append(", ");
        let part2 = T2::type_name_str();
        name.append(part2.as_str());
        name.append(", ");
        let part3 = T3::type_name_str();
        name.append(part3.as_str());
        name.append(", ");
        let part4 = T4::type_name_str();
        name.append(part4.as_str());
        name.append(")");
        name
    }
}

impl<T0: TypeHash, T1: TypeHash, T2: TypeHash, T3: TypeHash, T4: TypeHash> TypeHash for (T0, T1, T2, T3, T4) {
    open spec fn spec_type_hash_input() -> Seq<u8> {
        spec_str_hash_input("()") + T0::spec_type_hash_input() + T1::spec_type_hash_input() + T2::spec_type_hash_input() + T3::spec_type_hash_input() + T4::spec_type_hash_input()
    }

    fn type_hash(hasher: &mut TypeHasher) {
        hasher.write_str("()");
        T0::type_hash(hasher);
        T1::type_hash(hasher);
        T2::type_hash(hasher);
        T3::type_hash(hasher);
        T4::type_hash(hasher);
        assert(hasher@ =~= old(hasher)@ + Self::spec_type_hash_input());
    }
}

/// The representation of a tuple is that of its elements, each placed after the
/// previous one at the offset given by the sizes of the elements before it.
impl<T0: ReprHash, T1: ReprHash, T2: ReprHash, T3: ReprHash, T4: ReprHash> ReprHash for (T0, T1, T2, T3, T4) {
    open spec fn spec_repr_hash(offset_of: nat) -> (Seq<u8>, nat) {
        let o0 = offset_of;
        let r0 = T0::spec_repr_hash(o0);
        let o1 = o0 + size_of::<T0>();
        let r1 = T1::spec_repr_hash(o1);
        let o2 = o1 + size_of::<T1>();
        let r2 = T2::spec_repr_hash(o2);
        let o3 = o2 + size_of::<T2>();
        let r3 = T3::spec_repr_hash(o3);
        let o4 = o3 + size_of::<T3>();
        let r4 = T4::spec_repr_hash(o4);
        let o5 = o4 + size_of::<T4>();
        if r0.1 <= usize::MAX && o1 <= usize::MAX && r1.1 <= usize::MAX && o2 <= usize::MAX && r2.1 <= usize::MAX && o3 <= usize::MAX && r3.1 <= usize::MAX && o4 <= usize::MAX && r4.1 <= usize::MAX && o5 <= usize::MAX {
            (r0.0 + r1.0 + r2.0 + r3.0 + r4.0, o5)
        } else {
            (r0.0 + r1.0 + r2.0 + r3.0 + r4.0, usize::MAX as nat + 1)
        }
    }

    #[verifier::rlimit(50)]
    fn repr_hash(hasher: &mut TypeHasher, offset_of: &mut usize) {
        let ghost start = *offset_of;
        let ghost h = hasher@;
        let ghost o0 = start as nat;
        let ghost o1 = o0 + size_of::<T0>();
        let ghost o2 = o1 + size_of::<T1>();
        let ghost o3 = o2 + size_of::<T2>();
        let ghost o4 = o3 + size_of::<T3>();
        let curr = *offset_of;
        T0::repr_hash(hasher, offset_of);
        *offset_of = curr + core::mem::size_of::<T0>();
        assert(hasher@ =~= h + (T0::spec_repr_hash(o0).0));
        let curr = *offset_of;
        T1::repr_hash(hasher, offset_of);
        *offset_of = curr + core::mem::size_of::<T1>();
        assert(hasher@ =~= h + (T0::spec_repr_hash(o0).0 + T1::spec_repr_hash(o1).0));
        let curr = *offset_of;
        T2::repr_hash(hasher, offset_of);
        *offset_of = curr + core::mem::size_of::<T2>();
        assert(hasher@ =~= h + (T0::spec_repr_hash(o0).0 + T1::spec_repr_hash(o1).0 + T2::spec_repr_hash(o2).0));
        let curr = *offset_of;
        T3::repr_hash(hasher, offset_of);
        *offset_of = curr + core::mem::size_of::<T3>();
        assert(hasher@ =~= h + (T0::spec_repr_hash(o0).0 + T1::spec_repr_hash(o1).0 + T2::spec_repr_hash(o2).0 + T3::spec_repr_hash(o3).0));
        let curr = *offset_of;
        T4::repr_hash(hasher, offset_of);
        *offset_of = curr + core::mem::size_of::<T4>();
        assert(hasher@ =~= h + (T0::spec_repr_hash(o0).0 + T1::spec_repr_hash(o1).0 + T2::spec_repr_hash(o2).0 + T3::spec_repr_hash(o3).0 + T4::spec_repr_hash(o4).0));
        assert(hasher@ =~= h + Self::spec_repr_hash(start as nat).0);
    }
}

/// The maximum size of a primitive field of a tuple is that of its elements.
impl<T0: MaxSizeOf, T1: MaxSizeOf, T2: MaxSizeOf, T3: MaxSizeOf, T4: MaxSizeOf> MaxSizeOf for (T0, T1, T2, T3, T4) {
    open spec fn spec_max_size_of() -> usize {
        let m0 = if 0usize < T0::spec_max_size_of() { T0::spec_max_size_of() } else { 0usize };
        let m1 = if m0 < T1::spec_max_size_of() { T1::spec_max_size_of() } else { m0 };
        let m2 = if m1 < T2::spec_max_size_of() { T2::spec_max_size_of() } else { m1 };
        let m3 = if m2 < T3::spec_max_size_of() { T3::spec_max_size_of() } else { m2 };
        let m4 = if m3 < T4::spec_max_size_of() { T4::spec_max_size_of() } else { m3 };
        m4
    }

    fn max_size_of() -> (r: usize) {
        let mut max_size_of: usize = 0;
        let m = T0::max_size_of();
        if max_size_of < m {
            max_size_of = m;
        }
        let m = T1::max_size_of();
        if max_size_of < m {
            max_size_of = m;
        }
        let m = T2::max_size_of();
        if max_size_of < m {
            max_size_of = m;
        }
        let m = T3::max_size_of();
        if max_size_of < m {
            max_size_of = m;
        }
        let m = T4::max_size_of();
        if max_size_of < m {
            max_size_of = m;
        }
        max_size_of
    }
}

/// The image of a tuple is the concatenation of the images of its elements.
impl<T0: ZeroCopy, T1: ZeroCopy, T2: ZeroCopy, T3: ZeroCopy, T4: ZeroCopy> ZeroCopy for (T0, T1, T2, T3, T4) {
    open spec fn spec_image(&self) -> Seq<u8> {
        self.0.spec_image() + self.1.spec_image() + self.2.spec_image() + self.3.spec_image() + self.4.spec_image()
    }

    open spec fn spec_image_len() -> nat {
        T0::spec_image_len() + T1::spec_image_len() + T2::spec_image_len() + T3::spec_image_len() + T4::spec_image_len()
    }

    open spec fn spec_from_image(image: Seq<u8>) -> Self {
        let e0 = 0int;
        let e1 = e0 + T0::spec_image_len();
        let e2 = e1 + T1::spec_image_len();
        let e3 = e2 + T2::spec_image_len();
        let e4 = e3 + T3::spec_image_len();
        let e5 = e4 + T4::spec_image_len();
        (T0::spec_from_image(image.subrange(e0, e1)), T1::spec_from_image(image.subrange(e1, e2)), T2::spec_from_image(image.subrange(e2, e3)), T3::spec_from_image(image.subrange(e3, e4)), T4::spec_from_image(image.subrange(e4, e5)))
    }

    open spec fn spec_valid_image(image: Seq<u8>) -> bool {
        let e0 = 0int;
        let e1 = e0 + T0::spec_image_len();
        let e2 = e1 + T1::spec_image_len();
        let e3 = e2 + T2::spec_image_len();
        let e4 = e3 + T3::spec_image_len();
        let e5 = e4 + T4::spec_image_len();
        T0::spec_valid_image(image.subrange(e0, e1)) && T1::spec_valid_image(image.subrange(e1, e2)) && T2::spec_valid_image(image.subrange(e2, e3)) && T3::spec_valid_image(image.subrange(e3, e4)) && T4::spec_valid_image(image.subrange(e4, e5))
    }

    fn image_len() -> (r: Option<usize>) {
        add_image_len(add_image_len(add_image_len(add_image_len(T0::image_len(), T1::image_len()), T2::image_len()), T3::image_len()), T4::image_len())
    }

    fn is_valid_image(image: &[u8]) -> (r: bool) {
        let _len: usize = image.len();
        let x0 = 0usize;
        let x1 = x0 + part_image_len::<T0>();
        let x2 = x1 + part_image_len::<T1>();
        let x3 = x2 + part_image_len::<T2>();
        let x4 = x3 + part_image_len::<T3>();
        let x5 = x4 + part_image_len::<T4>();
        T0::is_valid_image(vstd::slice::slice_subrange(image, x0, x1)) && T1::is_valid_image(vstd::slice::slice_subrange(image, x1, x2)) && T2::is_valid_image(vstd::slice::slice_subrange(image, x2, x3)) && T3::is_valid_image(vstd::slice::slice_subrange(image, x3, x4)) && T4::is_valid_image(vstd::slice::slice_subrange(image, x4, x5))
    }

    fn write_image(&self, out: &mut Vec<u8>) {
        self.0.write_image(out);
        self.1.write_image(out);
        self.2.write_image(out);
        self.3.write_image(out);
        self.4.write_image(out);
        assert(out@ =~= old(out)@ + self.spec_image());
    }

    fn from_image(image: &[u8]) -> (r: Self) {
        let _len: usize = image.len();
        let x0 = 0usize;
        let x1 = x0 + part_image_len::<T0>();
        let x2 = x1 + part_image_len::<T1>();
        let x3 = x2 + part_image_len::<T2>();
        let x4 = x3 + part_image_len::<T3>();
        let x5 = x4 + part_image_len::<T4>();
        let v0 = T0::from_image(vstd::slice::slice_subrange(image, x0, x1));
        let v1 = T1::from_image(vstd::slice::slice_subrange(image, x1, x2));
        let v2 = T2::from_image(vstd::slice::slice_subrange(image, x2, x3));
        let v3 = T3::from_image(vstd::slice::slice_subrange(image, x3, x4));
        let v4 = T4::from_image(vstd::slice::slice_subrange(image, x4, x5));
        (v0, v1, v2, v3, v4)
    }

    proof fn lemma_image(v: Self) {
        T0::lemma_image(v.0);
        T1::lemma_image(v.1);
        T2::lemma_image(v.2);
        T3::lemma_image(v.3);
        T4::lemma_image(v.4);
        let img = v.spec_image();
        let e0 = 0int;
        let e1 = e0 + T0::spec_image_len();
        let e2 = e1 + T1::spec_image_len();
        let e3 = e2 + T2::spec_image_len();
        let e4 = e3 + T3::spec_image_len();
        let e5 = e4 + T4::spec_image_len();
        assert(img.subrange(e0, e1) =~= v.0.spec_image());
        assert(img.subrange(e1, e2) =~= v.1.spec_image());
        assert(img.subrange(e2, e3) =~= v.2.spec_image());
        assert(img.subrange(e3, e4) =~= v.3.spec_image());
        assert(img.subrange(e4, e5) =~= v.4.spec_image());
        assert(Self::spec_from_image(img) == v);
    }
}

/// A tuple is serialized as a zero-copy value: padding to its alignment, then its image.
impl<T0: ZeroCopy, T1: ZeroCopy, T2: ZeroCopy, T3: ZeroCopy, T4: ZeroCopy> SerializeInner for (T0, T1, T2, T3, T4) {
    const IS_ZERO_COPY: bool = true;

    const ZERO_COPY_MISMATCH: bool = false;

    open spec fn spec_ser(&self, pos: nat) -> Seq<u8> {
        spec_zeros(spec_padding(pos, <(T0, T1, T2, T3, T4) as MaxSizeOf>::spec_max_size_of())) + (self.0.spec_image() + self.1.spec_image() + self.2.spec_image() + self.3.spec_image() + self.4.spec_image())
    }

    open spec fn spec_rows(&self, pos: nat, path: Seq<Seq<char>>) -> Seq<RowView> {
        spec_zero_rows::<Self, Self>(pos, path, (self.0.spec_image() + self.1.spec_image() + self.2.spec_image() + self.3.spec_image() + self.4.spec_image()).len())
    }

    fn _serialize_inner<W: WriteWithNames>(&self, backend: &mut W) -> (r: SerResult<()>) {
        proof {
            T0::lemma_image(vstd::pervasive::arbitrary());
            T1::lemma_image(vstd::pervasive::arbitrary());
            T2::lemma_image(vstd::pervasive::arbitrary());
            T3::lemma_image(vstd::pervasive::arbitrary());
            T4::lemma_image(vstd::pervasive::arbitrary());
        }
        let mut buffer: Vec<u8> = Vec::new();
        self.0.write_image(&mut buffer);
        self.1.write_image(&mut buffer);
        self.2.write_image(&mut buffer);
        self.3.write_image(&mut buffer);
        self.4.write_image(&mut buffer);
        assert(buffer@ =~= self.0.spec_image() + self.1.spec_image() + self.2.spec_image() + self.3.spec_image() + self.4.spec_image());
        let ghost pad = spec_zeros(spec_padding(old(backend).spec_written().len(), <(T0, T1, T2, T3, T4) as MaxSizeOf>::spec_max_size_of()));
        let res = backend.align::<(T0, T1, T2, T3, T4)>();
        let ghost mid = *backend;
        match res {
            Ok(()) => {},
            Err(e) => {
                proof { lemma_wrote_stop(*old(backend), mid, pad, buffer@, res); }
                return Err(e);
            },
        }
        let res = backend.write_bytes::<(T0, T1, T2, T3, T4)>(buffer.as_slice());
        proof {
            lemma_wrote_seq(*old(backend), mid, *backend, pad, buffer@, res);
            if res is Ok && W::spec_records() {
                lemma_zero_rows::<W, Self, Self>(*old(backend), mid, *backend, buffer@.len());
            }
        }
        res
    }
}

/// A tuple is read as a zero-copy value; its ε-copy is a copy.
impl<T0: ZeroCopy, T1: ZeroCopy, T2: ZeroCopy, T3: ZeroCopy, T4: ZeroCopy> DeserializeInner for (T0, T1, T2, T3, T4) {
    type DeserType<'a> = Self;

    open spec fn spec_aligns() -> bool {
        Self::spec_max_size_of() > 1
    }

    fn _check(data: &[u8], pos: usize) -> (r: Option<Option<usize>>) {
        check_zero::<Self>(data, pos)
    }

    open spec fn spec_deser_len(data: Seq<u8>, pos: nat) -> Option<core::result::Result<nat, DeError>> {
        spec_zero_len::<(T0, T1, T2, T3, T4)>(data, pos)
    }

    open spec fn spec_decodes(v: Self, data: Seq<u8>, pos: nat) -> bool {
        spec_zero_decodes::<(T0, T1, T2, T3, T4)>(v, data, pos)
    }

    open spec fn spec_eps_decodes<'a>(d: Self::DeserType<'a>, data: Seq<u8>, pos: nat) -> bool {
        spec_zero_decodes::<(T0, T1, T2, T3, T4)>(d, data, pos)
    }

    fn _deserialize_full_inner<R: ReadWithPos>(backend: &mut R) -> (r: DeResult<Self>) {
        deserialize_full_zero::<(T0, T1, T2, T3, T4), R>(backend)
    }

    fn _deserialize_eps_inner<'a>(backend: &mut SliceWithPos<'a>) -> (r: DeResult<Self::DeserType<'a>>) {
        deserialize_eps_zero::<(T0, T1, T2, T3, T4)>(backend)
    }

    open spec fn spec_same(a: Self, b: Self) -> bool {
        a == b
    }

    open spec fn spec_eps_same<'a>(d: Self::DeserType<'a>, v: Self) -> bool {
        d == v
    }

    proof fn lemma_read_back(v: Self, w: Self, pos: nat, rest: Seq<u8>) {
        assert(v.spec_ser(pos) == spec_ser_zero(v, pos));
        lemma_zero_read_back(v, pos, rest);
    }

    proof fn lemma_eps_read_back<'a>(v: Self, d: Self::DeserType<'a>, pos: nat, rest: Seq<u8>) {
        assert(v.spec_ser(pos) == spec_ser_zero(v, pos));
        lemma_zero_read_back(v, pos, rest);
    }

    proof fn lemma_deser_len_fits(data: Seq<u8>, pos: nat) {
    }

    proof fn lemma_deser_ser(v: Self, pos: nat, rest: Seq<u8>) {
        assert(v.spec_ser(pos) == spec_ser_zero(v, pos));
        lemma_zero_read_back(v, pos, rest);
    }
}

impl<T0: ZeroCopy, T1: ZeroCopy, T2: ZeroCopy, T3: ZeroCopy, T4: ZeroCopy, T5: ZeroCopy> CopyType for (T0, T1, T2, T3, T4, T5) {
    type Copy = Zero;
}

impl<T0: TypeName, T1: TypeName, T2: TypeName, T3: TypeName, T4: TypeName, T5: TypeName> TypeName for (T0, T1, T2, T3, T4, T5) {
    open spec fn spec_type_name() -> Seq<char> {
        "("@ + T0::spec_type_name() + ", "@ + T1::spec_type_name() + ", "@ + T2::spec_type_name() + ", "@ + T3::spec_type_name() + ", "@ + T4::spec_type_name() + ", "@ + T5::spec_type_name() + ")"@
    }

    fn type_name_str() -> (r: String) {
        let mut name = String::from_str("(");
        let part0 = T0::type_name_str();
        name.append(part0.as_str());
        name.append(", ");
        let part1 = T1::type_name_str();
        name.append(part1.as_str());
        name.append(", ");
        let part2 = T2::type_name_str();
        name.append(part2.as_str());
        name.append(", ");
        let part3 = T3::type_name_str();
        name.append(part3.as_str());
        name.append(", ");
        let part4 = T4::type_name_str();
        name.append(part4.as_str());
        name.append(", ");
        let part5 = T5::type_name_str();
        name.append(part5.as_str());
        name.append(")");
        name
    }
}

impl<T0: TypeHash, T1: TypeHash, T2: TypeHash, T3: TypeHash, T4: TypeHash, T5: TypeHash> TypeHash for (T0, T1, T2, T3, T4, T5) {
    open spec fn spec_type_hash_input() -> Seq<u8> {
        spec_str_hash_input("()") + T0::spec_type_hash_input() + T1::spec_type_hash_input() + T2::spec_type_hash_input() + T3::spec_type_hash_input() + T4::spec_type_hash_input() + T5::spec_type_hash_input()
    }

    #[verifier::rlimit(50)]
    fn type_hash(hasher: &mut TypeHasher) {
        hasher.write_str("()");
        T0::type_hash(hasher);
        T1::type_hash(hasher);
        T2::type_hash(hasher);
        T3::type_hash(hasher);
        T4::type_hash(hasher);
        T5::type_hash(hasher);
        assert(hasher@ =~= old(hasher)@ + Self::spec_type_hash_input());
    }
}

/// The representation of a tuple is that of its elements, each placed after the
/// previous one at the offset given by the sizes of the elements before it.
impl<T0: ReprHash, T1: ReprHash, T2: ReprHash, T3: ReprHash, T4: ReprHash, T5: ReprHash> ReprHash for (T0, T1, T2, T3, T4, T5) {
    open spec fn spec_repr_hash(offset_of: nat) -> (Seq<u8>, nat) {
        let o0 = offset_of;
        let r0 = T0::spec_repr_hash(o0);
        let o1 = o0 + size_of::<T0>();
        let r1 = T1::spec_repr_hash(o1);
        let o2 = o1 + size_of::<T1>();
        let r2 = T2::spec_repr_hash(o2);
        let o3 = o2 + size_of::<T2>();
        let r3 = T3::spec_repr_hash(o3);
        let o4 = o3 + size_of::<T3>();
        let r4 = T4::spec_repr_hash(o4);
        let o5 = o4 + size_of::<T4>();
        let r5 = T5::spec_repr_hash(o5);
        let o6 = o5 + size_of::<T5>();
        if r0.1 <= usize::MAX && o1 <= usize::MAX && r1.1 <= usize::MAX && o2 <= usize::MAX && r2.1 <= usize::MAX && o3 <= usize::MAX && r3.1 <= usize::MAX && o4 <= usize::MAX && r4.1 <= usize::MAX && o5 <= usize::MAX && r5.1 <= usize::MAX && o6 <= usize::MAX {
            (r0.0 + r1.0 + r2.0 + r3.0 + r4.0 + r5.0, o6)
        } else {
            (r0.0 + r1.0 + r2.0 + r3.0 + r4.0 + r5.0, usize::MAX as nat + 1)
        }
    }

    #[verifier::rlimit(50)]
    fn repr_hash(hasher: &mut TypeHasher, offset_of: &mut usize) {
        let ghost start = *offset_of;
        let ghost h = hasher@;
        let ghost o0 = start as nat;
        let ghost o1 = o0 + size_of::<T0>();
        let ghost o2 = o1 + size_of::<T1>();
        let ghost o3 = o2 + size_of::<T2>();
        let ghost o4 = o3 + size_of::<T3>();
        let ghost o5 = o4 + size_of::<T4>();
        let curr = *offset_of;
        T0::repr_hash(hasher, offset_of);
        *offset_of = curr + core::mem::size_of::<T0>();
        assert(hasher@ =~= h + (T0::spec_repr_hash(o0).0));
        let curr = *offset_of;
        T1::repr_hash(hasher, offset_of);
        *offset_of = curr + core::mem::size_of::<T1>();
        assert(hasher@ =~= h + (T0::spec_repr_hash(o0).0 + T1::spec_repr_hash(o1).0));
        let curr = *offset_of;
        T2::repr_hash(hasher, offset_of);
        *offset_of = curr + core::mem::size_of::<T2>();
        assert(hasher@ =~= h + (T0::spec_repr_hash(o0).0 + T1::spec_repr_hash(o1).0 + T2::spec_repr_hash(o2).0));
        let curr = *offset_of;
        T3::repr_hash(hasher, offset_of);
        *offset_of = curr + core::mem::size_of::<T3>();
        assert(hasher@ =~= h + (T0::spec_repr_hash(o0).0 + T1::spec_repr_hash(o1).0 + T2::spec_repr_hash(o2).0 + T3::spec_repr_hash(o3).0));
        let curr = *offset_of;
        T4::repr_hash(hasher, offset_of);
        *offset_of = curr + core::mem::size_of::<T4>();
        assert(hasher@ =~= h + (T0::spec_repr_hash(o0).0 + T1::spec_repr_hash(o1).0 + T2::spec_repr_hash(o2).0 + T3::spec_repr_hash(o3).0 + T4::spec_repr_hash(o4).0));
        let curr = *offset_of;
        T5::repr_hash(hasher, offset_of);
        *offset_of = curr + core::mem::size_of::<T5>();
        assert(hasher@ =~= h + (T0::spec_repr_hash(o0).0 + T1::spec_repr_hash(o1).0 + T2::spec_repr_hash(o2).0 + T3::spec_repr_hash(o3).0 + T4::spec_repr_hash(o4).0 + T5::spec_repr_hash(o5).0));
        assert(hasher@ =~= h + Self::spec_repr_hash(start as nat).0);
    }
}

/// The maximum size of a primitive field of a tuple is that of its elements.
impl<T0: MaxSizeOf, T1: MaxSizeOf, T2: MaxSizeOf, T3: MaxSizeOf, T4: MaxSizeOf, T5: MaxSizeOf> MaxSizeOf for (T0, T1, T2, T3, T4, T5) {
    open spec fn spec_max_size_of() -> usize {
        let m0 = if 0usize < T0::spec_max_size_of() { T0::spec_max_size_of() } else { 0usize };
        let m1 = if m0 < T1::spec_max_size_of() { T1::spec_max_size_of() } else { m0 };
        let m2 = if m1 < T2::spec_max_size_of() { T2::spec_max_size_of() } else { m1 };
        let m3 = if m2 < T3::spec_max_size_of() { T3::spec_max_size_of() } else { m2 };
        let m4 = if m3 < T4::spec_max_size_of() { T4::spec_max_size_of() } else { m3 };
        let m5 = if m4 < T5::spec_max_size_of() { T5::spec_max_size_of() } else { m4 };
        m5
    }

    fn max_size_of() -> (r: usize) {
        let mut max_size_of: usize = 0;
        let m = T0::max_size_of();
        if max_size_of < m {
            max_size_of = m;
        }
        let m = T1::max_size_of();
        if max_size_of < m {
            max_size_of = m;
        }
        let m = T2::max_size_of();
        if max_size_of < m {
            max_size_of = m;
        }
        let m = T3::max_size_of();
        if max_size_of < m {
            max_size_of = m;
        }
        let m = T4::max_size_of();
        if max_size_of < m {
            max_size_of = m;
        }
        let m = T5::max_size_of();
        if max_size_of < m {
            max_size_of = m;
        }
        max_size_of
    }
}

/// The image of a tuple is the concatenation of the images of its elements.
impl<T0: ZeroCopy, T1: ZeroCopy, T2: ZeroCopy, T3: ZeroCopy, T4: ZeroCopy, T5: ZeroCopy> ZeroCopy for (T0, T1, T2, T3, T4, T5) {
    open spec fn spec_image(&self) -> Seq<u8> {
        self.0.spec_image() + self.1.spec_image() + self.2.spec_image() + self.3.spec_image() + self.4.spec_image() + self.5.spec_image()
    }

    open spec fn spec_image_len() -> nat {
        T0::spec_image_len() + T1::spec_image_len() + T2::spec_image_len() + T3::spec_image_len() + T4::spec_image_len() + T5::spec_image_len()
    }

    open spec fn spec_from_image(image: Seq<u8>) -> Self {
        let e0 = 0int;
        let e1 = e0 + T0::spec_image_len();
        let e2 = e1 + T1::spec_image_len();
        let e3 = e2 + T2::spec_image_len();
        let e4 = e3 + T3::spec_image_len();
        let e5 = e4 + T4::spec_image_len();
        let e6 = e5 + T5::spec_image_len();
        (T0::spec_from_image(image.subrange(e0, e1)), T1::spec_from_image(image.subrange(e1, e2)), T2::spec_from_image(image.subrange(e2, e3)), T3::spec_from_image(image.subrange(e3, e4)), T4::spec_from_image(image.subrange(e4, e5)), T5::spec_from_image(image.subrange(e5, e6)))
    }

    open spec fn spec_valid_image(image: Seq<u8>) -> bool {
        let e0 = 0int;
        let e1 = e0 + T0::spec_image_len();
        let e2 = e1 + T1::spec_image_len();
        let e3 = e2 + T2::spec_image_len();
        let e4 = e3 + T3::spec_image_len();
        let e5 = e4 + T4::spec_image_len();
        let e6 = e5 + T5::spec_image_len();
        T0::spec_valid_image(image.subrange(e0, e1)) && T1::spec_valid_image(image.subrange(e1, e2)) && T2::spec_valid_image(image.subrange(e2, e3)) && T3::spec_valid_image(image.subrange(e3, e4)) && T4::spec_valid_image(image.subrange(e4, e5)) && T5::spec_valid_image(image.subrange(e5, e6))
    }

    fn image_len() -> (r: Option<usize>) {
        add_image_len(add_image_len(add_image_len(add_image_len(add_image_len(T0::image_len(), T1::image_len()), T2::image_len()), T3::image_len()), T4::image_len()), T5::image_len())
    }

    fn is_valid_image(image: &[u8]) -> (r: bool) {
        let _len: usize = image.len();
        let x0 = 0usize;
        let x1 = x0 + part_image_len::<T0>();
        let x2 = x1 + part_image_len::<T1>();
        let x3 = x2 + part_image_len::<T2>();
        let x4 = x3 + part_image_len::<T3>();
        let x5 = x4 + part_image_len::<T4>();
        let x6 = x5 + part_image_len::<T5>();
        T0::is_valid_image(vstd::slice::slice_subrange(image, x0, x1)) && T1::is_valid_image(vstd::slice::slice_subrange(image, x1, x2)) && T2::is_valid_image(vstd::slice::slice_subrange(image, x2, x3)) && T3::is_valid_image(vstd::slice::slice_subrange(image, x3, x4)) && T4::is_valid_image(vstd::slice::slice_subrange(image, x4, x5)) && T5::is_valid_image(vstd::slice::slice_subrange(image, x5, x6))
    }

    fn write_image(&self, out: &mut Vec<u8>) {
        self.0.write_image(out);
        self.1.write_image(out);
        self.2.write_image(out);
        self.3.write_image(out);
        self.4.write_image(out);
        self.5.write_image(out);
        assert(out@ =~= old(out)@ + self.spec_image());
    }

    fn from_image(image: &[u8]) -> (r: Self) {
        let _len: usize = image.len();
        let x0 = 0usize;
        let x1 = x0 + part_image_len::<T0>();
        let x2 = x1 + part_image_len::<T1>();
        let x3 = x2 + part_image_len::<T2>();
        let x4 = x3 + part_image_len::<T3>();
        let x5 = x4 + part_image_len::<T4>();
        let x6 = x5 + part_image_len::<T5>();
        let v0 = T0::from_image(vstd::slice::slice_subrange(image, x0, x1));
        let v1 = T1::from_image(vstd::slice::slice_subrange(image, x1, x2));
        let v2 = T2::from_image(vstd::slice::slice_subrange(image, x2, x3));
        let v3 = T3::from_image(vstd::slice::slice_subrange(image, x3, x4));
        let v4 = T4::from_image(vstd::slice::slice_subrange(image, x4, x5));
        let v5 = T5::from_image(vstd::slice::slice_subrange(image, x5, x6));
        (v0, v1, v2, v3, v4, v5)
    }

    proof fn lemma_image(v: Self) {
        T0::lemma_image(v.0);
        T1::lemma_image(v.1);
        T2::lemma_image(v.2);
        T3::lemma_image(v.3);
        T4::lemma_image(v.4);
        T5::lemma_image(v.5);
        let img = v.spec_image();
        let e0 = 0int;
        let e1 = e0 + T0::spec_image_len();
        let e2 = e1 + T1::spec_image_len();
        let e3 = e2 + T2::spec_image_len();
        let e4 = e3 + T3::spec_image_len();
        let e5 = e4 + T4::spec_image_len();
        let e6 = e5 + T5::spec_image_len();
        assert(img.subrange(e0, e1) =~= v.0.spec_image());
        assert(img.subrange(e1, e2) =~= v.1.spec_image());
        assert(img.subrange(e2, e3) =~= v.2.spec_image());
        assert(img.subrange(e3, e4) =~= v.3.spec_image());
        assert(img.subrange(e4, e5) =~= v.4.spec_image());
        assert(img.subrange(e5, e6) =~= v.5.spec_image());
        assert(Self::spec_from_image(img) == v);
    }
}

/// A tuple is serialized as a zero-copy value: padding to its alignment, then its image.
impl<T0: ZeroCopy, T1: ZeroCopy, T2: ZeroCopy, T3: ZeroCopy, T4: ZeroCopy, T5: ZeroCopy> SerializeInner for (T0, T1, T2, T3, T4, T5) {
    const IS_ZERO_COPY: bool = true;

    const ZERO_COPY_MISMATCH: bool = false;

    open spec fn spec_ser(&self, pos: nat) -> Seq<u8> {
        spec_zeros(spec_padding(pos, <(T0, T1, T2, T3, T4, T5) as MaxSizeOf>::spec_max_size_of())) + (self.0.spec_image() + self.1.spec_image() + self.2.spec_image() + self.3.spec_image() + self.4.spec_image() + self.5.spec_image())
    }

    open spec fn spec_rows(&self, pos: nat, path: Seq<Seq<char>>) -> Seq<RowView> {
        spec_zero_rows::<Self, Self>(pos, path, (self.0.spec_image() + self.1.spec_image() + self.2.spec_image() + self.3.spec_image() + self.4.spec_image() + self.5.spec_image()).len())
    }

    fn _serialize_inner<W: WriteWithNames>(&self, backend: &mut W) -> (r: SerResult<()>) {
        proof {
            T0::lemma_image(vstd::pervasive::arbitrary());
            T1::lemma_image(vstd::pervasive::arbitrary());
            T2::lemma_image(vstd::pervasive::arbitrary());
            T3::lemma_image(vstd::pervasive::arbitrary());
            T4::lemma_image(vstd::pervasive::arbitrary());
            T5::lemma_image(vstd::pervasive::arbitrary());
        }
        let mut buffer: Vec<u8> = Vec::new();
        self.0.write_image(&mut buffer);
        self.1.write_image(&mut buffer);
        self.2.write_image(&mut buffer);
        self.3.write_image(&mut buffer);
        self.4.write_image(&mut buffer);
        self.5.write_image(&mut buffer);
        assert(buffer@ =~= self.0.spec_image() + self.1.spec_image() + self.2.spec_image() + self.3.spec_image() + self.4.spec_image() + self.5.spec_image());
        let ghost pad = spec_zeros(spec_padding(old(backend).spec_written().len(), <(T0, T1, T2, T3, T4, T5) as MaxSizeOf>::spec_max_size_of()));
        let res = backend.align::<(T0, T1, T2, T3, T4, T5)>();
        let ghost mid = *backend;
        match res {
            Ok(()) => {},
            Err(e) => {
                proof { lemma_wrote_stop(*old(backend), mid, pad, buffer@, res); }
                return Err(e);
            },
        }
        let res = backend.write_bytes::<(T0, T1, T2, T3, T4, T5)>(buffer.as_slice());
        proof {
            lemma_wrote_seq(*old(backend), mid, *backend, pad, buffer@, res);
            if res is Ok && W::spec_records() {
                lemma_zero_rows::<W, Self, Self>(*old(backend), mid, *backend, buffer@.len());
            }
        }
        res
    }
}

/// A tuple is read as a zero-copy value; its ε-copy is a copy.
impl<T0: ZeroCopy, T1: ZeroCopy, T2: ZeroCopy, T3: ZeroCopy, T4: ZeroCopy, T5: ZeroCopy> DeserializeInner for (T0, T1, T2, T3, T4, T5) {
    type DeserType<'a> = Self;

    open spec fn spec_aligns() -> bool {
        Self::spec_max_size_of() > 1
    }

    fn _check(data: &[u8], pos: usize) -> (r: Option<Option<usize>>) {
        check_zero::<Self>(data, pos)
    }

    open spec fn spec_deser_len(data: Seq<u8>, pos: nat) -> Option<core::result::Result<nat, DeError>> {
        spec_zero_len::<(T0, T1, T2, T3, T4, T5)>(data, pos)
    }

    open spec fn spec_decodes(v: Self, data: Seq<u8>, pos: nat) -> bool {
        spec_zero_decodes::<(T0, T1, T2, T3, T4, T5)>(v, data, pos)
    }

    open spec fn spec_eps_decodes<'a>(d: Self::DeserType<'a>, data: Seq<u8>, pos: nat) -> bool {
        spec_zero_decodes::<(T0, T1, T2, T3, T4, T5)>(d, data, pos)
    }

    fn _deserialize_full_inner<R: ReadWithPos>(backend: &mut R) -> (r: DeResult<Self>) {
        deserialize_full_zero::<(T0, T1, T2, T3, T4, T5), R>(backend)
    }

    fn _deserialize_eps_inner<'a>(backend: &mut SliceWithPos<'a>) -> (r: DeResult<Self::DeserType<'a>>) {
        deserialize_eps_zero::<(T0, T1, T2, T3, T4, T5)>(backend)
    }

    open spec fn spec_same(a: Self, b: Self) -> bool {
        a == b
    }

    open spec fn spec_eps_same<'a>(d: Self::DeserType<'a>, v: Self) -> bool {
        d == v
    }

    proof fn lemma_read_back(v: Self, w: Self, pos: nat, rest: Seq<u8>) {
        assert(v.spec_ser(pos) == spec_ser_zero(v, pos));
        lemma_zero_read_back(v, pos, rest);
    }

    proof fn lemma_eps_read_back<'a>(v: Self, d: Self::DeserType<'a>, pos: nat, rest: Seq<u8>) {
        assert(v.spec_ser(pos) == spec_ser_zero(v, pos));
        lemma_zero_read_back(v, pos, rest);
    }

    proof fn lemma_deser_len_fits(data: Seq<u8>, pos: nat) {
    }

    proof fn lemma_deser_ser(v: Self, pos: nat, rest: Seq<u8>) {
        assert(v.spec_ser(pos) == spec_ser_zero(v, pos));
        lemma_zero_read_back(v, pos, rest);
    }
}

impl<T0: ZeroCopy, T1: ZeroCopy, T2: ZeroCopy, T3: ZeroCopy, T4: ZeroCopy, T5: ZeroCopy, T6: ZeroCopy> CopyType for (T0, T1, T2, T3, T4, T5, T6) {
    type Copy = Zero;
}

impl<T0: TypeName, T1: TypeName, T2: TypeName, T3: TypeName, T4: TypeName, T5: TypeName, T6: TypeName> TypeName for (T0, T1, T2, T3, T4, T5, T6) {
    open spec fn spec_type_name() -> Seq<char> {
        "("@ + T0::spec_type_name() + ", "@ + T1::spec_type_name() + ", "@ + T2::spec_type_name() + ", "@ + T3::spec_type_name() + ", "@ + T4::spec_type_name() + ", "@ + T5::spec_type_name() + ", "@ + T6::spec_type_name() + ")"@
    }

    fn type_name_str() -> (r: String) {
        let mut name = String::from_str("(");
        let part0 = T0::type_name_str();
        name.append(part0.as_str());
        name.append(", ");
        let part1 = T1::type_name_str();
        name.append(part1.as_str());
        name.append(", ");
        let part2 = T2::type_name_str();
        name.append(part2.as_str());
        name.append(", ");
        let part3 = T3::type_name_str();
        name.append(part3.as_str());
        name.append(", ");
        let part4 = T4::type_name_str();
        name.append(part4.as_str());
        name.append(", ");
        let part5 = T5::type_name_str();
        name.append(part5.as_str());
        name.append(", ");
        let part6 = T6::type_name_str();
        name.append(part6.as_str());
        name.append(")");
        name
    }
}

impl<T0: TypeHash, T1: TypeHash, T2: TypeHash, T3: TypeHash, T4: TypeHash, T5: TypeHash, T6: TypeHash> TypeHash for (T0, T1, T2, T3, T4, T5, T6) {
    open spec fn spec_type_hash_input() -> Seq<u8> {
        spec_str_hash_input("()") + T0::spec_type_hash_input() + T1::spec_type_hash_input() + T2::spec_type_hash_input() + T3::spec_type_hash_input() + T4::spec_type_hash_input() + T5::spec_type_hash_input() + T6::spec_type_hash_input()
    }

    #[verifier::rlimit(50)]
    fn type_hash(hasher: &mut TypeHasher) {
        hasher.write_str("()");
        T0::type_hash(hasher);
        T1::type_hash(hasher);
        T2::type_hash(hasher);
        T3::type_hash(hasher);
        T4::type_hash(hasher);
        T5::type_hash(hasher);
        T6::type_hash(hasher);
        assert(hasher@ =~= old(hasher)@ + Self::spec_type_hash_input());
    }
}

/// The representation of a tuple is that of its elements, each placed after the
/// previous one at the offset given by the sizes of the elements before it.
impl<T0: ReprHash, T1: ReprHash, T2: ReprHash, T3: ReprHash, T4: ReprHash, T5: ReprHash, T6: ReprHash> ReprHash for (T0, T1, T2, T3, T4, T5, T6) {
    open spec fn spec_repr_hash(offset_of: nat) -> (Seq<u8>, nat) {
        let o0 = offset_of;
        let r0 = T0::spec_repr_hash(o0);
        let o1 = o0 + size_of::<T0>();
        let r1 = T1::spec_repr_hash(o1);
        let o2 = o1 + size_of::<T1>();
        let r2 = T2::spec_repr_hash(o2);
        let o3 = o2 + size_of::<T2>();
        let r3 = T3::spec_repr_hash(o3);
        let o4 = o3 + size_of::<T3>();
        let r4 = T4::spec_repr_hash(o4);
        let o5 = o4 + size_of::<T4>();
        let r5 = T5::spec_repr_hash(o5);
        let o6 = o5 + size_of::<T5>();
        let r6 = T6::spec_repr_hash(o6);
        let o7 = o6 + size_of::<T6>();
        if r0.1 <= usize::MAX && o1 <= usize::MAX && r1.1 <= usize::MAX && o2 <= usize::MAX && r2.1 <= usize::MAX && o3 <= usize::MAX && r3.1 <= usize::MAX && o4 <= usize::MAX && r4.1 <= usize::MAX && o5 <= usize::MAX && r5.1 <= usize::MAX && o6 <= usize::MAX && r6.1 <= usize::MAX && o7 <= usize::MAX {
            (r0.0 + r1.0 + r2.0 + r3.0 + r4.0 + r5.0 + r6.0, o7)
        } else {
            (r0.0 + r1.0 + r2.0 + r3.0 + r4.0 + r5.0 + r6.0, usize::MAX as nat + 1)
        }
    }

    #[verifier::rlimit(50)]
    fn repr_hash(hasher: &mut TypeHasher, offset_of: &mut usize) {
        let ghost start = *offset_of;
        let ghost h = hasher@;
        let ghost o0 = start as nat;
        let ghost o1 = o0 + size_of::<T0>();
        let ghost o2 = o1 + size_of::<T1>();
        let ghost o3 = o2 + size_of::<T2>();
        let ghost o4 = o3 + size_of::<T3>();
        let ghost o5 = o4 + size_of::<T4>();
        let ghost o6 = o5 + size_of::<T5>();
        let curr = *offset_of;
        T0::repr_hash(hasher, offset_of);
        *offset_of = curr + core::mem::size_of::<T0>();
        assert(hasher@ =~= h + (T0::spec_repr_hash(o0).0));
        let curr = *offset_of;
        T1::repr_hash(hasher, offset_of);
        *offset_of = curr + core::mem::size_of::<T1>();
        assert(hasher@ =~= h + (T0::spec_repr_hash(o0).0 + T1::spec_repr_hash(o1).0));
        let curr = *offset_of;
        T2::repr_hash(hasher, offset_of);
        *offset_of = curr + core::mem::size_of::<T2>();
        assert(hasher@ =~= h + (T0::spec_repr_hash(o0).0 + T1::spec_repr_hash(o1).0 + T2::spec_repr_hash(o2).0));
        let curr = *offset_of;
        T3::repr_hash(hasher, offset_of);
        *offset_of = curr + core::mem::size_of::<T3>();
        assert(hasher@ =~= h + (T0::spec_repr_hash(o0).0 + T1::spec_repr_hash(o1).0 + T2::spec_repr_hash(o2).0 + T3::spec_repr_hash(o3).0));
        let curr = *offset_of;
        T4::repr_hash(hasher, offset_of);
        *offset_of = curr + core::mem::size_of::<T4>();
        assert(hasher@ =~= h + (T0::spec_repr_hash(o0).0 + T1::spec_repr_hash(o1).0 + T2::spec_repr_hash(o2).0 + T3::spec_repr_hash(o3).0 + T4::spec_repr_hash(o4).0));
        let curr = *offset_of;
        T5::repr_hash(hasher, offset_of);
        *offset_of = curr + core::mem::size_of::<T5>();
        assert(hasher@ =~= h + (T0::spec_repr_hash(o0).0 + T1::spec_repr_hash(o1).0 + T2::spec_repr_hash(o2).0 + T3::spec_repr_hash(o3).0 + T4::spec_repr_hash(o4).0 + T5::spec_repr_hash(o5).0));
        let curr = *offset_of;
        T6::repr_hash(hasher, offset_of);
        *offset_of = curr + core::mem::size_of::<T6>();
        assert(hasher@ =~= h + (T0::spec_repr_hash(o0).0 + T1::spec_repr_hash(o1).0 + T2::spec_repr_hash(o2).0 + T3::spec_repr_hash(o3).0 + T4::spec_repr_hash(o4).0 + T5::spec_repr_hash(o5).0 + T6::spec_repr_hash(o6).0));
        assert(hasher@ =~= h + Self::spec_repr_hash(start as nat).0);
    }
}

/// The maximum size of a primitive field of a tuple is that of its elements.
impl<T0: MaxSizeOf, T1: MaxSizeOf, T2: MaxSizeOf, T3: MaxSizeOf, T4: MaxSizeOf, T5: MaxSizeOf, T6: MaxSizeOf> MaxSizeOf for (T0, T1, T2, T3, T4, T5, T6) {
    open spec fn spec_max_size_of() -> usize {
        let m0 = if 0usize < T0::spec_max_size_of() { T0::spec_max_size_of() } else { 0usize };
        let m1 = if m0 < T1::spec_max_size_of() { T1::spec_max_size_of() } else { m0 };
        let m2 = if m1 < T2::spec_max_size_of() { T2::spec_max_size_of() } else { m1 };
        let m3 = if m2 < T3::spec_max_size_of() { T3::spec_max_size_of() } else { m2 };
        let m4 = if m3 < T4::spec_max_size_of() { T4::spec_max_size_of() } else { m3 };
        let m5 = if m4 < T5::spec_max_size_of() { T5::spec_max_size_of() } else { m4 };
        let m6 = if m5 < T6::spec_max_size_of() { T6::spec_max_size_of() } else { m5 };
        m6
    }

    fn max_size_of() -> (r: usize) {
        let mut max_size_of: usize = 0;
        let m = T0::max_size_of();
        if max_size_of < m {
            max_size_of = m;
        }
        let m = T1::max_size_of();
        if max_size_of < m {
            max_size_of = m;
        }
        let m = T2::max_size_of();
        if max_size_of < m {
            max_size_of = m;
        }
        let m = T3::max_size_of();
        if max_size_of < m {
            max_size_of = m;
        }
        let m = T4::max_size_of();
        if max_size_of < m {
            max_size_of = m;
        }
        let m = T5::max_size_of();
        if max_size_of < m {
            max_size_of = m;
        }
        let m = T6::max_size_of();
        if max_size_of < m {
            max_size_of = m;
        }
        max_size_of
    }
}

/// The image of a tuple is the concatenation of the images of its elements.
impl<T0: ZeroCopy, T1: ZeroCopy, T2: ZeroCopy, T3: ZeroCopy, T4: ZeroCopy, T5: ZeroCopy, T6: ZeroCopy> ZeroCopy for (T0, T1, T2, T3, T4, T5, T6) {
    open spec fn spec_image(&self) -> Seq<u8> {
        self.0.spec_image() + self.1.spec_image() + self.2.spec_image() + self.3.spec_image() + self.4.spec_image() + self.5.spec_image() + self.6.spec_image()
    }

    open spec fn spec_image_len() -> nat {
        T0::spec_image_len() + T1::spec_image_len() + T2::spec_image_len() + T3::spec_image_len() + T4::spec_image_len() + T5::spec_image_len() + T6::spec_image_len()
    }

    open spec fn spec_from_image(image: Seq<u8>) -> Self {
        let e0 = 0int;
        let e1 = e0 + T0::spec_image_len();
        let e2 = e1 + T1::spec_image_len();
        let e3 = e2 + T2::spec_image_len();
        let e4 = e3 + T3::spec_image_len();
        let e5 = e4 + T4::spec_image_len();
        let e6 = e5 + T5::spec_image_len();
        let e7 = e6 + T6::spec_image_len();
        (T0::spec_from_image(image.subrange(e0, e1)), T1::spec_from_image(image.subrange(e1, e2)), T2::spec_from_image(image.subrange(e2, e3)), T3::spec_from_image(image.subrange(e3, e4)), T4::spec_from_image(image.subrange(e4, e5)), T5::spec_from_image(image.subrange(e5, e6)), T6::spec_from_image(image.subrange(e6, e7)))
    }

    open spec fn spec_valid_image(image: Seq<u8>) -> bool {
        let e0 = 0int;
        let e1 = e0 + T0::spec_image_len();
        let e2 = e1 + T1::spec_image_len();
        let e3 = e2 + T2::spec_image_len();
        let e4 = e3 + T3::spec_image_len();
        let e5 = e4 + T4::spec_image_len();
        let e6 = e5 + T5::spec_image_len();
        let e7 = e6 + T6::spec_image_len();
        T0::spec_valid_image(image.subrange(e0, e1)) && T1::spec_valid_image(image.subrange(e1, e2)) && T2::spec_valid_image(image.subrange(e2, e3)) && T3::spec_valid_image(image.subrange(e3, e4)) && T4::spec_valid_image(image.subrange(e4, e5)) && T5::spec_valid_image(image.subrange(e5, e6)) && T6::spec_valid_image(image.subrange(e6, e7))
    }

    fn image_len() -> (r: Option<usize>) {
        add_image_len(add_image_len(add_image_len(add_image_len(add_image_len(add_image_len(T0::image_len(), T1::image_len()), T2::image_len()), T3::image_len()), T4::image_len()), T5::image_len()), T6::image_len())
    }

    fn is_valid_image(image: &[u8]) -> (r: bool) {
        let _len: usize = image.len();
        let x0 = 0usize;
        let x1 = x0 + part_image_len::<T0>();
        let x2 = x1 + part_image_len::<T1>();
        let x3 = x2 + part_image_len::<T2>();
        let x4 = x3 + part_image_len::<T3>();
        let x5 = x4 + part_image_len::<T4>();
        let x6 = x5 + part_image_len::<T5>();
        let x7 = x6 + part_image_len::<T6>();
        T0::is_valid_image(vstd::slice::slice_subrange(image, x0, x1)) && T1::is_valid_image(vstd::slice::slice_subrange(image, x1, x2)) && T2::is_valid_image(vstd::slice::slice_subrange(image, x2, x3)) && T3::is_valid_image(vstd::slice::slice_subrange(image, x3, x4)) && T4::is_valid_image(vstd::slice::slice_subrange(image, x4, x5)) && T5::is_valid_image(vstd::slice::slice_subrange(image, x5, x6)) && T6::is_valid_image(vstd::slice::slice_subrange(image, x6, x7))
    }

    fn write_image(&self, out: &mut Vec<u8>) {
        self.0.write_image(out);
        self.1.write_image(out);
        self.2.write_image(out);
        self.3.write_image(out);
        self.4.write_image(out);
        self.5.write_image(out);
        self.6.write_image(out);
        assert(out@ =~= old(out)@ + self.spec_image());
    }

    fn from_image(image: &[u8]) -> (r: Self) {
        let _len: usize = image.len();
        let x0 = 0usize;
        let x1 = x0 + part_image_len::<T0>();
        let x2 = x1 + part_image_len::<T1>();
        let x3 = x2 + part_image_len::<T2>();
        let x4 = x3 + part_image_len::<T3>();
        let x5 = x4 + part_image_len::<T4>();
        let x6 = x5 + part_image_len::<T5>();
        let x7 = x6 + part_image_len::<T6>();
        let v0 = T0::from_image(vstd::slice::slice_subrange(image, x0, x1));
        let v1 = T1::from_image(vstd::slice::slice_subrange(image, x1, x2));
        let v2 = T2::from_image(vstd::slice::slice_subrange(image, x2, x3));
        let v3 = T3::from_image(vstd::slice::slice_subrange(image, x3, x4));
        let v4 = T4::from_image(vstd::slice::slice_subrange(image, x4, x5));
        let v5 = T5::from_image(vstd::slice::slice_subrange(image, x5, x6));
        let v6 = T6::from_image(vstd::slice::slice_subrange(image, x6, x7));
        (v0, v1, v2, v3, v4, v5, v6)
    }

    proof fn lemma_image(v: Self) {
        T0::lemma_image(v.0);
        T1::lemma_image(v.1);
        T2::lemma_image(v.2);
        T3::lemma_image(v.3);
        T4::lemma_image(v.4);
        T5::lemma_image(v.5);
        T6::lemma_image(v.6);
        let img = v.spec_image();
        let e0 = 0int;
        let e1 = e0 + T0::spec_image_len();
        let e2 = e1 + T1::spec_image_len();
        let e3 = e2 + T2::spec_image_len();
        let e4 = e3 + T3::spec_image_len();
        let e5 = e4 + T4::spec_image_len();
        let e6 = e5 + T5::spec_image_len();
        let e7 = e6 + T6::spec_image_len();
        assert(img.subrange(e0, e1) =~= v.0.spec_image());
        assert(img.subrange(e1, e2) =~= v.1.spec_image());
        assert(img.subrange(e2, e3) =~= v.2.spec_image());
        assert(img.subrange(e3, e4) =~= v.3.spec_image());
        assert(img.subrange(e4, e5) =~= v.4.spec_image());
        assert(img.subrange(e5, e6) =~= v.5.spec_image());
        assert(img.subrange(e6, e7) =~= v.6.spec_image());
        assert(Self::spec_from_image(img) == v);
    }
}

/// A tuple is serialized as a zero-copy value: padding to its alignment, then its image.
impl<T0: ZeroCopy, T1: ZeroCopy, T2: ZeroCopy, T3: ZeroCopy, T4: ZeroCopy, T5: ZeroCopy, T6: ZeroCopy> SerializeInner for (T0, T1, T2, T3, T4, T5, T6) {
    const IS_ZERO_COPY: bool = true;

    const ZERO_COPY_MISMATCH: bool = false;

    open spec fn spec_ser(&self, pos: nat) -> Seq<u8> {
        spec_zeros(spec_padding(pos, <(T0, T1, T2, T3, T4, T5, T6) as MaxSizeOf>::spec_max_size_of())) + (self.0.spec_image() + self.1.spec_image() + self.2.spec_image() + self.3.spec_image() + self.4.spec_image() + self.5.spec_image() + self.6.spec_image())
    }

    open spec fn spec_rows(&self, pos: nat, path: Seq<Seq<char>>) -> Seq<RowView> {
        spec_zero_rows::<Self, Self>(pos, path, (self.0.spec_image() + self.1.spec_image() + self.2.spec_image() + self.3.spec_image() + self.4.spec_image() + self.5.spec_image() + self.6.spec_image()).len())
    }

    fn _serialize_inner<W: WriteWithNames>(&self, backend: &mut W) -> (r: SerResult<()>) {
        proof {
            T0::lemma_image(vstd::pervasive::arbitrary());
            T1::lemma_image(vstd::pervasive::arbitrary());
            T2::lemma_image(vstd::pervasive::arbitrary());
            T3::lemma_image(vstd::pervasive::arbitrary());
            T4::lemma_image(vstd::pervasive::arbitrary());
            T5::lemma_image(vstd::pervasive::arbitrary());
            T6::lemma_image(vstd::pervasive::arbitrary());
        }
        let mut buffer: Vec<u8> = Vec::new();
        self.0.write_image(&mut buffer);
        self.1.write_image(&mut buffer);
        self.2.write_image(&mut buffer);
        self.3.write_image(&mut buffer);
        self.4.write_image(&mut buffer);
        self.5.write_image(&mut buffer);
        self.6.write_image(&mut buffer);
        assert(buffer@ =~= self.0.spec_image() + self.1.spec_image() + self.2.spec_image() + self.3.spec_image() + self.4.spec_image() + self.5.spec_image() + self.6.spec_image());
        let ghost pad = spec_zeros(spec_padding(old(backend).spec_written().len(), <(T0, T1, T2, T3, T4, T5, T6) as MaxSizeOf>::spec_max_size_of()));
        let res = backend.align::<(T0, T1, T2, T3, T4, T5, T6)>();
        let ghost mid = *backend;
        match res {
            Ok(()) => {},
            Err(e) => {
                proof { lemma_wrote_stop(*old(backend), mid, pad, buffer@, res); }
                return Err(e);
            },
        }
        let res = backend.write_bytes::<(T0, T1, T2, T3, T4, T5, T6)>(buffer.as_slice());
        proof {
            lemma_wrote_seq(*old(backend), mid, *backend, pad, buffer@, res);
            if res is Ok && W::spec_records() {
                lemma_zero_rows::<W, Self, Self>(*old(backend), mid, *backend, buffer@.len());
            }
        }
        res
    }
}

/// A tuple is read as a zero-copy value; its ε-copy is a copy.
impl<T0: ZeroCopy, T1: ZeroCopy, T2: ZeroCopy, T3: ZeroCopy, T4: ZeroCopy, T5: ZeroCopy, T6: ZeroCopy> DeserializeInner for (T0, T1, T2, T3, T4, T5, T6) {
    type DeserType<'a> = Self;

    open spec fn spec_aligns() -> bool {
        Self::spec_max_size_of() > 1
    }

    fn _check(data: &[u8], pos: usize) -> (r: Option<Option<usize>>) {
        check_zero::<Self>(data, pos)
    }

    open spec fn spec_deser_len(data: Seq<u8>, pos: nat) -> Option<core::result::Result<nat, DeError>> {
        spec_zero_len::<(T0, T1, T2, T3, T4, T5, T6)>(data, pos)
    }

    open spec fn spec_decodes(v: Self, data: Seq<u8>, pos: nat) -> bool {
        spec_zero_decodes::<(T0, T1, T2, T3, T4, T5, T6)>(v, data, pos)
    }

    open spec fn spec_eps_decodes<'a>(d: Self::DeserType<'a>, data: Seq<u8>, pos: nat) -> bool {
        spec_zero_decodes::<(T0, T1, T2, T3, T4, T5, T6)>(d, data, pos)
    }

    fn _deserialize_full_inner<R: ReadWithPos>(backend: &mut R) -> (r: DeResult<Self>) {
        deserialize_full_zero::<(T0, T1, T2, T3, T4, T5, T6), R>(backend)
    }

    fn _deserialize_eps_inner<'a>(backend: &mut SliceWithPos<'a>) -> (r: DeResult<Self::DeserType<'a>>) {
        deserialize_eps_zero::<(T0, T1, T2, T3, T4, T5, T6)>(backend)
    }

    open spec fn spec_same(a: Self, b: Self) -> bool {
        a == b
    }

    open spec fn spec_eps_same<'a>(d: Self::DeserType<'a>, v: Self) -> bool {
        d == v
    }

    proof fn lemma_read_back(v: Self, w: Self, pos: nat, rest: Seq<u8>) {
        assert(v.spec_ser(pos) == spec_ser_zero(v, pos));
        lemma_zero_read_back(v, pos, rest);
    }

    proof fn lemma_eps_read_back<'a>(v: Self, d: Self::DeserType<'a>, pos: nat, rest: Seq<u8>) {
        assert(v.spec_ser(pos) == spec_ser_zero(v, pos));
        lemma_zero_read_back(v, pos, rest);
    }

    proof fn lemma_deser_len_fits(data: Seq<u8>, pos: nat) {
    }

    proof fn lemma_deser_ser(v: Self, pos: nat, rest: Seq<u8>) {
        assert(v.spec_ser(pos) == spec_ser_zero(v, pos));
        lemma_zero_read_back(v, pos, rest);
    }
}

impl<T0: ZeroCopy, T1: ZeroCopy, T2: ZeroCopy, T3: ZeroCopy, T4: ZeroCopy, T5: ZeroCopy, T6: ZeroCopy, T7: ZeroCopy> CopyType for (T0, T1, T2, T3, T4, T5, T6, T7) {
    type Copy = Zero;
}

impl<T0: TypeName, T1: TypeName, T2: TypeName, T3: TypeName, T4: TypeName, T5: TypeName, T6: TypeName, T7: TypeName> TypeName for (T0, T1, T2, T3, T4, T5, T6, T7) {
    open spec fn spec_type_name() -> Seq<char> {
        "("@ + T0::spec_type_name() + ", "@ + T1::spec_type_name() + ", "@ + T2::spec_type_name() + ", "@ + T3::spec_type_name() + ", "@ + T4::spec_type_name() + ", "@ + T5::spec_type_name() + ", "@ + T6::spec_type_name() + ", "@ + T7::spec_type_name() + ")"@
    }

    fn type_name_str() -> (r: String) {
        let mut name = String::from_str("(");
        let part0 = T0::type_name_str();
        name.append(part0.as_str());
        name.append(", ");
        let part1 = T1::type_name_str();
        name.append(part1.as_str());
        name.append(", ");
        let part2 = T2::type_name_str();
        name.append(part2.as_str());
        name.append(", ");
        let part3 = T3::type_name_str();
        name.append(part3.as_str());
        name.append(", ");
        let part4 = T4::type_name_str();
        name.append(part4.as_str());
        name.append(", ");
        let part5 = T5::type_name_str();
        name.append(part5.as_str());
        name.append(", ");
        let part6 = T6::type_name_str();
        name.append(part6.as_str());
        name.append(", ");
        let part7 = T7::type_name_str();
        name.append(part7.as_str());
        name.append(")");
        name
    }
}

impl<T0: TypeHash, T1: TypeHash, T2: TypeHash, T3: TypeHash, T4: TypeHash, T5: TypeHash, T6: TypeHash, T7: TypeHash> TypeHash for (T0, T1, T2, T3, T4, T5, T6, T7) {
    open spec fn spec_type_hash_input() -> Seq<u8> {
        spec_str_hash_input("()") + T0::spec_type_hash_input() + T1::spec_type_hash_input() + T2::spec_type_hash_input() + T3::spec_type_hash_input() + T4::spec_type_hash_input() + T5::spec_type_hash_input() + T6::spec_type_hash_input() + T7::spec_type_hash_input()
    }

    #[verifier::rlimit(50)]
    fn type_hash(hasher: &mut TypeHasher) {
        hasher.write_str("()");
        T0::type_hash(hasher);
        T1::type_hash(hasher);
        T2::type_hash(hasher);
        T3::type_hash(hasher);
        T4::type_hash(hasher);
        T5::type_hash(hasher);
        T6::type_hash(hasher);
        T7::type_hash(hasher);
        assert(hasher@ =~= old(hasher)@ + Self::spec_type_hash_input());
    }
}

/// The representation of a tuple is that of its elements, each placed after the
/// previous one at the offset given by the sizes of the elements before it.
impl<T0: ReprHash, T1: ReprHash, T2: ReprHash, T3: ReprHash, T4: ReprHash, T5: ReprHash, T6: ReprHash, T7: ReprHash> ReprHash for (T0, T1, T2, T3, T4, T5, T6, T7) {
    open spec fn spec_repr_hash(offset_of: nat) -> (Seq<u8>, nat) {
        let o0 = offset_of;
        let r0 = T0::spec_repr_hash(o0);
        let o1 = o0 + size_of::<T0>();
        let r1 = T1::spec_repr_hash(o1);
        let o2 = o1 + size_of::<T1>();
        let r2 = T2::spec_repr_hash(o2);
        let o3 = o2 + size_of::<T2>();
        let r3 = T3::spec_repr_hash(o3);
        let o4 = o3 + size_of::<T3>();
        let r4 = T4::spec_repr_hash(o4);
        let o5 = o4 + size_of::<T4>();
        let r5 = T5::spec_repr_hash(o5);
        let o6 = o5 + size_of::<T5>();
        let r6 = T6::spec_repr_hash(o6);
        let o7 = o6 + size_of::<T6>();
        let r7 = T7::spec_repr_hash(o7);
        let o8 = o7 + size_of::<T7>();
        if r0.1 <= usize::MAX && o1 <= usize::MAX && r1.1 <= usize::MAX && o2 <= usize::MAX && r2.1 <= usize::MAX && o3 <= usize::MAX && r3.1 <= usize::MAX && o4 <= usize::MAX && r4.1 <= usize::MAX && o5 <= usize::MAX && r5.1 <= usize::MAX && o6 <= usize::MAX && r6.1 <= usize::MAX && o7 <= usize::MAX && r7.1 <= usize::MAX && o8 <= usize::MAX {
            (r0.0 + r1.0 + r2.0 + r3.0 + r4.0 + r5.0 + r6.0 + r7.0, o8)
        } else {
            (r0.0 + r1.0 + r2.0 + r3.0 + r4.0 + r5.0 + r6.0 + r7.0, usize::MAX as nat + 1)
        }
    }

    #[verifier::rlimit(50)]
    fn repr_hash(hasher: &mut TypeHasher, offset_of: &mut usize) {
        let ghost start = *offset_of;
        let ghost h = hasher@;
        let ghost o0 = start as nat;
        let ghost o1 = o0 + size_of::<T0>();
        let ghost o2 = o1 + size_of::<T1>();
        let ghost o3 = o2 + size_of::<T2>();
        let ghost o4 = o3 + size_of::<T3>();
        let ghost o5 = o4 + size_of::<T4>();
        let ghost o6 = o5 + size_of::<T5>();
        let ghost o7 = o6 + size_of::<T6>();
        let curr = *offset_of;
        T0::repr_hash(hasher, offset_of);
        *offset_of = curr + core::mem::size_of::<T0>();
        assert(hasher@ =~= h + (T0::spec_repr_hash(o0).0));
        let curr = *offset_of;
        T1::repr_hash(hasher, offset_of);
        *offset_of = curr + core::mem::size_of::<T1>();
        assert(hasher@ =~= h + (T0::spec_repr_hash(o0).0 + T1::spec_repr_hash(o1).0));
        let curr = *offset_of;
        T2::repr_hash(hasher, offset_of);
        *offset_of = curr + core::mem::size_of::<T2>();
        assert(hasher@ =~= h + (T0::spec_repr_hash(o0).0 + T1::spec_repr_hash(o1).0 + T2::spec_repr_hash(o2).0));
        let curr = *offset_of;
        T3::repr_hash(hasher, offset_of);
        *offset_of = curr + core::mem::size_of::<T3>();
        assert(hasher@ =~= h + (T0::spec_repr_hash(o0).0 + T1::spec_repr_hash(o1).0 + T2::spec_repr_hash(o2).0 + T3::spec_repr_hash(o3).0));
        let curr = *offset_of;
        T4::repr_hash(hasher, offset_of);
        *offset_of = curr + core::mem::size_of::<T4>();
        assert(hasher@ =~= h + (T0::spec_repr_hash(o0).0 + T1::spec_repr_hash(o1).0 + T2::spec_repr_hash(o2).0 + T3::spec_repr_hash(o3).0 + T4::spec_repr_hash(o4).0));
        let curr = *offset_of;
        T5::repr_hash(hasher, offset_of);
        *offset_of = curr + core::mem::size_of::<T5>();
        assert(hasher@ =~= h + (T0::spec_repr_hash(o0).0 + T1::spec_repr_hash(o1).0 + T2::spec_repr_hash(o2).0 + T3::spec_repr_hash(o3).0 + T4::spec_repr_hash(o4).0 + T5::spec_repr_hash(o5).0));
        let curr = *offset_of;
        T6::repr_hash(hasher, offset_of);
        *offset_of = curr + core::mem::size_of::<T6>();
        assert(hasher@ =~= h + (T0::spec_repr_hash(o0).0 + T1::spec_repr_hash(o1).0 + T2::spec_repr_hash(o2).0 + T3::spec_repr_hash(o3).0 + T4::spec_repr_hash(o4).0 + T5::spec_repr_hash(o5).0 + T6::spec_repr_hash(o6).0));
        let curr = *offset_of;
        T7::repr_hash(hasher, offset_of);
        *offset_of = curr + core::mem::size_of::<T7>();
        assert(hasher@ =~= h + (T0::spec_repr_hash(o0).0 + T1::spec_repr_hash(o1).0 + T2::spec_repr_hash(o2).0 + T3::spec_repr_hash(o3).0 + T4::spec_repr_hash(o4).0 + T5::spec_repr_hash(o5).0 + T6::spec_repr_hash(o6).0 + T7::spec_repr_hash(o7).0));
        assert(hasher@ =~= h + Self::spec_repr_hash(start as nat).0);
    }
}

/// The maximum size of a primitive field of a tuple is that of its elements.
impl<T0: MaxSizeOf, T1: MaxSizeOf, T2: MaxSizeOf, T3: MaxSizeOf, T4: MaxSizeOf, T5: MaxSizeOf, T6: MaxSizeOf, T7: MaxSizeOf> MaxSizeOf for (T0, T1, T2, T3, T4, T5, T6, T7) {
    open spec fn spec_max_size_of() -> usize {
        let m0 = if 0usize < T0::spec_max_size_of() { T0::spec_max_size_of() } else { 0usize };
        let m1 = if m0 < T1::spec_max_size_of() { T1::spec_max_size_of() } else { m0 };
        let m2 = if m1 < T2::spec_max_size_of() { T2::spec_max_size_of() } else { m1 };
        let m3 = if m2 < T3::spec_max_size_of() { T3::spec_max_size_of() } else { m2 };
        let m4 = if m3 < T4::spec_max_size_of() { T4::spec_max_size_of() } else { m3 };
        let m5 = if m4 < T5::spec_max_size_of() { T5::spec_max_size_of() } else { m4 };
        let m6 = if m5 < T6::spec_max_size_of() { T6::spec_max_size_of() } else { m5 };
        let m7 = if m6 < T7::spec_max_size_of() { T7::spec_max_size_of() } else { m6 };
        m7
    }

    fn max_size_of() -> (r: usize) {
        let mut max_size_of: usize = 0;
        let m = T0::max_size_of();
        if max_size_of < m {
            max_size_of = m;
        }
        let m = T1::max_size_of();
        if max_size_of < m {
            max_size_of = m;
        }
        let m = T2::max_size_of();
        if max_size_of < m {
            max_size_of = m;
        }
        let m = T3::max_size_of();
        if max_size_of < m {
            max_size_of = m;
        }
        let m = T4::max_size_of();
        if max_size_of < m {
            max_size_of = m;
        }
        let m = T5::max_size_of();
        if max_size_of < m {
            max_size_of = m;
        }
        let m = T6::max_size_of();
        if max_size_of < m {
            max_size_of = m;
        }
        let m = T7::max_size_of();
        if max_size_of < m {
            max_size_of = m;
        }
        max_size_of
    }
}

/// The image of a tuple is the concatenation of the images of its elements.
impl<T0: ZeroCopy, T1: ZeroCopy, T2: ZeroCopy, T3: ZeroCopy, T4: ZeroCopy, T5: ZeroCopy, T6: ZeroCopy, T7: ZeroCopy> ZeroCopy for (T0, T1, T2, T3, T4, T5, T6, T7) {
    open spec fn spec_image(&self) -> Seq<u8> {
        self.0.spec_image() + self.1.spec_image() + self.2.spec_image() + self.3.spec_image() + self.4.spec_image() + self.5.spec_image() + self.6.spec_image() + self.7.spec_image()
    }

    open spec fn spec_image_len() -> nat {
        T0::spec_image_len() + T1::spec_image_len() + T2::spec_image_len() + T3::spec_image_len() + T4::spec_image_len() + T5::spec_image_len() + T6::spec_image_len() + T7::spec_image_len()
    }

    open spec fn spec_from_image(image: Seq<u8>) -> Self {
        let e0 = 0int;
        let e1 = e0 + T0::spec_image_len();
        let e2 = e1 + T1::spec_image_len();
        let e3 = e2 + T2::spec_image_len();
        let e4 = e3 + T3::spec_image_len();
        let e5 = e4 + T4::spec_image_len();
        let e6 = e5 + T5::spec_image_len();
        let e7 = e6 + T6::spec_image_len();
        let e8 = e7 + T7::spec_image_len();
        (T0::spec_from_image(image.subrange(e0, e1)), T1::spec_from_image(image.subrange(e1, e2)), T2::spec_from_image(image.subrange(e2, e3)), T3::spec_from_image(image.subrange(e3, e4)), T4::spec_from_image(image.subrange(e4, e5)), T5::spec_from_image(image.subrange(e5, e6)), T6::spec_from_image(image.subrange(e6, e7)), T7::spec_from_image(image.subrange(e7, e8)))
    }

    open spec fn spec_valid_image(image: Seq<u8>) -> bool {
        let e0 = 0int;
        let e1 = e0 + T0::spec_image_len();
        let e2 = e1 + T1::spec_image_len();
        let e3 = e2 + T2::spec_image_len();
        let e4 = e3 + T3::spec_image_len();
        let e5 = e4 + T4::spec_image_len();
        let e6 = e5 + T5::spec_image_len();
        let e7 = e6 + T6::spec_image_len();
        let e8 = e7 + T7::spec_image_len();
        T0::spec_valid_image(image.subrange(e0, e1)) && T1::spec_valid_image(image.subrange(e1, e2)) && T2::spec_valid_image(image.subrange(e2, e3)) && T3::spec_valid_image(image.subrange(e3, e4)) && T4::spec_valid_image(image.subrange(e4, e5)) && T5::spec_valid_image(image.subrange(e5, e6)) && T6::spec_valid_image(image.subrange(e6, e7)) && T7::spec_valid_image(image.subrange(e7, e8))
    }

    fn image_len() -> (r: Option<usize>) {
        add_image_len(add_image_len(add_image_len(add_image_len(add_image_len(add_image_len(add_image_len(T0::image_len(), T1::image_len()), T2::image_len()), T3::image_len()), T4::image_len()), T5::image_len()), T6::image_len()), T7::image_len())
    }

    fn is_valid_image(image: &[u8]) -> (r: bool) {
        let _len: usize = image.len();
        let x0 = 0usize;
        let x1 = x0 + part_image_len::<T0>();
        let x2 = x1 + part_image_len::<T1>();
        let x3 = x2 + part_image_len::<T2>();
        let x4 = x3 + part_image_len::<T3>();
        let x5 = x4 + part_image_len::<T4>();
        let x6 = x5 + part_image_len::<T5>();
        let x7 = x6 + part_image_len::<T6>();
        let x8 = x7 + part_image_len::<T7>();
        T0::is_valid_image(vstd::slice::slice_subrange(image, x0, x1)) && T1::is_valid_image(vstd::slice::slice_subrange(image, x1, x2)) && T2::is_valid_image(vstd::slice::slice_subrange(image, x2, x3)) && T3::is_valid_image(vstd::slice::slice_subrange(image, x3, x4)) && T4::is_valid_image(vstd::slice::slice_subrange(image, x4, x5)) && T5::is_valid_image(vstd::slice::slice_subrange(image, x5, x6)) && T6::is_valid_image(vstd::slice::slice_subrange(image, x6, x7)) && T7::is_valid_image(vstd::slice::slice_subrange(image, x7, x8))
    }

    fn write_image(&self, out: &mut Vec<u8>) {
        self.0.write_image(out);
        self.1.write_image(out);
        self.2.write_image(out);
        self.3.write_image(out);
        self.4.write_image(out);
        self.5.write_image(out);
        self.6.write_image(out);
        self.7.write_image(out);
        assert(out@ =~= old(out)@ + self.spec_image());
    }

    fn from_image(image: &[u8]) -> (r: Self) {
        let _len: usize = image.len();
        let x0 = 0usize;
        let x1 = x0 + part_image_len::<T0>();
        let x2 = x1 + part_image_len::<T1>();
        let x3 = x2 + part_image_len::<T2>();
        let x4 = x3 + part_image_len::<T3>();
        let x5 = x4 + part_image_len::<T4>();
        let x6 = x5 + part_image_len::<T5>();
        let x7 = x6 + part_image_len::<T6>();
        let x8 = x7 + part_image_len::<T7>();
        let v0 = T0::from_image(vstd::slice::slice_subrange(image, x0, x1));
        let v1 = T1::from_image(vstd::slice::slice_subrange(image, x1, x2));
        let v2 = T2::from_image(vstd::slice::slice_subrange(image, x2, x3));
        let v3 = T3::from_image(vstd::slice::slice_subrange(image, x3, x4));
        let v4 = T4::from_image(vstd::slice::slice_subrange(image, x4, x5));
        let v5 = T5::from_image(vstd::slice::slice_subrange(image, x5, x6));
        let v6 = T6::from_image(vstd::slice::slice_subrange(image, x6, x7));
        let v7 = T7::from_image(vstd::slice::slice_subrange(image, x7, x8));
        (v0, v1, v2, v3, v4, v5, v6, v7)
    }

    proof fn lemma_image(v: Self) {
        T0::lemma_image(v.0);
        T1::lemma_image(v.1);
        T2::lemma_image(v.2);
        T3::lemma_image(v.3);
        T4::lemma_image(v.4);
        T5::lemma_image(v.5);
        T6::lemma_image(v.6);
        T7::lemma_image(v.7);
        let img = v.spec_image();
        let e0 = 0int;
        let e1 = e0 + T0::spec_image_len();
        let e2 = e1 + T1::spec_image_len();
        let e3 = e2 + T2::spec_image_len();
        let e4 = e3 + T3::spec_image_len();
        let e5 = e4 + T4::spec_image_len();
        let e6 = e5 + T5::spec_image_len();
        let e7 = e6 + T6::spec_image_len();
        let e8 = e7 + T7::spec_image_len();
        assert(img.subrange(e0, e1) =~= v.0.spec_image());
        assert(img.subrange(e1, e2) =~= v.1.spec_image());
        assert(img.subrange(e2, e3) =~= v.2.spec_image());
        assert(img.subrange(e3, e4) =~= v.3.spec_image());
        assert(img.subrange(e4, e5) =~= v.4.spec_image());
        assert(img.subrange(e5, e6) =~= v.5.spec_image());
        assert(img.subrange(e6, e7) =~= v.6.spec_image());
        assert(img.subrange(e7, e8) =~= v.7.spec_image());
        assert(Self::spec_from_image(img) == v);
    }
}

/// A tuple is serialized as a zero-copy value: padding to its alignment, then its image.
impl<T0: ZeroCopy, T1: ZeroCopy, T2: ZeroCopy, T3: ZeroCopy, T4: ZeroCopy, T5: ZeroCopy, T6: ZeroCopy, T7: ZeroCopy> SerializeInner for (T0, T1, T2, T3, T4, T5, T6, T7) {
    const IS_ZERO_COPY: bool = true;

    const ZERO_COPY_MISMATCH: bool = false;

    open spec fn spec_ser(&self, pos: nat) -> Seq<u8> {
        spec_zeros(spec_padding(pos, <(T0, T1, T2, T3, T4, T5, T6, T7) as MaxSizeOf>::spec_max_size_of())) + (self.0.spec_image() + self.1.spec_image() + self.2.spec_image() + self.3.spec_image() + self.4.spec_image() + self.5.spec_image() + self.6.spec_image() + self.7.spec_image())
    }

    open spec fn spec_rows(&self, pos: nat, path: Seq<Seq<char>>) -> Seq<RowView> {
        spec_zero_rows::<Self, Self>(pos, path, (self.0.spec_image() + self.1.spec_image() + self.2.spec_image() + self.3.spec_image() + self.4.spec_image() + self.5.spec_image() + self.6.spec_image() + self.7.spec_image()).len())
    }

    fn _serialize_inner<W: WriteWithNames>(&self, backend: &mut W) -> (r: SerResult<()>) {
        proof {
            T0::lemma_image(vstd::pervasive::arbitrary());
            T1::lemma_image(vstd::pervasive::arbitrary());
            T2::lemma_image(vstd::pervasive::arbitrary());
            T3::lemma_image(vstd::pervasive::arbitrary());
            T4::lemma_image(vstd::pervasive::arbitrary());
            T5::lemma_image(vstd::pervasive::arbitrary());
            T6::lemma_image(vstd::pervasive::arbitrary());
            T7::lemma_image(vstd::pervasive::arbitrary());
        }
        let mut buffer: Vec<u8> = Vec::new();
        self.0.write_image(&mut buffer);
        self.1.write_image(&mut buffer);
        self.2.write_image(&mut buffer);
        self.3.write_image(&mut buffer);
        self.4.write_image(&mut buffer);
        self.5.write_image(&mut buffer);
        self.6.write_image(&mut buffer);
        self.7.write_image(&mut buffer);
        assert(buffer@ =~= self.0.spec_image() + self.1.spec_image() + self.2.spec_image() + self.3.spec_image() + self.4.spec_image() + self.5.spec_image() + self.6.spec_image() + self.7.spec_image());
        let ghost pad = spec_zeros(spec_padding(old(backend).spec_written().len(), <(T0, T1, T2, T3, T4, T5, T6, T7) as MaxSizeOf>::spec_max_size_of()));
        let res = backend.align::<(T0, T1, T2, T3, T4, T5, T6, T7)>();
        let ghost mid = *backend;
        match res {
            Ok(()) => {},
            Err(e) => {
                proof { lemma_wrote_stop(*old(backend), mid, pad, buffer@, res); }
                return Err(e);
            },
        }
        let res = backend.write_bytes::<(T0, T1, T2, T3, T4, T5, T6, T7)>(buffer.as_slice());
        proof {
            lemma_wrote_seq(*old(backend), mid, *backend, pad, buffer@, res);
            if res is Ok && W::spec_records() {
                lemma_zero_rows::<W, Self, Self>(*old(backend), mid, *backend, buffer@.len());
            }
        }
        res
    }
}

/// A tuple is read as a zero-copy value; its ε-copy is a copy.
impl<T0: ZeroCopy, T1: ZeroCopy, T2: ZeroCopy, T3: ZeroCopy, T4: ZeroCopy, T5: ZeroCopy, T6: ZeroCopy, T7: ZeroCopy> DeserializeInner for (T0, T1, T2, T3, T4, T5, T6, T7) {
    type DeserType<'a> = Self;

    open spec fn spec_aligns() -> bool {
        Self::spec_max_size_of() > 1
    }

    fn _check(data: &[u8], pos: usize) -> (r: Option<Option<usize>>) {
        check_zero::<Self>(data, pos)
    }

    open spec fn spec_deser_len(data: Seq<u8>, pos: nat) -> Option<core::result::Result<nat, DeError>> {
        spec_zero_len::<(T0, T1, T2, T3, T4, T5, T6, T7)>(data, pos)
    }

    open spec fn spec_decodes(v: Self, data: Seq<u8>, pos: nat) -> bool {
        spec_zero_decodes::<(T0, T1, T2, T3, T4, T5, T6, T7)>(v, data, pos)
    }

    open spec fn spec_eps_decodes<'a>(d: Self::DeserType<'a>, data: Seq<u8>, pos: nat) -> bool {
        spec_zero_decodes::<(T0, T1, T2, T3, T4, T5, T6, T7)>(d, data, pos)
    }

    fn _deserialize_full_inner<R: ReadWithPos>(backend: &mut R) -> (r: DeResult<Self>) {
        deserialize_full_zero::<(T0, T1, T2, T3, T4, T5, T6, T7), R>(backend)
    }

    fn _deserialize_eps_inner<'a>(backend: &mut SliceWithPos<'a>) -> (r: DeResult<Self::DeserType<'a>>) {
        deserialize_eps_zero::<(T0, T1, T2, T3, T4, T5, T6, T7)>(backend)
    }

    open spec fn spec_same(a: Self, b: Self) -> bool {
        a == b
    }

    open spec fn spec_eps_same<'a>(d: Self::DeserType<'a>, v: Self) -> bool {
        d == v
    }

    proof fn lemma_read_back(v: Self, w: Self, pos: nat, rest: Seq<u8>) {
        assert(v.spec_ser(pos) == spec_ser_zero(v, pos));
        lemma_zero_read_back(v, pos, rest);
    }

    proof fn lemma_eps_read_back<'a>(v: Self, d: Self::DeserType<'a>, pos: nat, rest: Seq<u8>) {
        assert(v.spec_ser(pos) == spec_ser_zero(v, pos));
        lemma_zero_read_back(v, pos, rest);
    }

    proof fn lemma_deser_len_fits(data: Seq<u8>, pos: nat) {
    }

    proof fn lemma_deser_ser(v: Self, pos: nat, rest: Seq<u8>) {
        assert(v.spec_ser(pos) == spec_ser_zero(v, pos));
        lemma_zero_read_back(v, pos, rest);
    }
}

impl<T0: ZeroCopy, T1: ZeroCopy, T2: ZeroCopy, T3: ZeroCopy, T4: ZeroCopy, T5: ZeroCopy, T6: ZeroCopy, T7: ZeroCopy, T8: ZeroCopy> CopyType for (T0, T1, T2, T3, T4, T5, T6, T7, T8) {
    type Copy = Zero;
}

impl<T0: TypeName, T1: TypeName, T2: TypeName, T3: TypeName, T4: TypeName, T5: TypeName, T6: TypeName, T7: TypeName, T8: TypeName> TypeName for (T0, T1, T2, T3, T4, T5, T6, T7, T8) {
    open spec fn spec_type_name() -> Seq<char> {
        "("@ + T0::spec_type_name() + ", "@ + T1::spec_type_name() + ", "@ + T2::spec_type_name() + ", "@ + T3::spec_type_name() + ", "@ + T4::spec_type_name() + ", "@ + T5::spec_type_name() + ", "@ + T6::spec_type_name() + ", "@ + T7::spec_type_name() + ", "@ + T8::spec_type_name() + ")"@
    }

    fn type_name_str() -> (r: String) {
        let mut name = String::from_str("(");
        let part0 = T0::type_name_str();
        name.append(part0.as_str());
        name.append(", ");
        let part1 = T1::type_name_str();
        name.append(part1.as_str());
        name.append(", ");
        let part2 = T2::type_name_str();
        name.append(part2.as_str());
        name.append(", ");
        let part3 = T3::type_name_str();
        name.append(part3.as_str());
        name.append(", ");
        let part4 = T4::type_name_str();
        name.append(part4.as_str());
        name.append(", ");
        let part5 = T5::type_name_str();
        name.append(part5.as_str());
        name.append(", ");
        let part6 = T6::type_name_str();
        name.append(part6.as_str());
        name.append(", ");
        let part7 = T7::type_name_str();
        name.append(part7.as_str());
        name.append(", ");
        let part8 = T8::type_name_str();
        name.append(part8.as_str());
        name.append(")");
        name
    }
}

impl<T0: TypeHash, T1: TypeHash, T2: TypeHash, T3: TypeHash, T4: TypeHash, T5: TypeHash, T6: TypeHash, T7: TypeHash, T8: TypeHash> TypeHash for (T0, T1, T2, T3, T4, T5, T6, T7, T8) {
    open spec fn spec_type_hash_input() -> Seq<u8> {
        spec_str_hash_input("()") + T0::spec_type_hash_input() + T1::spec_type_hash_input() + T2::spec_type_hash_input() + T3::spec_type_hash_input() + T4::spec_type_hash_input() + T5::spec_type_hash_input() + T6::spec_type_hash_input() + T7::spec_type_hash_input() + T8::spec_type_hash_input()
    }

    #[verifier::rlimit(50)]
    fn type_hash(hasher: &mut TypeHasher) {
        hasher.write_str("()");
        T0::type_hash(hasher);
        T1::type_hash(hasher);
        T2::type_hash(hasher);
        T3::type_hash(hasher);
        T4::type_hash(hasher);
        T5::type_hash(hasher);
        T6::type_hash(hasher);
        T7::type_hash(hasher);
        T8::type_hash(hasher);
        assert(hasher@ =~= old(hasher)@ + Self::spec_type_hash_input());
    }
}

/// The representation of a tuple is that of its elements, each placed after the
/// previous one at the offset given by the sizes of the elements before it.
impl<T0: ReprHash, T1: ReprHash, T2: ReprHash, T3: ReprHash, T4: ReprHash, T5: ReprHash, T6: ReprHash, T7: ReprHash, T8: ReprHash> ReprHash for (T0, T1, T2, T3, T4, T5, T6, T7, T8) {
    open spec fn spec_repr_hash(offset_of: nat) -> (Seq<u8>, nat) {
        let o0 = offset_of;
        let r0 = T0::spec_repr_hash(o0);
        let o1 = o0 + size_of::<T0>();
        let r1 = T1::spec_repr_hash(o1);
        let o2 = o1 + size_of::<T1>();
        let r2 = T2::spec_repr_hash(o2);
        let o3 = o2 + size_of::<T2>();
        let r3 = T3::spec_repr_hash(o3);
        let o4 = o3 + size_of::<T3>();
        let r4 = T4::spec_repr_hash(o4);
        let o5 = o4 + size_of::<T4>();
        let r5 = T5::spec_repr_hash(o5);
        let o6 = o5 + size_of::<T5>();
        let r6 = T6::spec_repr_hash(o6);
        let o7 = o6 + size_of::<T6>();
        let r7 = T7::spec_repr_hash(o7);
        let o8 = o7 + size_of::<T7>();
        let r8 = T8::spec_repr_hash(o8);
        let o9 = o8 + size_of::<T8>();
        if r0.1 <= usize::MAX && o1 <= usize::MAX && r1.1 <= usize::MAX && o2 <= usize::MAX && r2.1 <= usize::MAX && o3 <= usize::MAX && r3.1 <= usize::MAX && o4 <= usize::MAX && r4.1 <= usize::MAX && o5 <= usize::MAX && r5.1 <= usize::MAX && o6 <= usize::MAX && r6.1 <= usize::MAX && o7 <= usize::MAX && r7.1 <= usize::MAX && o8 <= usize::MAX && r8.1 <= usize::MAX && o9 <= usize::MAX {
            (r0.0 + r1.0 + r2.0 + r3.0 + r4.0 + r5.0 + r6.0 + r7.0 + r8.0, o9)
        } else {
            (r0.0 + r1.0 + r2.0 + r3.0 + r4.0 + r5.0 + r6.0 + r7.0 + r8.0, usize::MAX as nat + 1)
        }
    }

    #[verifier::rlimit(50)]
    fn repr_hash(hasher: &mut TypeHasher, offset_of: &mut usize) {
        let ghost start = *offset_of;
        let ghost h = hasher@;
        let ghost o0 = start as nat;
        let ghost o1 = o0 + size_of::<T0>();
        let ghost o2 = o1 + size_of::<T1>();
        let ghost o3 = o2 + size_of::<T2>();
        let ghost o4 = o3 + size_of::<T3>();
        let ghost o5 = o4 + size_of::<T4>();
        let ghost o6 = o5 + size_of::<T5>();
        let ghost o7 = o6 + size_of::<T6>();
        let ghost o8 = o7 + size_of::<T7>();
        let curr = *offset_of;
        T0::repr_hash(hasher, offset_of);
        *offset_of = curr + core::mem::size_of::<T0>();
        assert(hasher@ =~= h + (T0::spec_repr_hash(o0).0));
        let curr = *offset_of;
        T1::repr_hash(hasher, offset_of);
        *offset_of = curr + core::mem::size_of::<T1>();
        assert(hasher@ =~= h + (T0::spec_repr_hash(o0).0 + T1::spec_repr_hash(o1).0));
        let curr = *offset_of;
        T2::repr_hash(hasher, offset_of);
        *offset_of = curr + core::mem::size_of::<T2>();
        assert(hasher@ =~= h + (T0::spec_repr_hash(o0).0 + T1::spec_repr_hash(o1).0 + T2::spec_repr_hash(o2).0));
        let curr = *offset_of;
        T3::repr_hash(hasher, offset_of);
        *offset_of = curr + core::mem::size_of::<T3>();
        assert(hasher@ =~= h + (T0::spec_repr_hash(o0).0 + T1::spec_repr_hash(o1).0 + T2::spec_repr_hash(o2).0 + T3::spec_repr_hash(o3).0));
        let curr = *offset_of;
        T4::repr_hash(hasher, offset_of);
        *offset_of = curr + core::mem::size_of::<T4>();
        assert(hasher@ =~= h + (T0::spec_repr_hash(o0).0 + T1::spec_repr_hash(o1).0 + T2::spec_repr_hash(o2).0 + T3::spec_repr_hash(o3).0 + T4::spec_repr_hash(o4).0));
        let curr = *offset_of;
        T5::repr_hash(hasher, offset_of);
        *offset_of = curr + core::mem::size_of::<T5>();
        assert(hasher@ =~= h + (T0::spec_repr_hash(o0).0 + T1::spec_repr_hash(o1).0 + T2::spec_repr_hash(o2).0 + T3::spec_repr_hash(o3).0 + T4::spec_repr_hash(o4).0 + T5::spec_repr_hash(o5).0));
        let curr = *offset_of;
        T6::repr_hash(hasher, offset_of);
        *offset_of = curr + core::mem::size_of::<T6>();
        assert(hasher@ =~= h + (T0::spec_repr_hash(o0).0 + T1::spec_repr_hash(o1).0 + T2::spec_repr_hash(o2).0 + T3::spec_repr_hash(o3).0 + T4::spec_repr_hash(o4).0 + T5::spec_repr_hash(o5).0 + T6::spec_repr_hash(o6).0));
        let curr = *offset_of;
        T7::repr_hash(hasher, offset_of);
        *offset_of = curr + core::mem::size_of::<T7>();
        assert(hasher@ =~= h + (T0::spec_repr_hash(o0).0 + T1::spec_repr_hash(o1).0 + T2::spec_repr_hash(o2).0 + T3::spec_repr_hash(o3).0 + T4::spec_repr_hash(o4).0 + T5::spec_repr_hash(o5).0 + T6::spec_repr_hash(o6).0 + T7::spec_repr_hash(o7).0));
        let curr = *offset_of;
        T8::repr_hash(hasher, offset_of);
        *offset_of = curr + core::mem::size_of::<T8>();
        assert(hasher@ =~= h + (T0::spec_repr_hash(o0).0 + T1::spec_repr_hash(o1).0 + T2::spec_repr_hash(o2).0 + T3::spec_repr_hash(o3).0 + T4::spec_repr_hash(o4).0 + T5::spec_repr_hash(o5).0 + T6::spec_repr_hash(o6).0 + T7::spec_repr_hash(o7).0 + T8::spec_repr_hash(o8).0));
        assert(hasher@ =~= h + Self::spec_repr_hash(start as nat).0);
    }
}

/// The maximum size of a primitive field of a tuple is that of its elements.
impl<T0: MaxSizeOf, T1: MaxSizeOf, T2: MaxSizeOf, T3: MaxSizeOf, T4: MaxSizeOf, T5: MaxSizeOf, T6: MaxSizeOf, T7: MaxSizeOf, T8: MaxSizeOf> MaxSizeOf for (T0, T1, T2, T3, T4, T5, T6, T7, T8) {
    open spec fn spec_max_size_of() -> usize {
        let m0 = if 0usize < T0::spec_max_size_of() { T0::spec_max_size_of() } else { 0usize };
        let m1 = if m0 < T1::spec_max_size_of() { T1::spec_max_size_of() } else { m0 };
        let m2 = if m1 < T2::spec_max_size_of() { T2::spec_max_size_of() } else { m1 };
        let m3 = if m2 < T3::spec_max_size_of() { T3::spec_max_size_of() } else { m2 };
        let m4 = if m3 < T4::spec_max_size_of() { T4::spec_max_size_of() } else { m3 };
        let m5 = if m4 < T5::spec_max_size_of() { T5::spec_max_size_of() } else { m4 };
        let m6 = if m5 < T6::spec_max_size_of() { T6::spec_max_size_of() } else { m5 };
        let m7 = if m6 < T7::spec_max_size_of() { T7::spec_max_size_of() } else { m6 };
        let m8 = if m7 < T8::spec_max_size_of() { T8::spec_max_size_of() } else { m7 };
        m8
    }

    fn max_size_of() -> (r: usize) {
        let mut max_size_of: usize = 0;
        let m = T0::max_size_of();
        if max_size_of < m {
            max_size_of = m;
        }
        let m = T1::max_size_of();
        if max_size_of < m {
            max_size_of = m;
        }
        let m = T2::max_size_of();
        if max_size_of < m {
            max_size_of = m;
        }
        let m = T3::max_size_of();
        if max_size_of < m {
            max_size_of = m;
        }
        let m = T4::max_size_of();
        if max_size_of < m {
            max_size_of = m;
        }
        let m = T5::max_size_of();
        if max_size_of < m {
            max_size_of = m;
        }
        let m = T6::max_size_of();
        if max_size_of < m {
            max_size_of = m;
        }
        let m = T7::max_size_of();
        if max_size_of < m {
            max_size_of = m;
        }
        let m = T8::max_size_of();
        if max_size_of < m {
            max_size_of = m;
        }
        max_size_of
    }
}

/// The image of a tuple is the concatenation of the images of its elements.
impl<T0: ZeroCopy, T1: ZeroCopy, T2: ZeroCopy, T3: ZeroCopy, T4: ZeroCopy, T5: ZeroCopy, T6: ZeroCopy, T7: ZeroCopy, T8: ZeroCopy> ZeroCopy for (T0, T1, T2, T3, T4, T5, T6, T7, T8) {
    open spec fn spec_image(&self) -> Seq<u8> {
        self.0.spec_image() + self.1.spec_image() + self.2.spec_image() + self.3.spec_image() + self.4.spec_image() + self.5.spec_image() + self.6.spec_image() + self.7.spec_image() + self.8.spec_image()
    }

    open spec fn spec_image_len() -> nat {
        T0::spec_image_len() + T1::spec_image_len() + T2::spec_image_len() + T3::spec_image_len() + T4::spec_image_len() + T5::spec_image_len() + T6::spec_image_len() + T7::spec_image_len() + T8::spec_image_len()
    }

    open spec fn spec_from_image(image: Seq<u8>) -> Self {
        let e0 = 0int;
        let e1 = e0 + T0::spec_image_len();
        let e2 = e1 + T1::spec_image_len();
        let e3 = e2 + T2::spec_image_len();
        let e4 = e3 + T3::spec_image_len();
        let e5 = e4 + T4::spec_image_len();
        let e6 = e5 + T5::spec_image_len();
        let e7 = e6 + T6::spec_image_len();
        let e8 = e7 + T7::spec_image_len();
        let e9 = e8 + T8::spec_image_len();
        (T0::spec_from_image(image.subrange(e0, e1)), T1::spec_from_image(image.subrange(e1, e2)), T2::spec_from_image(image.subrange(e2, e3)), T3::spec_from_image(image.subrange(e3, e4)), T4::spec_from_image(image.subrange(e4, e5)), T5::spec_from_image(image.subrange(e5, e6)), T6::spec_from_image(image.subrange(e6, e7)), T7::spec_from_image(image.subrange(e7, e8)), T8::spec_from_image(image.subrange(e8, e9)))
    }

    open spec fn spec_valid_image(image: Seq<u8>) -> bool {
        let e0 = 0int;
        let e1 = e0 + T0::spec_image_len();
        let e2 = e1 + T1::spec_image_len();
        let e3 = e2 + T2::spec_image_len();
        let e4 = e3 + T3::spec_image_len();
        let e5 = e4 + T4::spec_image_len();
        let e6 = e5 + T5::spec_image_len();
        let e7 = e6 + T6::spec_image_len();
        let e8 = e7 + T7::spec_image_len();
        let e9 = e8 + T8::spec_image_len();
        T0::spec_valid_image(image.subrange(e0, e1)) && T1::spec_valid_image(image.subrange(e1, e2)) && T2::spec_valid_image(image.subrange(e2, e3)) && T3::spec_valid_image(image.subrange(e3, e4)) && T4::spec_valid_image(image.subrange(e4, e5)) && T5::spec_valid_image(image.subrange(e5, e6)) && T6::spec_valid_image(image.subrange(e6, e7)) && T7::spec_valid_image(image.subrange(e7, e8)) && T8::spec_valid_image(image.subrange(e8, e9))
    }

    fn image_len() -> (r: Option<usize>) {
        add_image_len(add_image_len(add_image_len(add_image_len(add_image_len(add_image_len(add_image_len(add_image_len(T0::image_len(), T1::image_len()), T2::image_len()), T3::image_len()), T4::image_len()), T5::image_len()), T6::image_len()), T7::image_len()), T8::image_len())
    }

    fn is_valid_image(image: &[u8]) -> (r: bool) {
        let _len: usize = image.len();
        let x0 = 0usize;
        let x1 = x0 + part_image_len::<T0>();
        let x2 = x1 + part_image_len::<T1>();
        let x3 = x2 + part_image_len::<T2>();
        let x4 = x3 + part_image_len::<T3>();
        let x5 = x4 + part_image_len::<T4>();
        let x6 = x5 + part_image_len::<T5>();
        let x7 = x6 + part_image_len::<T6>();
        let x8 = x7 + part_image_len::<T7>();
        let x9 = x8 + part_image_len::<T8>();
        T0::is_valid_image(vstd::slice::slice_subrange(image, x0, x1)) && T1::is_valid_image(vstd::slice::slice_subrange(image, x1, x2)) && T2::is_valid_image(vstd::slice::slice_subrange(image, x2, x3)) && T3::is_valid_image(vstd::slice::slice_subrange(image, x3, x4)) && T4::is_valid_image(vstd::slice::slice_subrange(image, x4, x5)) && T5::is_valid_image(vstd::slice::slice_subrange(image, x5, x6)) && T6::is_valid_image(vstd::slice::slice_subrange(image, x6, x7)) && T7::is_valid_image(vstd::slice::slice_subrange(image, x7, x8)) && T8::is_valid_image(vstd::slice::slice_subrange(image, x8, x9))
    }

    fn write_image(&self, out: &mut Vec<u8>) {
        self.0.write_image(out);
        self.1.write_image(out);
        self.2.write_image(out);
        self.3.write_image(out);
        self.4.write_image(out);
        self.5.write_image(out);
        self.6.write_image(out);
        self.7.write_image(out);
        self.8.write_image(out);
        assert(out@ =~= old(out)@ + self.spec_image());
    }

    fn from_image(image: &[u8]) -> (r: Self) {
        let _len: usize = image.len();
        let x0 = 0usize;
        let x1 = x0 + part_image_len::<T0>();
        let x2 = x1 + part_image_len::<T1>();
        let x3 = x2 + part_image_len::<T2>();
        let x4 = x3 + part_image_len::<T3>();
        let x5 = x4 + part_image_len::<T4>();
        let x6 = x5 + part_image_len::<T5>();
        let x7 = x6 + part_image_len::<T6>();
        let x8 = x7 + part_image_len::<T7>();
        let x9 = x8 + part_image_len::<T8>();
        let v0 = T0::from_image(vstd::slice::slice_subrange(image, x0, x1));
        let v1 = T1::from_image(vstd::slice::slice_subrange(image, x1, x2));
        let v2 = T2::from_image(vstd::slice::slice_subrange(image, x2, x3));
        let v3 = T3::from_image(vstd::slice::slice_subrange(image, x3, x4));
        let v4 = T4::from_image(vstd::slice::slice_subrange(image, x4, x5));
        let v5 = T5::from_image(vstd::slice::slice_subrange(image, x5, x6));
        let v6 = T6::from_image(vstd::slice::slice_subrange(image, x6, x7));
        let v7 = T7::from_image(vstd::slice::slice_subrange(image, x7, x8));
        let v8 = T8::from_image(vstd::slice::slice_subrange(image, x8, x9));
        (v0, v1, v2, v3, v4, v5, v6, v7, v8)
    }

    proof fn lemma_image(v: Self) {
        T0::lemma_image(v.0);
        T1::lemma_image(v.1);
        T2::lemma_image(v.2);
        T3::lemma_image(v.3);
        T4::lemma_image(v.4);
        T5::lemma_image(v.5);
        T6::lemma_image(v.6);
        T7::lemma_image(v.7);
        T8::lemma_image(v.8);
        let img = v.spec_image();
        let e0 = 0int;
        let e1 = e0 + T0::spec_image_len();
        let e2 = e1 + T1::spec_image_len();
        let e3 = e2 + T2::spec_image_len();
        let e4 = e3 + T3::spec_image_len();
        let e5 = e4 + T4::spec_image_len();
        let e6 = e5 + T5::spec_image_len();
        let e7 = e6 + T6::spec_image_len();
        let e8 = e7 + T7::spec_image_len();
        let e9 = e8 + T8::spec_image_len();
        assert(img.subrange(e0, e1) =~= v.0.spec_image());
        assert(img.subrange(e1, e2) =~= v.1.spec_image());
        assert(img.subrange(e2, e3) =~= v.2.spec_image());
        assert(img.subrange(e3, e4) =~= v.3.spec_image());
        assert(img.subrange(e4, e5) =~= v.4.spec_image());
        assert(img.subrange(e5, e6) =~= v.5.spec_image());
        assert(img.subrange(e6, e7) =~= v.6.spec_image());
        assert(img.subrange(e7, e8) =~= v.7.spec_image());
        assert(img.subrange(e8, e9) =~= v.8.spec_image());
        assert(Self::spec_from_image(img) == v);
    }
}

/// A tuple is serialized as a zero-copy value: padding to its alignment, then its image.
impl<T0: ZeroCopy, T1: ZeroCopy, T2: ZeroCopy, T3: ZeroCopy, T4: ZeroCopy, T5: ZeroCopy, T6: ZeroCopy, T7: ZeroCopy, T8: ZeroCopy> SerializeInner for (T0, T1, T2, T3, T4, T5, T6, T7, T8) {
    const IS_ZERO_COPY: bool = true;

    const ZERO_COPY_MISMATCH: bool = false;

    open spec fn spec_ser(&self, pos: nat) -> Seq<u8> {
        spec_zeros(spec_padding(pos, <(T0, T1, T2, T3, T4, T5, T6, T7, T8) as MaxSizeOf>::spec_max_size_of())) + (self.0.spec_image() + self.1.spec_image() + self.2.spec_image() + self.3.spec_image() + self.4.spec_image() + self.5.spec_image() + self.6.spec_image() + self.7.spec_image() + self.8.spec_image())
    }

    open spec fn spec_rows(&self, pos: nat, path: Seq<Seq<char>>) -> Seq<RowView> {
        spec_zero_rows::<Self, Self>(pos, path, (self.0.spec_image() + self.1.spec_image() + self.2.spec_image() + self.3.spec_image() + self.4.spec_image() + self.5.spec_image() + self.6.spec_image() + self.7.spec_image() + self.8.spec_image()).len())
    }

    fn _serialize_inner<W: WriteWithNames>(&self, backend: &mut W) -> (r: SerResult<()>) {
        proof {
            T0::lemma_image(vstd::pervasive::arbitrary());
            T1::lemma_image(vstd::pervasive::arbitrary());
            T2::lemma_image(vstd::pervasive::arbitrary());
            T3::lemma_image(vstd::pervasive::arbitrary());
            T4::lemma_image(vstd::pervasive::arbitrary());
            T5::lemma_image(vstd::pervasive::arbitrary());
            T6::lemma_image(vstd::pervasive::arbitrary());
            T7::lemma_image(vstd::pervasive::arbitrary());
            T8::lemma_image(vstd::pervasive::arbitrary());
        }
        let mut buffer: Vec<u8> = Vec::new();
        self.0.write_image(&mut buffer);
        self.1.write_image(&mut buffer);
        self.2.write_image(&mut buffer);
        self.3.write_image(&mut buffer);
        self.4.write_image(&mut buffer);
        self.5.write_image(&mut buffer);
        self.6.write_image(&mut buffer);
        self.7.write_image(&mut buffer);
        self.8.write_image(&mut buffer);
        assert(buffer@ =~= self.0.spec_image() + self.1.spec_image() + self.2.spec_image() + self.3.spec_image() + self.4.spec_image() + self.5.spec_image() + self.6.spec_image() + self.7.spec_image() + self.8.spec_image());
        let ghost pad = spec_zeros(spec_padding(old(backend).spec_written().len(), <(T0, T1, T2, T3, T4, T5, T6, T7, T8) as MaxSizeOf>::spec_max_size_of()));
        let res = backend.align::<(T0, T1, T2, T3, T4, T5, T6, T7, T8)>();
        let ghost mid = *backend;
        match res {
            Ok(()) => {},
            Err(e) => {
                proof { lemma_wrote_stop(*old(backend), mid, pad, buffer@, res); }
                return Err(e);
            },
        }
        let res = backend.write_bytes::<(T0, T1, T2, T3, T4, T5, T6, T7, T8)>(buffer.as_slice());
        proof {
            lemma_wrote_seq(*old(backend), mid, *backend, pad, buffer@, res);
            if res is Ok && W::spec_records() {
                lemma_zero_rows::<W, Self, Self>(*old(backend), mid, *backend, buffer@.len());
            }
        }
        res
    }
}

/// A tuple is read as a zero-copy value; its ε-copy is a copy.
impl<T0: ZeroCopy, T1: ZeroCopy, T2: ZeroCopy, T3: ZeroCopy, T4: ZeroCopy, T5: ZeroCopy, T6: ZeroCopy, T7: ZeroCopy, T8: ZeroCopy> DeserializeInner for (T0, T1, T2, T3, T4, T5, T6, T7, T8) {
    type DeserType<'a> = Self;

    open spec fn spec_aligns() -> bool {
        Self::spec_max_size_of() > 1
    }

    fn _check(data: &[u8], pos: usize) -> (r: Option<Option<usize>>) {
        check_zero::<Self>(data, pos)
    }

    open spec fn spec_deser_len(data: Seq<u8>, pos: nat) -> Option<core::result::Result<nat, DeError>> {
        spec_zero_len::<(T0, T1, T2, T3, T4, T5, T6, T7, T8)>(data, pos)
    }

    open spec fn spec_decodes(v: Self, data: Seq<u8>, pos: nat) -> bool {
        spec_zero_decodes::<(T0, T1, T2, T3, T4, T5, T6, T7, T8)>(v, data, pos)
    }

    open spec fn spec_eps_decodes<'a>(d: Self::DeserType<'a>, data: Seq<u8>, pos: nat) -> bool {
        spec_zero_decodes::<(T0, T1, T2, T3, T4, T5, T6, T7, T8)>(d, data, pos)
    }

    fn _deserialize_full_inner<R: ReadWithPos>(backend: &mut R) -> (r: DeResult<Self>) {
        deserialize_full_zero::<(T0, T1, T2, T3, T4, T5, T6, T7, T8), R>(backend)
    }

    fn _deserialize_eps_inner<'a>(backend: &mut SliceWithPos<'a>) -> (r: DeResult<Self::DeserType<'a>>) {
        deserialize_eps_zero::<(T0, T1, T2, T3, T4, T5, T6, T7, T8)>(backend)
    }

    open spec fn spec_same(a: Self, b: Self) -> bool {
        a == b
    }

    open spec fn spec_eps_same<'a>(d: Self::DeserType<'a>, v: Self) -> bool {
        d == v
    }

    proof fn lemma_read_back(v: Self, w: Self, pos: nat, rest: Seq<u8>) {
        assert(v.spec_ser(pos) == spec_ser_zero(v, pos));
        lemma_zero_read_back(v, pos, rest);
    }

    proof fn lemma_eps_read_back<'a>(v: Self, d: Self::DeserType<'a>, pos: nat, rest: Seq<u8>) {
        assert(v.spec_ser(pos) == spec_ser_zero(v, pos));
        lemma_zero_read_back(v, pos, rest);
    }

    proof fn lemma_deser_len_fits(data: Seq<u8>, pos: nat) {
    }

    proof fn lemma_deser_ser(v: Self, pos: nat, rest: Seq<u8>) {
        assert(v.spec_ser(pos) == spec_ser_zero(v, pos));
        lemma_zero_read_back(v, pos, rest);
    }
}

impl<T0: ZeroCopy, T1: ZeroCopy, T2: ZeroCopy, T3: ZeroCopy, T4: ZeroCopy, T5: ZeroCopy, T6: ZeroCopy, T7: ZeroCopy, T8: ZeroCopy, T9: ZeroCopy> CopyType for (T0, T1, T2, T3, T4, T5, T6, T7, T8, T9) {
    type Copy = Zero;
}

impl<T0: TypeName, T1: TypeName, T2: TypeName, T3: TypeName, T4: TypeName, T5: TypeName, T6: TypeName, T7: TypeName, T8: TypeName, T9: TypeName> TypeName for (T0, T1, T2, T3, T4, T5, T6, T7, T8, T9) {
    open spec fn spec_type_name() -> Seq<char> {
        "("@ + T0::spec_type_name() + ", "@ + T1::spec_type_name() + ", "@ + T2::spec_type_name() + ", "@ + T3::spec_type_name() + ", "@ + T4::spec_type_name() + ", "@ + T5::spec_type_name() + ", "@ + T6::spec_type_name() + ", "@ + T7::spec_type_name() + ", "@ + T8::spec_type_name() + ", "@ + T9::spec_type_name() + ")"@
    }

    fn type_name_str() -> (r: String) {
        let mut name = String::from_str("(");
        let part0 = T0::type_name_str();
        name.append(part0.as_str());
        name.append(", ");
        let part1 = T1::type_name_str();
        name.append(part1.as_str());
        name.append(", ");
        let part2 = T2::type_name_str();
        name.append(part2.as_str());
        name.append(", ");
        let part3 = T3::type_name_str();
        name.append(part3.as_str());
        name.append(", ");
        let part4 = T4::type_name_str();
        name.append(part4.as_str());
        name.append(", ");
        let part5 = T5::type_name_str();
        name.append(part5.as_str());
        name.append(", ");
        let part6 = T6::type_name_str();
        name.append(part6.as_str());
        name.append(", ");
        let part7 = T7::type_name_str();
        name.append(part7.as_str());
        name.append(", ");
        let part8 = T8::type_name_str();
        name.append(part8.as_str());
        name.append(", ");
        let part9 = T9::type_name_str();
        name.append(part9.as_str());
        name.append(")");
        name
    }
}

impl<T0: TypeHash, T1: TypeHash, T2: TypeHash, T3: TypeHash, T4: TypeHash, T5: TypeHash, T6: TypeHash, T7: TypeHash, T8: TypeHash, T9: TypeHash> TypeHash for (T0, T1, T2, T3, T4, T5, T6, T7, T8, T9) {
    open spec fn spec_type_hash_input() -> Seq<u8> {
        spec_str_hash_input("()") + T0::spec_type_hash_input() + T1::spec_type_hash_input() + T2::spec_type_hash_input() + T3::spec_type_hash_input() + T4::spec_type_hash_input() + T5::spec_type_hash_input() + T6::spec_type_hash_input() + T7::spec_type_hash_input() + T8::spec_type_hash_input() + T9::spec_type_hash_input()
    }

    #[verifier::rlimit(50)]
    fn type_hash(hasher: &mut TypeHasher) {
        hasher.write_str("()");
        T0::type_hash(hasher);
        T1::type_hash(hasher);
        T2::type_hash(hasher);
        T3::type_hash(hasher);
        T4::type_hash(hasher);
        T5::type_hash(hasher);
        T6::type_hash(hasher);
        T7::type_hash(hasher);
        T8::type_hash(hasher);
        T9::type_hash(hasher);
        assert(hasher@ =~= old(hasher)@ + Self::spec_type_hash_input());
    }
}

/// The representation of a tuple is that of its elements, each placed after the
/// previous one at the offset given by the sizes of the elements before it.
impl<T0: ReprHash, T1: ReprHash, T2: ReprHash, T3: ReprHash, T4: ReprHash, T5: ReprHash, T6: ReprHash, T7: ReprHash, T8: ReprHash, T9: ReprHash> ReprHash for (T0, T1, T2, T3, T4, T5, T6, T7, T8, T9) {
    open spec fn spec_repr_hash(offset_of: nat) -> (Seq<u8>, nat) {
        let o0 = offset_of;
        let r0 = T0::spec_repr_hash(o0);
        let o1 = o0 + size_of::<T0>();
        let r1 = T1::spec_repr_hash(o1);
        let o2 = o1 + size_of::<T1>();
        let r2 = T2::spec_repr_hash(o2);
        let o3 = o2 + size_of::<T2>();
        let r3 = T3::spec_repr_hash(o3);
        let o4 = o3 + size_of::<T3>();
        let r4 = T4::spec_repr_hash(o4);
        let o5 = o4 + size_of::<T4>();
        let r5 = T5::spec_repr_hash(o5);
        let o6 = o5 + size_of::<T5>();
        let r6 = T6::spec_repr_hash(o6);
        let o7 = o6 + size_of::<T6>();
        let r7 = T7::spec_repr_hash(o7);
        let o8 = o7 + size_of::<T7>();
        let r8 = T8::spec_repr_hash(o8);
        let o9 = o8 + size_of::<T8>();
        let r9 = T9::spec_repr_hash(o9);
        let o10 = o9 + size_of::<T9>();
        if r0.1 <= usize::MAX && o1 <= usize::MAX && r1.1 <= usize::MAX && o2 <= usize::MAX && r2.1 <= usize::MAX && o3 <= usize::MAX && r3.1 <= usize::MAX && o4 <= usize::MAX && r4.1 <= usize::MAX && o5 <= usize::MAX && r5.1 <= usize::MAX && o6 <= usize::MAX && r6.1 <= usize::MAX && o7 <= usize::MAX && r7.1 <= usize::MAX && o8 <= usize::MAX && r8.1 <= usize::MAX && o9 <= usize::MAX && r9.1 <= usize::MAX && o10 <= usize::MAX {
            (r0.0 + r1.0 + r2.0 + r3.0 + r4.0 + r5.0 + r6.0 + r7.0 + r8.0 + r9.0, o10)
        } else {
            (r0.0 + r1.0 + r2.0 + r3.0 + r4.0 + r5.0 + r6.0 + r7.0 + r8.0 + r9.0, usize::MAX as nat + 1)
        }
    }

    #[verifier::rlimit(50)]
    fn repr_hash(hasher: &mut TypeHasher, offset_of: &mut usize) {
        let ghost start = *offset_of;
        let ghost h = hasher@;
        let ghost o0 = start as nat;
        let ghost o1 = o0 + size_of::<T0>();
        let ghost o2 = o1 + size_of::<T1>();
        let ghost o3 = o2 + size_of::<T2>();
        let ghost o4 = o3 + size_of::<T3>();
        let ghost o5 = o4 + size_of::<T4>();
        let ghost o6 = o5 + size_of::<T5>();
        let ghost o7 = o6 + size_of::<T6>();
        let ghost o8 = o7 + size_of::<T7>();
        let ghost o9 = o8 + size_of::<T8>();
        let curr = *offset_of;
        T0::repr_hash(hasher, offset_of);
        *offset_of = curr + core::mem::size_of::<T0>();
        assert(hasher@ =~= h + (T0::spec_repr_hash(o0).0));
        let curr = *offset_of;
        T1::repr_hash(hasher, offset_of);
        *offset_of = curr + core::mem::size_of::<T1>();
        assert(hasher@ =~= h + (T0::spec_repr_hash(o0).0 + T1::spec_repr_hash(o1).0));
        let curr = *offset_of;
        T2::repr_hash(hasher, offset_of);
        *offset_of = curr + core::mem::size_of::<T2>();
        assert(hasher@ =~= h + (T0::spec_repr_hash(o0).0 + T1::spec_repr_hash(o1).0 + T2::spec_repr_hash(o2).0));
        let curr = *offset_of;
        T3::repr_hash(hasher, offset_of);
        *offset_of = curr + core::mem::size_of::<T3>();
        assert(hasher@ =~= h + (T0::spec_repr_hash(o0).0 + T1::spec_repr_hash(o1).0 + T2::spec_repr_hash(o2).0 + T3::spec_repr_hash(o3).0));
        let curr = *offset_of;
        T4::repr_hash(hasher, offset_of);
        *offset_of = curr + core::mem::size_of::<T4>();
        assert(hasher@ =~= h + (T0::spec_repr_hash(o0).0 + T1::spec_repr_hash(o1).0 + T2::spec_repr_hash(o2).0 + T3::spec_repr_hash(o3).0 + T4::spec_repr_hash(o4).0));
        let curr = *offset_of;
        T5::repr_hash(hasher, offset_of);
        *offset_of = curr + core::mem::size_of::<T5>();
        assert(hasher@ =~= h + (T0::spec_repr_hash(o0).0 + T1::spec_repr_hash(o1).0 + T2::spec_repr_hash(o2).0 + T3::spec_repr_hash(o3).0 + T4::spec_repr_hash(o4).0 + T5::spec_repr_hash(o5).0));
        let curr = *offset_of;
        T6::repr_hash(hasher, offset_of);
        *offset_of = curr + core::mem::size_of::<T6>();
        assert(hasher@ =~= h + (T0::spec_repr_hash(o0).0 + T1::spec_repr_hash(o1).0 + T2::spec_repr_hash(o2).0 + T3::spec_repr_hash(o3).0 + T4::spec_repr_hash(o4).0 + T5::spec_repr_hash(o5).0 + T6::spec_repr_hash(o6).0));
        let curr = *offset_of;
        T7::repr_hash(hasher, offset_of);
        *offset_of = curr + core::mem::size_of::<T7>();
        assert(hasher@ =~= h + (T0::spec_repr_hash(o0).0 + T1::spec_repr_hash(o1).0 + T2::spec_repr_hash(o2).0 + T3::spec_repr_hash(o3).0 + T4::spec_repr_hash(o4).0 + T5::spec_repr_hash(o5).0 + T6::spec_repr_hash(o6).0 + T7::spec_repr_hash(o7).0));
        let curr = *offset_of;
        T8::repr_hash(hasher, offset_of);
        *offset_of = curr + core::mem::size_of::<T8>();
        assert(hasher@ =~= h + (T0::spec_repr_hash(o0).0 + T1::spec_repr_hash(o1).0 + T2::spec_repr_hash(o2).0 + T3::spec_repr_hash(o3).0 + T4::spec_repr_hash(o4).0 + T5::spec_repr_hash(o5).0 + T6::spec_repr_hash(o6).0 + T7::spec_repr_hash(o7).0 + T8::spec_repr_hash(o8).0));
        let curr = *offset_of;
        T9::repr_hash(hasher, offset_of);
        *offset_of = curr + core::mem::size_of::<T9>();
        assert(hasher@ =~= h + (T0::spec_repr_hash(o0).0 + T1::spec_repr_hash(o1).0 + T2::spec_repr_hash(o2).0 + T3::spec_repr_hash(o3).0 + T4::spec_repr_hash(o4).0 + T5::spec_repr_hash(o5).0 + T6::spec_repr_hash(o6).0 + T7::spec_repr_hash(o7).0 + T8::spec_repr_hash(o8).0 + T9::spec_repr_hash(o9).0));
        assert(hasher@ =~= h + Self::spec_repr_hash(start as nat).0);
    }
}

/// The maximum size of a primitive field of a tuple is that of its elements.
impl<T0: MaxSizeOf, T1: MaxSizeOf, T2: MaxSizeOf, T3: MaxSizeOf, T4: MaxSizeOf, T5: MaxSizeOf, T6: MaxSizeOf, T7: MaxSizeOf, T8: MaxSizeOf, T9: MaxSizeOf> MaxSizeOf for (T0, T1, T2, T3, T4, T5, T6, T7, T8, T9) {
    open spec fn spec_max_size_of() -> usize {
        let m0 = if 0usize < T0::spec_max_size_of() { T0::spec_max_size_of() } else { 0usize };
        let m1 = if m0 < T1::spec_max_size_of() { T1::spec_max_size_of() } else { m0 };
        let m2 = if m1 < T2::spec_max_size_of() { T2::spec_max_size_of() } else { m1 };
        let m3 = if m2 < T3::spec_max_size_of() { T3::spec_max_size_of() } else { m2 };
        let m4 = if m3 < T4::spec_max_size_of() { T4::spec_max_size_of() } else { m3 };
        let m5 = if m4 < T5::spec_max_size_of() { T5::spec_max_size_of() } else { m4 };
        let m6 = if m5 < T6::spec_max_size_of() { T6::spec_max_size_of() } else { m5 };
        let m7 = if m6 < T7::spec_max_size_of() { T7::spec_max_size_of() } else { m6 };
        let m8 = if m7 < T8::spec_max_size_of() { T8::spec_max_size_of() } else { m7 };
        let m9 = if m8 < T9::spec_max_size_of() { T9::spec_max_size_of() } else { m8 };
        m9
    }

    fn max_size_of() -> (r: usize) {
        let mut max_size_of: usize = 0;
        let m = T0::max_size_of();
        if max_size_of < m {
            max_size_of = m;
        }
        let m = T1::max_size_of();
        if max_size_of < m {
            max_size_of = m;
        }
        let m = T2::max_size_of();
        if max_size_of < m {
            max_size_of = m;
        }
        let m = T3::max_size_of();
        if max_size_of < m {
            max_size_of = m;
        }
        let m = T4::max_size_of();
        if max_size_of < m {
            max_size_of = m;
        }
        let m = T5::max_size_of();
        if max_size_of < m {
            max_size_of = m;
        }
        let m = T6::max_size_of();
        if max_size_of < m {
            max_size_of = m;
        }
        let m = T7::max_size_of();
        if max_size_of < m {
            max_size_of = m;
        }
        let m = T8::max_size_of();
        if max_size_of < m {
            max_size_of = m;
        }
        let m = T9::max_size_of();
        if max_size_of < m {
            max_size_of = m;
        }
        max_size_of
    }
}

/// The image of a tuple is the concatenation of the images of its elements.
impl<T0: ZeroCopy, T1: ZeroCopy, T2: ZeroCopy, T3: ZeroCopy, T4: ZeroCopy, T5: ZeroCopy, T6: ZeroCopy, T7: ZeroCopy, T8: ZeroCopy, T9: ZeroCopy> ZeroCopy for (T0, T1, T2, T3, T4, T5, T6, T7, T8, T9) {
    open spec fn spec_image(&self) -> Seq<u8> {
        self.0.spec_image() + self.1.spec_image() + self.2.spec_image() + self.3.spec_image() + self.4.spec_image() + self.5.spec_image() + self.6.spec_image() + self.7.spec_image() + self.8.spec_image() + self.9.spec_image()
    }

    open spec fn spec_image_len() -> nat {
        T0::spec_image_len() + T1::spec_image_len() + T2::spec_image_len() + T3::spec_image_len() + T4::spec_image_len() + T5::spec_image_len() + T6::spec_image_len() + T7::spec_image_len() + T8::spec_image_len() + T9::spec_image_len()
    }

    open spec fn spec_from_image(image: Seq<u8>) -> Self {
        let e0 = 0int;
        let e1 = e0 + T0::spec_image_len();
        let e2 = e1 + T1::spec_image_len();
        let e3 = e2 + T2::spec_image_len();
        let e4 = e3 + T3::spec_image_len();
        let e5 = e4 + T4::spec_image_len();
        let e6 = e5 + T5::spec_image_len();
        let e7 = e6 + T6::spec_image_len();
        let e8 = e7 + T7::spec_image_len();
        let e9 = e8 + T8::spec_image_len();
        let e10 = e9 + T9::spec_image_len();
        (T0::spec_from_image(image.subrange(e0, e1)), T1::spec_from_image(image.subrange(e1, e2)), T2::spec_from_image(image.subrange(e2, e3)), T3::spec_from_image(image.subrange(e3, e4)), T4::spec_from_image(image.subrange(e4, e5)), T5::spec_from_image(image.subrange(e5, e6)), T6::spec_from_image(image.subrange(e6, e7)), T7::spec_from_image(image.subrange(e7, e8)), T8::spec_from_image(image.subrange(e8, e9)), T9::spec_from_image(image.subrange(e9, e10)))
    }

    open spec fn spec_valid_image(image: Seq<u8>) -> bool {
        let e0 = 0int;
        let e1 = e0 + T0::spec_image_len();
        let e2 = e1 + T1::spec_image_len();
        let e3 = e2 + T2::spec_image_len();
        let e4 = e3 + T3::spec_image_len();
        let e5 = e4 + T4::spec_image_len();
        let e6 = e5 + T5::spec_image_len();
        let e7 = e6 + T6::spec_image_len();
        let e8 = e7 + T7::spec_image_len();
        let e9 = e8 + T8::spec_image_len();
        let e10 = e9 + T9::spec_image_len();
        T0::spec_valid_image(image.subrange(e0, e1)) && T1::spec_valid_image(image.subrange(e1, e2)) && T2::spec_valid_image(image.subrange(e2, e3)) && T3::spec_valid_image(image.subrange(e3, e4)) && T4::spec_valid_image(image.subrange(e4, e5)) && T5::spec_valid_image(image.subrange(e5, e6)) && T6::spec_valid_image(image.subrange(e6, e7)) && T7::spec_valid_image(image.subrange(e7, e8)) && T8::spec_valid_image(image.subrange(e8, e9)) && T9::spec_valid_image(image.subrange(e9, e10))
    }

    fn image_len() -> (r: Option<usize>) {
        add_image_len(add_image_len(add_image_len(add_image_len(add_image_len(add_image_len(add_image_len(add_image_len(add_image_len(T0::image_len(), T1::image_len()), T2::image_len()), T3::image_len()), T4::image_len()), T5::image_len()), T6::image_len()), T7::image_len()), T8::image_len()), T9::image_len())
    }

    fn is_valid_image(image: &[u8]) -> (r: bool) {
        let _len: usize = image.len();
        let x0 = 0usize;
        let x1 = x0 + part_image_len::<T0>();
        let x2 = x1 + part_image_len::<T1>();
        let x3 = x2 + part_image_len::<T2>();
        let x4 = x3 + part_image_len::<T3>();
        let x5 = x4 + part_image_len::<T4>();
        let x6 = x5 + part_image_len::<T5>();
        let x7 = x6 + part_image_len::<T6>();
        let x8 = x7 + part_image_len::<T7>();
        let x9 = x8 + part_image_len::<T8>();
        let x10 = x9 + part_image_len::<T9>();
        T0::is_valid_image(vstd::slice::slice_subrange(image, x0, x1)) && T1::is_valid_image(vstd::slice::slice_subrange(image, x1, x2)) && T2::is_valid_image(vstd::slice::slice_subrange(image, x2, x3)) && T3::is_valid_image(vstd::slice::slice_subrange(image, x3, x4)) && T4::is_valid_image(vstd::slice::slice_subrange(image, x4, x5)) && T5::is_valid_image(vstd::slice::slice_subrange(image, x5, x6)) && T6::is_valid_image(vstd::slice::slice_subrange(image, x6, x7)) && T7::is_valid_image(vstd::slice::slice_subrange(image, x7, x8)) && T8::is_valid_image(vstd::slice::slice_subrange(image, x8, x9)) && T9::is_valid_image(vstd::slice::slice_subrange(image, x9, x10))
    }

    fn write_image(&self, out: &mut Vec<u8>) {
        self.0.write_image(out);
        self.1.write_image(out);
        self.2.write_image(out);
        self.3.write_image(out);
        self.4.write_image(out);
        self.5.write_image(out);
        self.6.write_image(out);
        self.7.write_image(out);
        self.8.write_image(out);
        self.9.write_image(out);
        assert(out@ =~= old(out)@ + self.spec_image());
    }

    fn from_image(image: &[u8]) -> (r: Self) {
        let _len: usize = image.len();
        let x0 = 0usize;
        let x1 = x0 + part_image_len::<T0>();
        let x2 = x1 + part_image_len::<T1>();
        let x3 = x2 + part_image_len::<T2>();
        let x4 = x3 + part_image_len::<T3>();
        let x5 = x4 + part_image_len::<T4>();
        let x6 = x5 + part_image_len::<T5>();
        let x7 = x6 + part_image_len::<T6>();
        let x8 = x7 + part_image_len::<T7>();
        let x9 = x8 + part_image_len::<T8>();
        let x10 = x9 + part_image_len::<T9>();
        let v0 = T0::from_image(vstd::slice::slice_subrange(image, x0, x1));
        let v1 = T1::from_image(vstd::slice::slice_subrange(image, x1, x2));
        let v2 = T2::from_image(vstd::slice::slice_subrange(image, x2, x3));
        let v3 = T3::from_image(vstd::slice::slice_subrange(image, x3, x4));
        let v4 = T4::from_image(vstd::slice::slice_subrange(image, x4, x5));
        let v5 = T5::from_image(vstd::slice::slice_subrange(image, x5, x6));
        let v6 = T6::from_image(vstd::slice::slice_subrange(image, x6, x7));
        let v7 = T7::from_image(vstd::slice::slice_subrange(image, x7, x8));
        let v8 = T8::from_image(vstd::slice::slice_subrange(image, x8, x9));
        let v9 = T9::from_image(vstd::slice::slice_subrange(image, x9, x10));
        (v0, v1, v2, v3, v4, v5, v6, v7, v8, v9)
    }

    proof fn lemma_image(v: Self) {
        T0::lemma_image(v.0);
        T1::lemma_image(v.1);
        T2::lemma_image(v.2);
        T3::lemma_image(v.3);
        T4::lemma_image(v.4);
        T5::lemma_image(v.5);
        T6::lemma_image(v.6);
        T7::lemma_image(v.7);
        T8::lemma_image(v.8);
        T9::lemma_image(v.9);
        let img = v.spec_image();
        let e0 = 0int;
        let e1 = e0 + T0::spec_image_len();
        let e2 = e1 + T1::spec_image_len();
        let e3 = e2 + T2::spec_image_len();
        let e4 = e3 + T3::spec_image_len();
        let e5 = e4 + T4::spec_image_len();
        let e6 = e5 + T5::spec_image_len();
        let e7 = e6 + T6::spec_image_len();
        let e8 = e7 + T7::spec_image_len();
        let e9 = e8 + T8::spec_image_len();
        let e10 = e9 + T9::spec_image_len();
        assert(img.subrange(e0, e1) =~= v.0.spec_image());
        assert(img.subrange(e1, e2) =~= v.1.spec_image());
        assert(img.subrange(e2, e3) =~= v.2.spec_image());
        assert(img.subrange(e3, e4) =~= v.3.spec_image());
        assert(img.subrange(e4, e5) =~= v.4.spec_image());
        assert(img.subrange(e5, e6) =~= v.5.spec_image());
        assert(img.subrange(e6, e7) =~= v.6.spec_image());
        assert(img.subrange(e7, e8) =~= v.7.spec_image());
        assert(img.subrange(e8, e9) =~= v.8.spec_image());
        assert(img.subrange(e9, e10) =~= v.9.spec_image());
        assert(Self::spec_from_image(img) == v);
    }
}

/// A tuple is serialized as a zero-copy value: padding to its alignment, then its image.
impl<T0: ZeroCopy, T1: ZeroCopy, T2: ZeroCopy, T3: ZeroCopy, T4: ZeroCopy, T5: ZeroCopy, T6: ZeroCopy, T7: ZeroCopy, T8: ZeroCopy, T9: ZeroCopy> SerializeInner for (T0, T1, T2, T3, T4, T5, T6, T7, T8, T9) {
    const IS_ZERO_COPY: bool = true;

    const ZERO_COPY_MISMATCH: bool = false;

    open spec fn spec_ser(&self, pos: nat) -> Seq<u8> {
        spec_zeros(spec_padding(pos, <(T0, T1, T2, T3, T4, T5, T6, T7, T8, T9) as MaxSizeOf>::spec_max_size_of())) + (self.0.spec_image() + self.1.spec_image() + self.2.spec_image() + self.3.spec_image() + self.4.spec_image() + self.5.spec_image() + self.6.spec_image() + self.7.spec_image() + self.8.spec_image() + self.9.spec_image())
    }

    open spec fn spec_rows(&self, pos: nat, path: Seq<Seq<char>>) -> Seq<RowView> {
        spec_zero_rows::<Self, Self>(pos, path, (self.0.spec_image() + self.1.spec_image() + self.2.spec_image() + self.3.spec_image() + self.4.spec_image() + self.5.spec_image() + self.6.spec_image() + self.7.spec_image() + self.8.spec_image() + self.9.spec_image()).len())
    }

    fn _serialize_inner<W: WriteWithNames>(&self, backend: &mut W) -> (r: SerResult<()>) {
        proof {
            T0::lemma_image(vstd::pervasive::arbitrary());
            T1::lemma_image(vstd::pervasive::arbitrary());
            T2::lemma_image(vstd::pervasive::arbitrary());
            T3::lemma_image(vstd::pervasive::arbitrary());
            T4::lemma_image(vstd::pervasive::arbitrary());
            T5::lemma_image(vstd::pervasive::arbitrary());
            T6::lemma_image(vstd::pervasive::arbitrary());
            T7::lemma_image(vstd::pervasive::arbitrary());
            T8::lemma_image(vstd::pervasive::arbitrary());
            T9::lemma_image(vstd::pervasive::arbitrary());
        }
        let mut buffer: Vec<u8> = Vec::new();
        self.0.write_image(&mut buffer);
        self.1.write_image(&mut buffer);
        self.2.write_image(&mut buffer);
        self.3.write_image(&mut buffer);
        self.4.write_image(&mut buffer);
        self.5.write_image(&mut buffer);
        self.6.write_image(&mut buffer);
        self.7.write_image(&mut buffer);
        self.8.write_image(&mut buffer);
        self.9.write_image(&mut buffer);
        assert(buffer@ =~= self.0.spec_image() + self.1.spec_image() + self.2.spec_image() + self.3.spec_image() + self.4.spec_image() + self.5.spec_image() + self.6.spec_image() + self.7.spec_image() + self.8.spec_image() + self.9.spec_image());
        let ghost pad = spec_zeros(spec_padding(old(backend).spec_written().len(), <(T0, T1, T2, T3, T4, T5, T6, T7, T8, T9) as MaxSizeOf>::spec_max_size_of()));
        let res = backend.align::<(T0, T1, T2, T3, T4, T5, T6, T7, T8, T9)>();
        let ghost mid = *backend;
        match res {
            Ok(()) => {},
            Err(e) => {
                proof { lemma_wrote_stop(*old(backend), mid, pad, buffer@, res); }
                return Err(e);
            },
        }
        let res = backend.write_bytes::<(T0, T1, T2, T3, T4, T5, T6, T7, T8, T9)>(buffer.as_slice());
        proof {
            lemma_wrote_seq(*old(backend), mid, *backend, pad, buffer@, res);
            if res is Ok && W::spec_records() {
                lemma_zero_rows::<W, Self, Self>(*old(backend), mid, *backend, buffer@.len());
            }
        }
        res
    }
}

/// A tuple is read as a zero-copy value; its ε-copy is a copy.
impl<T0: ZeroCopy, T1: ZeroCopy, T2: ZeroCopy, T3: ZeroCopy, T4: ZeroCopy, T5: ZeroCopy, T6: ZeroCopy, T7: ZeroCopy, T8: ZeroCopy, T9: ZeroCopy> DeserializeInner for (T0, T1, T2, T3, T4, T5, T6, T7, T8, T9) {
    type DeserType<'a> = Self;

    open spec fn spec_aligns() -> bool {
        Self::spec_max_size_of() > 1
    }

    fn _check(data: &[u8], pos: usize) -> (r: Option<Option<usize>>) {
        check_zero::<Self>(data, pos)
    }

    open spec fn spec_deser_len(data: Seq<u8>, pos: nat) -> Option<core::result::Result<nat, DeError>> {
        spec_zero_len::<(T0, T1, T2, T3, T4, T5, T6, T7, T8, T9)>(data, pos)
    }

    open spec fn spec_decodes(v: Self, data: Seq<u8>, pos: nat) -> bool {
        spec_zero_decodes::<(T0, T1, T2, T3, T4, T5, T6, T7, T8, T9)>(v, data, pos)
    }

    open spec fn spec_eps_decodes<'a>(d: Self::DeserType<'a>, data: Seq<u8>, pos: nat) -> bool {
        spec_zero_decodes::<(T0, T1, T2, T3, T4, T5, T6, T7, T8, T9)>(d, data, pos)
    }

    fn _deserialize_full_inner<R: ReadWithPos>(backend: &mut R) -> (r: DeResult<Self>) {
        deserialize_full_zero::<(T0, T1, T2, T3, T4, T5, T6, T7, T8, T9), R>(backend)
    }

    fn _deserialize_eps_inner<'a>(backend: &mut SliceWithPos<'a>) -> (r: DeResult<Self::DeserType<'a>>) {
        deserialize_eps_zero::<(T0, T1, T2, T3, T4, T5, T6, T7, T8, T9)>(backend)
    }

    open spec fn spec_same(a: Self, b: Self) -> bool {
        a == b
    }

    open spec fn spec_eps_same<'a>(d: Self::DeserType<'a>, v: Self) -> bool {
        d == v
    }

    proof fn lemma_read_back(v: Self, w: Self, pos: nat, rest: Seq<u8>) {
        assert(v.spec_ser(pos) == spec_ser_zero(v, pos));
        lemma_zero_read_back(v, pos, rest);
    }

    proof fn lemma_eps_read_back<'a>(v: Self, d: Self::DeserType<'a>, pos: nat, rest: Seq<u8>) {
        assert(v.spec_ser(pos) == spec_ser_zero(v, pos));
        lemma_zero_read_back(v, pos, rest);
    }

    proof fn lemma_deser_len_fits(data: Seq<u8>, pos: nat) {
    }

    proof fn lemma_deser_ser(v: Self, pos: nat, rest: Seq<u8>) {
        assert(v.spec_ser(pos) == spec_ser_zero(v, pos));
        lemma_zero_read_back(v, pos, rest);
    }
}

impl<T0: ZeroCopy, T1: ZeroCopy, T2: ZeroCopy, T3: ZeroCopy, T4: ZeroCopy, T5: ZeroCopy, T6: ZeroCopy, T7: ZeroCopy, T8: ZeroCopy, T9: ZeroCopy, T10: ZeroCopy> CopyType for (T0, T1, T2, T3, T4, T5, T6, T7, T8, T9, T10) {
    type Copy = Zero;
}

impl<T0: TypeName, T1: TypeName, T2: TypeName, T3: TypeName, T4: TypeName, T5: TypeName, T6: TypeName, T7: TypeName, T8: TypeName, T9: TypeName, T10: TypeName> TypeName for (T0, T1, T2, T3, T4, T5, T6, T7, T8, T9, T10) {
    open spec fn spec_type_name() -> Seq<char> {
        "("@ + T0::spec_type_name() + ", "@ + T1::spec_type_name() + ", "@ + T2::spec_type_name() + ", "@ + T3::spec_type_name() + ", "@ + T4::spec_type_name() + ", "@ + T5::spec_type_name() + ", "@ + T6::spec_type_name() + ", "@ + T7::spec_type_name() + ", "@ + T8::spec_type_name() + ", "@ + T9::spec_type_name() + ", "@ + T10::spec_type_name() + ")"@
    }

    fn type_name_str() -> (r: String) {
        let mut name = String::from_str("(");
        let part0 = T0::type_name_str();
        name.append(part0.as_str());
        name.append(", ");
        let part1 = T1::type_name_str();
        name.append(part1.as_str());
        name.append(", ");
        let part2 = T2::type_name_str();
        name.append(part2.as_str());
        name.append(", ");
        let part3 = T3::type_name_str();
        name.append(part3.as_str());
        name.append(", ");
        let part4 = T4::type_name_str();
        name.append(part4.as_str());
        name.append(", ");
        let part5 = T5::type_name_str();
        name.append(part5.as_str());
        name.append(", ");
        let part6 = T6::type_name_str();
        name.append(part6.as_str());
        name.append(", ");
        let part7 = T7::type_name_str();
        name.append(part7.as_str());
        name.append(", ");
        let part8 = T8::type_name_str();
        name.append(part8.as_str());
        name.append(", ");
        let part9 = T9::type_name_str();
        name.append(part9.as_str());
        name.append(", ");
        let part10 = T10::type_name_str();
        name.append(part10.as_str());
        name.append(")");
        name
    }
}

impl<T0: TypeHash, T1: TypeHash, T2: TypeHash, T3: TypeHash, T4: TypeHash, T5: TypeHash, T6: TypeHash, T7: TypeHash, T8: TypeHash, T9: TypeHash, T10: TypeHash> TypeHash for (T0, T1, T2, T3, T4, T5, T6, T7, T8, T9, T10) {
    open spec fn spec_type_hash_input() -> Seq<u8> {
        spec_str_hash_input("()") + T0::spec_type_hash_input() + T1::spec_type_hash_input() + T2::spec_type_hash_input() + T3::spec_type_hash_input() + T4::spec_type_hash_input() + T5::spec_type_hash_input() + T6::spec_type_hash_input() + T7::spec_type_hash_input() + T8::spec_type_hash_input() + T9::spec_type_hash_input() + T10::spec_type_hash_input()
    }

    #[verifier::rlimit(50)]
    fn type_hash(hasher: &mut TypeHasher) {
        hasher.write_str("()");
        T0::type_hash(hasher);
        T1::type_hash(hasher);
        T2::type_hash(hasher);
        T3::type_hash(hasher);
        T4::type_hash(hasher);
        T5::type_hash(hasher);
        T6::type_hash(hasher);
        T7::type_hash(hasher);
        T8::type_hash(hasher);
        T9::type_hash(hasher);
        T10::type_hash(hasher);
        assert(hasher@ =~= old(hasher)@ + Self::spec_type_hash_input());
    }
}

/// The representation of a tuple is that of its elements, each placed after the
/// previous one at the offset given by the sizes of the elements before it.
impl<T0: ReprHash, T1: ReprHash, T2: ReprHash, T3: ReprHash, T4: ReprHash, T5: ReprHash, T6: ReprHash, T7: ReprHash, T8: ReprHash, T9: ReprHash, T10: ReprHash> ReprHash for (T0, T1, T2, T3, T4, T5, T6, T7, T8, T9, T10) {
    open spec fn spec_repr_hash(offset_of: nat) -> (Seq<u8>, nat) {
        let o0 = offset_of;
        let r0 = T0::spec_repr_hash(o0);
        let o1 = o0 + size_of::<T0>();
        let r1 = T1::spec_repr_hash(o1);
        let o2 = o1 + size_of::<T1>();
        let r2 = T2::spec_repr_hash(o2);
        let o3 = o2 + size_of::<T2>();
        let r3 = T3::spec_repr_hash(o3);
        let o4 = o3 + size_of::<T3>();
        let r4 = T4::spec_repr_hash(o4);
        let o5 = o4 + size_of::<T4>();
        let r5 = T5::spec_repr_hash(o5);
        let o6 = o5 + size_of::<T5>();
        let r6 = T6::spec_repr_hash(o6);
        let o7 = o6 + size_of::<T6>();
        let r7 = T7::spec_repr_hash(o7);
        let o8 = o7 + size_of::<T7>();
        let r8 = T8::spec_repr_hash(o8);
        let o9 = o8 + size_of::<T8>();
        let r9 = T9::spec_repr_hash(o9);
        let o10 = o9 + size_of::<T9>();
        let r10 = T10::spec_repr_hash(o10);
        let o11 = o10 + size_of::<T10>();
        if r0.1 <= usize::MAX && o1 <= usize::MAX && r1.1 <= usize::MAX && o2 <= usize::MAX && r2.1 <= usize::MAX && o3 <= usize::MAX && r3.1 <= usize::MAX && o4 <= usize::MAX && r4.1 <= usize::MAX && o5 <= usize::MAX && r5.1 <= usize::MAX && o6 <= usize::MAX && r6.1 <= usize::MAX && o7 <= usize::MAX && r7.1 <= usize::MAX && o8 <= usize::MAX && r8.1 <= usize::MAX && o9 <= usize::MAX && r9.1 <= usize::MAX && o10 <= usize::MAX && r10.1 <= usize::MAX && o11 <= usize::MAX {
            (r0.0 + r1.0 + r2.0 + r3.0 + r4.0 + r5.0 + r6.0 + r7.0 + r8.0 + r9.0 + r10.0, o11)
        } else {
            (r0.0 + r1.0 + r2.0 + r3.0 + r4.0 + r5.0 + r6.0 + r7.0 + r8.0 + r9.0 + r10.0, usize::MAX as nat + 1)
        }
    }

    #[verifier::rlimit(50)]
    fn repr_hash(hasher: &mut TypeHasher, offset_of: &mut usize) {
        let ghost start = *offset_of;
        let ghost h = hasher@;
        let ghost o0 = start as nat;
        let ghost o1 = o0 + size_of::<T0>();
        let ghost o2 = o1 + size_of::<T1>();
        let ghost o3 = o2 + size_of::<T2>();
        let ghost o4 = o3 + size_of::<T3>();
        let ghost o5 = o4 + size_of::<T4>();
        let ghost o6 = o5 + size_of::<T5>();
        let ghost o7 = o6 + size_of::<T6>();
        let ghost o8 = o7 + size_of::<T7>();
        let ghost o9 = o8 + size_of::<T8>();
        let ghost o10 = o9 + size_of::<T9>();
        let curr = *offset_of;
        T0::repr_hash(hasher, offset_of);
        *offset_of = curr + core::mem::size_of::<T0>();
        assert(hasher@ =~= h + (T0::spec_repr_hash(o0).0));
        let curr = *offset_of;
        T1::repr_hash(hasher, offset_of);
        *offset_of = curr + core::mem::size_of::<T1>();
        assert(hasher@ =~= h + (T0::spec_repr_hash(o0).0 + T1::spec_repr_hash(o1).0));
        let curr = *offset_of;
        T2::repr_hash(hasher, offset_of);
        *offset_of = curr + core::mem::size_of::<T2>();
        assert(hasher@ =~= h + (T0::spec_repr_hash(o0).0 + T1::spec_repr_hash(o1).0 + T2::spec_repr_hash(o2).0));
        let curr = *offset_of;
        T3::repr_hash(hasher, offset_of);
        *offset_of = curr + core::mem::size_of::<T3>();
        assert(hasher@ =~= h + (T0::spec_repr_hash(o0).0 + T1::spec_repr_hash(o1).0 + T2::spec_repr_hash(o2).0 + T3::spec_repr_hash(o3).0));
        let curr = *offset_of;
        T4::repr_hash(hasher, offset_of);
        *offset_of = curr + core::mem::size_of::<T4>();
        assert(hasher@ =~= h + (T0::spec_repr_hash(o0).0 + T1::spec_repr_hash(o1).0 + T2::spec_repr_hash(o2).0 + T3::spec_repr_hash(o3).0 + T4::spec_repr_hash(o4).0));
        let curr = *offset_of;
        T5::repr_hash(hasher, offset_of);
        *offset_of = curr + core::mem::size_of::<T5>();
        assert(hasher@ =~= h + (T0::spec_repr_hash(o0).0 + T1::spec_repr_hash(o1).0 + T2::spec_repr_hash(o2).0 + T3::spec_repr_hash(o3).0 + T4::spec_repr_hash(o4).0 + T5::spec_repr_hash(o5).0));
        let curr = *offset_of;
        T6::repr_hash(hasher, offset_of);
        *offset_of = curr + core::mem::size_of::<T6>();
        assert(hasher@ =~= h + (T0::spec_repr_hash(o0).0 + T1::spec_repr_hash(o1).0 + T2::spec_repr_hash(o2).0 + T3::spec_repr_hash(o3).0 + T4::spec_repr_hash(o4).0 + T5::spec_repr_hash(o5).0 + T6::spec_repr_hash(o6).0));
        let curr = *offset_of;
        T7::repr_hash(hasher, offset_of);
        *offset_of = curr + core::mem::size_of::<T7>();
        assert(hasher@ =~= h + (T0::spec_repr_hash(o0).0 + T1::spec_repr_hash(o1).0 + T2::spec_repr_hash(o2).0 + T3::spec_repr_hash(o3).0 + T4::spec_repr_hash(o4).0 + T5::spec_repr_hash(o5).0 + T6::spec_repr_hash(o6).0 + T7::spec_repr_hash(o7).0));
        let curr = *offset_of;
        T8::repr_hash(hasher, offset_of);
        *offset_of = curr + core::mem::size_of::<T8>();
        assert(hasher@ =~= h + (T0::spec_repr_hash(o0).0 + T1::spec_repr_hash(o1).0 + T2::spec_repr_hash(o2).0 + T3::spec_repr_hash(o3).0 + T4::spec_repr_hash(o4).0 + T5::spec_repr_hash(o5).0 + T6::spec_repr_hash(o6).0 + T7::spec_repr_hash(o7).0 + T8::spec_repr_hash(o8).0));
        let curr = *offset_of;
        T9::repr_hash(hasher, offset_of);
        *offset_of = curr + core::mem::size_of::<T9>();
        assert(hasher@ =~= h + (T0::spec_repr_hash(o0).0 + T1::spec_repr_hash(o1).0 + T2::spec_repr_hash(o2).0 + T3::spec_repr_hash(o3).0 + T4::spec_repr_hash(o4).0 + T5::spec_repr_hash(o5).0 + T6::spec_repr_hash(o6).0 + T7::spec_repr_hash(o7).0 + T8::spec_repr_hash(o8).0 + T9::spec_repr_hash(o9).0));
        let curr = *offset_of;
        T10::repr_hash(hasher, offset_of);
        *offset_of = curr + core::mem::size_of::<T10>();
        assert(hasher@ =~= h + (T0::spec_repr_hash(o0).0 + T1::spec_repr_hash(o1).0 + T2::spec_repr_hash(o2).0 + T3::spec_repr_hash(o3).0 + T4::spec_repr_hash(o4).0 + T5::spec_repr_hash(o5).0 + T6::spec_repr_hash(o6).0 + T7::spec_repr_hash(o7).0 + T8::spec_repr_hash(o8).0 + T9::spec_repr_hash(o9).0 + T10::spec_repr_hash(o10).0));
        assert(hasher@ =~= h + Self::spec_repr_hash(start as nat).0);
    }
}

/// The maximum size of a primitive field of a tuple is that of its elements.
impl<T0: MaxSizeOf, T1: MaxSizeOf, T2: MaxSizeOf, T3: MaxSizeOf, T4: MaxSizeOf, T5: MaxSizeOf, T6: MaxSizeOf, T7: MaxSizeOf, T8: MaxSizeOf, T9: MaxSizeOf, T10: MaxSizeOf> MaxSizeOf for (T0, T1, T2, T3, T4, T5, T6, T7, T8, T9, T10) {
    open spec fn spec_max_size_of() -> usize {
        let m0 = if 0usize < T0::spec_max_size_of() { T0::spec_max_size_of() } else { 0usize };
        let m1 = if m0 < T1::spec_max_size_of() { T1::spec_max_size_of() } else { m0 };
        let m2 = if m1 < T2::spec_max_size_of() { T2::spec_max_size_of() } else { m1 };
        let m3 = if m2 < T3::spec_max_size_of() { T3::spec_max_size_of() } else { m2 };
        let m4 = if m3 < T4::spec_max_size_of() { T4::spec_max_size_of() } else { m3 };
        let m5 = if m4 < T5::spec_max_size_of() { T5::spec_max_size_of() } else { m4 };
        let m6 = if m5 < T6::spec_max_size_of() { T6::spec_max_size_of() } else { m5 };
        let m7 = if m6 < T7::spec_max_size_of() { T7::spec_max_size_of() } else { m6 };
        let m8 = if m7 < T8::spec_max_size_of() { T8::spec_max_size_of() } else { m7 };
        let m9 = if m8 < T9::spec_max_size_of() { T9::spec_max_size_of() } else { m8 };
        let m10 = if m9 < T10::spec_max_size_of() { T10::spec_max_size_of() } else { m9 };
        m10
    }

    fn max_size_of() -> (r: usize) {
        let mut max_size_of: usize = 0;
        let m = T0::max_size_of();
        if max_size_of < m {
            max_size_of = m;
        }
        let m = T1::max_size_of();
        if max_size_of < m {
            max_size_of = m;
        }
        let m = T2::max_size_of();
        if max_size_of < m {
            max_size_of = m;
        }
        let m = T3::max_size_of();
        if max_size_of < m {
            max_size_of = m;
        }
        let m = T4::max_size_of();
        if max_size_of < m {
            max_size_of = m;
        }
        let m = T5::max_size_of();
        if max_size_of < m {
            max_size_of = m;
        }
        let m = T6::max_size_of();
        if max_size_of < m {
            max_size_of = m;
        }
        let m = T7::max_size_of();
        if max_size_of < m {
            max_size_of = m;
        }
        let m = T8::max_size_of();
        if max_size_of < m {
            max_size_of = m;
        }
        let m = T9::max_size_of();
        if max_size_of < m {
            max_size_of = m;
        }
        let m = T10::max_size_of();
        if max_size_of < m {
            max_size_of = m;
        }
        max_size_of
    }
}

/// The image of a tuple is the concatenation of the images of its elements.
impl<T0: ZeroCopy, T1: ZeroCopy, T2: ZeroCopy, T3: ZeroCopy, T4: ZeroCopy, T5: ZeroCopy, T6: ZeroCopy, T7: ZeroCopy, T8: ZeroCopy, T9: ZeroCopy, T10: ZeroCopy> ZeroCopy for (T0, T1, T2, T3, T4, T5, T6, T7, T8, T9, T10) {
    open spec fn spec_image(&self) -> Seq<u8> {
        self.0.spec_image() + self.1.spec_image() + self.2.spec_image() + self.3.spec_image() + self.4.spec_image() + self.5.spec_image() + self.6.spec_image() + self.7.spec_image() + self.8.spec_image() + self.9.spec_image() + self.10.spec_image()
    }

    open spec fn spec_image_len() -> nat {
        T0::spec_image_len() + T1::spec_image_len() + T2::spec_image_len() + T3::spec_image_len() + T4::spec_image_len() + T5::spec_image_len() + T6::spec_image_len() + T7::spec_image_len() + T8::spec_image_len() + T9::spec_image_len() + T10::spec_image_len()
    }

    open spec fn spec_from_image(image: Seq<u8>) -> Self {
        let e0 = 0int;
        let e1 = e0 + T0::spec_image_len();
        let e2 = e1 + T1::spec_image_len();
        let e3 = e2 + T2::spec_image_len();
        let e4 = e3 + T3::spec_image_len();
        let e5 = e4 + T4::spec_image_len();
        let e6 = e5 + T5::spec_image_len();
        let e7 = e6 + T6::spec_image_len();
        let e8 = e7 + T7::spec_image_len();
        let e9 = e8 + T8::spec_image_len();
        let e10 = e9 + T9::spec_image_len();
        let e11 = e10 + T10::spec_image_len();
        (T0::spec_from_image(image.subrange(e0, e1)), T1::spec_from_image(image.subrange(e1, e2)), T2::spec_from_image(image.subrange(e2, e3)), T3::spec_from_image(image.subrange(e3, e4)), T4::spec_from_image(image.subrange(e4, e5)), T5::spec_from_image(image.subrange(e5, e6)), T6::spec_from_image(image.subrange(e6, e7)), T7::spec_from_image(image.subrange(e7, e8)), T8::spec_from_image(image.subrange(e8, e9)), T9::spec_from_image(image.subrange(e9, e10)), T10::spec_from_image(image.subrange(e10, e11)))
    }

    open spec fn spec_valid_image(image: Seq<u8>) -> bool {
        let e0 = 0int;
        let e1 = e0 + T0::spec_image_len();
        let e2 = e1 + T1::spec_image_len();
        let e3 = e2 + T2::spec_image_len();
        let e4 = e3 + T3::spec_image_len();
        let e5 = e4 + T4::spec_image_len();
        let e6 = e5 + T5::spec_image_len();
        let e7 = e6 + T6::spec_image_len();
        let e8 = e7 + T7::spec_image_len();
        let e9 = e8 + T8::spec_image_len();
        let e10 = e9 + T9::spec_image_len();
        let e11 = e10 + T10::spec_image_len();
        T0::spec_valid_image(image.subrange(e0, e1)) && T1::spec_valid_image(image.subrange(e1, e2)) && T2::spec_valid_image(image.subrange(e2, e3)) && T3::spec_valid_image(image.subrange(e3, e4)) && T4::spec_valid_image(image.subrange(e4, e5)) && T5::spec_valid_image(image.subrange(e5, e6)) && T6::spec_valid_image(image.subrange(e6, e7)) && T7::spec_valid_image(image.subrange(e7, e8)) && T8::spec_valid_image(image.subrange(e8, e9)) && T9::spec_valid_image(image.subrange(e9, e10)) && T10::spec_valid_image(image.subrange(e10, e11))
    }

    fn image_len() -> (r: Option<usize>) {
        add_image_len(add_image_len(add_image_len(add_image_len(add_image_len(add_image_len(add_image_len(add_image_len(add_image_len(add_image_len(T0::image_len(), T1::image_len()), T2::image_len()), T3::image_len()), T4::image_len()), T5::image_len()), T6::image_len()), T7::image_len()), T8::image_len()), T9::image_len()), T10::image_len())
    }

    fn is_valid_image(image: &[u8]) -> (r: bool) {
        let _len: usize = image.len();
        let x0 = 0usize;
        let x1 = x0 + part_image_len::<T0>();
        let x2 = x1 + part_image_len::<T1>();
        let x3 = x2 + part_image_len::<T2>();
        let x4 = x3 + part_image_len::<T3>();
        let x5 = x4 + part_image_len::<T4>();
        let x6 = x5 + part_image_len::<T5>();
        let x7 = x6 + part_image_len::<T6>();
        let x8 = x7 + part_image_len::<T7>();
        let x9 = x8 + part_image_len::<T8>();
        let x10 = x9 + part_image_len::<T9>();
        let x11 = x10 + part_image_len::<T10>();
        T0::is_valid_image(vstd::slice::slice_subrange(image, x0, x1)) && T1::is_valid_image(vstd::slice::slice_subrange(image, x1, x2)) && T2::is_valid_image(vstd::slice::slice_subrange(image, x2, x3)) && T3::is_valid_image(vstd::slice::slice_subrange(image, x3, x4)) && T4::is_valid_image(vstd::slice::slice_subrange(image, x4, x5)) && T5::is_valid_image(vstd::slice::slice_subrange(image, x5, x6)) && T6::is_valid_image(vstd::slice::slice_subrange(image, x6, x7)) && T7::is_valid_image(vstd::slice::slice_subrange(image, x7, x8)) && T8::is_valid_image(vstd::slice::slice_subrange(image, x8, x9)) && T9::is_valid_image(vstd::slice::slice_subrange(image, x9, x10)) && T10::is_valid_image(vstd::slice::slice_subrange(image, x10, x11))
    }

    fn write_image(&self, out: &mut Vec<u8>) {
        self.0.write_image(out);
        self.1.write_image(out);
        self.2.write_image(out);
        self.3.write_image(out);
        self.4.write_image(out);
        self.5.write_image(out);
        self.6.write_image(out);
        self.7.write_image(out);
        self.8.write_image(out);
        self.9.write_image(out);
        self.10.write_image(out);
        assert(out@ =~= old(out)@ + self.spec_image());
    }

    fn from_image(image: &[u8]) -> (r: Self) {
        let _len: usize = image.len();
        let x0 = 0usize;
        let x1 = x0 + part_image_len::<T0>();
        let x2 = x1 + part_image_len::<T1>();
        let x3 = x2 + part_image_len::<T2>();
        let x4 = x3 + part_image_len::<T3>();
        let x5 = x4 + part_image_len::<T4>();
        let x6 = x5 + part_image_len::<T5>();
        let x7 = x6 + part_image_len::<T6>();
        let x8 = x7 + part_image_len::<T7>();
        let x9 = x8 + part_image_len::<T8>();
        let x10 = x9 + part_image_len::<T9>();
        let x11 = x10 + part_image_len::<T10>();
        let v0 = T0::from_image(vstd::slice::slice_subrange(image, x0, x1));
        let v1 = T1::from_image(vstd::slice::slice_subrange(image, x1, x2));
        let v2 = T2::from_image(vstd::slice::slice_subrange(image, x2, x3));
        let v3 = T3::from_image(vstd::slice::slice_subrange(image, x3, x4));
        let v4 = T4::from_image(vstd::slice::slice_subrange(image, x4, x5));
        let v5 = T5::from_image(vstd::slice::slice_subrange(image, x5, x6));
        let v6 = T6::from_image(vstd::slice::slice_subrange(image, x6, x7));
        let v7 = T7::from_image(vstd::slice::slice_subrange(image, x7, x8));
        let v8 = T8::from_image(vstd::slice::slice_subrange(image, x8, x9));
        let v9 = T9::from_image(vstd::slice::slice_subrange(image, x9, x10));
        let v10 = T10::from_image(vstd::slice::slice_subrange(image, x10, x11));
        (v0, v1, v2, v3, v4, v5, v6, v7, v8, v9, v10)
    }

    proof fn lemma_image(v: Self) {
        T0::lemma_image(v.0);
        T1::lemma_image(v.1);
        T2::lemma_image(v.2);
        T3::lemma_image(v.3);
        T4::lemma_image(v.4);
        T5::lemma_image(v.5);
        T6::lemma_image(v.6);
        T7::lemma_image(v.7);
        T8::lemma_image(v.8);
        T9::lemma_image(v.9);
        T10::lemma_image(v.10);
        let img = v.spec_image();
        let e0 = 0int;
        let e1 = e0 + T0::spec_image_len();
        let e2 = e1 + T1::spec_image_len();
        let e3 = e2 + T2::spec_image_len();
        let e4 = e3 + T3::spec_image_len();
        let e5 = e4 + T4::spec_image_len();
        let e6 = e5 + T5::spec_image_len();
        let e7 = e6 + T6::spec_image_len();
        let e8 = e7 + T7::spec_image_len();
        let e9 = e8 + T8::spec_image_len();
        let e10 = e9 + T9::spec_image_len();
        let e11 = e10 + T10::spec_image_len();
        assert(img.subrange(e0, e1) =~= v.0.spec_image());
        assert(img.subrange(e1, e2) =~= v.1.spec_image());
        assert(img.subrange(e2, e3) =~= v.2.spec_image());
        assert(img.subrange(e3, e4) =~= v.3.spec_image());
        assert(img.subrange(e4, e5) =~= v.4.spec_image());
        assert(img.subrange(e5, e6) =~= v.5.spec_image());
        assert(img.subrange(e6, e7) =~= v.6.spec_image());
        assert(img.subrange(e7, e8) =~= v.7.spec_image());
        assert(img.subrange(e8, e9) =~= v.8.spec_image());
        assert(img.subrange(e9, e10) =~= v.9.spec_image());
        assert(img.subrange(e10, e11) =~= v.10.spec_image());
        assert(Self::spec_from_image(img) == v);
    }
}

/// A tuple is serialized as a zero-copy value: padding to its alignment, then its image.
impl<T0: ZeroCopy, T1: ZeroCopy, T2: ZeroCopy, T3: ZeroCopy, T4: ZeroCopy, T5: ZeroCopy, T6: ZeroCopy, T7: ZeroCopy, T8: ZeroCopy, T9: ZeroCopy, T10: ZeroCopy> SerializeInner for (T0, T1, T2, T3, T4, T5, T6, T7, T8, T9, T10) {
    const IS_ZERO_COPY: bool = true;

    const ZERO_COPY_MISMATCH: bool = false;

    open spec fn spec_ser(&self, pos: nat) -> Seq<u8> {
        spec_zeros(spec_padding(pos, <(T0, T1, T2, T3, T4, T5, T6, T7, T8, T9, T10) as MaxSizeOf>::spec_max_size_of())) + (self.0.spec_image() + self.1.spec_image() + self.2.spec_image() + self.3.spec_image() + self.4.spec_image() + self.5.spec_image() + self.6.spec_image() + self.7.spec_image() + self.8.spec_image() + self.9.spec_image() + self.10.spec_image())
    }

    open spec fn spec_rows(&self, pos: nat, path: Seq<Seq<char>>) -> Seq<RowView> {
        spec_zero_rows::<Self, Self>(pos, path, (self.0.spec_image() + self.1.spec_image() + self.2.spec_image() + self.3.spec_image() + self.4.spec_image() + self.5.spec_image() + self.6.spec_image() + self.7.spec_image() + self.8.spec_image() + self.9.spec_image() + self.10.spec_image()).len())
    }

    fn _serialize_inner<W: WriteWithNames>(&self, backend: &mut W) -> (r: SerResult<()>) {
        proof {
            T0::lemma_image(vstd::pervasive::arbitrary());
            T1::lemma_image(vstd::pervasive::arbitrary());
            T2::lemma_image(vstd::pervasive::arbitrary());
            T3::lemma_image(vstd::pervasive::arbitrary());
            T4::lemma_image(vstd::pervasive::arbitrary());
            T5::lemma_image(vstd::pervasive::arbitrary());
            T6::lemma_image(vstd::pervasive::arbitrary());
            T7::lemma_image(vstd::pervasive::arbitrary());
            T8::lemma_image(vstd::pervasive::arbitrary());
            T9::lemma_image(vstd::pervasive::arbitrary());
            T10::lemma_image(vstd::pervasive::arbitrary());
        }
        let mut buffer: Vec<u8> = Vec::new();
        self.0.write_image(&mut buffer);
        self.1.write_image(&mut buffer);
        self.2.write_image(&mut buffer);
        self.3.write_image(&mut buffer);
        self.4.write_image(&mut buffer);
        self.5.write_image(&mut buffer);
        self.6.write_image(&mut buffer);
        self.7.write_image(&mut buffer);
        self.8.write_image(&mut buffer);
        self.9.write_image(&mut buffer);
        self.10.write_image(&mut buffer);
        assert(buffer@ =~= self.0.spec_image() + self.1.spec_image() + self.2.spec_image() + self.3.spec_image() + self.4.spec_image() + self.5.spec_image() + self.6.spec_image() + self.7.spec_image() + self.8.spec_image() + self.9.spec_image() + self.10.spec_image());
        let ghost pad = spec_zeros(spec_padding(old(backend).spec_written().len(), <(T0, T1, T2, T3, T4, T5, T6, T7, T8, T9, T10) as MaxSizeOf>::spec_max_size_of()));
        let res = backend.align::<(T0, T1, T2, T3, T4, T5, T6, T7, T8, T9, T10)>();
        let ghost mid = *backend;
        match res {
            Ok(()) => {},
            Err(e) => {
                proof { lemma_wrote_stop(*old(backend), mid, pad, buffer@, res); }
                return Err(e);
            },
        }
        let res = backend.write_bytes::<(T0, T1, T2, T3, T4, T5, T6, T7, T8, T9, T10)>(buffer.as_slice());
        proof {
            lemma_wrote_seq(*old(backend), mid, *backend, pad, buffer@, res);
            if res is Ok && W::spec_records() {
                lemma_zero_rows::<W, Self, Self>(*old(backend), mid, *backend, buffer@.len());
            }
        }
        res
    }
}

/// A tuple is read as a zero-copy value; its ε-copy is a copy.
impl<T0: ZeroCopy, T1: ZeroCopy, T2: ZeroCopy, T3: ZeroCopy, T4: ZeroCopy, T5: ZeroCopy, T6: ZeroCopy, T7: ZeroCopy, T8: ZeroCopy, T9: ZeroCopy, T10: ZeroCopy> DeserializeInner for (T0, T1, T2, T3, T4, T5, T6, T7, T8, T9, T10) {
    type DeserType<'a> = Self;

    open spec fn spec_aligns() -> bool {
        Self::spec_max_size_of() > 1
    }

    fn _check(data: &[u8], pos: usize) -> (r: Option<Option<usize>>) {
        check_zero::<Self>(data, pos)
    }

    open spec fn spec_deser_len(data: Seq<u8>, pos: nat) -> Option<core::result::Result<nat, DeError>> {
        spec_zero_len::<(T0, T1, T2, T3, T4, T5, T6, T7, T8, T9, T10)>(data, pos)
    }

    open spec fn spec_decodes(v: Self, data: Seq<u8>, pos: nat) -> bool {
        spec_zero_decodes::<(T0, T1, T2, T3, T4, T5, T6, T7, T8, T9, T10)>(v, data, pos)
    }

    open spec fn spec_eps_decodes<'a>(d: Self::DeserType<'a>, data: Seq<u8>, pos: nat) -> bool {
        spec_zero_decodes::<(T0, T1, T2, T3, T4, T5, T6, T7, T8, T9, T10)>(d, data, pos)
    }

    fn _deserialize_full_inner<R: ReadWithPos>(backend: &mut R) -> (r: DeResult<Self>) {
        deserialize_full_zero::<(T0, T1, T2, T3, T4, T5, T6, T7, T8, T9, T10), R>(backend)
    }

    fn _deserialize_eps_inner<'a>(backend: &mut SliceWithPos<'a>) -> (r: DeResult<Self::DeserType<'a>>) {
        deserialize_eps_zero::<(T0, T1, T2, T3, T4, T5, T6, T7, T8, T9, T10)>(backend)
    }

    open spec fn spec_same(a: Self, b: Self) -> bool {
        a == b
    }

    open spec fn spec_eps_same<'a>(d: Self::DeserType<'a>, v: Self) -> bool {
        d == v
    }

    proof fn lemma_read_back(v: Self, w: Self, pos: nat, rest: Seq<u8>) {
        assert(v.spec_ser(pos) == spec_ser_zero(v, pos));
        lemma_zero_read_back(v, pos, rest);
    }

    proof fn lemma_eps_read_back<'a>(v: Self, d: Self::DeserType<'a>, pos: nat, rest: Seq<u8>) {
        assert(v.spec_ser(pos) == spec_ser_zero(v, pos));
        lemma_zero_read_back(v, pos, rest);
    }

    proof fn lemma_deser_len_fits(data: Seq<u8>, pos: nat) {
    }

    proof fn lemma_deser_ser(v: Self, pos: nat, rest: Seq<u8>) {
        assert(v.spec_ser(pos) == spec_ser_zero(v, pos));
        lemma_zero_read_back(v, pos, rest);
    }
}

} // verus!
