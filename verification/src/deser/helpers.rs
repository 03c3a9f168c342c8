//! Helpers for deserialization.

use vstd::prelude::*;
use crate::bytes::{spec_usize_from_le, spec_usize_le, usize_bytes, usize_size, lemma_usize_bits, lemma_usize_le};
use crate::ser::SerializeInner;
use crate::ser::helpers::{spec_images, spec_ser_seq, spec_ser_slice_deep, spec_ser_slice_zero, spec_ser_zero, lemma_ser_seq_prefix};

use crate::deser::{DeserializeInner, Error, Result, ReadNoStd, ReadWithPos, SliceWithPos, spec_fits, spec_read, spec_read_eps};
use crate::deser::zero_slice::{ZeroSlice, decode_images, valid_images, lemma_image_offsets, spec_image_at, spec_valid_images, spec_zero_items};
use crate::{pad_align_to, spec_padding};
use crate::traits::ZeroCopy;

verus! {

/// The outcome of reading the image of a zero-copy value at `pos`: its length, or a
/// read error when it is not all there; `None` when it is there but invalid.
pub open spec fn spec_image_len_at<T: ZeroCopy>(data: Seq<u8>, pos: nat) -> Option<core::result::Result<nat, Error>> {
    if !spec_fits(data, pos, T::spec_image_len()) {
        Some(Err(Error::ReadError))
    } else if T::spec_valid_image(data.take(T::spec_image_len() as int)) {
        Some(Ok(T::spec_image_len()))
    } else {
        None
    }
}

/// Whether `v` is the zero-copy value whose image starts `data`.
pub open spec fn spec_image_decodes<T: ZeroCopy>(v: T, data: Seq<u8>) -> bool {
    v == T::spec_from_image(data.take(T::spec_image_len() as int))
}

/// Read the image of a zero-copy value.
pub(crate) fn deserialize_image<T: ZeroCopy, R: ReadNoStd>(backend: &mut R) -> (r: Result<T>)
    requires
        spec_image_len_at::<T>((*old(backend)).spec_data(), (*old(backend)).spec_pos()) is Some,
    ensures
        r matches Ok(v) ==> {
            &&& spec_image_len_at::<T>((*old(backend)).spec_data(), (*old(backend)).spec_pos()) == Some(
                Ok::<nat, Error>(T::spec_image_len()))
            &&& spec_image_decodes(v, (*old(backend)).spec_data())
            &&& (*final(backend)).spec_data() == (*old(backend)).spec_data().skip(T::spec_image_len() as int)
            &&& (*final(backend)).spec_pos() == (*old(backend)).spec_pos() + T::spec_image_len()
            &&& (*final(backend)).spec_exact() == (*old(backend)).spec_exact()
        },
        r matches Err(e) ==> e is ReadError && (!(*old(backend)).spec_exact()
            || spec_image_len_at::<T>((*old(backend)).spec_data(), (*old(backend)).spec_pos()) == Some(
                Err::<nat, Error>(Error::ReadError))),
        (*old(backend)).spec_exact() && spec_image_len_at::<T>((*old(backend)).spec_data(), (*old(backend)).spec_pos()) is Some
            && spec_image_len_at::<T>((*old(backend)).spec_data(), (*old(backend)).spec_pos())->0 is Ok ==> r is Ok,
{
    let len = match T::image_len() {
        Some(len) => len,
        None => return Err(Error::ReadError),
    };
    let mut buf: Vec<u8> = vec![0u8; len];
    let res = backend.read_exact(buf.as_mut_slice());
    match res {
        Ok(()) => Ok(T::from_image(buf.as_slice())),
        Err(e) => Err(e),
    }
}

/// A zero-copy image followed by any bytes is read back: the outcome is its length and
/// the value decoded is the one imaged, provided the position stays representable.
pub proof fn lemma_image_read_back<T: ZeroCopy>(v: T, pos: nat, rest: Seq<u8>)
    requires
        pos + T::spec_image_len() <= usize::MAX,
    ensures
        spec_image_len_at::<T>(v.spec_image() + rest, pos) == Some(Ok::<nat, Error>(T::spec_image_len())),
        spec_image_decodes(v, v.spec_image() + rest),
{
    T::lemma_image(v);
    assert((v.spec_image() + rest).take(T::spec_image_len() as int) =~= v.spec_image());
}

/// The outcome of reading a zero-copy value stored at `pos`: the padding to its
/// alignment, then its image.
pub open spec fn spec_zero_len<T: ZeroCopy>(data: Seq<u8>, pos: nat) -> Option<core::result::Result<nat, Error>> {
    let pad = spec_padding(pos, T::spec_max_size_of());
    if !spec_fits(data, pos, pad) {
        Some(Err(Error::ReadError))
    } else {
        match spec_image_len_at::<T>(data.skip(pad as int), pos + pad) {
            Some(Ok(n)) => Some(Ok(pad + n)),
            other => other,
        }
    }
}

/// Whether `v` is the zero-copy value stored at `pos`, after the padding.
pub open spec fn spec_zero_decodes<T: ZeroCopy>(v: T, data: Seq<u8>, pos: nat) -> bool {
    spec_image_decodes(v, data.skip(spec_padding(pos, T::spec_max_size_of()) as int))
}

/// Full-copy deserialize a zero-copy structure: skip the padding to its alignment,
/// then read its image.
pub fn deserialize_full_zero<T: ZeroCopy, R: ReadWithPos>(backend: &mut R) -> (r: Result<T>)
    requires
        spec_zero_len::<T>(old(backend).spec_data(), old(backend).spec_pos()) is Some,
    ensures
        spec_read(*old(backend), *final(backend), spec_zero_len::<T>(old(backend).spec_data(), old(backend).spec_pos()),
            T::spec_max_size_of() > 1,
            |v: T| spec_zero_decodes::<T>(v, old(backend).spec_data(), old(backend).spec_pos()), r),
{
    proof { T::lemma_image(vstd::pervasive::arbitrary()); }
    let ghost d0 = backend.spec_data();
    match backend.align::<T>() {
        Ok(()) => {},
        Err(e) => return Err(e),
    }
    let ghost pad = spec_padding(old(backend).spec_pos(), T::spec_max_size_of());
    let r = deserialize_image::<T, R>(backend);
    proof {
        if r is Ok {
            assert(backend.spec_data() =~= d0.skip((pad + T::spec_image_len()) as int));
        }
    }
    r
}

/// ε-copy deserialize a zero-copy structure backed by the `data` field of `backend`:
/// check the alignment of its image and read it.
pub fn deserialize_eps_zero<'a, T: ZeroCopy>(backend: &mut SliceWithPos<'a>) -> (r: Result<T>)
    requires
        spec_zero_len::<T>(old(backend).data@, old(backend).pos as nat) is Some,
    ensures
        spec_read_eps(*old(backend), *final(backend), spec_zero_len::<T>(old(backend).data@, old(backend).pos as nat),
            T::spec_max_size_of() > 1,
            |v: T| spec_zero_decodes::<T>(v, old(backend).data@, old(backend).pos as nat), r),
{
    proof { T::lemma_image(vstd::pervasive::arbitrary()); }
    let ghost d0 = backend.data@;
    match backend.align::<T>() {
        Ok(()) => {},
        Err(e) => return Err(e),
    }
    let ghost pad = spec_padding(old(backend).pos as nat, T::spec_max_size_of());
    let r = deserialize_image::<T, SliceWithPos<'a>>(backend);
    proof {
        if r is Ok {
            assert(backend.data@ =~= d0.skip((pad + T::spec_image_len()) as int));
        }
    }
    r
}

/// A zero-copy value serialized at `pos` and followed by any bytes is read back, taking
/// exactly the bytes written.
pub proof fn lemma_zero_read_back<T: ZeroCopy>(v: T, pos: nat, rest: Seq<u8>)
    requires
        pos + spec_ser_zero(v, pos).len() <= usize::MAX,
    ensures
        spec_zero_len::<T>(spec_ser_zero(v, pos) + rest, pos) == Some(Ok::<nat, Error>(spec_ser_zero(v, pos).len())),
        spec_zero_decodes::<T>(v, spec_ser_zero(v, pos) + rest, pos),
{
    T::lemma_image(v);
    let pad = spec_padding(pos, T::spec_max_size_of());
    let data = spec_ser_zero(v, pos) + rest;
    assert(data.skip(pad as int) =~= v.spec_image() + rest);
    lemma_image_read_back(v, pos + pad, rest);
}

/// The length stored at the start of `data`, as a `usize` image.
pub open spec fn spec_read_len(data: Seq<u8>) -> nat {
    spec_usize_from_le(data.take(usize_bytes() as int)) as nat
}

/// Where the images of a slice of zero-copy values stored at `pos` start, relative to
/// `pos`: after its length and the padding to the alignment of `T`.
pub open spec fn spec_zero_items_start<T: ZeroCopy>(pos: nat) -> nat {
    usize_bytes() + spec_padding(pos + usize_bytes(), T::spec_max_size_of())
}

/// The outcome of reading a slice of zero-copy values stored at `pos`: its length, the
/// padding and the images; a read error if they are not all there; `None` if some
/// image is invalid.
pub open spec fn spec_vec_zero_len<T: ZeroCopy>(data: Seq<u8>, pos: nat) -> Option<core::result::Result<nat, Error>> {
    if !spec_fits(data, pos, usize_bytes()) {
        Some(Err(Error::ReadError))
    } else {
        let n = spec_read_len(data);
        let start = spec_zero_items_start::<T>(pos);
        let total = start + n * T::spec_image_len();
        if !spec_fits(data, pos, total) {
            Some(Err(Error::ReadError))
        } else if spec_valid_images::<T>(data.skip(start as int), n) {
            Some(Ok(total))
        } else {
            None
        }
    }
}

/// The items of the slice of zero-copy values stored at `pos`.
pub open spec fn spec_vec_zero_items<T: ZeroCopy>(data: Seq<u8>, pos: nat) -> Seq<T> {
    spec_zero_items::<T>(data.skip(spec_zero_items_start::<T>(pos) as int), spec_read_len(data))
}

/// Validity and decoding of `n` images only look at the bytes they occupy.
pub proof fn lemma_zero_items_prefix<T: ZeroCopy>(a: Seq<u8>, b: Seq<u8>, n: nat)
    requires
        a.len() >= n * T::spec_image_len(),
        b.len() >= n * T::spec_image_len(),
        a.take((n * T::spec_image_len()) as int) == b.take((n * T::spec_image_len()) as int),
    ensures
        spec_valid_images::<T>(a, n) == spec_valid_images::<T>(b, n),
        spec_zero_items::<T>(a, n) == spec_zero_items::<T>(b, n),
{
    let il = T::spec_image_len();
    assert forall|i: int| 0 <= i < n implies spec_image_at::<T>(a, i) == #[trigger] spec_image_at::<T>(b, i) by {
        lemma_image_offsets(il, i as nat, n);
        assert(i * il >= 0) by (nonlinear_arith)
            requires
                i >= 0,
        ;
        let (lo, hi) = (i * il, (i + 1) * il);
        assert forall|j: int| 0 <= j < hi - lo implies spec_image_at::<T>(a, i)[j] == spec_image_at::<T>(b, i)[j] by {
            assert(a.take((n * il) as int)[lo + j] == b.take((n * il) as int)[lo + j]);
        }
        assert(spec_image_at::<T>(a, i) =~= spec_image_at::<T>(b, i));
    }
    assert(spec_zero_items::<T>(a, n) =~= spec_zero_items::<T>(b, n));
    if spec_valid_images::<T>(a, n) {
        assert forall|i: int| 0 <= i < n implies T::spec_valid_image(#[trigger] spec_image_at::<T>(b, i)) by {
            assert(T::spec_valid_image(spec_image_at::<T>(a, i)));
        }
    }
    if spec_valid_images::<T>(b, n) {
        assert forall|i: int| 0 <= i < n implies T::spec_valid_image(#[trigger] spec_image_at::<T>(a, i)) by {
            assert(spec_image_at::<T>(b, i) == spec_image_at::<T>(a, i));
        }
    }
}

/// Full-copy deserialize a vector of zero-copy structures.
///
/// The images are read with a single [`ReadNoStd::read_exact`] call and then decoded.
pub fn deserialize_full_vec_zero<T: ZeroCopy, R: ReadWithPos>(backend: &mut R) -> (r: Result<Vec<T>>)
    requires
        spec_vec_zero_len::<T>(old(backend).spec_data(), old(backend).spec_pos()) is Some,
    ensures
        spec_read(*old(backend), *final(backend), spec_vec_zero_len::<T>(old(backend).spec_data(), old(backend).spec_pos()),
            T::spec_max_size_of() > 1,
            |v: Vec<T>| v@ == spec_vec_zero_items::<T>(old(backend).spec_data(), old(backend).spec_pos()), r),
{
    let ghost d0 = backend.spec_data();
    let ghost p0 = backend.spec_pos();
    let ghost exact = backend.spec_exact();
    proof {
        lemma_usize_bits();
        T::lemma_image(vstd::pervasive::arbitrary());
    }
    let len = match deserialize_image::<usize, R>(backend) {
        Ok(len) => len,
        Err(e) => return Err(e),
    };
    let ghost d1 = backend.spec_data();
    let ghost p1 = backend.spec_pos();
    assert(len == spec_read_len(d0));
    match backend.align::<T>() {
        Ok(()) => {},
        Err(e) => {
            assert(!spec_fits(d0, p0, spec_zero_items_start::<T>(p0)) ==> !spec_fits(d0, p0,
                spec_zero_items_start::<T>(p0) + (len as nat) * T::spec_image_len())) by (nonlinear_arith);
            return Err(e);
        },
    }
    let ghost d2 = backend.spec_data();
    let ghost start = spec_zero_items_start::<T>(p0);
    assert(d2 =~= d0.skip(start as int));
    let bytes = match T::image_len() {
        Some(il) => match len.checked_mul(il) {
            Some(b) => b,
            None => return Err(Error::ReadError),
        },
        None => {
            if len != 0 {
                assert(len * T::spec_image_len() >= T::spec_image_len()) by (nonlinear_arith)
                    requires
                        len >= 1,
                ;
                return Err(Error::ReadError);
            }
            assert(len * T::spec_image_len() == 0) by (nonlinear_arith)
                requires
                    len == 0,
            ;
            0
        },
    };
    let mut buf: Vec<u8> = vec![0u8; bytes];
    match backend.read_exact(buf.as_mut_slice()) {
        Ok(()) => {},
        Err(e) => return Err(e),
    }
    proof {
        assert(buf@.take(bytes as int) =~= buf@);
        lemma_zero_items_prefix::<T>(buf@, d0.skip(start as int), len as nat);
        assert(backend.spec_data() =~= d0.skip((start + bytes) as int));
    }
    Ok(decode_images::<T>(buf.as_slice(), len))
}

/// ε-copy deserialize a slice of zero-copy structures backed by the `data` field of
/// `backend`.
pub fn deserialize_eps_slice_zero<'a, T: ZeroCopy>(backend: &mut SliceWithPos<'a>) -> (r: Result<ZeroSlice<'a, T>>)
    requires
        spec_vec_zero_len::<T>(old(backend).data@, old(backend).pos as nat) is Some,
    ensures
        spec_read_eps(*old(backend), *final(backend), spec_vec_zero_len::<T>(old(backend).data@, old(backend).pos as nat),
            T::spec_max_size_of() > 1,
            |d: ZeroSlice<'a, T>| d@ == spec_vec_zero_items::<T>(old(backend).data@, old(backend).pos as nat), r),
{
    let ghost d0 = backend.data@;
    let ghost p0 = backend.pos as nat;
    proof {
        lemma_usize_bits();
        T::lemma_image(vstd::pervasive::arbitrary());
    }
    let len = match deserialize_image::<usize, SliceWithPos<'a>>(backend) {
        Ok(len) => len,
        Err(e) => return Err(e),
    };
    assert(len == spec_read_len(d0));
    match backend.align::<T>() {
        Ok(()) => {},
        Err(e) => {
            assert(!spec_fits(d0, p0, spec_zero_items_start::<T>(p0)) ==> !spec_fits(d0, p0,
                spec_zero_items_start::<T>(p0) + (len as nat) * T::spec_image_len())) by (nonlinear_arith);
            return Err(e);
        },
    }
    let ghost start = spec_zero_items_start::<T>(p0);
    assert(backend.data@ =~= d0.skip(start as int));
    let bytes = match T::image_len() {
        Some(il) => match len.checked_mul(il) {
            Some(b) => b,
            None => return Err(Error::ReadError),
        },
        None => {
            if len != 0 {
                assert(len * T::spec_image_len() >= T::spec_image_len()) by (nonlinear_arith)
                    requires
                        len >= 1,
                ;
                return Err(Error::ReadError);
            }
            assert(len * T::spec_image_len() == 0) by (nonlinear_arith)
                requires
                    len == 0,
            ;
            0
        },
    };
    if bytes > backend.data.len() || bytes > usize::MAX - backend.pos {
        return Err(Error::ReadError);
    }
    let items = vstd::slice::slice_subrange(backend.data, 0, bytes);
    proof {
        assert(items@.take(bytes as int) =~= items@);
        assert(d0.skip(start as int).take(bytes as int) =~= items@);
        lemma_zero_items_prefix::<T>(items@, d0.skip(start as int), len as nat);
    }
    backend.skip(bytes);
    assert(backend.data@ =~= d0.skip((start + bytes) as int));
    Ok(ZeroSlice::from_images(items, len))
}

/// The outcome of reading `n` values of `T` one after the other from `data` at `pos`:
/// the bytes they take, or the first error met (`None` if some value cannot be decoded).
pub open spec fn spec_items_len<T: DeserializeInner>(data: Seq<u8>, pos: nat, n: nat) -> Option<core::result::Result<nat, Error>>
    decreases n,
{
    if n == 0 {
        Some(Ok(0))
    } else {
        match spec_items_len::<T>(data, pos, (n - 1) as nat) {
            Some(Ok(k)) => match T::spec_deser_len(data.skip(k as int), pos + k) {
                Some(Ok(m)) => Some(Ok(k + m)),
                other => other,
            },
            other => other,
        }
    }
}

/// Where the `i`-th of a sequence of values of `T` stored at `pos` starts, relative to `pos`.
pub open spec fn spec_item_offset<T: DeserializeInner>(data: Seq<u8>, pos: nat, i: nat) -> nat {
    spec_items_len::<T>(data, pos, i)->0->Ok_0
}

/// Reading fewer values succeeds when reading more does, and an error met early is the
/// error met in the end.
pub proof fn lemma_items_len_mono<T: DeserializeInner>(data: Seq<u8>, pos: nat, i: nat, n: nat)
    requires
        i <= n,
    ensures
        spec_items_len::<T>(data, pos, n) is Some ==> spec_items_len::<T>(data, pos, i) is Some,
        spec_items_len::<T>(data, pos, i) matches Some(Err(e)) ==> spec_items_len::<T>(data, pos, n) == Some(
            Err::<nat, Error>(e)),
        spec_items_len::<T>(data, pos, n) matches Some(Ok(_)) ==> spec_items_len::<T>(data, pos, i) is Some
            && spec_items_len::<T>(data, pos, i)->0 is Ok,
    decreases n - i,
{
    if i < n {
        lemma_items_len_mono::<T>(data, pos, (i + 1) as nat, n);
    }
}

/// The values read take bytes that are there, at representable positions.
pub proof fn lemma_items_len_fits<T: DeserializeInner>(data: Seq<u8>, pos: nat, n: nat)
    requires
        pos <= usize::MAX,
    ensures
        spec_items_len::<T>(data, pos, n) matches Some(Ok(k)) ==> spec_fits(data, pos, k),
    decreases n,
{
    if n > 0 {
        lemma_items_len_fits::<T>(data, pos, (n - 1) as nat);
        if let Some(Ok(k)) = spec_items_len::<T>(data, pos, (n - 1) as nat) {
            T::lemma_deser_len_fits(data.skip(k as int), pos + k);
        }
    }
}

/// The outcome of reading a slice of deep-copy values stored at `pos`: its length and
/// then the values one after the other.
pub open spec fn spec_vec_deep_len<T: DeserializeInner>(data: Seq<u8>, pos: nat) -> Option<core::result::Result<nat, Error>> {
    if !spec_fits(data, pos, usize_bytes()) {
        Some(Err(Error::ReadError))
    } else {
        match spec_items_len::<T>(data.skip(usize_bytes() as int), pos + usize_bytes(), spec_read_len(data)) {
            Some(Ok(k)) => Some(Ok(usize_bytes() + k)),
            other => other,
        }
    }
}

/// Whether `v` holds the `n` values of `T` stored one after the other at `pos`.
pub open spec fn spec_items_decode<T: DeserializeInner>(v: Seq<T>, data: Seq<u8>, pos: nat, n: nat) -> bool {
    &&& v.len() == n
    &&& forall|i: int|
        0 <= i < v.len() ==> T::spec_decodes(#[trigger] v[i], data.skip(spec_item_offset::<T>(data, pos, i as nat) as int),
            pos + spec_item_offset::<T>(data, pos, i as nat))
}

/// Whether `v` holds the ε-copies of the `n` values of `T` stored one after the other at `pos`.
pub open spec fn spec_items_eps_decode<'a, T: DeserializeInner>(v: Seq<T::DeserType<'a>>, data: Seq<u8>, pos: nat, n: nat) -> bool {
    &&& v.len() == n
    &&& forall|i: int|
        0 <= i < v.len() ==> T::spec_eps_decodes(#[trigger] v[i], data.skip(spec_item_offset::<T>(data, pos, i as nat) as int),
            pos + spec_item_offset::<T>(data, pos, i as nat))
}

/// Whether `v` holds the values of the slice of deep-copy values stored at `pos`.
pub open spec fn spec_vec_deep_decodes<T: DeserializeInner>(v: Seq<T>, data: Seq<u8>, pos: nat) -> bool {
    spec_items_decode::<T>(v, data.skip(usize_bytes() as int), pos + usize_bytes(), spec_read_len(data))
}

/// Whether `v` holds the ε-copies of the values of the slice of deep-copy values stored at `pos`.
pub open spec fn spec_vec_deep_eps_decodes<'a, T: DeserializeInner>(v: Seq<T::DeserType<'a>>, data: Seq<u8>, pos: nat) -> bool {
    spec_items_eps_decode::<T>(v, data.skip(usize_bytes() as int), pos + usize_bytes(), spec_read_len(data))
}

/// Full-copy deserialize `n` values of `T` stored one after the other.
pub fn deserialize_full_items<T: DeserializeInner, R: ReadWithPos>(backend: &mut R, n: usize) -> (r: Result<Vec<T>>)
    requires
        spec_items_len::<T>(old(backend).spec_data(), old(backend).spec_pos(), n as nat) is Some,
    ensures
        spec_read(*old(backend), *final(backend), spec_items_len::<T>(old(backend).spec_data(), old(backend).spec_pos(), n as nat),
            T::spec_aligns(),
            |v: Vec<T>| spec_items_decode::<T>(v@, old(backend).spec_data(), old(backend).spec_pos(), n as nat), r),
{
    let ghost d1 = backend.spec_data();
    let ghost p1 = backend.spec_pos();
    let ghost exact = backend.spec_exact();
    let start: usize = backend.pos();
    let mut res: Vec<T> = Vec::new();
    let mut i: usize = 0;
    assert(d1.skip(0) =~= d1);
    while i < n
        invariant
            i <= n,
            d1 == old(backend).spec_data(),
            p1 == old(backend).spec_pos(),
            spec_items_len::<T>(d1, p1, n as nat) is Some,
            exact == old(backend).spec_exact(),
            exact == backend.spec_exact(),
            spec_items_len::<T>(d1, p1, i as nat) matches Some(Ok(k)) && {
                &&& spec_fits(d1, p1, k)
                &&& backend.spec_data() == d1.skip(k as int)
                &&& backend.spec_pos() == p1 + k
            },
            res@.len() == i,
            forall|j: int| 0 <= j < i ==> T::spec_decodes(#[trigger] res@[j], d1.skip(spec_item_offset::<T>(d1, p1, j as nat) as int),
                p1 + spec_item_offset::<T>(d1, p1, j as nat)),
        decreases n - i,
    {
        let ghost k = spec_item_offset::<T>(d1, p1, i as nat);
        proof {
            lemma_items_len_mono::<T>(d1, p1, (i + 1) as nat, n as nat);
            T::lemma_deser_len_fits(d1.skip(k as int), p1 + k);
        }
        match T::_deserialize_full_inner(backend) {
            Ok(v) => {
                res.push(v);
            },
            Err(e) => {
                proof { lemma_items_len_mono::<T>(d1, p1, (i + 1) as nat, n as nat); }
                return Err(e);
            },
        }
        proof {
            let m = T::spec_deser_len(d1.skip(k as int), p1 + k)->0->Ok_0;
            assert(backend.spec_data() =~= d1.skip((k + m) as int));
        }
        i = i + 1;
    }
    Ok(res)
}

/// ε-copy deserialize `n` values of `T` stored one after the other.
pub fn deserialize_eps_items<'a, T: DeserializeInner>(backend: &mut SliceWithPos<'a>, n: usize) -> (r: Result<Vec<T::DeserType<'a>>>)
    requires
        spec_items_len::<T>(old(backend).data@, old(backend).pos as nat, n as nat) is Some,
    ensures
        spec_read_eps(*old(backend), *final(backend), spec_items_len::<T>(old(backend).data@, old(backend).pos as nat, n as nat),
            T::spec_aligns(),
            |v: Vec<T::DeserType<'a>>| spec_items_eps_decode::<T>(v@, old(backend).data@, old(backend).pos as nat, n as nat), r),
{
    let ghost d1 = backend.data@;
    let ghost p1 = backend.pos as nat;
    let mut res: Vec<T::DeserType<'a>> = Vec::new();
    let mut i: usize = 0;
    assert(d1.skip(0) =~= d1);
    while i < n
        invariant
            i <= n,
            d1 == old(backend).data@,
            p1 == old(backend).pos as nat,
            spec_items_len::<T>(d1, p1, n as nat) is Some,
            spec_items_len::<T>(d1, p1, i as nat) matches Some(Ok(k)) && {
                &&& spec_fits(d1, p1, k)
                &&& backend.data@ == d1.skip(k as int)
                &&& backend.pos == p1 + k
            },
            res@.len() == i,
            forall|j: int| 0 <= j < i ==> T::spec_eps_decodes(#[trigger] res@[j], d1.skip(spec_item_offset::<T>(d1, p1, j as nat) as int),
                p1 + spec_item_offset::<T>(d1, p1, j as nat)),
        decreases n - i,
    {
        let ghost k = spec_item_offset::<T>(d1, p1, i as nat);
        proof {
            lemma_items_len_mono::<T>(d1, p1, (i + 1) as nat, n as nat);
            T::lemma_deser_len_fits(d1.skip(k as int), p1 + k);
        }
        match T::_deserialize_eps_inner(backend) {
            Ok(v) => {
                res.push(v);
            },
            Err(e) => {
                return Err(e);
            },
        }
        proof {
            let m = T::spec_deser_len(d1.skip(k as int), p1 + k)->0->Ok_0;
            assert(backend.data@ =~= d1.skip((k + m) as int));
        }
        i = i + 1;
    }
    Ok(res)
}

/// Full-copy deserialize a vector of deep-copy structures: its length, then the items.
pub fn deserialize_full_vec_deep<T: DeserializeInner, R: ReadWithPos>(backend: &mut R) -> (r: Result<Vec<T>>)
    requires
        spec_vec_deep_len::<T>(old(backend).spec_data(), old(backend).spec_pos()) is Some,
    ensures
        spec_read(*old(backend), *final(backend), spec_vec_deep_len::<T>(old(backend).spec_data(), old(backend).spec_pos()),
            T::spec_aligns(),
            |v: Vec<T>| spec_vec_deep_decodes::<T>(v@, old(backend).spec_data(), old(backend).spec_pos()), r),
{
    let ghost d0 = backend.spec_data();
    let ghost p0 = backend.spec_pos();
    proof { lemma_usize_bits(); }
    let len = match deserialize_image::<usize, R>(backend) {
        Ok(len) => len,
        Err(e) => return Err(e),
    };
    assert(len == spec_read_len(d0));
    let ghost d1 = backend.spec_data();
    let ghost p1 = backend.spec_pos();
    let res = deserialize_full_items::<T, R>(backend, len);
    proof {
        assert(d1 == d0.skip(usize_bytes() as int));
        lemma_items_len_fits::<T>(d1, p1, len as nat);
        if let Some(Ok(k)) = spec_items_len::<T>(d1, p1, len as nat) {
            assert(d1.skip(k as int) =~= d0.skip((usize_bytes() + k) as int));
        }
    }
    res
}

/// ε-copy deserialize a vector of deep-copy structures: its length, then the items.
pub fn deserialize_eps_vec_deep<'a, T: DeserializeInner>(backend: &mut SliceWithPos<'a>) -> (r: Result<Vec<T::DeserType<'a>>>)
    requires
        spec_vec_deep_len::<T>(old(backend).data@, old(backend).pos as nat) is Some,
    ensures
        spec_read_eps(*old(backend), *final(backend), spec_vec_deep_len::<T>(old(backend).data@, old(backend).pos as nat),
            T::spec_aligns(),
            |v: Vec<T::DeserType<'a>>| spec_vec_deep_eps_decodes::<T>(v@, old(backend).data@, old(backend).pos as nat), r),
{
    let ghost d0 = backend.data@;
    let ghost p0 = backend.pos as nat;
    proof { lemma_usize_bits(); }
    let len = match deserialize_image::<usize, SliceWithPos<'a>>(backend) {
        Ok(len) => len,
        Err(e) => return Err(e),
    };
    assert(len == spec_read_len(d0));
    let ghost d1 = backend.data@;
    let ghost p1 = backend.pos as nat;
    let res = deserialize_eps_items::<T>(backend, len);
    proof {
        assert(d1 == d0.skip(usize_bytes() as int));
        lemma_items_len_fits::<T>(d1, p1, len as nat);
        if let Some(Ok(k)) = spec_items_len::<T>(d1, p1, len as nat) {
            assert(d1.skip(k as int) =~= d0.skip((usize_bytes() + k) as int));
        }
    }
    res
}

/// What checking the bytes at a position tells of an outcome: `None` when they cannot be
/// decoded at all, `Some(None)` when reading them meets an error, and `Some(Some(m))`
/// when a value takes `m` bytes.
pub open spec fn spec_check_outcome(outcome: Option<core::result::Result<nat, Error>>) -> Option<Option<usize>> {
    match outcome {
        None => None,
        Some(Err(_)) => Some(None),
        Some(Ok(m)) => Some(Some(m as usize)),
    }
}

/// Check the image of a zero-copy value at the start of `data`, at position `pos`.
pub fn check_image<T: ZeroCopy>(data: &[u8], pos: usize) -> (r: Option<Option<usize>>)
    ensures
        r == spec_check_outcome(spec_image_len_at::<T>(data@, pos as nat)),
{
    let il = match T::image_len() {
        Some(il) => il,
        None => return Some(None),
    };
    if il > data.len() || il > usize::MAX - pos {
        return Some(None);
    }
    let image = vstd::slice::slice_subrange(data, 0, il);
    assert(image@ =~= data@.take(il as int));
    if T::is_valid_image(image) {
        Some(Some(il))
    } else {
        None
    }
}

/// Check a zero-copy value stored at the start of `data`, at position `pos`: padding
/// to its alignment, then its image.
pub fn check_zero<T: ZeroCopy>(data: &[u8], pos: usize) -> (r: Option<Option<usize>>)
    ensures
        r == spec_check_outcome(spec_zero_len::<T>(data@, pos as nat)),
{
    proof { T::lemma_image(vstd::pervasive::arbitrary()); }
    let pad = pad_align_to(pos, T::max_size_of());
    if pad > data.len() || pad > usize::MAX - pos {
        return Some(None);
    }
    let rest = vstd::slice::slice_subrange(data, pad, data.len());
    assert(rest@ =~= data@.skip(pad as int));
    match check_image::<T>(rest, pos + pad) {
        Some(Some(n)) => Some(Some(pad + n)),
        other => other,
    }
}

/// The length stored at the start of `data`.
pub(crate) fn read_len(data: &[u8]) -> (r: usize)
    requires
        data@.len() >= usize_bytes(),
    ensures
        r == spec_read_len(data@),
{
    let ub = usize_size();
    let image = vstd::slice::slice_subrange(data, 0, ub);
    assert(image@ =~= data@.take(ub as int));
    <usize as ZeroCopy>::from_image(image)
}

/// Check a slice of zero-copy values stored at the start of `data`, at position `pos`.
pub fn check_vec_zero<T: ZeroCopy>(data: &[u8], pos: usize) -> (r: Option<Option<usize>>)
    ensures
        r == spec_check_outcome(spec_vec_zero_len::<T>(data@, pos as nat)),
{
    proof { T::lemma_image(vstd::pervasive::arbitrary()); lemma_usize_bits(); }
    let ub = usize_size();
    if ub > data.len() || ub > usize::MAX - pos {
        return Some(None);
    }
    let n = read_len(data);
    let pad = pad_align_to(pos + ub, T::max_size_of());
    if pad > usize::MAX - ub {
        assert(spec_zero_items_start::<T>(pos as nat) + (n as nat) * T::spec_image_len() > usize::MAX);
        return Some(None);
    }
    let start = ub + pad;
    let bytes = match T::image_len() {
        Some(il) => match n.checked_mul(il) {
            Some(b) => b,
            None => return Some(None),
        },
        None => {
            if n != 0 {
                assert(n * T::spec_image_len() >= T::spec_image_len()) by (nonlinear_arith)
                    requires
                        n >= 1,
                ;
                return Some(None);
            }
            assert(n * T::spec_image_len() == 0) by (nonlinear_arith)
                requires
                    n == 0,
            ;
            0
        },
    };
    if start > data.len() || bytes > data.len() - start || start > usize::MAX - pos || bytes > usize::MAX - pos - start {
        return Some(None);
    }
    let images = vstd::slice::slice_subrange(data, start, start + bytes);
    proof {
        assert(images@.take(bytes as int) =~= images@);
        assert(data@.skip(start as int).take(bytes as int) =~= images@);
        lemma_zero_items_prefix::<T>(images@, data@.skip(start as int), n as nat);
    }
    if valid_images::<T>(images, n) {
        Some(Some(start + bytes))
    } else {
        None
    }
}

/// Check `n` values of `T` stored one after the other at the start of `data`, at
/// position `pos`.
pub fn check_items<T: DeserializeInner>(data: &[u8], pos: usize, n: usize) -> (r: Option<Option<usize>>)
    ensures
        r == spec_check_outcome(spec_items_len::<T>(data@, pos as nat, n as nat)),
{
    let mut i: usize = 0;
    let mut k: usize = 0;
    while i < n
        invariant
            i <= n,
            spec_items_len::<T>(data@, pos as nat, i as nat) == Some(Ok::<nat, Error>(k as nat)),
            spec_fits(data@, pos as nat, k as nat),
        decreases n - i,
    {
        let rest = vstd::slice::slice_subrange(data, k, data.len());
        assert(rest@ =~= data@.skip(k as int));
        proof { T::lemma_deser_len_fits(data@.skip(k as int), (pos + k) as nat); }
        match T::_check(rest, pos + k) {
            Some(Some(m)) => {
                k = k + m;
            },
            other => {
                proof { lemma_items_len_mono::<T>(data@, pos as nat, (i + 1) as nat, n as nat); }
                return other;
            },
        }
        i = i + 1;
    }
    Some(Some(k))
}

/// Check a slice of deep-copy values stored at the start of `data`, at position `pos`.
pub fn check_vec_deep<T: DeserializeInner>(data: &[u8], pos: usize) -> (r: Option<Option<usize>>)
    ensures
        r == spec_check_outcome(spec_vec_deep_len::<T>(data@, pos as nat)),
{
    proof { lemma_usize_bits(); }
    let ub = usize_size();
    if ub > data.len() || ub > usize::MAX - pos {
        return Some(None);
    }
    let n = read_len(data);
    let rest = vstd::slice::slice_subrange(data, ub, data.len());
    assert(rest@ =~= data@.skip(ub as int));
    proof { lemma_items_len_fits::<T>(rest@, (pos + ub) as nat, n as nat); }
    match check_items::<T>(rest, pos + ub, n) {
        Some(Some(m)) => Some(Some(ub + m)),
        other => other,
    }
}

/// The images of a sequence of zero-copy values lie one after the other.
pub proof fn lemma_images_layout<T: ZeroCopy>(s: Seq<T>)
    ensures
        spec_images(s).len() == s.len() * T::spec_image_len(),
        forall|i: int| 0 <= i < s.len() ==> #[trigger] spec_image_at::<T>(spec_images(s), i) == s[i].spec_image(),
    decreases s.len(),
{
    if s.len() > 0 {
        let t = s.drop_last();
        let n = s.len();
        let il = T::spec_image_len();
        lemma_images_layout(t);
        T::lemma_image(s.last());
        assert((n - 1) * il + il == n * il) by (nonlinear_arith);
        assert forall|i: int| 0 <= i < s.len() implies #[trigger] spec_image_at::<T>(spec_images(s), i) == s[i].spec_image() by {
            lemma_image_offsets(il, i as nat, n);
            assert(i * il >= 0) by (nonlinear_arith)
                requires
                    i >= 0,
            ;
            if i < n - 1 {
                lemma_image_offsets(il, i as nat, (n - 1) as nat);
                assert(spec_image_at::<T>(spec_images(s), i) =~= spec_image_at::<T>(spec_images(t), i));
            } else {
                assert(spec_image_at::<T>(spec_images(s), i) =~= s.last().spec_image());
            }
        }
    }
}

/// A slice of zero-copy values serialized at `pos` and followed by any bytes is read
/// back, taking exactly the bytes written.
pub proof fn lemma_vec_zero_read_back<T: ZeroCopy>(s: Seq<T>, pos: nat, rest: Seq<u8>)
    requires
        s.len() <= usize::MAX,
        pos + spec_ser_slice_zero(s, pos).len() <= usize::MAX,
    ensures
        spec_vec_zero_len::<T>(spec_ser_slice_zero(s, pos) + rest, pos) == Some(
            Ok::<nat, Error>(spec_ser_slice_zero(s, pos).len()),
        ),
        spec_vec_zero_items::<T>(spec_ser_slice_zero(s, pos) + rest, pos) == s,
{
    let n = s.len();
    let ser = spec_ser_slice_zero(s, pos);
    let data = ser + rest;
    let ub = usize_bytes();
    let start = spec_zero_items_start::<T>(pos);
    let lenb = spec_usize_le(n as usize);
    lemma_usize_le(n as usize);
    lemma_images_layout(s);
    let imgs = spec_images(s);
    assert(data.take(ub as int) =~= lenb);
    assert(spec_read_len(data) == n);
    assert(data.skip(start as int) =~= imgs + rest);
    assert((imgs + rest).take((n * T::spec_image_len()) as int) =~= imgs.take((n * T::spec_image_len()) as int));
    lemma_zero_items_prefix::<T>(imgs, imgs + rest, n);
    assert forall|i: int| 0 <= i < n implies T::spec_valid_image(#[trigger] spec_image_at::<T>(imgs, i)) by {
        T::lemma_image(s[i]);
    }
    assert(spec_zero_items::<T>(imgs, n) =~= s) by {
        assert forall|i: int| 0 <= i < n implies spec_zero_items::<T>(imgs, n)[i] == s[i] by {
            T::lemma_image(s[i]);
            assert(spec_image_at::<T>(imgs, i) == s[i].spec_image());
        }
    }
}

/// Values serialized one after the other at `pos` and followed by any bytes are read
/// back, each at the offset where it was written.
pub proof fn lemma_items_read_back<T: DeserializeInner>(s: Seq<T>, pos: nat, rest: Seq<u8>)
    requires
        pos + spec_ser_seq(s, pos).len() <= usize::MAX,
    ensures
        spec_items_len::<T>(spec_ser_seq(s, pos) + rest, pos, s.len()) == Some(
            Ok::<nat, Error>(spec_ser_seq(s, pos).len()),
        ),
        forall|i: int|
            0 <= i < s.len() ==> {
                &&& #[trigger] spec_item_offset::<T>(spec_ser_seq(s, pos) + rest, pos, i as nat) == spec_ser_seq(
                    s.take(i),
                    pos,
                ).len()
                &&& T::spec_decodes(
                    s[i],
                    (spec_ser_seq(s, pos) + rest).skip(spec_ser_seq(s.take(i), pos).len() as int),
                    pos + spec_ser_seq(s.take(i), pos).len(),
                )
            },
    decreases s.len(),
{
    if s.len() > 0 {
        let n = s.len();
        let t = s.drop_last();
        let a = spec_ser_seq(t, pos);
        let x = s.last().spec_ser(pos + a.len());
        let d = spec_ser_seq(s, pos) + rest;
        assert(d =~= a + (x + rest));
        lemma_items_read_back(t, pos, x + rest);
        T::lemma_deser_ser(s.last(), pos + a.len(), rest);
        assert(d.skip(a.len() as int) =~= x + rest);
        assert(s.take(n - 1) =~= t);
        assert forall|i: int| 0 <= i < s.len() implies {
            &&& #[trigger] spec_item_offset::<T>(spec_ser_seq(s, pos) + rest, pos, i as nat) == spec_ser_seq(
                s.take(i),
                pos,
            ).len()
            &&& T::spec_decodes(s[i], (spec_ser_seq(s, pos) + rest).skip(spec_ser_seq(s.take(i), pos).len() as int),
                pos + spec_ser_seq(s.take(i), pos).len())
        } by {
            if i < n - 1 {
                assert(s.take(i) =~= t.take(i));
                assert(spec_item_offset::<T>(a + (x + rest), pos, i as nat) == spec_ser_seq(t.take(i), pos).len());
                assert(t[i] == s[i]);
            } else {
                assert(spec_items_len::<T>(a + (x + rest), pos, t.len()) == Some(Ok::<nat, Error>(a.len())));
                assert(spec_item_offset::<T>(d, pos, i as nat) == a.len());
                assert(spec_ser_seq(s.take(i), pos) == a);
                assert(s[i] == s.last());
            }
        }
    }
}

/// A slice of deep-copy values serialized at `pos` and followed by any bytes is read
/// back, taking exactly the bytes written.
pub proof fn lemma_vec_deep_read_back<T: DeserializeInner>(s: Seq<T>, pos: nat, rest: Seq<u8>)
    requires
        s.len() <= usize::MAX,
        pos + spec_ser_slice_deep(s, pos).len() <= usize::MAX,
    ensures
        spec_vec_deep_len::<T>(spec_ser_slice_deep(s, pos) + rest, pos) == Some(
            Ok::<nat, Error>(spec_ser_slice_deep(s, pos).len()),
        ),
        spec_vec_deep_decodes::<T>(s, spec_ser_slice_deep(s, pos) + rest, pos),
{
    let n = s.len();
    let ub = usize_bytes();
    let data = spec_ser_slice_deep(s, pos) + rest;
    let items = spec_ser_seq(s, pos + ub);
    lemma_usize_le(n as usize);
    assert(data.take(ub as int) =~= spec_usize_le(n as usize));
    assert(spec_read_len(data) == n);
    assert(data.skip(ub as int) =~= items + rest);
    lemma_items_read_back(s, pos + ub, rest);
}

/// In the serialization of values one after the other at `pos`, followed by any
/// bytes, the bytes from the `i`-th value on are its serialization followed by the rest.
pub proof fn lemma_item_split<T: SerializeInner>(s: Seq<T>, pos: nat, rest: Seq<u8>, i: int)
    requires
        0 <= i < s.len(),
    ensures
        ({
            let d = spec_ser_seq(s, pos) + rest;
            let off = spec_ser_seq(s.take(i), pos).len();
            let x = s[i].spec_ser(pos + off);
            &&& off + x.len() <= spec_ser_seq(s, pos).len()
            &&& d.skip(off as int) == x + d.skip((off + x.len()) as int)
        }),
{
    lemma_ser_seq_prefix(s, pos, (i + 1) as nat);
    assert(s.take(i + 1).drop_last() =~= s.take(i));
    let d = spec_ser_seq(s, pos) + rest;
    let off = spec_ser_seq(s.take(i), pos).len();
    let x = s[i].spec_ser(pos + off);
    let whole = spec_ser_seq(s, pos);
    let pre = spec_ser_seq(s.take(i + 1), pos);
    assert(pre == spec_ser_seq(s.take(i), pos) + x);
    assert(whole.take(pre.len() as int) == pre);
    assert forall|j: int| 0 <= j < x.len() implies d.skip(off as int)[j] == x[j] by {
        assert(whole.take(pre.len() as int)[off + j] == pre[off + j]);
    }
    assert(d.skip(off as int) =~= x + d.skip((off + x.len()) as int));
}

/// The values read from values serialized one after the other at `pos`, followed by
/// any bytes, hold the same data as the values written.
pub proof fn lemma_items_same<T: DeserializeInner>(s: Seq<T>, w: Seq<T>, pos: nat, rest: Seq<u8>)
    requires
        pos + spec_ser_seq(s, pos).len() <= usize::MAX,
        spec_items_decode::<T>(w, spec_ser_seq(s, pos) + rest, pos, s.len()),
    ensures
        w.len() == s.len(),
        forall|i: int| 0 <= i < s.len() ==> T::spec_same(#[trigger] w[i], s[i]),
{
    lemma_items_read_back(s, pos, rest);
    assert forall|i: int| 0 <= i < s.len() implies T::spec_same(#[trigger] w[i], s[i]) by {
        lemma_item_split(s, pos, rest, i);
        let d = spec_ser_seq(s, pos) + rest;
        let off = spec_ser_seq(s.take(i), pos).len();
        let x = s[i].spec_ser(pos + off);
        assert(spec_item_offset::<T>(d, pos, i as nat) == off);
        T::lemma_read_back(s[i], w[i], pos + off, d.skip((off + x.len()) as int));
    }
}

/// The ε-copies read from values serialized one after the other at `pos`, followed by
/// any bytes, hold the same data as the values written.
pub proof fn lemma_items_eps_same<'a, T: DeserializeInner>(s: Seq<T>, w: Seq<T::DeserType<'a>>, pos: nat, rest: Seq<u8>)
    requires
        pos + spec_ser_seq(s, pos).len() <= usize::MAX,
        spec_items_eps_decode::<T>(w, spec_ser_seq(s, pos) + rest, pos, s.len()),
    ensures
        w.len() == s.len(),
        forall|i: int| 0 <= i < s.len() ==> T::spec_eps_same(#[trigger] w[i], s[i]),
{
    lemma_items_read_back(s, pos, rest);
    assert forall|i: int| 0 <= i < s.len() implies T::spec_eps_same(#[trigger] w[i], s[i]) by {
        lemma_item_split(s, pos, rest, i);
        let d = spec_ser_seq(s, pos) + rest;
        let off = spec_ser_seq(s.take(i), pos).len();
        let x = s[i].spec_ser(pos + off);
        assert(spec_item_offset::<T>(d, pos, i as nat) == off);
        T::lemma_eps_read_back(s[i], w[i], pos + off, d.skip((off + x.len()) as int));
    }
}

/// The values read from the serialization of a slice of deep-copy values hold the same
/// data as the values written.
pub proof fn lemma_vec_deep_same<T: DeserializeInner>(s: Seq<T>, w: Seq<T>, pos: nat, rest: Seq<u8>)
    requires
        s.len() <= usize::MAX,
        pos + spec_ser_slice_deep(s, pos).len() <= usize::MAX,
        spec_vec_deep_decodes::<T>(w, spec_ser_slice_deep(s, pos) + rest, pos),
    ensures
        w.len() == s.len(),
        forall|i: int| 0 <= i < s.len() ==> T::spec_same(#[trigger] w[i], s[i]),
{
    let ub = usize_bytes();
    let data = spec_ser_slice_deep(s, pos) + rest;
    lemma_usize_le(s.len() as usize);
    assert(data.take(ub as int) =~= spec_usize_le(s.len() as usize));
    assert(data.skip(ub as int) =~= spec_ser_seq(s, pos + ub) + rest);
    lemma_items_same(s, w, pos + ub, rest);
}

/// The ε-copies read from the serialization of a slice of deep-copy values hold the
/// same data as the values written.
pub proof fn lemma_vec_deep_eps_same<'a, T: DeserializeInner>(
    s: Seq<T>,
    w: Seq<T::DeserType<'a>>,
    pos: nat,
    rest: Seq<u8>,
)
    requires
        s.len() <= usize::MAX,
        pos + spec_ser_slice_deep(s, pos).len() <= usize::MAX,
        spec_vec_deep_eps_decodes::<T>(w, spec_ser_slice_deep(s, pos) + rest, pos),
    ensures
        w.len() == s.len(),
        forall|i: int| 0 <= i < s.len() ==> T::spec_eps_same(#[trigger] w[i], s[i]),
{
    let ub = usize_bytes();
    let data = spec_ser_slice_deep(s, pos) + rest;
    lemma_usize_le(s.len() as usize);
    assert(data.take(ub as int) =~= spec_usize_le(s.len() as usize));
    assert(data.skip(ub as int) =~= spec_ser_seq(s, pos + ub) + rest);
    lemma_items_eps_same(s, w, pos + ub, rest);
}

/// Law: the bytes [`crate::ser::serialize_slice_deep`] writes for deep-copy values at
/// `pos`, followed by any bytes, are read back by [`deserialize_full_vec_deep`] (and its
/// ε-copy counterpart) taking exactly the bytes written, and every vector read there has
/// as many items as were written, each holding the same data as the item written.
pub proof fn lemma_slice_deep_round_trip<'a, T: DeserializeInner>(s: Seq<T>, pos: nat, rest: Seq<u8>)
    requires
        s.len() <= usize::MAX,
        pos + spec_ser_slice_deep(s, pos).len() <= usize::MAX,
    ensures
        spec_vec_deep_len::<T>(spec_ser_slice_deep(s, pos) + rest, pos) == Some(
            Ok::<nat, Error>(spec_ser_slice_deep(s, pos).len()),
        ),
        forall|w: Seq<T>|
            #[trigger] spec_vec_deep_decodes::<T>(w, spec_ser_slice_deep(s, pos) + rest, pos) ==> {
                &&& w.len() == s.len()
                &&& forall|i: int| 0 <= i < s.len() ==> T::spec_same(#[trigger] w[i], s[i])
            },
        forall|w: Seq<T::DeserType<'a>>|
            #[trigger] spec_vec_deep_eps_decodes::<T>(w, spec_ser_slice_deep(s, pos) + rest, pos) ==> {
                &&& w.len() == s.len()
                &&& forall|i: int| 0 <= i < s.len() ==> T::spec_eps_same(#[trigger] w[i], s[i])
            },
{
    lemma_vec_deep_read_back(s, pos, rest);
    assert forall|w: Seq<T>| #[trigger] spec_vec_deep_decodes::<T>(w, spec_ser_slice_deep(s, pos) + rest, pos) implies {
        &&& w.len() == s.len()
        &&& forall|i: int| 0 <= i < s.len() ==> T::spec_same(#[trigger] w[i], s[i])
    } by {
        lemma_vec_deep_same(s, w, pos, rest);
    }
    assert forall|w: Seq<T::DeserType<'a>>|
        #[trigger] spec_vec_deep_eps_decodes::<T>(w, spec_ser_slice_deep(s, pos) + rest, pos) implies {
        &&& w.len() == s.len()
        &&& forall|i: int| 0 <= i < s.len() ==> T::spec_eps_same(#[trigger] w[i], s[i])
    } by {
        lemma_vec_deep_eps_same(s, w, pos, rest);
    }
}

/// Law: for item types whose values read back equal the values written (such as
/// primitive types, strings and vectors of them), the bytes
/// [`crate::ser::serialize_slice_deep`] writes at `pos`, followed by any bytes, are read
/// back by [`deserialize_full_vec_deep`] as exactly the items written, taking exactly
/// the bytes written.
pub proof fn lemma_slice_deep_round_trip_equal<T: DeserializeInner>(s: Seq<T>, pos: nat, rest: Seq<u8>)
    requires
        s.len() <= usize::MAX,
        pos + spec_ser_slice_deep(s, pos).len() <= usize::MAX,
        forall|a: T, b: T| #[trigger] T::spec_same(a, b) ==> a == b,
    ensures
        spec_vec_deep_len::<T>(spec_ser_slice_deep(s, pos) + rest, pos) == Some(
            Ok::<nat, Error>(spec_ser_slice_deep(s, pos).len()),
        ),
        forall|w: Seq<T>| #[trigger] spec_vec_deep_decodes::<T>(w, spec_ser_slice_deep(s, pos) + rest, pos) ==> w == s,
{
    lemma_vec_deep_read_back(s, pos, rest);
    assert forall|w: Seq<T>| #[trigger] spec_vec_deep_decodes::<T>(w, spec_ser_slice_deep(s, pos) + rest, pos) implies w
        == s by {
        lemma_vec_deep_same(s, w, pos, rest);
        assert forall|i: int| 0 <= i < s.len() implies w[i] == s[i] by {
            assert(T::spec_same(w[i], s[i]));
        }
        assert(w =~= s);
    }
}

} // verus!
