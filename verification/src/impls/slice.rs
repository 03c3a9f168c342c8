//! Implementations for slices.
//!
//! Slices cannot be deserialized in isolation, but they have a name, a type hash and a
//! representation hash, so that they can be used with
//! [`PhantomData`](core::marker::PhantomData).
//!
//! A slice can be serialized with [`serialize_slice`] as the vector holding its
//! items, and then read back as such a vector; an ε-copy of that vector gives back
//! the items of the slice.

use vstd::prelude::*;
use vstd::string::*;
use crate::ser::{Result, SerializeInner, SerializeSlice, WriteNoStd};
use crate::ser::serialize::{spec_file, spec_header, write_header};
use crate::traits::{CopyType, ReprHash, TypeHash, TypeHasher, TypeName, spec_str_hash_input};

verus! {

impl<T: TypeName> TypeName for [T] {
    open spec fn spec_type_name() -> Seq<char> {
        "["@ + T::spec_type_name() + "]"@
    }

    fn type_name_str() -> (r: String) {
        let mut name = String::from_str("[");
        let inner = T::type_name_str();
        name.append(inner.as_str());
        name.append("]");
        name
    }
}

/// The type hash of a slice is that of `[]` and the type hash of its items.
impl<T: TypeHash> TypeHash for [T] {
    open spec fn spec_type_hash_input() -> Seq<u8> {
        spec_str_hash_input("[]") + T::spec_type_hash_input()
    }

    fn type_hash(hasher: &mut TypeHasher) {
        hasher.write_str("[]");
        T::type_hash(hasher);
        assert(hasher@ =~= old(hasher)@ + Self::spec_type_hash_input());
    }
}

/// A slice has no representation of its own: nothing is hashed and the offset is kept.
impl<T> ReprHash for [T] {
    open spec fn spec_repr_hash(offset_of: nat) -> (Seq<u8>, nat) {
        (Seq::empty(), offset_of)
    }

    fn repr_hash(hasher: &mut TypeHasher, offset_of: &mut usize) {
        assert(hasher@ + Seq::<u8>::empty() =~= hasher@);
    }
}

/// The bytes of a slice serialized as the vector holding its items: the header of such
/// a vector, then the items as the vector writes them.
pub open spec fn spec_slice_file<T: CopyType + SerializeSlice<<T as CopyType>::Copy> + TypeName + TypeHash + ReprHash>(
    s: Seq<T>,
) -> Seq<u8> {
    spec_header::<Vec<T>>(0) + T::spec_ser_slice(s, spec_header::<Vec<T>>(0).len())
}

/// Serialize a slice as the vector holding its items, returning the number of bytes
/// written: the bytes are those of any vector with the same items, so they are read
/// back as a vector.
///
/// The bytes are produced in memory and then handed to the backend with a single
/// write, followed by a flush.
pub fn serialize_slice<T, W: WriteNoStd>(data: &[T], backend: &mut W) -> (r: Result<usize>) where
    T: CopyType + SerializeInner + SerializeSlice<<T as CopyType>::Copy> + TypeHash + ReprHash,
    requires
        old(backend).wf(),
        T::spec_repr_hash(0).1 <= usize::MAX,
    ensures
        r matches Ok(n) ==> {
            &&& (*final(backend)).wf()
            &&& (*final(backend)).spec_written() == old(backend).spec_written() + spec_slice_file::<T>(data@)
            &&& n == spec_slice_file::<T>(data@).len()
        },
        r is Err ==> r->Err_0 is WriteError,
        spec_slice_file::<T>(data@).len() <= usize::MAX && spec_slice_file::<T>(data@).len() <= old(
            backend,
        ).spec_room() && old(backend).spec_reliable() ==> r is Ok,
        forall|v: Vec<T>| v@ == data@ ==> #[trigger] spec_file(&v) == spec_slice_file::<T>(data@),
{
    let mut buffer: Vec<u8> = Vec::new();
    let ghost start = buffer;
    let ghost header = spec_header::<Vec<T>>(0);
    let ghost items = T::spec_ser_slice(data@, header.len());
    let res = write_header::<Vec<T>, Vec<u8>>(&mut buffer);
    let ghost mid = buffer;
    match res {
        Ok(()) => {},
        Err(e) => {
            proof { crate::ser::lemma_wrote_stop(start, mid, header, items, res); }
            return Err(e);
        },
    }
    let res = T::_serialize_slice(data, &mut buffer);
    proof { crate::ser::lemma_wrote_seq(start, mid, buffer, header, items, res); }
    match res {
        Ok(()) => {},
        Err(e) => return Err(e),
    }
    let len = buffer.len();
    assert(buffer@ =~= spec_slice_file::<T>(data@));
    match backend.write_all(buffer.as_slice()) {
        Ok(()) => {},
        Err(e) => return Err(e),
    }
    match backend.flush() {
        Ok(()) => {},
        Err(e) => return Err(e),
    }
    Ok(len)
}

} // verus!
