//! Laws on reading: which headers are refused and with which error, how option tags
//! and primitive values are read.

use vstd::prelude::*;
use vstd::bytes::*;
use crate::{MAGIC, MAGIC_REV, VERSION};
use crate::bytes::usize_bytes;
use crate::deser::{DeserializeInner, Error, spec_fits};
use crate::deser::deserialize::spec_header_outcome;
use crate::traits::{ReprHash, TypeHash, TypeName};

verus! {

/// Law: a header whose first eight bytes, read as a little-endian integer, are not the
/// magic cookie is refused with that integer, or as an endianness error when they are
/// the magic cookie's bytes in the other order.
pub proof fn lemma_wrong_magic_refused<T: TypeName + TypeHash + ReprHash>(data: Seq<u8>, pos: nat)
    requires
        spec_fits(data, pos, 8),
        spec_u64_from_le_bytes(data.take(8)) != MAGIC,
    ensures
        spec_header_outcome::<T>(data, pos) == Some(Err::<nat, Error>(
            if spec_u64_from_le_bytes(data.take(8)) == MAGIC_REV {
                Error::EndiannessError
            } else {
                Error::MagicCookieError(spec_u64_from_le_bytes(data.take(8)))
            },
        )),
{
}

/// Law: after the magic cookie, a major version other than this library's is refused
/// with the version read; a minor version above this library's is refused with the
/// version read; a size of `usize` other than this machine's is refused with the size
/// read.
pub proof fn lemma_wrong_versions_refused<T: TypeName + TypeHash + ReprHash>(data: Seq<u8>, pos: nat)
    requires
        spec_fits(data, pos, 13),
        spec_u64_from_le_bytes(data.take(8)) == MAGIC,
    ensures
        ({
            let major = spec_u16_from_le_bytes(data.subrange(8, 10));
            let minor = spec_u16_from_le_bytes(data.subrange(10, 12));
            let size = data[12];
            &&& major != VERSION.0 ==> spec_header_outcome::<T>(data, pos) == Some(Err::<nat, Error>(Error::MajorVersionMismatch(major)))
            &&& major == VERSION.0 && minor > VERSION.1 ==> spec_header_outcome::<T>(data, pos) == Some(Err::<nat, Error>(Error::MinorVersionMismatch(minor)))
            &&& major == VERSION.0 && minor <= VERSION.1 && size as nat != usize_bytes() ==> spec_header_outcome::<T>(data, pos)
                == Some(Err::<nat, Error>(Error::UsizeSizeMismatch(size as usize)))
        }),
{
    assert(data.skip(8).take(2) =~= data.subrange(8, 10));
    assert(data.skip(8).skip(2).take(2) =~= data.subrange(10, 12));
    assert(data.skip(8).skip(2).skip(2)[0] == data[12]);
}

/// Law: an option is read from its tag: 0 reads `None` from that one byte; 1 reads
/// `Some` of the value that follows, taking one byte more than it; any other tag is
/// refused with the tag.
pub proof fn lemma_option_tag<T: DeserializeInner>(data: Seq<u8>, pos: nat)
    requires
        spec_fits(data, pos, 1),
    ensures
        data[0] == 0 ==> <Option<T> as DeserializeInner>::spec_deser_len(data, pos) == Some(Ok::<nat, Error>(1)),
        data[0] == 1 ==> <Option<T> as DeserializeInner>::spec_deser_len(data, pos) == match T::spec_deser_len(data.skip(1), pos + 1) {
            Some(Ok(m)) => Some(Ok::<nat, Error>(1 + m)),
            other => other,
        },
        data[0] > 1 ==> <Option<T> as DeserializeInner>::spec_deser_len(data, pos) == Some(Err::<nat, Error>(Error::InvalidTag(data[0] as usize))),
        forall|v: Option<T>| #[trigger] <Option<T> as DeserializeInner>::spec_decodes(v, data, pos) ==> (v is None <==> data[0] == 0),
{
}

/// Law: a boolean is read as true exactly when its byte is not zero; integers are read
/// from their little-endian images.
pub proof fn lemma_primitive_reads(data: Seq<u8>, pos: nat, b: bool, x: u32, y: i64, z: u16)
    requires
        data.len() >= 8,
    ensures
        <bool as DeserializeInner>::spec_decodes(b, data, pos) <==> b == (data[0] != 0),
        <u32 as DeserializeInner>::spec_decodes(x, data, pos) <==> x == spec_u32_from_le_bytes(data.take(4)),
        <u16 as DeserializeInner>::spec_decodes(z, data, pos) <==> z == spec_u16_from_le_bytes(data.take(2)),
        <i64 as DeserializeInner>::spec_decodes(y, data, pos) <==> y == spec_u64_from_le_bytes(data.take(8)) as i64,
{
    assert(data.take(1)[0] == data[0]);
}

} // verus!
