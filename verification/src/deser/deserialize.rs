//! The user-facing deserialization trait and the check of the header.

use vstd::prelude::*;
use vstd::bytes::*;
use crate::{MAGIC, MAGIC_REV, VERSION};
use crate::bytes::{usize_bytes, usize_size, lemma_usize_bits};
use crate::deser::{DeserializeInner, Error, Result, ReadNoStd, ReadWithPos, ReaderWithPos, SliceWithPos, spec_fits, spec_read, spec_error_agrees};
use crate::impls::string::{spec_string_chars, spec_string_deser_len, lemma_string_read_back};

use crate::ser::serialize::{spec_file, spec_header, spec_header_fixed_len};
use crate::ser::helpers::spec_ser_slice_zero;
use vstd::utf8::encode_utf8;
use crate::traits::{ReprHash, TypeHash, TypeName, ZeroCopy, repr_hash_of, spec_repr_hash_value, spec_type_hash, type_hash_of};
use crate::deser::helpers::spec_check_outcome;

verus! {

/// The outcome of checking the header of a value of type `T` stored at `pos`: its
/// length, or the first mismatch met (`None` when the stored type name is not UTF-8).
///
/// The fields are read in order: magic cookie, major version, minor version, size of a
/// `usize`, type hash, representation hash, type name; the hashes are compared last.
/// The type names carried by hash errors are described by [`spec_header_type_name`].
pub open spec fn spec_header_outcome<T: TypeName + TypeHash + ReprHash>(data: Seq<u8>, pos: nat) -> Option<
    core::result::Result<nat, Error>,
> {
    let d1 = data.skip(8);
    let d2 = d1.skip(2);
    let d3 = d2.skip(2);
    let d4 = d3.skip(1);
    let d5 = d4.skip(8);
    let d6 = d5.skip(8);
    let magic = spec_u64_from_le_bytes(data.take(8));
    let major = spec_u16_from_le_bytes(d1.take(2));
    let minor = spec_u16_from_le_bytes(d2.take(2));
    let size = d3[0];
    let type_hash = spec_u64_from_le_bytes(d4.take(8));
    let repr_hash = spec_u64_from_le_bytes(d5.take(8));
    if !spec_fits(data, pos, 8) {
        Some(Err(Error::ReadError))
    } else if magic != MAGIC {
        if magic == MAGIC_REV {
            Some(Err(Error::EndiannessError))
        } else {
            Some(Err(Error::MagicCookieError(magic)))
        }
    } else if !spec_fits(d1, pos + 8, 2) {
        Some(Err(Error::ReadError))
    } else if major != VERSION.0 {
        Some(Err(Error::MajorVersionMismatch(major)))
    } else if !spec_fits(d2, pos + 10, 2) {
        Some(Err(Error::ReadError))
    } else if minor > VERSION.1 {
        Some(Err(Error::MinorVersionMismatch(minor)))
    } else if !spec_fits(d3, pos + 12, 1) {
        Some(Err(Error::ReadError))
    } else if size as nat != usize_bytes() {
        Some(Err(Error::UsizeSizeMismatch(size as usize)))
    } else if !spec_fits(d4, pos + 13, 8) || !spec_fits(d5, pos + 21, 8) {
        Some(Err(Error::ReadError))
    } else {
        match spec_string_deser_len(d6, pos + 29) {
            Some(Ok(k)) => if type_hash != spec_type_hash::<T>() {
                Some(
                    Err(
                        Error::WrongTypeHash {
                            got_type_name: vstd::pervasive::arbitrary(),
                            expected_type_name: vstd::pervasive::arbitrary(),
                            expected: type_hash,
                            got: spec_type_hash::<T>(),
                        },
                    ),
                )
            } else if repr_hash != spec_repr_hash_value::<T>() {
                Some(
                    Err(
                        Error::WrongTypeReprHash {
                            got_type_name: vstd::pervasive::arbitrary(),
                            expected_type_name: vstd::pervasive::arbitrary(),
                            expected: repr_hash,
                            got: spec_repr_hash_value::<T>(),
                        },
                    ),
                )
            } else {
                Some(Ok(29 + k))
            },
            other => other,
        }
    }
}

/// The type name stored in the header at `pos`.
pub open spec fn spec_header_type_name(data: Seq<u8>, pos: nat) -> Seq<char> {
    spec_string_chars(data.skip(29), pos + 29)
}

/// Whether the type names carried by a hash error are those of `T` (got) and of the
/// header at `pos` (expected).
pub open spec fn spec_header_names<T: TypeName>(e: Error, data: Seq<u8>, pos: nat) -> bool {
    &&& e matches Error::WrongTypeHash { got_type_name, expected_type_name, .. } ==> got_type_name@
        == T::spec_type_name() && expected_type_name@ == spec_header_type_name(data, pos)
    &&& e matches Error::WrongTypeReprHash { got_type_name, expected_type_name, .. } ==> got_type_name@
        == T::spec_type_name() && expected_type_name@ == spec_header_type_name(data, pos)
}

/// How many bytes of the header at `pos` have been read when the check stops with the
/// error `e` (other than a read error): the field found wrong, and all fields before it;
/// a hash mismatch is found after the whole header was read.
pub open spec fn spec_header_stop(e: Error, data: Seq<u8>, pos: nat) -> nat {
    match e {
        Error::EndiannessError | Error::MagicCookieError(_) => 8,
        Error::MajorVersionMismatch(_) => 10,
        Error::MinorVersionMismatch(_) => 12,
        Error::UsizeSizeMismatch(_) => 13,
        _ => 29 + spec_string_deser_len(data.skip(29), pos + 29)->0->Ok_0,
    }
}

/// Common header check code for both ε-copy and full-copy deserialization.
///
/// Must be kept in sync with [`crate::ser::write_header`].
pub fn check_header<T: TypeName + TypeHash + ReprHash, R: ReadWithPos>(backend: &mut R) -> (r: Result<()>)
    requires
        T::spec_repr_hash(0).1 <= usize::MAX,
        spec_header_outcome::<T>(old(backend).spec_data(), old(backend).spec_pos()) is Some,
    ensures
        spec_read(*old(backend), *final(backend), spec_header_outcome::<T>(old(backend).spec_data(), old(backend).spec_pos()),
            false,
            |u: ()| true, r),
        r matches Err(e) ==> spec_header_names::<T>(e, old(backend).spec_data(), old(backend).spec_pos()),
        r is Err && !(r->Err_0 is ReadError) ==> {
            &&& (*final(backend)).spec_data() == old(backend).spec_data().skip(
                spec_header_stop(r->Err_0, old(backend).spec_data(), old(backend).spec_pos()) as int,
            )
            &&& (*final(backend)).spec_pos() == old(backend).spec_pos() + spec_header_stop(
                r->Err_0,
                old(backend).spec_data(),
                old(backend).spec_pos(),
            )
        },
{
    let ghost d0 = backend.spec_data();
    let ghost p0 = backend.spec_pos();
    proof {
        lemma_auto_spec_u64_to_from_le_bytes();
        lemma_auto_spec_u16_to_from_le_bytes();
        lemma_usize_bits();
    }
    let self_type_name = T::type_name_str();
    let self_type_hash = type_hash_of::<T>();
    let self_repr_hash = repr_hash_of::<T>();
    let magic = match <u64 as DeserializeInner>::_deserialize_full_inner(backend) {
        Ok(magic) => magic,
        Err(e) => return Err(e),
    };
    if magic != MAGIC {
        if magic == MAGIC_REV {
            return Err(Error::EndiannessError);
        } else {
            return Err(Error::MagicCookieError(magic));
        }
    }
    let major = match <u16 as DeserializeInner>::_deserialize_full_inner(backend) {
        Ok(major) => major,
        Err(e) => return Err(e),
    };
    if major != VERSION.0 {
        return Err(Error::MajorVersionMismatch(major));
    }
    let minor = match <u16 as DeserializeInner>::_deserialize_full_inner(backend) {
        Ok(minor) => minor,
        Err(e) => return Err(e),
    };
    if minor > VERSION.1 {
        return Err(Error::MinorVersionMismatch(minor));
    }
    let usize_size_read = match <u8 as DeserializeInner>::_deserialize_full_inner(backend) {
        Ok(size) => size,
        Err(e) => return Err(e),
    };
    let usize_size_read = usize_size_read as usize;
    if usize_size_read != usize_size() {
        return Err(Error::UsizeSizeMismatch(usize_size_read));
    }
    let ser_type_hash = match <u64 as DeserializeInner>::_deserialize_full_inner(backend) {
        Ok(hash) => hash,
        Err(e) => return Err(e),
    };
    let ser_repr_hash = match <u64 as DeserializeInner>::_deserialize_full_inner(backend) {
        Ok(hash) => hash,
        Err(e) => return Err(e),
    };
    let ghost d6 = backend.spec_data();
    assert(d6 == d0.skip(8).skip(2).skip(2).skip(1).skip(8).skip(8));
    assert(d6 =~= d0.skip(29));
    assert(backend.spec_pos() == p0 + 29);
    let ser_type_name = match <String as DeserializeInner>::_deserialize_full_inner(backend) {
        Ok(name) => name,
        Err(e) => return Err(e),
    };
    if ser_type_hash != self_type_hash {
        return Err(
            Error::WrongTypeHash {
                got_type_name: self_type_name,
                got: self_type_hash,
                expected_type_name: ser_type_name,
                expected: ser_type_hash,
            },
        );
    }
    if ser_repr_hash != self_repr_hash {
        return Err(
            Error::WrongTypeReprHash {
                got_type_name: self_type_name,
                got: self_repr_hash,
                expected_type_name: ser_type_name,
                expected: ser_repr_hash,
            },
        );
    }
    proof {
        let k = spec_string_deser_len(d6, p0 + 29)->0->Ok_0;
        assert(d6 =~= d0.skip(29));
        assert(backend.spec_data() =~= d0.skip((29 + k) as int));
    }
    Ok(())
}

/// The outcome of reading a value of type `T` stored with its header at the start of
/// `data`: the header, then the value.
pub open spec fn spec_file_outcome<T: DeserializeInner + TypeHash + ReprHash>(data: Seq<u8>) -> Option<
    core::result::Result<nat, Error>,
> {
    match spec_header_outcome::<T>(data, 0) {
        Some(Ok(h)) => match T::spec_deser_len(data.skip(h as int), h) {
            Some(Ok(m)) => Some(Ok(h + m)),
            other => other,
        },
        other => other,
    }
}

/// The length of the header at the start of `data`, when it checks.
pub open spec fn spec_header_len<T: TypeName + TypeHash + ReprHash>(data: Seq<u8>) -> nat {
    spec_header_outcome::<T>(data, 0)->0->Ok_0
}

/// Whether the header at the start of `data` was checked successfully.
pub open spec fn spec_header_checks<T: TypeName + TypeHash + ReprHash>(data: Seq<u8>) -> bool {
    spec_header_outcome::<T>(data, 0) matches Some(Ok(_))
}

/// Check the header at the start of `data` for `T` without reading a value: whether it
/// can be decoded (its type name is UTF-8) and, if it checks, how many bytes it takes.
pub fn check_header_bytes<T: TypeName + TypeHash + ReprHash>(data: &[u8]) -> (r: Option<Option<usize>>)
    requires
        T::spec_repr_hash(0).1 <= usize::MAX,
    ensures
        r == spec_check_outcome(spec_header_outcome::<T>(data@, 0)),
{
    proof { lemma_usize_bits(); }
    let ghost d = data@;
    if data.len() < 8 {
        return Some(None);
    }
    assert(d.take(8) =~= data@.subrange(0, 8));
    let magic = <u64 as ZeroCopy>::from_image(vstd::slice::slice_subrange(data, 0, 8));
    if magic != MAGIC {
        return Some(None);
    }
    if data.len() < 10 {
        return Some(None);
    }
    assert(d.skip(8).take(2) =~= data@.subrange(8, 10));
    let major = <u16 as ZeroCopy>::from_image(vstd::slice::slice_subrange(data, 8, 10));
    if major != VERSION.0 {
        return Some(None);
    }
    if data.len() < 12 {
        return Some(None);
    }
    assert(d.skip(8).skip(2).take(2) =~= data@.subrange(10, 12));
    let minor = <u16 as ZeroCopy>::from_image(vstd::slice::slice_subrange(data, 10, 12));
    if minor > VERSION.1 {
        return Some(None);
    }
    if data.len() < 13 {
        return Some(None);
    }
    assert(d.skip(8).skip(2).skip(2)[0] == data@[12]);
    if data[12] as usize != usize_size() {
        return Some(None);
    }
    if data.len() < 29 {
        return Some(None);
    }
    assert(d.skip(8).skip(2).skip(2).skip(1).take(8) =~= data@.subrange(13, 21));
    assert(d.skip(8).skip(2).skip(2).skip(1).skip(8).take(8) =~= data@.subrange(21, 29));
    assert(d.skip(8).skip(2).skip(2).skip(1).skip(8).skip(8) =~= data@.skip(29));
    let type_hash = <u64 as ZeroCopy>::from_image(vstd::slice::slice_subrange(data, 13, 21));
    let repr_hash = <u64 as ZeroCopy>::from_image(vstd::slice::slice_subrange(data, 21, 29));
    let rest = vstd::slice::slice_subrange(data, 29, data.len());
    assert(rest@ =~= data@.skip(29));
    match <String as DeserializeInner>::_check(rest, 29) {
        Some(Some(k)) => {
            proof { <String as DeserializeInner>::lemma_deser_len_fits(rest@, 29); }
            if type_hash != type_hash_of::<T>() || repr_hash != repr_hash_of::<T>() {
                Some(None)
            } else {
                Some(Some(29 + k))
            }
        },
        other => other,
    }
}

/// Whether the bytes of a file can be decoded as a value of type `T`: the reading
/// functions require that they can, for instance that the strings in it are UTF-8 and
/// its characters are Unicode scalar values.
pub fn check_file<T: DeserializeInner + TypeHash + ReprHash>(data: &[u8]) -> (r: bool)
    requires
        T::spec_repr_hash(0).1 <= usize::MAX,
    ensures
        r == (spec_file_outcome::<T>(data@) is Some),
{
    match check_header_bytes::<T>(data) {
        Some(Some(h)) => {
            proof { lemma_usize_bits(); }
            let rest = vstd::slice::slice_subrange(data, h, data.len());
            assert(rest@ =~= data@.skip(h as int));
            match T::_check(rest, h) {
                Some(_) => true,
                None => false,
            }
        },
        Some(None) => true,
        None => false,
    }
}

/// Law: what is serialized with its header, followed by any bytes, is read back: the
/// header checks, taking exactly its bytes; the value after it takes exactly its bytes;
/// and any value (or ε-copy) read there holds the same data as the value written.
pub proof fn lemma_file_read_back<'a, T: DeserializeInner + TypeHash + ReprHash>(v: T, rest: Seq<u8>)
    requires
        spec_file(&v).len() <= usize::MAX,
    ensures
        spec_header_outcome::<T>(spec_file(&v) + rest, 0) == Some(Ok::<nat, Error>(spec_header::<T>(0).len())),
        spec_file_outcome::<T>(spec_file(&v) + rest) == Some(Ok::<nat, Error>(spec_file(&v).len())),
        T::spec_decodes(v, (spec_file(&v) + rest).skip(spec_header::<T>(0).len() as int), spec_header::<T>(0).len()),
        forall|w: T|
            #[trigger] T::spec_decodes(w, (spec_file(&v) + rest).skip(spec_header::<T>(0).len() as int),
                spec_header::<T>(0).len()) ==> T::spec_same(w, v),
        forall|d: T::DeserType<'a>|
            #[trigger] T::spec_eps_decodes(d, (spec_file(&v) + rest).skip(spec_header::<T>(0).len() as int),
                spec_header::<T>(0).len()) ==> T::spec_eps_same(d, v),
{
    lemma_auto_spec_u64_to_from_le_bytes();
    lemma_auto_spec_u16_to_from_le_bytes();
    lemma_usize_bits();
    let header = spec_header::<T>(0);
    let h = header.len();
    let body = v.spec_ser(h);
    let data = spec_file(&v) + rest;
    let name = spec_ser_slice_zero::<u8>(encode_utf8(T::spec_type_name()), spec_header_fixed_len());
    assert(data =~= header + (body + rest));
    let d1 = data.skip(8);
    let d2 = d1.skip(2);
    let d3 = d2.skip(2);
    let d4 = d3.skip(1);
    let d5 = d4.skip(8);
    let d6 = d5.skip(8);
    assert(data.take(8) =~= spec_u64_to_le_bytes(MAGIC));
    assert(d1.take(2) =~= spec_u16_to_le_bytes(VERSION.0));
    assert(d2.take(2) =~= spec_u16_to_le_bytes(VERSION.1));
    assert(d3[0] == usize_bytes() as u8);
    assert(d4.take(8) =~= spec_u64_to_le_bytes(spec_type_hash::<T>()));
    assert(d5.take(8) =~= spec_u64_to_le_bytes(spec_repr_hash_value::<T>()));
    assert(d6 =~= name + (body + rest));
    lemma_string_read_back(T::spec_type_name(), spec_header_fixed_len(), body + rest);
    assert(data.skip(h as int) =~= body + rest);
    T::lemma_deser_ser(v, h, rest);
    assert forall|w: T|
        #[trigger] T::spec_decodes(w, data.skip(h as int), h) implies T::spec_same(w, v) by {
        T::lemma_read_back(v, w, h, rest);
    }
    assert forall|d: T::DeserType<'a>|
        #[trigger] T::spec_eps_decodes(d, data.skip(h as int), h) implies T::spec_eps_same(d, v) by {
        T::lemma_eps_read_back(v, d, h, rest);
    }
}

/// The fields of the header of `T` written at `pos` and followed by any bytes, as the
/// check reads them.
proof fn lemma_header_fields<T: TypeName + TypeHash + ReprHash>(pos: nat, rest: Seq<u8>)
    requires
        pos + spec_header::<T>(pos).len() <= usize::MAX,
    ensures
        ({
            let data = spec_header::<T>(pos) + rest;
            let d1 = data.skip(8);
            let d2 = d1.skip(2);
            let d3 = d2.skip(2);
            let d4 = d3.skip(1);
            let d5 = d4.skip(8);
            let d6 = d5.skip(8);
            &&& spec_fits(data, pos, 29)
            &&& spec_header::<T>(pos).len() >= 29
            &&& spec_u64_from_le_bytes(data.take(8)) == MAGIC
            &&& spec_u16_from_le_bytes(d1.take(2)) == VERSION.0
            &&& spec_u16_from_le_bytes(d2.take(2)) == VERSION.1
            &&& d3[0] as nat == usize_bytes()
            &&& spec_u64_from_le_bytes(d4.take(8)) == spec_type_hash::<T>()
            &&& spec_u64_from_le_bytes(d5.take(8)) == spec_repr_hash_value::<T>()
            &&& spec_string_deser_len(d6, pos + 29) == Some(Ok::<nat, Error>((spec_header::<T>(pos).len() - 29) as nat))
            &&& spec_header_type_name(data, pos) == T::spec_type_name()
        }),
{
    lemma_auto_spec_u64_to_from_le_bytes();
    lemma_auto_spec_u16_to_from_le_bytes();
    lemma_usize_bits();
    let data = spec_header::<T>(pos) + rest;
    let name = spec_ser_slice_zero::<u8>(encode_utf8(T::spec_type_name()), pos + spec_header_fixed_len());
    let d1 = data.skip(8);
    let d2 = d1.skip(2);
    let d3 = d2.skip(2);
    let d4 = d3.skip(1);
    let d5 = d4.skip(8);
    let d6 = d5.skip(8);
    assert(data.take(8) =~= spec_u64_to_le_bytes(MAGIC));
    assert(d1.take(2) =~= spec_u16_to_le_bytes(VERSION.0));
    assert(d2.take(2) =~= spec_u16_to_le_bytes(VERSION.1));
    assert(d3[0] == usize_bytes() as u8);
    assert(d4.take(8) =~= spec_u64_to_le_bytes(spec_type_hash::<T>()));
    assert(d5.take(8) =~= spec_u64_to_le_bytes(spec_repr_hash_value::<T>()));
    assert(d6 =~= name + rest);
    assert(data.skip(29) =~= d6);
    lemma_string_read_back(T::spec_type_name(), pos + spec_header_fixed_len(), rest);
}

/// Law: the header of `T` written at `pos` and followed by any bytes is checked
/// successfully for `T`, taking exactly the bytes written.
pub proof fn lemma_header_read_back<T: TypeName + TypeHash + ReprHash>(pos: nat, rest: Seq<u8>)
    requires
        pos + spec_header::<T>(pos).len() <= usize::MAX,
    ensures
        spec_header_outcome::<T>(spec_header::<T>(pos) + rest, pos) == Some(Ok::<nat, Error>(spec_header::<T>(pos).len())),
{
    let data = spec_header::<T>(pos) + rest;
    let d6 = data.skip(8).skip(2).skip(2).skip(1).skip(8).skip(8);
    let k = (spec_header::<T>(pos).len() - 29) as nat;
    lemma_header_fields::<T>(pos, rest);
    assert(spec_string_deser_len(d6, pos + 29) == Some(Ok::<nat, Error>(k)));
    assert(spec_header_outcome::<T>(data, pos) == Some(Ok::<nat, Error>(29 + k)));
}

/// Law: the header of `T` checked for a type `U` with another type hash gives a type
/// hash error carrying both hashes, and the type name stored is that of `T`.
pub proof fn lemma_header_wrong_type<T: TypeName + TypeHash + ReprHash, U: TypeName + TypeHash + ReprHash>(
    pos: nat,
    rest: Seq<u8>,
)
    requires
        pos + spec_header::<T>(pos).len() <= usize::MAX,
        spec_type_hash::<T>() != spec_type_hash::<U>(),
    ensures
        spec_header_outcome::<U>(spec_header::<T>(pos) + rest, pos) matches Some(Err(
            Error::WrongTypeHash { expected, got, .. },
        )) && expected == spec_type_hash::<T>() && got == spec_type_hash::<U>(),
        spec_header_type_name(spec_header::<T>(pos) + rest, pos) == T::spec_type_name(),
{
    lemma_header_fields::<T>(pos, rest);
}

/// Main deserialization trait. It is separated from [`DeserializeInner`] to avoid that
/// the user modify its behavior, and hide internal deserialization methods.
///
/// Both methods [check the header](check_header) and then read the value; a mismatch
/// in the header is reported with the corresponding [`Error`].
pub trait Deserialize: TypeHash + ReprHash + DeserializeInner {
    /// Fully deserialize a structure of this type from the given backend.
    fn deserialize_full<R: ReadNoStd>(backend: &mut R) -> (r: Result<Self>)
        requires
            Self::spec_repr_hash(0).1 <= usize::MAX,
            spec_file_outcome::<Self>((*old(backend)).spec_data()) is Some,
        ensures
            r matches Ok(v) ==> {
                &&& spec_file_outcome::<Self>((*old(backend)).spec_data()) matches Some(Ok(_))
                &&& Self::spec_decodes(v, (*old(backend)).spec_data().skip(spec_header_len::<Self>((*old(backend)).spec_data()) as int),
                    spec_header_len::<Self>((*old(backend)).spec_data()))
            },
            r matches Err(e) ==> {
                ||| spec_file_outcome::<Self>((*old(backend)).spec_data()) matches Some(Err(e0)) && spec_error_agrees(e0, e)
                ||| e is ReadError && !((*old(backend)).spec_exact() && (*old(backend)).spec_pos() == 0)
            },
            !spec_header_checks::<Self>((*old(backend)).spec_data()) ==> (r matches Err(e) ==> spec_header_names::<Self>(
                e,
                (*old(backend)).spec_data(),
                0,
            )),
            (*old(backend)).spec_exact() && (*old(backend)).spec_pos() == 0 && (spec_file_outcome::<Self>(
                (*old(backend)).spec_data(),
            ) matches Some(Ok(_))) ==> r is Ok,
    ;

    /// ε-copy deserialize a structure of this type from the given backend.
    fn deserialize_eps<'a>(backend: &'a [u8]) -> (r: Result<Self::DeserType<'a>>)
        requires
            Self::spec_repr_hash(0).1 <= usize::MAX,
            spec_file_outcome::<Self>(backend@) is Some,
        ensures
            r matches Ok(d) ==> {
                &&& spec_file_outcome::<Self>(backend@) matches Some(Ok(_))
                &&& Self::spec_eps_decodes(d, backend@.skip(spec_header_len::<Self>(backend@) as int),
                    spec_header_len::<Self>(backend@))
            },
            r matches Err(e) ==> {
                ||| spec_file_outcome::<Self>(backend@) matches Some(Err(e0)) && spec_error_agrees(e0, e)
                ||| e is AlignmentError && Self::spec_aligns()
            },
            !spec_header_checks::<Self>(backend@) ==> (r matches Err(e) && spec_file_outcome::<Self>(backend@) matches Some(
                Err(e0),
            ) && spec_error_agrees(e0, e)),
            !spec_header_checks::<Self>(backend@) ==> (r matches Err(e) ==> spec_header_names::<Self>(e, backend@, 0)),
            (spec_file_outcome::<Self>(backend@) matches Some(Ok(_))) ==> r is Ok || (Self::spec_aligns()
                && r->Err_0 is AlignmentError),
    ;
}

/// Blanket implementation that prevents the user from overwriting the methods in
/// [`Deserialize`].
///
/// This implementation [checks the header](`check_header`) written by the blanket
/// implementation of [`crate::ser::Serialize`] and then delegates to
/// [`DeserializeInner::_deserialize_full_inner`] or
/// [`DeserializeInner::_deserialize_eps_inner`].
impl<T: TypeHash + ReprHash + DeserializeInner> Deserialize for T {
    fn deserialize_full<R: ReadNoStd>(backend: &mut R) -> (r: Result<Self>) {
        let ghost d0 = (*backend).spec_data();
        let mut reader = ReaderWithPos::new(backend);
        match check_header::<T, ReaderWithPos<&mut R>>(&mut reader) {
            Ok(()) => {},
            Err(e) => return Err(e),
        }
        T::_deserialize_full_inner(&mut reader)
    }

    fn deserialize_eps<'a>(backend: &'a [u8]) -> (r: Result<Self::DeserType<'a>>) {
        let mut slice = SliceWithPos::new(backend);
        match check_header::<T, SliceWithPos<'a>>(&mut slice) {
            Ok(()) => {},
            Err(e) => return Err(e),
        }
        T::_deserialize_eps_inner(&mut slice)
    }
}

} // verus!
