//! Implementations for [`Option`].

use vstd::prelude::*;
use vstd::string::*;
use crate::deser::{DeserializeInner, Error as DeError, Result as DeResult, ReadWithPos, SliceWithPos};
use crate::deser::read::spec_fits;
use crate::ser::{Result as SerResult, SerializeInner, WriteField, WriteWithNames, lemma_wrote_seq};
use crate::traits::{CopyType, Deep, ReprHash, TypeHash, TypeHasher, TypeName, spec_str_hash_input};

use crate::ser::{RowView, spec_rows_view};
use crate::ser::write_with_names::spec_field_rows;
verus! {

impl<T> CopyType for Option<T> {
    type Copy = Deep;
}

impl<T: TypeName> TypeName for Option<T> {
    open spec fn spec_type_name() -> Seq<char> {
        "Option<"@ + T::spec_type_name() + ">"@
    }

    fn type_name_str() -> (r: String) {
        let mut name = String::from_str("Option<");
        let inner = T::type_name_str();
        name.append(inner.as_str());
        name.append(">");
        name
    }
}

impl<T: TypeHash> TypeHash for Option<T> {
    open spec fn spec_type_hash_input() -> Seq<u8> {
        spec_str_hash_input("Option") + T::spec_type_hash_input()
    }

    fn type_hash(hasher: &mut TypeHasher) {
        hasher.write_str("Option");
        T::type_hash(hasher);
        assert(hasher@ =~= old(hasher)@ + Self::spec_type_hash_input());
    }
}

/// The representation of an option is that of its content, placed at offset zero.
impl<T: ReprHash> ReprHash for Option<T> {
    open spec fn spec_repr_hash(offset_of: nat) -> (Seq<u8>, nat) {
        T::spec_repr_hash(0)
    }

    fn repr_hash(hasher: &mut TypeHasher, offset_of: &mut usize) {
        *offset_of = 0;
        T::repr_hash(hasher, offset_of);
    }
}

/// An option is serialized as a tag byte, 0 for `None` and 1 for `Some`, followed in
/// the second case by the value.
impl<T: SerializeInner> SerializeInner for Option<T> {
    const IS_ZERO_COPY: bool = false;

    const ZERO_COPY_MISMATCH: bool = false;

    open spec fn spec_ser(&self, pos: nat) -> Seq<u8> {
        match self {
            None => seq![0u8],
            Some(v) => seq![1u8] + v.spec_ser(pos + 1),
        }
    }

    open spec fn spec_rows(&self, pos: nat, path: Seq<Seq<char>>) -> Seq<RowView> {
        match self {
            None => spec_field_rows(&0u8, "Tag"@, pos, path),
            Some(v) => spec_field_rows(&1u8, "Tag"@, pos, path) + spec_field_rows(v, "Some"@, pos + 1, path),
        }
    }

    fn _serialize_inner<W: WriteWithNames>(&self, backend: &mut W) -> (r: SerResult<()>) {
        match self {
            None => backend.write("Tag", &0u8),
            Some(val) => {
                let res = backend.write("Tag", &1u8);
                let ghost mid = *backend;
                match res {
                    Ok(()) => {},
                    Err(e) => {
                        proof {
                            crate::ser::lemma_wrote_stop(*old(backend), mid, seq![1u8], val.spec_ser(
                                old(backend).spec_written().len() + 1), res);
                        }
                        return Err(e);
                    },
                }
                let res = backend.write("Some", val);
                proof {
                    lemma_wrote_seq(*old(backend), mid, *backend, seq![1u8], val.spec_ser(
                        old(backend).spec_written().len() + 1), res);
                }
                res
            },
        }
    }
}

/// The outcome of reading an option at `pos`: the tag, then the value if the tag is 1;
/// a tag other than 0 and 1 is invalid.
pub open spec fn spec_option_deser_len<T: DeserializeInner>(data: Seq<u8>, pos: nat) -> Option<
    core::result::Result<nat, DeError>,
> {
    if !spec_fits(data, pos, 1) {
        Some(Err(DeError::ReadError))
    } else if data[0] == 0 {
        Some(Ok(1))
    } else if data[0] == 1 {
        match T::spec_deser_len(data.skip(1), pos + 1) {
            Some(Ok(m)) => Some(Ok(1 + m)),
            other => other,
        }
    } else {
        Some(Err(DeError::InvalidTag(data[0] as usize)))
    }
}

impl<T: DeserializeInner> DeserializeInner for Option<T> {
    type DeserType<'a> = Option<<T as DeserializeInner>::DeserType<'a>>;

    open spec fn spec_aligns() -> bool {
        T::spec_aligns()
    }

    fn _check(data: &[u8], pos: usize) -> (r: Option<Option<usize>>) {
        if data.len() < 1 || pos == usize::MAX {
            return Some(None);
        }
        let tag = data[0];
        if tag == 0 {
            Some(Some(1))
        } else if tag == 1 {
            let rest = vstd::slice::slice_subrange(data, 1, data.len());
            assert(rest@ =~= data@.skip(1));
            proof { T::lemma_deser_len_fits(data@.skip(1), (pos + 1) as nat); }
            match T::_check(rest, pos + 1) {
                Some(Some(m)) => Some(Some(1 + m)),
                other => other,
            }
        } else {
            Some(None)
        }
    }

    open spec fn spec_deser_len(data: Seq<u8>, pos: nat) -> Option<core::result::Result<nat, DeError>> {
        spec_option_deser_len::<T>(data, pos)
    }

    open spec fn spec_decodes(v: Self, data: Seq<u8>, pos: nat) -> bool {
        match v {
            None => data[0] == 0,
            Some(x) => data[0] == 1 && T::spec_decodes(x, data.skip(1), pos + 1),
        }
    }

    open spec fn spec_eps_decodes<'a>(d: Self::DeserType<'a>, data: Seq<u8>, pos: nat) -> bool {
        match d {
            None => data[0] == 0,
            Some(x) => data[0] == 1 && T::spec_eps_decodes(x, data.skip(1), pos + 1),
        }
    }

    /// A tag other than 0 and 1 is refused after reading exactly that one byte; only
    /// the value after a tag 1 can meet an alignment error.
    fn _deserialize_full_inner<R: ReadWithPos>(backend: &mut R) -> (r: DeResult<Self>)
        ensures
            r matches Err(DeError::InvalidTag(_)) && old(backend).spec_data().len() >= 1 && old(backend).spec_data()[0] > 1 ==> {
                &&& (*final(backend)).spec_data() == old(backend).spec_data().skip(1)
                &&& (*final(backend)).spec_pos() == old(backend).spec_pos() + 1
            },
            r matches Err(DeError::AlignmentError) ==> old(backend).spec_data().len() >= 1 && old(
                backend,
            ).spec_data()[0] == 1,
    {
        let ghost d0 = backend.spec_data();
        let tag = match <u8 as DeserializeInner>::_deserialize_full_inner(backend) {
            Ok(tag) => tag,
            Err(e) => return Err(e),
        };
        assert(tag == d0[0]);
        assert(backend.spec_data() =~= d0.skip(1));
        if tag == 0 {
            Ok(None)
        } else if tag == 1 {
            let ghost d1 = backend.spec_data();
            proof { T::lemma_deser_len_fits(d1, backend.spec_pos()); }
            match T::_deserialize_full_inner(backend) {
                Ok(v) => {
                    assert(backend.spec_data() =~= d0.skip(
                        (1 + T::spec_deser_len(d1, old(backend).spec_pos() + 1)->0->Ok_0) as int,
                    ));
                    Ok(Some(v))
                },
                Err(e) => Err(e),
            }
        } else {
            Err(DeError::InvalidTag(tag as usize))
        }
    }

    /// A tag other than 0 and 1 is refused after reading exactly that one byte; only
    /// the value after a tag 1 can meet an alignment error.
    fn _deserialize_eps_inner<'a>(backend: &mut SliceWithPos<'a>) -> (r: DeResult<Self::DeserType<'a>>)
        ensures
            r matches Err(DeError::InvalidTag(_)) && old(backend).data@.len() >= 1 && old(backend).data@[0] > 1 ==> {
                &&& final(backend).data@ == old(backend).data@.skip(1)
                &&& final(backend).pos == old(backend).pos + 1
            },
            r matches Err(DeError::AlignmentError) ==> old(backend).data@.len() >= 1 && old(backend).data@[0] == 1,
    {
        let ghost d0 = backend.data@;
        let tag = match <u8 as DeserializeInner>::_deserialize_full_inner(backend) {
            Ok(tag) => tag,
            Err(e) => return Err(e),
        };
        assert(tag == d0[0]);
        assert(backend.data@ =~= d0.skip(1));
        if tag == 0 {
            Ok(None)
        } else if tag == 1 {
            let ghost d1 = backend.data@;
            proof { T::lemma_deser_len_fits(d1, backend.pos as nat); }
            match T::_deserialize_eps_inner(backend) {
                Ok(v) => {
                    assert(backend.data@ =~= d0.skip(
                        (1 + T::spec_deser_len(d1, (old(backend).pos + 1) as nat)->0->Ok_0) as int,
                    ));
                    Ok(Some(v))
                },
                Err(e) => Err(e),
            }
        } else {
            Err(DeError::InvalidTag(tag as usize))
        }
    }

    open spec fn spec_same(a: Self, b: Self) -> bool {
        match (a, b) {
            (None, None) => true,
            (Some(x), Some(y)) => T::spec_same(x, y),
            _ => false,
        }
    }

    open spec fn spec_eps_same<'a>(d: Self::DeserType<'a>, v: Self) -> bool {
        match (d, v) {
            (None, None) => true,
            (Some(x), Some(y)) => T::spec_eps_same(x, y),
            _ => false,
        }
    }

    proof fn lemma_read_back(v: Self, w: Self, pos: nat, rest: Seq<u8>) {
        if let Some(x) = v {
            let data = v.spec_ser(pos) + rest;
            assert(data.skip(1) =~= x.spec_ser(pos + 1) + rest);
            T::lemma_read_back(x, w->0, pos + 1, rest);
        }
    }

    proof fn lemma_eps_read_back<'a>(v: Self, d: Self::DeserType<'a>, pos: nat, rest: Seq<u8>) {
        if let Some(x) = v {
            let data = v.spec_ser(pos) + rest;
            assert(data.skip(1) =~= x.spec_ser(pos + 1) + rest);
            T::lemma_eps_read_back(x, d->0, pos + 1, rest);
        }
    }

    proof fn lemma_deser_len_fits(data: Seq<u8>, pos: nat) {
        if spec_fits(data, pos, 1) && data[0] == 1 {
            T::lemma_deser_len_fits(data.skip(1), pos + 1);
        }
    }

    proof fn lemma_deser_ser(v: Self, pos: nat, rest: Seq<u8>) {
        let data = v.spec_ser(pos) + rest;
        if let Some(x) = v {
            T::lemma_deser_ser(x, pos + 1, rest);
            assert(data.skip(1) =~= x.spec_ser(pos + 1) + rest);
        }
    }
}

} // verus!
