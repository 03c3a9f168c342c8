//! Deserialization traits and types.
//!
//! [`Deserialize`] is the main deserialization trait, providing methods
//! [`Deserialize::deserialize_eps`] and [`Deserialize::deserialize_full`]
//! which implement ε-copy and full-copy deserialization, respectively.
//! The implementation of this trait is based on [`DeserializeInner`].

use vstd::prelude::*;
use crate::ser::{SerializeHelper, SerializeInner};
use crate::traits::CopySelector;

pub mod read;
pub mod reader_with_pos;
pub mod slice_with_pos;
pub mod helpers;
pub mod zero_slice;
pub mod deserialize;
pub mod messages;
pub mod mem_case;

pub use read::{ReadNoStd, ReadWithPos, spec_fits};
pub use reader_with_pos::ReaderWithPos;
pub use slice_with_pos::SliceWithPos;
pub use zero_slice::ZeroSlice;
pub use deserialize::{Deserialize, check_file, check_header};
pub use mem_case::Flags;

verus! {

/// The outcome of a deserialization step.
pub type Result<T> = core::result::Result<T, Error>;

/// Errors that can happen during deserialization.
#[derive(Debug)]
pub enum Error {
    /// [`Deserialize::load_full`] could not open the provided file.
    FileOpenError(std::io::Error),
    /// The underlying reader returned an error.
    ReadError,
    /// The file is from ε-serde but the endianness is wrong.
    EndiannessError,
    /// Some fields are not properly aligned.
    AlignmentError,
    /// The file was serialized with a version of ε-serde that is not compatible.
    MajorVersionMismatch(u16),
    /// The file was serialized with a compatible, but too new version of ε-serde
    /// so we might be missing features.
    MinorVersionMismatch(u16),
    /// The `pointer_width` of the serialized file is different from the
    /// `pointer_width` of the current architecture.
    UsizeSizeMismatch(usize),
    /// The magic cookie is wrong. The byte sequence does not come from ε-serde.
    MagicCookieError(u64),
    /// A tag is wrong (e.g., for [`Option`]).
    InvalidTag(usize),
    /// The type hash is wrong. Probably the user is trying to deserialize a
    /// file with the wrong type.
    WrongTypeHash { got_type_name: String, expected_type_name: String, expected: u64, got: u64 },
    /// The type representation hash is wrong. Probably the user is trying to
    /// deserialize a file with some zero-copy type that has different
    /// in-memory representations on the serialization arch and on the current one.
    WrongTypeReprHash { got_type_name: String, expected_type_name: String, expected: u64, got: u64 },
}

/// Whether an error is the one expected: the same variant with the same numbers (the
/// type names carried by hash errors are not compared).
pub open spec fn spec_error_agrees(expected: Error, e: Error) -> bool {
    match expected {
        Error::WrongTypeHash { expected: x, got: g, .. } => e matches Error::WrongTypeHash { expected: y, got: h, .. }
            && x == y && g == h,
        Error::WrongTypeReprHash { expected: x, got: g, .. } => e matches Error::WrongTypeReprHash {
            expected: y,
            got: h,
            ..
        } && x == y && g == h,
        _ => e == expected,
    }
}

/// What a full-copy deserialization step guarantees, given the outcome its spec
/// assigns to the reader's bytes (`None` when the bytes cannot be decoded at all) and
/// whether the step aligns the reader to more than one byte (`aligns`):
/// on success the value decodes the bytes and exactly the bytes decoded were consumed;
/// an error agrees with the one the spec assigns, a read error of a reader that is not exact,
/// or, when the step aligns, an alignment error of a reader checking addresses; an exact
/// reader succeeds when the spec does, unless the step aligns and the memory read from
/// is misaligned.
pub open spec fn spec_read<R: ReadNoStd, T>(
    old: R,
    new: R,
    outcome: Option<core::result::Result<nat, Error>>,
    aligns: bool,
    decodes: spec_fn(T) -> bool,
    r: Result<T>,
) -> bool {
    &&& r matches Ok(v) ==> {
        &&& outcome matches Some(Ok(n))
        &&& decodes(v)
        &&& new.spec_data() == old.spec_data().skip(outcome->0->Ok_0 as int)
        &&& new.spec_pos() == old.spec_pos() + outcome->0->Ok_0
        &&& new.spec_exact() == old.spec_exact()
    }
    &&& r matches Err(e) ==> {
        ||| outcome matches Some(Err(e0)) && spec_error_agrees(e0, e)
        ||| e is ReadError && !old.spec_exact()
        ||| e is AlignmentError && R::spec_checks_addresses() && aligns
    }
    &&& (old.spec_exact() && (outcome matches Some(Ok(_)))) ==> (r is Ok || (R::spec_checks_addresses() && aligns
        && r->Err_0 is AlignmentError))
}

/// What an ε-copy deserialization step guarantees: on success the ε-copy value decodes
/// the bytes and exactly the bytes decoded were consumed; an error agrees with the one the
/// spec assigns or, when the step aligns to more than one byte (`aligns`), is an
/// alignment error; it succeeds when the spec does, unless the step aligns and the
/// memory read from is misaligned.
pub open spec fn spec_read_eps<'a, D>(
    old: SliceWithPos<'a>,
    new: SliceWithPos<'a>,
    outcome: Option<core::result::Result<nat, Error>>,
    aligns: bool,
    decodes: spec_fn(D) -> bool,
    r: Result<D>,
) -> bool {
    &&& r matches Ok(d) ==> {
        &&& outcome matches Some(Ok(n))
        &&& decodes(d)
        &&& new.data@ == old.data@.skip(outcome->0->Ok_0 as int)
        &&& new.pos == old.pos + outcome->0->Ok_0
    }
    &&& r matches Err(e) ==> (outcome matches Some(Err(e0)) && spec_error_agrees(e0, e)) || (e is AlignmentError
        && aligns)
    &&& (outcome matches Some(Ok(_))) ==> (r is Ok || (aligns && r->Err_0 is AlignmentError))
}

/// Inner trait to implement deserialization of a type. This trait exists
/// to separate the user-facing [`Deserialize`] trait from the low-level
/// deserialization mechanisms of [`DeserializeInner::_deserialize_full_inner`]
/// and [`DeserializeInner::_deserialize_eps_inner`].
///
/// Its spec describes the format being read: how many bytes a value takes at a given
/// position (or which error is met), and which values decode those bytes.
pub trait DeserializeInner: SerializeInner + Sized {
    /// The deserialization type associated with this type. It can be
    /// retrieved conveniently with the alias [`DeserType`].
    type DeserType<'a>;

    /// The number of bytes a value occupies when it starts at `pos` in `data`, or the
    /// error met when reading it; `None` when the bytes cannot be decoded at all (for
    /// instance, a string that is not UTF-8).
    spec fn spec_deser_len(data: Seq<u8>, pos: nat) -> Option<core::result::Result<nat, Error>>;

    /// Whether reading a value may align the reader to more than one byte, and thus
    /// fail when the memory read from is misaligned.
    spec fn spec_aligns() -> bool;

    /// Whether `v` is the value stored at the start of `data`, at position `pos`.
    spec fn spec_decodes(v: Self, data: Seq<u8>, pos: nat) -> bool;

    /// Whether `d` is the ε-copy value stored at the start of `data`, at position `pos`.
    spec fn spec_eps_decodes<'a>(d: Self::DeserType<'a>, data: Seq<u8>, pos: nat) -> bool;

    /// Full-copy deserialize a value.
    fn _deserialize_full_inner<R: ReadWithPos>(backend: &mut R) -> (r: Result<Self>)
        requires
            Self::spec_deser_len(old(backend).spec_data(), old(backend).spec_pos()) is Some,
        ensures
            spec_read(*old(backend), *final(backend),
                Self::spec_deser_len(old(backend).spec_data(), old(backend).spec_pos()), Self::spec_aligns(),
                |v: Self| Self::spec_decodes(v, old(backend).spec_data(), old(backend).spec_pos()), r),
    ;

    /// ε-copy deserialize a value, borrowing from the bytes where possible.
    fn _deserialize_eps_inner<'a>(backend: &mut SliceWithPos<'a>) -> (r: Result<Self::DeserType<'a>>)
        requires
            Self::spec_deser_len(old(backend).data@, old(backend).pos as nat) is Some,
        ensures
            spec_read_eps(*old(backend), *final(backend),
                Self::spec_deser_len(old(backend).data@, old(backend).pos as nat), Self::spec_aligns(),
                |d: Self::DeserType<'a>| Self::spec_eps_decodes(d, old(backend).data@, old(backend).pos as nat), r),
    ;

    /// Check whether the bytes at the start of `data`, at position `pos`, can be
    /// decoded, and how many bytes a value takes there.
    fn _check(data: &[u8], pos: usize) -> (r: Option<Option<usize>>)
        ensures
            r == crate::deser::helpers::spec_check_outcome(Self::spec_deser_len(data@, pos as nat)),
    ;

    /// A successful outcome takes bytes that are there, at representable positions.
    proof fn lemma_deser_len_fits(data: Seq<u8>, pos: nat)
        requires
            pos <= usize::MAX,
        ensures
            Self::spec_deser_len(data, pos) matches Some(Ok(m)) ==> spec_fits(data, pos, m),
    ;

    /// Whether two values hold the same data.
    spec fn spec_same(a: Self, b: Self) -> bool;

    /// Whether the ε-copy `d` holds the same data as `v`.
    spec fn spec_eps_same<'a>(d: Self::DeserType<'a>, v: Self) -> bool;

    /// Law: a value read from the serialization of `v` holds the same data as `v`.
    proof fn lemma_read_back(v: Self, w: Self, pos: nat, rest: Seq<u8>)
        requires
            pos + v.spec_ser(pos).len() <= usize::MAX,
            Self::spec_decodes(w, v.spec_ser(pos) + rest, pos),
        ensures
            Self::spec_same(w, v),
    ;

    /// Law: an ε-copy read from the serialization of `v` holds the same data as `v`.
    proof fn lemma_eps_read_back<'a>(v: Self, d: Self::DeserType<'a>, pos: nat, rest: Seq<u8>)
        requires
            pos + v.spec_ser(pos).len() <= usize::MAX,
            Self::spec_eps_decodes(d, v.spec_ser(pos) + rest, pos),
        ensures
            Self::spec_eps_same(d, v),
    ;

    /// Law: a value serialized at `pos` and followed by any bytes is read back, taking
    /// exactly the bytes written, provided the positions stay representable.
    proof fn lemma_deser_ser(v: Self, pos: nat, rest: Seq<u8>)
        requires
            pos + v.spec_ser(pos).len() <= usize::MAX,
        ensures
            Self::spec_deser_len(v.spec_ser(pos) + rest, pos) == Some(
                Ok::<nat, Error>(v.spec_ser(pos).len()),
            ),
            Self::spec_decodes(v, v.spec_ser(pos) + rest, pos),
    ;
}

/// A helper trait that makes it possible to implement deserialization differently for
/// zero-copy and deep-copy types, mirroring [`SerializeHelper`].
pub trait DeserializeHelper<C: CopySelector>: SerializeHelper<C> + Sized {
    /// The type of an ε-copy of a value.
    type DeserType<'a>;

    /// The number of bytes a value occupies when it starts at `pos` in `data`, or the
    /// error met when reading it; `None` when the bytes cannot be decoded at all.
    spec fn spec_helper_deser_len(data: Seq<u8>, pos: nat) -> Option<core::result::Result<nat, Error>>;

    /// Whether reading a value may align the reader to more than one byte.
    spec fn spec_helper_aligns() -> bool;

    /// Whether `v` is the value stored at the start of `data`, at position `pos`.
    spec fn spec_helper_decodes(v: Self, data: Seq<u8>, pos: nat) -> bool;

    /// Whether `d` is the ε-copy value stored at the start of `data`, at position `pos`.
    spec fn spec_helper_eps_decodes<'a>(d: Self::DeserType<'a>, data: Seq<u8>, pos: nat) -> bool;

    /// Full-copy deserialize a value.
    fn _deserialize_full_inner_impl<R: ReadWithPos>(backend: &mut R) -> (r: Result<Self>)
        requires
            Self::spec_helper_deser_len(old(backend).spec_data(), old(backend).spec_pos()) is Some,
        ensures
            spec_read(*old(backend), *final(backend),
                Self::spec_helper_deser_len(old(backend).spec_data(), old(backend).spec_pos()),
                Self::spec_helper_aligns(), |v: Self| Self::spec_helper_decodes(v, old(backend).spec_data(), old(backend).spec_pos()), r),
    ;

    /// ε-copy deserialize a value.
    fn _deserialize_eps_inner_impl<'a>(backend: &mut SliceWithPos<'a>) -> (r: Result<Self::DeserType<'a>>)
        requires
            Self::spec_helper_deser_len(old(backend).data@, old(backend).pos as nat) is Some,
        ensures
            spec_read_eps(*old(backend), *final(backend),
                Self::spec_helper_deser_len(old(backend).data@, old(backend).pos as nat),
                Self::spec_helper_aligns(), |d: Self::DeserType<'a>| Self::spec_helper_eps_decodes(d, old(backend).data@, old(backend).pos as nat),
                r),
    ;

    /// Check whether the bytes at the start of `data`, at position `pos`, can be
    /// decoded, and how many bytes a value takes there.
    fn _helper_check(data: &[u8], pos: usize) -> (r: Option<Option<usize>>)
        ensures
            r == crate::deser::helpers::spec_check_outcome(Self::spec_helper_deser_len(data@, pos as nat)),
    ;

    /// A successful outcome takes bytes that are there, at representable positions.
    proof fn lemma_helper_deser_len_fits(data: Seq<u8>, pos: nat)
        requires
            pos <= usize::MAX,
        ensures
            Self::spec_helper_deser_len(data, pos) matches Some(Ok(m)) ==> spec_fits(data, pos, m),
    ;

    /// Whether two values hold the same data.
    spec fn spec_helper_same(a: Self, b: Self) -> bool;

    /// Whether the ε-copy `d` holds the same data as `v`.
    spec fn spec_helper_eps_same<'a>(d: Self::DeserType<'a>, v: Self) -> bool;

    /// A value read from the serialization of `v` holds the same data as `v`.
    proof fn lemma_helper_read_back(v: Self, w: Self, pos: nat, rest: Seq<u8>)
        requires
            pos + v.spec_ser_helper(pos).len() <= usize::MAX,
            Self::spec_helper_decodes(w, v.spec_ser_helper(pos) + rest, pos),
        ensures
            Self::spec_helper_same(w, v),
    ;

    /// An ε-copy read from the serialization of `v` holds the same data as `v`.
    proof fn lemma_helper_eps_read_back<'a>(v: Self, d: Self::DeserType<'a>, pos: nat, rest: Seq<u8>)
        requires
            pos + v.spec_ser_helper(pos).len() <= usize::MAX,
            Self::spec_helper_eps_decodes(d, v.spec_ser_helper(pos) + rest, pos),
        ensures
            Self::spec_helper_eps_same(d, v),
    ;

    /// A value serialized at `pos` and followed by any bytes is read back, taking
    /// exactly the bytes written.
    proof fn lemma_helper_deser_ser(v: Self, pos: nat, rest: Seq<u8>)
        requires
            pos + v.spec_ser_helper(pos).len() <= usize::MAX,
        ensures
            Self::spec_helper_deser_len(v.spec_ser_helper(pos) + rest, pos) == Some(
                Ok::<nat, Error>(v.spec_ser_helper(pos).len()),
            ),
            Self::spec_helper_decodes(v, v.spec_ser_helper(pos) + rest, pos),
    ;
}

/// A shorthand for the deserialized type associated with a type.
pub type DeserType<'a, T> = <T as DeserializeInner>::DeserType<'a>;

} // verus!
