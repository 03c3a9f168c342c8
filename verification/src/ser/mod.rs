//! Serialization traits and types.
//!
//! [`Serialize`] is the main serialization trait, providing a [`Serialize::serialize`]
//! method that serializes the type into a generic [`WriteNoStd`] backend, and a
//! [`Serialize::serialize_with_schema`] method that additionally returns a [`Schema`]
//! describing the data that has been written. The implementation of this trait is
//! based on [`SerializeInner`].

use vstd::prelude::*;
use vstd::string::*;
use crate::traits::{CopySelector, TypeName};
use crate::text::io_error_text;

pub mod write;
pub mod write_with_names;
pub mod helpers;
pub mod serialize;
pub mod csv;

pub use write::{WriteNoStd, WriteWithPos, WriterWithPos};
pub use write_with_names::{RowView, SchemaRow, Schema, SchemaWriter, WriteField, WriteWithNames, spec_rows_view};
pub use helpers::{check_zero_copy, serialize_zero, serialize_slice_zero, serialize_slice_deep};
pub use serialize::{Serialize, write_header};

verus! {

/// The error type of the standard library's I/O, carried as it is.
#[verifier::external_type_specification]
#[verifier::external_body]
pub struct ExIoError(std::io::Error);

/// The outcome of a serialization step.
pub type Result<T> = core::result::Result<T, Error>;

/// Errors that can happen during serialization.
#[derive(Debug)]
pub enum Error {
    /// The underlying writer returned an error.
    WriteError,
    /// [`Serialize::store`] could not open the provided file.
    FileOpenError(std::io::Error),
}

/// The description of a serialization error (for [`Error::FileOpenError`], the part
/// before the description of the I/O error).
pub open spec fn spec_error_message(e: Error) -> Seq<char> {
    match e {
        Error::WriteError => "Write error during ε-serde serialization"@,
        Error::FileOpenError(_) => "Error opening file during ε-serde serialization: "@,
    }
}

impl Error {
    /// A description of the error, as it is displayed.
    pub fn to_string(&self) -> (r: String)
        ensures
            self is WriteError ==> r@ == spec_error_message(*self),
            self is FileOpenError ==> spec_error_message(*self).is_prefix_of(r@),
    {
        match self {
            Error::WriteError => String::from_str("Write error during ε-serde serialization"),
            Error::FileOpenError(error) => {
                let mut r = String::from_str("Error opening file during ε-serde serialization: ");
                let ghost prefix = r@;
                r.append(io_error_text(error).as_str());
                assert(r@.take(prefix.len() as int) =~= prefix);
                r
            },
        }
    }
}

/// What a writing step guarantees: on success the writer is consistent, `bytes` were
/// appended to what was written, the room shrank accordingly, the recorded schema
/// rows were only extended and the path of names is unchanged; the step succeeds
/// whenever the writer has room for `bytes`; the only error is a write error.
pub open spec fn spec_wrote<W: WriteNoStd>(old: W, new: W, bytes: Seq<u8>, r: Result<()>) -> bool {
    &&& r is Ok ==> {
        &&& new.wf()
        &&& new.spec_written() == old.spec_written() + bytes
        &&& new.spec_room() + bytes.len() == old.spec_room()
        &&& new.spec_reliable() == old.spec_reliable()
        &&& old.spec_schema().is_prefix_of(new.spec_schema())
        &&& new.spec_path() == old.spec_path()
    }
    &&& bytes.len() <= old.spec_room() ==> r is Ok
    &&& r is Err ==> r->Err_0 is WriteError
}

/// Two successful writing steps in a row are a writing step of the concatenated bytes.
pub proof fn lemma_wrote_seq<W: WriteNoStd>(a: W, b: W, c: W, x: Seq<u8>, y: Seq<u8>, r: Result<()>)
    requires
        spec_wrote(a, b, x, Ok(())),
        spec_wrote(b, c, y, r),
    ensures
        spec_wrote(a, c, x + y, r),
{
    if r is Ok {
        assert(a.spec_written() + (x + y) =~= (a.spec_written() + x) + y);
        let (sa, sb, sc) = (a.spec_schema(), b.spec_schema(), c.spec_schema());
        assert(sa.is_prefix_of(sc)) by {
            assert forall|i: int| 0 <= i < sa.len() implies sc[i] == sa[i] by {
                assert(sb.take(sa.len() as int)[i] == sa[i]);
                assert(sc.take(sb.len() as int)[i] == sb[i]);
            }
            assert(sc.take(sa.len() as int) =~= sa);
        }
    }
}

/// Writing nothing is a successful writing step.
pub proof fn lemma_wrote_nothing<W: WriteNoStd>(a: W)
    requires
        a.wf(),
    ensures
        spec_wrote(a, a, Seq::empty(), Ok(())),
{
    assert(a.spec_written() + Seq::<u8>::empty() =~= a.spec_written());
    assert(a.spec_schema().take(a.spec_schema().len() as int) =~= a.spec_schema());
}

/// A writing step after a successful one: together they wrote both, and if the second
/// failed, the whole failed as a writing step of anything at least as long.
pub proof fn lemma_wrote_step<W: WriteNoStd>(
    a: W,
    b: W,
    c: W,
    x: Seq<u8>,
    y: Seq<u8>,
    whole: Seq<u8>,
    r: Result<()>,
)
    requires
        spec_wrote(a, b, x, Ok(())),
        spec_wrote(b, c, y, r),
        x.len() + y.len() <= whole.len(),
    ensures
        spec_wrote(a, c, x + y, r),
        r is Err ==> spec_wrote(a, c, whole, r),
{
    lemma_wrote_seq(a, b, c, x, y, r);
}

/// A failed writing step is a failed writing step of any longer bytes.
pub proof fn lemma_wrote_stop<W: WriteNoStd>(a: W, b: W, x: Seq<u8>, y: Seq<u8>, r: Result<()>)
    requires
        spec_wrote(a, b, x, r),
        r is Err,
    ensures
        spec_wrote(a, b, x + y, r),
{
}

/// `n` zero bytes.
pub open spec fn spec_zeros(n: nat) -> Seq<u8> {
    Seq::new(n, |i: int| 0u8)
}

/// Inner trait to implement serialization of a type. This trait exists
/// to separate the user-facing [`Serialize`] trait from the low-level
/// serialization mechanism of [`SerializeInner::_serialize_inner`].
pub trait SerializeInner: TypeName + Sized {
    /// Whether the type satisfies the conditions for being zero-copy.
    const IS_ZERO_COPY: bool;

    /// Whether all fields of a type are zero-copy but the type was not declared so.
    const ZERO_COPY_MISMATCH: bool;

    /// The bytes the value is serialized to when the writer is at position `pos`
    /// (alignment padding depends on the position).
    spec fn spec_ser(&self, pos: nat) -> Seq<u8>;

    /// The schema rows a recording writer gets for the parts of the value written at
    /// `pos` under the name path `path` (the row of the value itself is added by
    /// [`WriteField::write`]).
    spec fn spec_rows(&self, pos: nat, path: Seq<Seq<char>>) -> Seq<RowView>;

    /// Serialize this structure using the given backend.
    fn _serialize_inner<W: WriteWithNames>(&self, backend: &mut W) -> (r: Result<()>)
        requires
            old(backend).wf(),
        ensures
            spec_wrote(*old(backend), *final(backend), self.spec_ser(old(backend).spec_written().len()), r),
            r is Ok && W::spec_records() ==> spec_rows_view((*final(backend)).spec_schema()) == spec_rows_view(
                old(backend).spec_schema(),
            ) + self.spec_rows(old(backend).spec_written().len(), old(backend).spec_path()),
    ;
}

/// A helper trait that makes it possible to implement serialization differently for
/// zero-copy and deep-copy types: a container implements it for [`Zero`](crate::traits::Zero)
/// when its items are zero-copy and for [`Deep`](crate::traits::Deep) when they are not.
/// See [`CopyType`](crate::traits::CopyType) for more information.
pub trait SerializeHelper<C: CopySelector> {
    /// The bytes the value is serialized to when the writer is at position `pos`.
    spec fn spec_ser_helper(&self, pos: nat) -> Seq<u8>;

    /// The schema rows a recording writer gets for the parts of the value.
    spec fn spec_helper_rows(&self, pos: nat, path: Seq<Seq<char>>) -> Seq<RowView>;

    /// Serialize this structure using the given backend.
    fn _serialize_inner<W: WriteWithNames>(&self, backend: &mut W) -> (r: Result<()>)
        requires
            old(backend).wf(),
        ensures
            spec_wrote(*old(backend), *final(backend), self.spec_ser_helper(old(backend).spec_written().len()), r),
            r is Ok && W::spec_records() ==> spec_rows_view((*final(backend)).spec_schema()) == spec_rows_view(
                old(backend).spec_schema(),
            ) + self.spec_helper_rows(old(backend).spec_written().len(), old(backend).spec_path()),
    ;
}

/// How a slice of items is written as the vector holding them: its length, then the
/// aligned images of the items when they are zero-copy, or the items one after the
/// other when they are deep-copy.
pub trait SerializeSlice<C: CopySelector>: Sized {
    /// The bytes a slice with the given items is written to at position `pos`.
    spec fn spec_ser_slice(s: Seq<Self>, pos: nat) -> Seq<u8>;

    /// The schema rows a recording writer gets for a slice with the given items.
    spec fn spec_slice_rows(s: Seq<Self>, pos: nat, path: Seq<Seq<char>>) -> Seq<RowView>;

    /// Serialize the items of a slice as the vector holding them.
    fn _serialize_slice<W: WriteWithNames>(data: &[Self], backend: &mut W) -> (r: Result<()>)
        requires
            old(backend).wf(),
        ensures
            spec_wrote(*old(backend), *final(backend), Self::spec_ser_slice(data@, old(backend).spec_written().len()), r),
            r is Ok && W::spec_records() ==> spec_rows_view((*final(backend)).spec_schema()) == spec_rows_view(
                old(backend).spec_schema(),
            ) + Self::spec_slice_rows(data@, old(backend).spec_written().len(), old(backend).spec_path()),
    ;
}

} // verus!
