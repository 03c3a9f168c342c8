//! The user-facing serialization trait and the header written before each value.

use vstd::prelude::*;
use vstd::bytes::*;
use vstd::utf8::encode_utf8;
use crate::{MAGIC, VERSION};
use crate::bytes::usize_bytes;
use crate::ser::{Result, SerializeInner, Schema, SchemaRow, SchemaWriter, WriteField, WriteNoStd, WriteWithNames, lemma_wrote_nothing, lemma_wrote_step, spec_wrote};
use crate::ser::helpers::spec_ser_slice_zero;
use crate::ser::write_with_names::{RowView, spec_field_rows, spec_join, spec_rows_view};
use crate::ser::helpers::spec_slice_zero_rows;
use crate::traits::{ReprHash, TypeHash, TypeName, repr_hash_of, spec_repr_hash_value, spec_type_hash, type_hash_of};

verus! {

broadcast use vstd::layout::layout_of_primitives;

/// The length of the fixed part of the header: magic cookie, version, size of a
/// `usize`, type hash and representation hash.
pub open spec fn spec_header_fixed_len() -> nat {
    29
}

/// The header written before a value of type `T` when the writer is at `pos`: the
/// magic cookie, the major and minor version, the size in bytes of a `usize`, the type
/// hash, the representation hash and the name of the type, as a string.
pub open spec fn spec_header<T: TypeName + TypeHash + ReprHash>(pos: nat) -> Seq<u8> {
    spec_u64_to_le_bytes(MAGIC) + spec_u16_to_le_bytes(VERSION.0) + spec_u16_to_le_bytes(VERSION.1) + seq![
        usize_bytes() as u8,
    ] + spec_u64_to_le_bytes(spec_type_hash::<T>()) + spec_u64_to_le_bytes(spec_repr_hash_value::<T>())
        + spec_ser_slice_zero::<u8>(encode_utf8(T::spec_type_name()), pos + spec_header_fixed_len())
}

/// The bytes written when serializing `v` with the writer at `pos`: the header, then
/// the value.
pub open spec fn spec_file_at<T: SerializeInner + TypeHash + ReprHash>(v: &T, pos: nat) -> Seq<u8> {
    spec_header::<T>(pos) + v.spec_ser(pos + spec_header::<T>(pos).len())
}

/// The bytes of a serialized value: its header and the value, from position zero.
pub open spec fn spec_file<T: SerializeInner + TypeHash + ReprHash>(v: &T) -> Seq<u8> {
    spec_file_at(v, 0)
}

/// The rows recorded for a type name written at `pos` under the name `TYPE_NAME`: the
/// row of the string, then its rows.
pub open spec fn spec_type_name_rows(name: Seq<char>, pos: nat, path: Seq<Seq<char>>) -> Seq<RowView> {
    let p = path.push("TYPE_NAME"@);
    seq![(spec_join(p), <String as TypeName>::spec_type_name(), pos, spec_ser_slice_zero::<u8>(encode_utf8(name), pos).len(), 0nat)]
        + spec_slice_zero_rows::<u8>(encode_utf8(name), pos, p)
}

/// The rows a recording writer gets for the header of a value of type `T` written at
/// `pos`: one row for each field, then the rows of the type name.
pub open spec fn spec_header_rows<T: TypeName + TypeHash + ReprHash>(pos: nat, path: Seq<Seq<char>>) -> Seq<RowView> {
    spec_field_rows(&MAGIC, "MAGIC"@, pos, path) + spec_field_rows(&VERSION.0, "VERSION_MAJOR"@, pos + 8, path)
        + spec_field_rows(&VERSION.1, "VERSION_MINOR"@, pos + 10, path) + spec_field_rows(
        &(usize_bytes() as u8),
        "USIZE_SIZE"@,
        pos + 12,
        path,
    ) + spec_field_rows(&spec_type_hash::<T>(), "TYPE_HASH"@, pos + 13, path) + spec_field_rows(
        &spec_repr_hash_value::<T>(),
        "REPR_HASH"@,
        pos + 21,
        path,
    ) + spec_type_name_rows(T::spec_type_name(), pos + 29, path)
}

/// The rows a recording writer gets when a value is serialized with the writer at
/// `pos`, inside the name path `path`: the rows of the header, then the row of the value
/// under the name `ROOT` and the rows of its parts.
pub open spec fn spec_file_rows_at<T: SerializeInner + TypeHash + ReprHash>(v: &T, pos: nat, path: Seq<Seq<char>>) -> Seq<
    RowView,
> {
    spec_header_rows::<T>(pos, path) + spec_field_rows(v, "ROOT"@, pos + spec_header::<T>(pos).len(), path)
}

/// The rows of the schema of a serialized value: those of its header and of the value,
/// from position zero, with no enclosing name.
pub open spec fn spec_file_rows<T: SerializeInner + TypeHash + ReprHash>(v: &T) -> Seq<RowView> {
    spec_file_rows_at(v, 0, Seq::empty())
}

/// Write the header.
///
/// Must be kept in sync with [`crate::deser::check_header`].
pub fn write_header<T: TypeName + TypeHash + ReprHash, W: WriteWithNames>(backend: &mut W) -> (r: Result<()>)
    requires
        old(backend).wf(),
        T::spec_repr_hash(0).1 <= usize::MAX,
    ensures
        spec_wrote(*old(backend), *final(backend), spec_header::<T>(old(backend).spec_written().len()), r),
        r is Ok && W::spec_records() ==> spec_rows_view((*final(backend)).spec_schema()) == spec_rows_view(
            old(backend).spec_schema(),
        ) + spec_header_rows::<T>(old(backend).spec_written().len(), old(backend).spec_path()),
{
    let ghost o = *backend;
    let ghost whole = spec_header::<T>(o.spec_written().len());
    proof {
        lemma_auto_spec_u64_to_from_le_bytes();
        lemma_auto_spec_u16_to_from_le_bytes();
        lemma_wrote_nothing(o);
    }
    let ghost mut done: Seq<u8> = Seq::empty();
    let ghost mut rows: Seq<RowView> = Seq::empty();

    let ghost before = *backend;
    let res = backend.write("MAGIC", &MAGIC);
    proof {
        lemma_wrote_step(o, before, *backend, done, spec_u64_to_le_bytes(MAGIC), whole, res);
        done = done + spec_u64_to_le_bytes(MAGIC);
        if res is Ok && W::spec_records() {
            rows = rows + spec_field_rows(&MAGIC, "MAGIC"@, before.spec_written().len(), before.spec_path());
        }
    }
    if let Err(e) = res {
        return Err(e);
    }
    let ghost before = *backend;
    let res = backend.write("VERSION_MAJOR", &VERSION.0);
    proof {
        lemma_wrote_step(o, before, *backend, done, spec_u16_to_le_bytes(VERSION.0), whole, res);
        done = done + spec_u16_to_le_bytes(VERSION.0);
        if res is Ok && W::spec_records() {
            rows = rows + spec_field_rows(&VERSION.0, "VERSION_MAJOR"@, before.spec_written().len(), before.spec_path());
        }
    }
    if let Err(e) = res {
        return Err(e);
    }
    let ghost before = *backend;
    let res = backend.write("VERSION_MINOR", &VERSION.1);
    proof {
        lemma_wrote_step(o, before, *backend, done, spec_u16_to_le_bytes(VERSION.1), whole, res);
        done = done + spec_u16_to_le_bytes(VERSION.1);
        if res is Ok && W::spec_records() {
            rows = rows + spec_field_rows(&VERSION.1, "VERSION_MINOR"@, before.spec_written().len(), before.spec_path());
        }
    }
    if let Err(e) = res {
        return Err(e);
    }
    let usize_size: u8 = core::mem::size_of::<usize>() as u8;
    let ghost before = *backend;
    let res = backend.write("USIZE_SIZE", &usize_size);
    proof {
        lemma_wrote_step(o, before, *backend, done, seq![usize_size], whole, res);
        done = done + seq![usize_size];
        if res is Ok && W::spec_records() {
            rows = rows + spec_field_rows(&usize_size, "USIZE_SIZE"@, before.spec_written().len(), before.spec_path());
        }
    }
    if let Err(e) = res {
        return Err(e);
    }
    let type_hash = type_hash_of::<T>();
    let repr_hash = repr_hash_of::<T>();
    let ghost before = *backend;
    let res = backend.write("TYPE_HASH", &type_hash);
    proof {
        lemma_wrote_step(o, before, *backend, done, spec_u64_to_le_bytes(type_hash), whole, res);
        done = done + spec_u64_to_le_bytes(type_hash);
        if res is Ok && W::spec_records() {
            rows = rows + spec_field_rows(&type_hash, "TYPE_HASH"@, before.spec_written().len(), before.spec_path());
        }
    }
    if let Err(e) = res {
        return Err(e);
    }
    let ghost before = *backend;
    let res = backend.write("REPR_HASH", &repr_hash);
    proof {
        lemma_wrote_step(o, before, *backend, done, spec_u64_to_le_bytes(repr_hash), whole, res);
        done = done + spec_u64_to_le_bytes(repr_hash);
        if res is Ok && W::spec_records() {
            rows = rows + spec_field_rows(&repr_hash, "REPR_HASH"@, before.spec_written().len(), before.spec_path());
        }
    }
    if let Err(e) = res {
        return Err(e);
    }
    let name = T::type_name_str();
    let ghost before = *backend;
    let ghost name_bytes = spec_ser_slice_zero::<u8>(encode_utf8(name@), before.spec_written().len());
    let res = backend.write("TYPE_NAME", &name);
    proof {
        assert(before.spec_written().len() == o.spec_written().len() + spec_header_fixed_len());
        lemma_wrote_step(o, before, *backend, done, name_bytes, whole, res);
        done = done + name_bytes;
        if res is Ok && W::spec_records() {
            rows = rows + spec_field_rows(&name, "TYPE_NAME"@, before.spec_written().len(), before.spec_path());
        }
        if res is Ok && W::spec_records() {
            assert(rows =~= spec_header_rows::<T>(o.spec_written().len(), o.spec_path()));
        }
        assert(done =~= whole);
    }
    res
}

/// Main serialization trait. It is separated from [`SerializeInner`] to avoid that the
/// user modify its behavior, and hide internal serialization methods.
///
/// Every value is written after a header (see [`write_header`]) that makes it possible
/// to check, when reading it back, that the bytes come from this format, this version,
/// an architecture with the same size of `usize`, and the same type.
pub trait Serialize: SerializeInner + TypeHash + ReprHash {
    /// Serialize the type using the given backend, returning the number of bytes written.
    ///
    /// The bytes are produced in memory and then handed to the backend with a single
    /// write, followed by a flush.
    fn serialize<W: WriteNoStd>(&self, backend: &mut W) -> (r: Result<usize>)
        requires
            old(backend).wf(),
            Self::spec_repr_hash(0).1 <= usize::MAX,
        ensures
            r matches Ok(n) ==> {
                &&& (*final(backend)).wf()
                &&& (*final(backend)).spec_written() == old(backend).spec_written() + spec_file(self)
                &&& n == spec_file(self).len()
            },
            r is Err ==> r->Err_0 is WriteError,
            spec_file(self).len() <= usize::MAX && spec_file(self).len() <= old(backend).spec_room()
                && old(backend).spec_reliable() ==> r is Ok,
    ;

    /// Serialize the type using the given backend and return a [schema](Schema)
    /// describing the data that has been written.
    ///
    /// This method is mainly useful for debugging and to check cross-language
    /// interoperability.
    fn serialize_with_schema<W: WriteNoStd>(&self, backend: &mut W) -> (r: Result<Schema>)
        requires
            old(backend).wf(),
            Self::spec_repr_hash(0).1 <= usize::MAX,
        ensures
            r matches Ok(schema) ==> {
                &&& (*final(backend)).wf()
                &&& (*final(backend)).spec_written() == old(backend).spec_written() + spec_file(self)
                &&& spec_rows_view(schema.0@) == spec_file_rows(self)
            },
            r is Err ==> r->Err_0 is WriteError,
            spec_file(self).len() <= usize::MAX && spec_file(self).len() <= old(backend).spec_room()
                && old(backend).spec_reliable() ==> r is Ok,
    ;

    /// Serialize the type using the given [`WriteWithNames`]: the header, then the
    /// value under the name `ROOT`; then flush.
    fn serialize_on_field_write<W: WriteWithNames>(&self, backend: &mut W) -> (r: Result<()>)
        requires
            old(backend).wf(),
            Self::spec_repr_hash(0).1 <= usize::MAX,
        ensures
            spec_wrote(*old(backend), *final(backend), spec_file_at(self, old(backend).spec_written().len()), r)
                || (r is Err && r->Err_0 is WriteError && !old(backend).spec_reliable()),
            spec_file_at(self, old(backend).spec_written().len()).len() <= old(backend).spec_room()
                && old(backend).spec_reliable() ==> r is Ok,
            r is Ok && W::spec_records() ==> spec_rows_view((*final(backend)).spec_schema()) == spec_rows_view(
                old(backend).spec_schema(),
            ) + spec_file_rows_at(self, old(backend).spec_written().len(), old(backend).spec_path()),
    ;
}

/// Blanket implementation that prevents the user from overwriting the methods in
/// [`Serialize`].
///
/// This implementation [writes a header](`write_header`) containing some hashes and
/// debug information and then delegates to [`WriteField::write`].
impl<T: SerializeInner + TypeHash + ReprHash> Serialize for T {
    fn serialize<W: WriteNoStd>(&self, backend: &mut W) -> (r: Result<usize>) {
        let mut buffer: Vec<u8> = Vec::new();
        match self.serialize_on_field_write(&mut buffer) {
            Ok(()) => {},
            Err(e) => return Err(e),
        }
        let pos = buffer.len();
        assert(buffer@ =~= spec_file(self));
        match backend.write_all(buffer.as_slice()) {
            Ok(()) => {},
            Err(e) => return Err(e),
        }
        match backend.flush() {
            Ok(()) => {},
            Err(e) => return Err(e),
        }
        Ok(pos)
    }

    fn serialize_with_schema<W: WriteNoStd>(&self, backend: &mut W) -> (r: Result<Schema>) {
        let mut schema_writer = SchemaWriter::new(Vec::<u8>::new());
        let ghost start = schema_writer;
        match self.serialize_on_field_write(&mut schema_writer) {
            Ok(()) => {},
            Err(e) => return Err(e),
        }
        let (schema, buffer) = schema_writer.into_parts();
        assert(buffer@ =~= spec_file(self));
        assert(start.spec_schema() =~= Seq::<SchemaRow>::empty());
        assert(spec_rows_view(start.spec_schema()) =~= Seq::<RowView>::empty());
        assert(spec_rows_view(schema.0@) =~= spec_file_rows(self));
        match backend.write_all(buffer.as_slice()) {
            Ok(()) => {},
            Err(e) => return Err(e),
        }
        match backend.flush() {
            Ok(()) => {},
            Err(e) => return Err(e),
        }
        Ok(schema)
    }

    fn serialize_on_field_write<W: WriteWithNames>(&self, backend: &mut W) -> (r: Result<()>) {
        let ghost o = *backend;
        let ghost p = o.spec_written().len();
        let ghost header = spec_header::<T>(p);
        let res = write_header::<T, W>(backend);
        let ghost mid = *backend;
        if let Err(e) = res {
            proof { crate::ser::lemma_wrote_stop(o, mid, header, self.spec_ser(p + header.len()), res); }
            return Err(e);
        }
        let res = backend.write("ROOT", self);
        proof { crate::ser::lemma_wrote_seq(o, mid, *backend, header, self.spec_ser(p + header.len()), res); }
        if let Err(e) = res {
            return Err(e);
        }
        let ghost written = *backend;
        let res = backend.flush();
        proof {
            if res is Ok && W::spec_records() {
                assert(spec_rows_view(backend.spec_schema()) =~= spec_rows_view(o.spec_schema())
                    + spec_file_rows_at(self, p, o.spec_path()));
            }
        }
        res
    }
}

} // verus!
