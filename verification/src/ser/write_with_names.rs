//! Traits and implementations to write named fields during serialization.
//!
//! [`SerializeInner::_serialize_inner`] writes on a [`WriteWithNames`], rather than on a
//! [`WriteWithPos`], so that write events happening during a serialization can be
//! recorded.

use vstd::prelude::*;
use vstd::string::*;
use crate::{is_pow2_align, pad_align_to, spec_padding};
use crate::ser::{Result, SerializeInner, WriteNoStd, WriteWithPos, WriterWithPos, spec_wrote, spec_zeros};
use crate::traits::{MaxSizeOf, TypeName};
use crate::text::{push_dec, spec_dec};

verus! {

/// Trait extending [`WriteWithPos`] with methods providing alignment, writing of byte
/// slices of zero-copy types, and the bookkeeping of named fields used by
/// [`WriteField::write`].
///
/// Serialization methods must use the methods of this trait (and [`WriteField::write`])
/// if they want to record the schema of the serialized data. All methods have a default
/// implementation; other implementations must write the same bytes.
pub trait WriteWithNames: WriteWithPos + Sized {
    /// Whether this writer records a schema of what is written.
    spec fn spec_records() -> bool;

    /// Add some zero padding so that `self.pos() % V::max_size_of() == 0`; a recording
    /// writer records a `PADDING` row when some padding is written.
    fn align<V: MaxSizeOf>(&mut self) -> (r: Result<()>)
        requires
            old(self).wf(),
            V::spec_max_size_of() > 0,
        ensures
            spec_wrote(*old(self), *final(self),
                spec_zeros(spec_padding(old(self).spec_written().len(), V::spec_max_size_of())), r),
            r is Ok && Self::spec_records() ==> spec_rows_view((*final(self)).spec_schema()) == spec_rows_view(
                old(self).spec_schema(),
            ) + spec_padding_rows(old(self).spec_written().len(), V::spec_max_size_of()),
            r is Ok && is_pow2_align(V::spec_max_size_of()) && (*final(self)).spec_written().len() <= usize::MAX
                ==> (*final(self)).spec_written().len() % (V::spec_max_size_of() as nat) == 0,
    ;

    /// Write the memory image of a (slice of a) zero-copy type; a recording writer
    /// records a row for the bytes, with the alignment of `V`.
    fn write_bytes<V: MaxSizeOf + TypeName>(&mut self, value: &[u8]) -> (r: Result<()>)
        requires
            old(self).wf(),
        ensures
            spec_wrote(*old(self), *final(self), value@, r),
            r is Ok && Self::spec_records() ==> spec_rows_view((*final(self)).spec_schema()) == spec_rows_view(
                old(self).spec_schema(),
            ).push(spec_zero_row::<V>(old(self).spec_path(), old(self).spec_written().len(), value@.len())),
    ;

    /// The number of schema rows recorded so far.
    fn schema_len(&self) -> (r: usize)
        ensures
            r == self.spec_schema().len(),
    ;

    /// Note that a field named `field_name` starts; a recording writer extends its path.
    fn enter_field(&mut self, field_name: &str)
        requires
            old(self).wf(),
        ensures
            spec_same_output(*old(self), *final(self)),
            (*final(self)).spec_schema() == old(self).spec_schema(),
            (*final(self)).spec_path() == if Self::spec_records() {
                old(self).spec_path().push(field_name@)
            } else {
                old(self).spec_path()
            },
    ;

    /// Note that the field entered last, of type `V`, started at `offset` and ended at
    /// the current position; a recording writer inserts its row at `row_index` and
    /// shortens its path.
    fn leave_field<V: TypeName>(&mut self, row_index: usize, offset: usize)
        requires
            old(self).wf(),
            row_index <= old(self).spec_schema().len(),
            offset <= old(self).spec_written().len(),
            Self::spec_records() ==> old(self).spec_path().len() > 0,
        ensures
            spec_same_output(*old(self), *final(self)),
            !Self::spec_records() ==> (*final(self)).spec_schema() == old(self).spec_schema()
                && (*final(self)).spec_path() == old(self).spec_path(),
            Self::spec_records() ==> {
                &&& (*final(self)).spec_path() == old(self).spec_path().drop_last()
                &&& (*final(self)).spec_schema().len() == old(self).spec_schema().len() + 1
                &&& (*final(self)).spec_schema().take(row_index as int) == old(self).spec_schema().take(row_index as int)
                &&& (*final(self)).spec_schema().skip(row_index + 1) == old(self).spec_schema().skip(row_index as int)
                &&& spec_named_row((*final(self)).spec_schema()[row_index as int], old(self).spec_path(),
                    offset as nat, (old(self).spec_written().len() - offset) as nat)
                &&& (*final(self)).spec_schema()[row_index as int].ty@ == V::spec_type_name()
            },
    ;
}

/// What a schema row says: its field name, type name, offset, size and alignment.
pub type RowView = (Seq<char>, Seq<char>, nat, nat, nat);

/// What a schema row says.
pub open spec fn spec_row_view(row: SchemaRow) -> RowView {
    (row.field@, row.ty@, row.offset as nat, row.size as nat, row.align as nat)
}

/// What the rows of a schema say.
pub open spec fn spec_rows_view(rows: Seq<SchemaRow>) -> Seq<RowView> {
    rows.map_values(|row: SchemaRow| spec_row_view(row))
}

/// The row of a value of type `T` written at `offset` under the name path `path`,
/// taking `size` bytes.
pub open spec fn spec_value_row<T: TypeName>(path: Seq<Seq<char>>, offset: nat, size: nat) -> RowView {
    (spec_join(path), T::spec_type_name(), offset, size, 0)
}

/// The row of the bytes of a zero-copy value (or slice) of type `T` written at `offset`
/// under the name path `path`.
pub open spec fn spec_zero_row<T: MaxSizeOf + TypeName>(path: Seq<Seq<char>>, offset: nat, size: nat) -> RowView {
    (spec_join(path.push("zero"@)), T::spec_type_name(), offset, size, T::spec_max_size_of() as nat)
}

/// The rows recorded when padding the position `pos` to `align`: one `PADDING` row,
/// when some padding is needed.
pub open spec fn spec_padding_rows(pos: nat, align: usize) -> Seq<RowView> {
    let n = spec_padding(pos, align);
    if n > 0 {
        seq![("PADDING"@, spec_padding_type(n), pos, n, 1nat)]
    } else {
        Seq::empty()
    }
}

/// The rows said by a concatenation are those said by its parts.
pub proof fn lemma_rows_view_add(a: Seq<SchemaRow>, b: Seq<SchemaRow>)
    ensures
        spec_rows_view(a + b) == spec_rows_view(a) + spec_rows_view(b),
{
    assert(spec_rows_view(a + b) =~= spec_rows_view(a) + spec_rows_view(b));
}

/// The rows said after a push are those said before and the new row.
pub proof fn lemma_rows_view_push(a: Seq<SchemaRow>, row: SchemaRow)
    ensures
        spec_rows_view(a.push(row)) == spec_rows_view(a).push(spec_row_view(row)),
{
    assert(spec_rows_view(a.push(row)) =~= spec_rows_view(a).push(spec_row_view(row)));
}

/// Write `n` zero bytes, one at a time.
fn write_zeros<W: WriteNoStd>(w: &mut W, n: usize) -> (r: Result<()>)
    requires
        old(w).wf(),
    ensures
        spec_wrote(*old(w), *final(w), spec_zeros(n as nat), r),
        r is Ok ==> (*final(w)).spec_schema() == old(w).spec_schema(),
{
    let zero: Vec<u8> = vec![0u8];
    let mut i: usize = 0;
    assert(old(w).spec_schema().take(old(w).spec_schema().len() as int) =~= old(w).spec_schema());
    while i < n
        invariant
            i <= n,
            zero@ == seq![0u8],
            w.wf(),
            w.spec_written() == old(w).spec_written() + spec_zeros(i as nat),
            w.spec_room() + i == old(w).spec_room(),
            w.spec_reliable() == old(w).spec_reliable(),
            w.spec_schema() == old(w).spec_schema(),
            w.spec_path() == old(w).spec_path(),
        decreases n - i,
    {
        let ghost before = *w;
        let res = w.write_all(zero.as_slice());
        match res {
            Ok(()) => {},
            Err(e) => {
                assert(before.spec_room() == 0);
                return Err(e);
            },
        }
        i = i + 1;
        assert(spec_zeros((i - 1) as nat).push(0u8) =~= spec_zeros(i as nat));
    }
    Ok(())
}

/// The padding skipped to align `pos` to a power of two leaves a multiple of it: the
/// bits below the alignment are zero.
pub proof fn lemma_padding_aligns(pos: nat, align: usize)
    requires
        is_pow2_align(align),
        pos + spec_padding(pos, align) <= usize::MAX,
    ensures
        ((pos + spec_padding(pos, align)) as usize) & ((align - 1) as usize) == 0,
        (pos + spec_padding(pos, align)) % (align as nat) == 0,
{
    crate::lemma_pad_align_to_aligns(pos as usize, align);
    crate::lemma_low_bits_zero_is_multiple((pos + spec_padding(pos, align)) as usize, align);
}

/// The rows a recording writer gets when `value` is written at `pos` under the name
/// `name`, inside the name path `path`: the row of the value, then the rows of its parts.
pub open spec fn spec_field_rows<V: SerializeInner>(value: &V, name: Seq<char>, pos: nat, path: Seq<Seq<char>>) -> Seq<
    RowView,
> {
    seq![spec_value_row::<V>(path.push(name), pos, value.spec_ser(pos).len())] + value.spec_rows(pos, path.push(name))
}

/// Writing a named value: what [`WriteField::write`] provides on every [`WriteWithNames`].
pub trait WriteField: WriteWithNames {
    /// Write a value with an associated name.
    ///
    /// Its bytes are those of [`SerializeInner::_serialize_inner`]; a recording writer
    /// also records a row for the value, placed before the rows of its parts.
    fn write<V: SerializeInner>(&mut self, field_name: &str, value: &V) -> (r: Result<()>)
        requires
            old(self).wf(),
        ensures
            spec_wrote(*old(self), *final(self), value.spec_ser(old(self).spec_written().len()), r),
            r is Ok && Self::spec_records() ==> {
                &&& (*final(self)).spec_schema().len() > old(self).spec_schema().len()
                &&& spec_named_row((*final(self)).spec_schema()[old(self).spec_schema().len() as int],
                    old(self).spec_path().push(field_name@), old(self).spec_written().len(),
                    value.spec_ser(old(self).spec_written().len()).len())
                &&& (*final(self)).spec_schema()[old(self).spec_schema().len() as int].ty@ == V::spec_type_name()
                &&& spec_rows_view((*final(self)).spec_schema()) == spec_rows_view(old(self).spec_schema())
                    + spec_field_rows(value, field_name@, old(self).spec_written().len(), old(self).spec_path())
            },
    {
        self.enter_field(field_name);
        let pos = self.pos();
        let len = self.schema_len();
        let ghost mid = *self;
        let res = value._serialize_inner(self);
        match res {
            Ok(()) => {},
            Err(e) => {
                return Err(e);
            },
        }
        let ghost before_leave = *self;
        self.leave_field::<V>(len, pos);
        proof {
            let o = old(self).spec_schema();
            let f = self.spec_schema();
            if Self::spec_records() {
                assert(o.is_prefix_of(before_leave.spec_schema()));
                assert forall|i: int| 0 <= i < o.len() implies f[i] == o[i] by {
                    assert(f.take(len as int)[i] == before_leave.spec_schema().take(len as int)[i]);
                }
                assert(self.spec_path() =~= old(self).spec_path());
                let b = before_leave.spec_schema();
                let nested = value.spec_rows(pos as nat, mid.spec_path());
                assert(spec_rows_view(b) == spec_rows_view(o) + nested);
                assert(f =~= o + seq![f[len as int]] + b.skip(len as int));
                assert(spec_rows_view(b.skip(len as int)) =~= nested) by {
                    assert(spec_rows_view(b.skip(len as int)) =~= spec_rows_view(b).skip(len as int));
                    assert((spec_rows_view(o) + nested).skip(len as int) =~= nested);
                }
                lemma_rows_view_add(o + seq![f[len as int]], b.skip(len as int));
                lemma_rows_view_add(o, seq![f[len as int]]);
                assert(spec_rows_view(seq![f[len as int]]) =~= seq![spec_row_view(f[len as int])]);
            }
        }
        Ok(())
    }
}

impl<W: WriteWithNames> WriteField for W {}

/// Nothing observable but the schema and the path changed.
pub open spec fn spec_same_output<W: WriteNoStd>(old: W, new: W) -> bool {
    &&& new.wf()
    &&& new.spec_written() == old.spec_written()
    &&& new.spec_room() == old.spec_room()
    &&& new.spec_reliable() == old.spec_reliable()
}

/// An in-memory writer records nothing.
impl WriteWithNames for Vec<u8> {
    open spec fn spec_records() -> bool {
        false
    }

    fn align<V: MaxSizeOf>(&mut self) -> (r: Result<()>) {
        let padding = pad_align_to(self.pos(), V::max_size_of());
        let r = write_zeros(self, padding);
        proof {
            if r is Ok && is_pow2_align(V::spec_max_size_of()) && self.spec_written().len() <= usize::MAX {
                lemma_padding_aligns(old(self).spec_written().len(), V::spec_max_size_of());
            }
        }
        r
    }

    fn write_bytes<V: MaxSizeOf + TypeName>(&mut self, value: &[u8]) -> (r: Result<()>) {
        self.write_all(value)
    }

    fn schema_len(&self) -> (r: usize) {
        0
    }

    fn enter_field(&mut self, field_name: &str) {
    }

    fn leave_field<V: TypeName>(&mut self, row_index: usize, offset: usize) {
    }
}

impl<F: WriteNoStd> WriteWithNames for WriterWithPos<F> {
    open spec fn spec_records() -> bool {
        false
    }

    fn align<V: MaxSizeOf>(&mut self) -> (r: Result<()>) {
        let padding = pad_align_to(self.pos(), V::max_size_of());
        let r = write_zeros(self, padding);
        proof {
            if r is Ok && is_pow2_align(V::spec_max_size_of()) && self.spec_written().len() <= usize::MAX {
                lemma_padding_aligns(old(self).spec_written().len(), V::spec_max_size_of());
            }
        }
        r
    }

    fn write_bytes<V: MaxSizeOf + TypeName>(&mut self, value: &[u8]) -> (r: Result<()>) {
        self.write_all(value)
    }

    fn schema_len(&self) -> (r: usize) {
        0
    }

    fn enter_field(&mut self, field_name: &str) {
    }

    fn leave_field<V: TypeName>(&mut self, row_index: usize, offset: usize) {
    }
}

/// Information about data written during serialization, either fields or
/// ancillary data such as option tags and slice lengths.
#[derive(Debug, Clone)]
pub struct SchemaRow {
    /// Name of the piece of data.
    pub field: String,
    /// Type of the piece of data.
    pub ty: String,
    /// Offset from the start of the file.
    pub offset: usize,
    /// Length in bytes of the piece of data.
    pub size: usize,
    /// The alignment needed by the piece of data, zero if not applicable
    /// (e.g., primitive fields, ancillary data, or structures).
    pub align: usize,
}

/// A vector containing all the fields written during serialization, including
/// ancillary data such as slice lengths and [`Option`] tags.
#[derive(Debug, Clone)]
pub struct Schema(pub Vec<SchemaRow>);

impl Default for Schema {
    fn default() -> (r: Self)
        ensures
            r.0@ == Seq::<SchemaRow>::empty(),
    {
        Schema(Vec::new())
    }
}

/// The names of a path joined by dots.
pub open spec fn spec_join(path: Seq<Seq<char>>) -> Seq<char>
    decreases path.len(),
{
    if path.len() == 0 {
        Seq::empty()
    } else if path.len() == 1 {
        path[0]
    } else {
        spec_join(path.drop_last()) + seq!['.'] + path.last()
    }
}

/// The names of a path, as character sequences.
pub open spec fn spec_names(path: Seq<String>) -> Seq<Seq<char>> {
    path.map_values(|s: String| s@)
}

/// Join the names of a path with dots.
fn join_path(path: &Vec<String>) -> (r: String)
    ensures
        r@ == spec_join(spec_names(path@)),
{
    let mut res = String::new();
    let mut i: usize = 0;
    while i < path.len()
        invariant
            i <= path@.len(),
            res@ == spec_join(spec_names(path@.take(i as int))),
        decreases path@.len() - i,
    {
        proof { reveal_strlit("."); }
        if i > 0 {
            res.append(".");
        }
        res.append(path[i].as_str());
        i = i + 1;
        assert(spec_names(path@.take(i as int)).drop_last() =~= spec_names(path@.take((i - 1) as int)));
    }
    assert(path@.take(i as int) == path@);
    res
}

/// A [`WriteWithNames`] that keeps track of the data written on an underlying
/// [`WriteWithPos`] in a [`Schema`].
pub struct SchemaWriter<W> {
    /// The schema so far.
    pub schema: Schema,
    /// A recursively-built sequence of previous names.
    path: Vec<String>,
    /// What we actually write on.
    writer: W,
}

impl<W: WriteWithPos> SchemaWriter<W> {
    /// The underlying writer.
    pub closed spec fn spec_writer(&self) -> W {
        self.writer
    }

    /// Create a new empty [`SchemaWriter`] on top of a generic writer `W`.
    pub fn new(backend: W) -> (r: Self)
        requires
            backend.wf(),
        ensures
            r.spec_writer() == backend,
            r.spec_schema() == Seq::<SchemaRow>::empty(),
            r.spec_path() == Seq::<Seq<char>>::empty(),
            r.wf(),
            r.spec_written() == backend.spec_written(),
            r.spec_room() == backend.spec_room(),
            r.spec_reliable() == backend.spec_reliable(),
    {
        SchemaWriter { schema: Schema::default(), path: Vec::new(), writer: backend }
    }

    /// Split the schema writer into the schema recorded and the underlying writer.
    pub fn into_parts(self) -> (r: (Schema, W))
        ensures
            r.0.0@ == self.spec_schema(),
            r.1 == self.spec_writer(),
            r.1.wf() == self.wf(),
            r.1.spec_written() == self.spec_written(),
    {
        (self.schema, self.writer)
    }
}

impl<W: WriteWithPos> WriteNoStd for SchemaWriter<W> {
    closed spec fn wf(&self) -> bool {
        self.writer.wf()
    }

    closed spec fn spec_written(&self) -> Seq<u8> {
        self.writer.spec_written()
    }

    closed spec fn spec_room(&self) -> nat {
        self.writer.spec_room()
    }

    closed spec fn spec_reliable(&self) -> bool {
        self.writer.spec_reliable()
    }

    closed spec fn spec_schema(&self) -> Seq<SchemaRow> {
        self.schema.0@
    }

    closed spec fn spec_path(&self) -> Seq<Seq<char>> {
        spec_names(self.path@)
    }

    fn write_all(&mut self, buf: &[u8]) -> (r: Result<()>) {
        self.writer.write_all(buf)
    }

    fn flush(&mut self) -> (r: Result<()>) {
        self.writer.flush()
    }
}

impl<W: WriteWithPos> WriteWithPos for SchemaWriter<W> {
    fn pos(&self) -> (r: usize) {
        self.writer.pos()
    }
}

/// The schema row recorded for a named value: its dotted path, its position and size.
pub open spec fn spec_named_row(row: SchemaRow, path: Seq<Seq<char>>, offset: nat, size: nat) -> bool {
    &&& row.field@ == spec_join(path)
    &&& row.offset == offset
    &&& row.size == size
    &&& row.align == 0
}

/// The type name recorded for padding of `n` bytes: `[u8; n]`.
pub open spec fn spec_padding_type(n: nat) -> Seq<char> {
    seq!['[', 'u', '8', ';', ' '] + spec_dec(n) + seq![']']
}

impl<W: WriteWithPos> WriteWithNames for SchemaWriter<W> {
    open spec fn spec_records() -> bool {
        true
    }

    /// Also records a `PADDING` row when some padding is written.
    fn align<V: MaxSizeOf>(&mut self) -> (r: Result<()>) {
        let pos = self.pos();
        let padding = pad_align_to(pos, V::max_size_of());
        if padding != 0 {
            let mut ty = String::from_str("[u8; ");
            push_dec(&mut ty, padding);
            ty.append("]");
            proof {
                reveal_strlit("[u8; ");
                reveal_strlit("]");
                reveal_strlit("PADDING");
            }
            assert(ty@ == spec_padding_type(padding as nat));
            let row = SchemaRow { field: String::from_str("PADDING"), ty, offset: pos, size: padding, align: 1 };
            proof { lemma_rows_view_push(self.schema.0@, row); }
            self.schema.0.push(row);
        }
        assert(spec_rows_view(self.spec_schema()) =~= spec_rows_view(old(self).spec_schema()) + spec_padding_rows(
            old(self).spec_written().len(), V::spec_max_size_of()));
        let r = write_zeros(&mut self.writer, padding);
        proof {
            if r is Ok && is_pow2_align(V::spec_max_size_of()) && self.spec_written().len() <= usize::MAX {
                lemma_padding_aligns(old(self).spec_written().len(), V::spec_max_size_of());
            }
        }
        r
    }

    /// Also records a row for the bytes, with the alignment of `V`.
    fn write_bytes<V: MaxSizeOf + TypeName>(&mut self, value: &[u8]) -> (r: Result<()>) {
        self.path.push(String::from_str("zero"));
        proof { reveal_strlit("zero"); }
        assert(spec_names(self.path@) =~= old(self).spec_path().push("zero"@));
        let field = join_path(&self.path);
        let pos = self.pos();
        let row = SchemaRow { field, ty: V::type_name_str(), offset: pos, size: value.len(), align: V::max_size_of() };
        proof { lemma_rows_view_push(self.schema.0@, row); }
        self.schema.0.push(row);
        self.path.pop();
        assert(spec_names(self.path@) =~= old(self).spec_path());
        self.write_all(value)
    }

    fn schema_len(&self) -> (r: usize) {
        self.schema.0.len()
    }

    fn enter_field(&mut self, field_name: &str) {
        self.path.push(String::from_str(field_name));
        assert(spec_names(self.path@) =~= old(self).spec_path().push(field_name@));
    }

    fn leave_field<V: TypeName>(&mut self, row_index: usize, offset: usize) {
        let field = join_path(&self.path);
        let size = self.pos() - offset;
        self.schema.0.insert(row_index, SchemaRow { field, ty: V::type_name_str(), offset, align: 0, size });
        self.path.pop();
        assert(self.schema.0@.take(row_index as int) =~= old(self).spec_schema().take(row_index as int));
        assert(self.schema.0@.skip(row_index + 1) =~= old(self).spec_schema().skip(row_index as int));
    }
}

} // verus!
