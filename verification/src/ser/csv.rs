//! Textual renderings of a [`Schema`].

use vstd::prelude::*;
use vstd::string::*;
use crate::ser::write_with_names::{Schema, SchemaRow};
use crate::text::{push_dec, push_hex2, spec_dec, spec_hex2};

verus! {

/// The comma-separated fields of a row: field, offset, alignment, size and type.
pub open spec fn spec_csv_fields(row: SchemaRow) -> Seq<char> {
    row.field@ + seq![','] + spec_dec(row.offset as nat) + seq![','] + spec_dec(row.align as nat) + seq![',']
        + spec_dec(row.size as nat) + seq![','] + row.ty@
}

/// The lines of a CSV rendering of rows, one per row.
pub open spec fn spec_csv_lines(rows: Seq<SchemaRow>) -> Seq<char>
    decreases rows.len(),
{
    if rows.len() == 0 {
        Seq::empty()
    } else {
        spec_csv_lines(rows.drop_last()) + spec_csv_fields(rows.last()) + seq!['\n']
    }
}

/// The CSV rendering of rows, with a header line.
pub open spec fn spec_to_csv(rows: Seq<SchemaRow>) -> Seq<char> {
    "field,offset,align,size,ty\n"@ + spec_csv_lines(rows)
}

/// The hexadecimal renderings of bytes, separated by `, `.
pub open spec fn spec_hex_items(bytes: Seq<u8>) -> Seq<char>
    decreases bytes.len(),
{
    if bytes.len() == 0 {
        Seq::empty()
    } else if bytes.len() == 1 {
        spec_hex2(bytes[0])
    } else {
        spec_hex_items(bytes.drop_last()) + seq![',', ' '] + spec_hex2(bytes.last())
    }
}

/// The rendering of a byte slice as a bracketed list of two-digit hexadecimal numbers,
/// such as `[01, ff]`.
pub open spec fn spec_hex_list(bytes: Seq<u8>) -> Seq<char> {
    seq!['['] + spec_hex_items(bytes) + seq![']']
}

/// Whether the line of row `i` shows the bytes of the row: it does unless the next row
/// starts at the same offset (and then describes the same bytes in more detail).
pub open spec fn spec_shows_bytes(rows: Seq<SchemaRow>, i: int) -> bool {
    i + 1 >= rows.len() || rows[i].offset != rows[i + 1].offset
}

/// The line of row `i` in the CSV rendering with data.
pub open spec fn spec_debug_line(rows: Seq<SchemaRow>, data: Seq<u8>, i: int) -> Seq<char> {
    let row = rows[i];
    if spec_shows_bytes(rows, i) {
        spec_csv_fields(row) + seq![','] + spec_hex_list(data.subrange(row.offset as int, row.offset + row.size))
            + seq!['\n']
    } else {
        spec_csv_fields(row) + seq![',', '\n']
    }
}

/// The lines of the first `n` rows in the CSV rendering with data.
pub open spec fn spec_debug_lines(rows: Seq<SchemaRow>, data: Seq<u8>, n: nat) -> Seq<char>
    decreases n,
{
    if n == 0 {
        Seq::empty()
    } else {
        spec_debug_lines(rows, data, (n - 1) as nat) + spec_debug_line(rows, data, n - 1)
    }
}

/// The CSV rendering of rows with the bytes they describe, with a header line.
pub open spec fn spec_debug(rows: Seq<SchemaRow>, data: Seq<u8>) -> Seq<char> {
    "field,offset,align,size,ty,bytes\n"@ + spec_debug_lines(rows, data, rows.len())
}

/// Whether every row whose bytes are shown describes bytes within `data`.
pub open spec fn spec_rows_within(rows: Seq<SchemaRow>, data: Seq<u8>) -> bool {
    forall|i: int| 0 <= i < rows.len() && #[trigger] spec_shows_bytes(rows, i) ==> rows[i].offset + rows[i].size <= data.len()
}

/// Append the comma-separated fields of a row.
fn push_csv_fields(out: &mut String, row: &SchemaRow)
    ensures
        final(out)@ == old(out)@ + spec_csv_fields(*row),
{
    proof { reveal_strlit(","); }
    out.append(row.field.as_str());
    out.append(",");
    push_dec(out, row.offset);
    out.append(",");
    push_dec(out, row.align);
    out.append(",");
    push_dec(out, row.size);
    out.append(",");
    out.append(row.ty.as_str());
    assert(out@ =~= old(out)@ + spec_csv_fields(*row));
}

/// Append the bracketed hexadecimal rendering of some bytes.
fn push_hex_list(out: &mut String, bytes: &[u8])
    ensures
        final(out)@ == old(out)@ + spec_hex_list(bytes@),
{
    proof {
        reveal_strlit("[");
        reveal_strlit("]");
        reveal_strlit(", ");
    }
    out.append("[");
    assert("["@ =~= seq!['[']);
    assert("]"@ =~= seq![']']);
    let ghost start = out@;
    assert(bytes@.take(0) =~= Seq::<u8>::empty());
    let mut i: usize = 0;
    while i < bytes.len()
        invariant
            i <= bytes@.len(),
            out@ == start + spec_hex_items(bytes@.take(i as int)),
            start == old(out)@ + seq!['['],
        decreases bytes@.len() - i,
    {
        let ghost before = out@;
        if i > 0 {
            out.append(", ");
            proof { reveal_strlit(", "); }
            assert(", "@ =~= seq![',', ' ']);
        }
        push_hex2(out, bytes[i]);
        i = i + 1;
        let ghost prefix = bytes@.take(i as int);
        assert(prefix.drop_last() =~= bytes@.take(i - 1));
        assert(prefix.last() == bytes@[i - 1]);
        if i == 1 {
            assert(prefix.len() == 1);
            assert(spec_hex_items(bytes@.take(0)) =~= Seq::<char>::empty());
            assert(out@ =~= start + spec_hex_items(prefix));
        } else {
            assert(out@ =~= start + spec_hex_items(prefix));
        }
    }
    assert(bytes@.take(i as int) =~= bytes@);
    out.append("]");
    assert(out@ =~= old(out)@ + spec_hex_list(bytes@));
}

impl Schema {
    /// Return a CSV representation of the schema, excluding data.
    pub fn to_csv(&self) -> (r: String)
        ensures
            r@ == spec_to_csv(self.0@),
    {
        proof {
            reveal_strlit("field,offset,align,size,ty\n");
            reveal_strlit("\n");
        }
        let mut result = String::from_str("field,offset,align,size,ty\n");
        assert(self.0@.take(0) =~= Seq::<SchemaRow>::empty());
        let mut i: usize = 0;
        while i < self.0.len()
            invariant
                i <= self.0@.len(),
                result@ == spec_to_csv(self.0@.take(i as int)),
            decreases self.0@.len() - i,
        {
            push_csv_fields(&mut result, &self.0[i]);
            result.append("\n");
            proof { reveal_strlit("\n"); }
            assert("\n"@ =~= seq!['\n']);
            i = i + 1;
            assert(self.0@.take(i as int).drop_last() =~= self.0@.take(i - 1));
            assert(result@ =~= spec_to_csv(self.0@.take(i as int)));
        }
        assert(self.0@.take(i as int) =~= self.0@);
        result
    }

    /// Return a CSV representation of the schema, including data.
    ///
    /// A row shows the bytes it describes unless the next row starts at the same offset.
    /// WARNING: the size of the CSV will be larger than the size of the serialized file,
    /// so it is not a good idea to call this method on big structures.
    pub fn debug(&self, data: &[u8]) -> (r: String)
        requires
            spec_rows_within(self.0@, data@),
        ensures
            r@ == spec_debug(self.0@, data@),
    {
        proof {
            reveal_strlit("field,offset,align,size,ty,bytes\n");
            reveal_strlit("\n");
            reveal_strlit(",");
            reveal_strlit(",\n");
        }
        let mut result = String::from_str("field,offset,align,size,ty,bytes\n");
        assert(",\n"@ =~= seq![',', '\n']);
        assert(","@ =~= seq![',']);
        assert("\n"@ =~= seq!['\n']);
        let n = self.0.len();
        let dlen = data.len();
        let mut i: usize = 0;
        while i < n
            invariant
                i <= n,
                n == self.0@.len(),
                dlen == data@.len(),
                spec_rows_within(self.0@, data@),
                result@ == "field,offset,align,size,ty,bytes\n"@ + spec_debug_lines(self.0@, data@, i as nat),
            decreases n - i,
        {
            let row = &self.0[i];
            let ghost before = result@;
            proof {
                reveal_strlit("\n");
                reveal_strlit(",");
                reveal_strlit(",\n");
            }
            assert(",\n"@ =~= seq![',', '\n']);
            assert(","@ =~= seq![',']);
            assert("\n"@ =~= seq!['\n']);
            push_csv_fields(&mut result, row);
            if i + 1 < n && row.offset == self.0[i + 1].offset {
                result.append(",\n");
                assert(!spec_shows_bytes(self.0@, i as int));
                assert(result@ =~= before + spec_debug_line(self.0@, data@, i as int));
            } else {
                assert(spec_shows_bytes(self.0@, i as int));
                assert(row.offset + row.size <= dlen);
                result.append(",");
                let bytes = vstd::slice::slice_subrange(data, row.offset, row.offset + row.size);
                push_hex_list(&mut result, bytes);
                result.append("\n");
                assert(result@ =~= before + spec_debug_line(self.0@, data@, i as int));
            }
            i = i + 1;
            assert(result@ =~= "field,offset,align,size,ty,bytes\n"@ + spec_debug_lines(self.0@, data@, i as nat));
        }
        result
    }
}

} // verus!
