//! Helpers for serialization.

use vstd::prelude::*;
use crate::bytes::{spec_usize_le, usize_bytes};
use crate::spec_padding;
use crate::ser::{Result, SerializeInner, SerializeSlice, WriteField, WriteWithNames, spec_wrote, spec_zeros, lemma_wrote_seq,
    lemma_wrote_stop};
use crate::traits::{Deep, DeepCopy, MaxSizeOf, TypeName, Zero, ZeroCopy};
use crate::ser::write_with_names::{RowView, spec_field_rows, spec_padding_rows, spec_rows_view, spec_zero_row};

verus! {

/// The concatenated images of a sequence of zero-copy values.
pub open spec fn spec_images<V: ZeroCopy>(s: Seq<V>) -> Seq<u8>
    decreases s.len(),
{
    if s.len() == 0 {
        Seq::empty()
    } else {
        spec_images(s.drop_last()) + s.last().spec_image()
    }
}

/// The serialization of a sequence of values, item after item, starting at `pos`.
pub open spec fn spec_ser_seq<V: SerializeInner>(s: Seq<V>, pos: nat) -> Seq<u8>
    decreases s.len(),
{
    if s.len() == 0 {
        Seq::empty()
    } else {
        let prefix = spec_ser_seq(s.drop_last(), pos);
        prefix + s.last().spec_ser(pos + prefix.len())
    }
}

/// The bytes of a zero-copy value written at `pos`: padding to its alignment, then its image.
pub open spec fn spec_ser_zero<V: ZeroCopy>(v: V, pos: nat) -> Seq<u8> {
    spec_zeros(spec_padding(pos, V::spec_max_size_of())) + v.spec_image()
}

/// The bytes of a slice of zero-copy values written at `pos`: its length, padding to the
/// alignment of the items, then their images.
pub open spec fn spec_ser_slice_zero<V: ZeroCopy>(s: Seq<V>, pos: nat) -> Seq<u8> {
    spec_usize_le(s.len() as usize) + spec_zeros(spec_padding(pos + usize_bytes(), V::spec_max_size_of()))
        + spec_images(s)
}

/// The bytes of a slice of deep-copy values written at `pos`: its length, then the items.
pub open spec fn spec_ser_slice_deep<V: SerializeInner>(s: Seq<V>, pos: nat) -> Seq<u8> {
    spec_usize_le(s.len() as usize) + spec_ser_seq(s, pos + usize_bytes())
}

/// Check that a type declared as zero-copy is actually zero-copy. The check is
/// discharged when the caller is verified.
pub fn check_zero_copy<V: SerializeInner>()
    requires
        V::IS_ZERO_COPY,
{
}

/// Append the images of the values to `out`.
pub(crate) fn append_images<V: ZeroCopy>(data: &[V], out: &mut Vec<u8>)
    ensures
        final(out)@ == old(out)@ + spec_images(data@),
{
    let mut i: usize = 0;
    while i < data.len()
        invariant
            i <= data@.len(),
            out@ == old(out)@ + spec_images(data@.take(i as int)),
        decreases data@.len() - i,
    {
        data[i].write_image(out);
        i = i + 1;
        assert(data@.take(i as int).drop_last() == data@.take((i - 1) as int));
    }
    assert(data@.take(i as int) == data@);
}

/// The rows recorded when the images of zero-copy values of type `V` are written at
/// `pos` as a value of type `A`, taking `len` bytes: the padding row, if any, then the
/// row of the bytes.
pub open spec fn spec_zero_rows<V: MaxSizeOf, A: MaxSizeOf + TypeName>(pos: nat, path: Seq<Seq<char>>, len: nat) -> Seq<
    RowView,
> {
    spec_padding_rows(pos, V::spec_max_size_of()) + seq![
        spec_zero_row::<A>(path, pos + spec_padding(pos, V::spec_max_size_of()), len),
    ]
}

/// The rows recorded for a slice of zero-copy values written at `pos`: the row of its
/// length, then the rows of its images.
pub open spec fn spec_slice_zero_rows<V: ZeroCopy>(s: Seq<V>, pos: nat, path: Seq<Seq<char>>) -> Seq<RowView> {
    spec_field_rows(&(s.len() as usize), "len"@, pos, path) + spec_zero_rows::<V, V>(pos + usize_bytes(), path,
        spec_images(s).len())
}

/// The rows recorded for values written one after the other at `pos`, each under the
/// name `item`.
pub open spec fn spec_items_rows<V: SerializeInner>(s: Seq<V>, pos: nat, path: Seq<Seq<char>>) -> Seq<RowView>
    decreases s.len(),
{
    if s.len() == 0 {
        Seq::empty()
    } else {
        spec_items_rows(s.drop_last(), pos, path) + spec_field_rows(&s.last(), "item"@, pos + spec_ser_seq(
            s.drop_last(),
            pos,
        ).len(), path)
    }
}

/// The rows recorded for a slice of deep-copy values written at `pos`: the row of its
/// length, then the rows of its items.
pub open spec fn spec_slice_deep_rows<V: SerializeInner>(s: Seq<V>, pos: nat, path: Seq<Seq<char>>) -> Seq<RowView> {
    spec_field_rows(&(s.len() as usize), "len"@, pos, path) + spec_items_rows(s, pos + usize_bytes(), path)
}

/// Padding, then writing bytes as a value of type `A`, records the padding row and the
/// row of the bytes.
pub proof fn lemma_zero_rows<W: WriteWithNames, V: MaxSizeOf, A: MaxSizeOf + TypeName>(o: W, m: W, f: W, len: nat)
    requires
        spec_rows_view(m.spec_schema()) == spec_rows_view(o.spec_schema()) + spec_padding_rows(
            o.spec_written().len(),
            V::spec_max_size_of(),
        ),
        m.spec_path() == o.spec_path(),
        m.spec_written().len() == o.spec_written().len() + spec_padding(o.spec_written().len(), V::spec_max_size_of()),
        spec_rows_view(f.spec_schema()) == spec_rows_view(m.spec_schema()).push(
            spec_zero_row::<A>(m.spec_path(), m.spec_written().len(), len),
        ),
    ensures
        spec_rows_view(f.spec_schema()) == spec_rows_view(o.spec_schema()) + spec_zero_rows::<V, A>(
            o.spec_written().len(),
            o.spec_path(),
            len,
        ),
{
    assert(spec_rows_view(f.spec_schema()) =~= spec_rows_view(o.spec_schema()) + spec_zero_rows::<V, A>(
        o.spec_written().len(),
        o.spec_path(),
        len,
    ));
}

/// Serialize a zero-copy structure by writing its image properly aligned.
pub fn serialize_zero<V: ZeroCopy, W: WriteWithNames>(backend: &mut W, value: &V) -> (r: Result<()>)
    requires
        old(backend).wf(),
    ensures
        spec_wrote(*old(backend), *final(backend), spec_ser_zero(*value, old(backend).spec_written().len()), r),
        r is Ok && W::spec_records() ==> spec_rows_view((*final(backend)).spec_schema()) == spec_rows_view(
            old(backend).spec_schema(),
        ) + spec_zero_rows::<V, V>(old(backend).spec_written().len(), old(backend).spec_path(),
            V::spec_image_len()),
{
    proof { V::lemma_image(*value); }
    check_zero_copy::<V>();
    let mut buffer: Vec<u8> = Vec::new();
    value.write_image(&mut buffer);
    let ghost pad = spec_zeros(spec_padding(old(backend).spec_written().len(), V::spec_max_size_of()));
    let res = backend.align::<V>();
    let ghost mid = *backend;
    match res {
        Ok(()) => {},
        Err(e) => {
            proof { lemma_wrote_stop(*old(backend), mid, pad, buffer@, res); }
            return Err(e);
        },
    }
    let res = backend.write_bytes::<V>(buffer.as_slice());
    proof {
        lemma_wrote_seq(*old(backend), mid, *backend, pad, buffer@, res);
        if res is Ok && W::spec_records() {
            lemma_zero_rows::<W, V, V>(*old(backend), mid, *backend, buffer@.len());
        }
    }
    res
}

/// Write the images of zero-copy values, aligned to their type, with a single write
/// that a recording writer records as a value of type `A` (the type whose items they are).
pub fn serialize_images<V: ZeroCopy, A: MaxSizeOf + TypeName, W: WriteWithNames>(backend: &mut W, data: &[V]) -> (r: Result<()>)
    requires
        old(backend).wf(),
    ensures
        spec_wrote(*old(backend), *final(backend),
            spec_zeros(spec_padding(old(backend).spec_written().len(), V::spec_max_size_of())) + spec_images(data@), r),
        r is Ok && W::spec_records() ==> spec_rows_view((*final(backend)).spec_schema()) == spec_rows_view(
            old(backend).spec_schema(),
        ) + spec_zero_rows::<V, A>(old(backend).spec_written().len(), old(backend).spec_path(),
            spec_images(data@).len()),
{
    proof { V::lemma_image(vstd::pervasive::arbitrary()); }
    let mut buffer: Vec<u8> = Vec::new();
    append_images(data, &mut buffer);
    let ghost pad = spec_zeros(spec_padding(old(backend).spec_written().len(), V::spec_max_size_of()));
    let res = backend.align::<V>();
    let ghost mid = *backend;
    match res {
        Ok(()) => {},
        Err(e) => {
            proof { lemma_wrote_stop(*old(backend), mid, pad, buffer@, res); }
            return Err(e);
        },
    }
    let res = backend.write_bytes::<A>(buffer.as_slice());
    proof {
        lemma_wrote_seq(*old(backend), mid, *backend, pad, buffer@, res);
        if res is Ok && W::spec_records() {
            lemma_zero_rows::<W, V, A>(*old(backend), mid, *backend, buffer@.len());
        }
    }
    res
}

/// Serialize a slice of zero-copy structures by encoding its length first, under the
/// name `len`, and then the images of its items, properly aligned, with a single write.
pub fn serialize_slice_zero<V: ZeroCopy, W: WriteWithNames>(backend: &mut W, data: &[V]) -> (r: Result<()>)
    requires
        old(backend).wf(),
    ensures
        spec_wrote(*old(backend), *final(backend), spec_ser_slice_zero(data@, old(backend).spec_written().len()), r),
        r is Ok && W::spec_records() ==> spec_rows_view((*final(backend)).spec_schema()) == spec_rows_view(
            old(backend).spec_schema(),
        ) + spec_slice_zero_rows(data@, old(backend).spec_written().len(), old(backend).spec_path()),
{
    proof { V::lemma_image(vstd::pervasive::arbitrary()); }
    check_zero_copy::<V>();
    let len = data.len();
    let ghost p0 = old(backend).spec_written().len();
    let ghost lenb = spec_usize_le(len);
    let ghost rest = spec_zeros(spec_padding(p0 + usize_bytes(), V::spec_max_size_of())) + spec_images(data@);
    proof { crate::bytes::lemma_usize_le(len); }
    assert(lenb + rest =~= spec_ser_slice_zero(data@, p0));
    let res = backend.write("len", &len);
    let ghost a = *backend;
    match res {
        Ok(()) => {},
        Err(e) => {
            proof { lemma_wrote_stop(*old(backend), a, lenb, rest, res); }
            return Err(e);
        },
    }
    let res = serialize_images::<V, V, W>(backend, data);
    proof {
        lemma_wrote_seq(*old(backend), a, *backend, lenb, rest, res);
        if res is Ok && W::spec_records() {
            assert(spec_rows_view(backend.spec_schema()) =~= spec_rows_view(old(backend).spec_schema())
                + spec_slice_zero_rows(data@, p0, old(backend).spec_path()));
        }
    }
    res
}

/// Serialize values one after the other, each under the name `item`.
pub fn serialize_items<V: SerializeInner, W: WriteWithNames>(backend: &mut W, data: &[V]) -> (r: Result<()>)
    requires
        old(backend).wf(),
    ensures
        spec_wrote(*old(backend), *final(backend), spec_ser_seq(data@, old(backend).spec_written().len()), r),
        r is Ok && W::spec_records() ==> spec_rows_view((*final(backend)).spec_schema()) == spec_rows_view(
            old(backend).spec_schema(),
        ) + spec_items_rows(data@, old(backend).spec_written().len(), old(backend).spec_path()),
{
    let len = data.len();
    let ghost p0 = old(backend).spec_written().len();
    let ghost path = old(backend).spec_path();
    let ghost all = spec_ser_seq(data@, p0);
    proof { crate::ser::lemma_wrote_nothing(*old(backend)); }
    assert(spec_ser_seq(data@.take(0), p0) =~= Seq::<u8>::empty());
    assert(spec_rows_view(old(backend).spec_schema()) + spec_items_rows(data@.take(0), p0, path) =~= spec_rows_view(
        old(backend).spec_schema(),
    ));
    let mut i: usize = 0;
    while i < len
        invariant
            i <= len,
            len == data@.len(),
            p0 == old(backend).spec_written().len(),
            path == old(backend).spec_path(),
            all == spec_ser_seq(data@, p0),
            spec_wrote(*old(backend), *backend, spec_ser_seq(data@.take(i as int), p0), Ok(())),
            W::spec_records() ==> spec_rows_view(backend.spec_schema()) == spec_rows_view(old(backend).spec_schema())
                + spec_items_rows(data@.take(i as int), p0, path),
        decreases len - i,
    {
        let ghost before = *backend;
        let ghost done = spec_ser_seq(data@.take(i as int), p0);
        let ghost item = data@[i as int].spec_ser(before.spec_written().len());
        let res = backend.write("item", &data[i]);
        proof {
            assert(data@.take(i + 1).drop_last() == data@.take(i as int));
            assert(before.spec_written().len() == p0 + done.len());
            assert(done + item =~= spec_ser_seq(data@.take(i + 1), p0));
        }
        match res {
            Ok(()) => {},
            Err(e) => {
                proof {
                    lemma_ser_seq_prefix(data@, p0, i as nat + 1);
                    let pre = spec_ser_seq(data@.take(i + 1), p0);
                    let tail = all.skip(pre.len() as int);
                    assert(pre.is_prefix_of(all));
                    assert(pre + tail =~= all);
                    lemma_wrote_stop(before, *backend, item, tail, res);
                    lemma_wrote_seq(*old(backend), before, *backend, done, item + tail, res);
                    assert(done + (item + tail) =~= all);
                }
                return Err(e);
            },
        }
        proof {
            lemma_wrote_seq(*old(backend), before, *backend, done, item, res);
            if W::spec_records() {
                assert(data@.take(i + 1).last() == data@[i as int]);
                assert(spec_rows_view(backend.spec_schema()) =~= spec_rows_view(old(backend).spec_schema())
                    + spec_items_rows(data@.take(i + 1), p0, path));
            }
        }
        i = i + 1;
    }
    assert(data@.take(i as int) == data@);
    Ok(())
}

/// Serialize a slice of deep-copy structures by encoding its length first, under the
/// name `len`, and then the contents item by item, each under the name `item`.
pub fn serialize_slice_deep<V: SerializeInner, W: WriteWithNames>(backend: &mut W, data: &[V]) -> (r: Result<()>)
    requires
        old(backend).wf(),
    ensures
        spec_wrote(*old(backend), *final(backend), spec_ser_slice_deep(data@, old(backend).spec_written().len()), r),
        r is Ok && W::spec_records() ==> spec_rows_view((*final(backend)).spec_schema()) == spec_rows_view(
            old(backend).spec_schema(),
        ) + spec_slice_deep_rows(data@, old(backend).spec_written().len(), old(backend).spec_path()),
{
    let len = data.len();
    let ghost p0 = old(backend).spec_written().len();
    let ghost lenb = spec_usize_le(len);
    let ghost rest = spec_ser_seq(data@, p0 + usize_bytes());
    proof { crate::bytes::lemma_usize_le(len); }
    let res = backend.write("len", &len);
    let ghost a = *backend;
    match res {
        Ok(()) => {},
        Err(e) => {
            proof { lemma_wrote_stop(*old(backend), a, lenb, rest, res); }
            return Err(e);
        },
    }
    let res = serialize_items(backend, data);
    proof {
        lemma_wrote_seq(*old(backend), a, *backend, lenb, rest, res);
        if res is Ok && W::spec_records() {
            assert(spec_rows_view(backend.spec_schema()) =~= spec_rows_view(old(backend).spec_schema())
                + spec_slice_deep_rows(data@, p0, old(backend).spec_path()));
        }
    }
    res
}

/// Zero-copy items are written as their length, padding and images.
impl<T: ZeroCopy> SerializeSlice<Zero> for T {
    open spec fn spec_ser_slice(s: Seq<T>, pos: nat) -> Seq<u8> {
        spec_ser_slice_zero(s, pos)
    }

    open spec fn spec_slice_rows(s: Seq<T>, pos: nat, path: Seq<Seq<char>>) -> Seq<RowView> {
        spec_slice_zero_rows(s, pos, path)
    }

    fn _serialize_slice<W: WriteWithNames>(data: &[T], backend: &mut W) -> (r: Result<()>) {
        serialize_slice_zero(backend, data)
    }
}

/// Deep-copy items are written as their length, then one after the other.
impl<T: DeepCopy + SerializeInner> SerializeSlice<Deep> for T {
    open spec fn spec_ser_slice(s: Seq<T>, pos: nat) -> Seq<u8> {
        spec_ser_slice_deep(s, pos)
    }

    open spec fn spec_slice_rows(s: Seq<T>, pos: nat, path: Seq<Seq<char>>) -> Seq<RowView> {
        spec_slice_deep_rows(s, pos, path)
    }

    fn _serialize_slice<W: WriteWithNames>(data: &[T], backend: &mut W) -> (r: Result<()>) {
        serialize_slice_deep(backend, data)
    }
}

/// The serialization of a prefix of a sequence is a prefix of its serialization.
pub proof fn lemma_ser_seq_prefix<V: SerializeInner>(s: Seq<V>, pos: nat, n: nat)
    requires
        n <= s.len(),
    ensures
        spec_ser_seq(s.take(n as int), pos).is_prefix_of(spec_ser_seq(s, pos)),
    decreases s.len() - n,
{
    if n < s.len() {
        lemma_ser_seq_prefix(s, pos, n + 1);
        assert(s.take((n + 1) as int).drop_last() == s.take(n as int));
        let a = spec_ser_seq(s.take(n as int), pos);
        let b = spec_ser_seq(s.take((n + 1) as int), pos);
        let c = spec_ser_seq(s, pos);
        assert(a.is_prefix_of(b));
        assert(c.take(a.len() as int) =~= a) by {
            assert forall|i: int| 0 <= i < a.len() implies c[i] == a[i] by {
                assert(c.take(b.len() as int)[i] == b[i]);
                assert(b.take(a.len() as int)[i] == a[i]);
            }
        }
    } else {
        assert(s.take(n as int) == s);
    }
}

} // verus!
