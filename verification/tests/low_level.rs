use epserde::deser::helpers::{deserialize_eps_vec_deep, deserialize_full_vec_deep};
use epserde::deser::{ReadNoStd, ReadWithPos, ReaderWithPos, SliceWithPos};
use epserde::ser::helpers::{check_zero_copy, serialize_slice_deep};
use epserde::ser::{SchemaWriter, WriteNoStd, WriteWithPos, WriterWithPos};
use epserde::traits::TypeHasher;

#[test]
fn test_xxh3_of_nothing() {
    // The XXH3 64-bit digest of the empty input.
    assert_eq!(TypeHasher::new().finish(), 0x2D06800538D394C2);
    let mut h = TypeHasher::new();
    h.write(b"abc");
    assert_ne!(h.finish(), 0x2D06800538D394C2);
}

#[test]
fn test_slice_with_pos_skip_and_read() {
    let data = [1u8, 2, 3, 4, 5];
    let mut s = SliceWithPos::new(&data);
    s.skip(2);
    assert_eq!(s.pos, 2);
    let mut buf = [0u8; 2];
    s.read_exact(&mut buf).unwrap();
    assert_eq!(buf, [3, 4]);
    assert_eq!(s.pos(), 4);
    let mut too_much = [0u8; 2];
    assert!(s.read_exact(&mut too_much).is_err());
}

#[test]
fn test_reader_with_pos_counts() {
    let data = [9u8; 10];
    let mut r = ReaderWithPos::new(SliceWithPos::new(&data));
    let mut buf = [0u8; 3];
    r.read_exact(&mut buf).unwrap();
    assert_eq!(r.pos(), 3);
    r.align::<u64>().unwrap();
    assert_eq!(r.pos(), 8);
}

#[test]
fn test_writer_with_pos_counts() {
    let mut w = WriterWithPos::new(vec![0xaau8]);
    w.write_all(&[1, 2, 3]).unwrap();
    assert_eq!(w.pos(), 3);
    let v = w.into_inner();
    assert_eq!(v, vec![0xaa, 1, 2, 3]);
}

#[test]
fn test_deep_vector_helpers() {
    let items = vec![vec![1u16, 2], vec![3u16]];
    let mut w = SchemaWriter::new(Vec::<u8>::new());
    serialize_slice_deep(&mut w, &items).unwrap();
    let (schema, bytes) = w.into_parts();
    assert!(schema.0.iter().any(|r| r.field == "len"));
    assert!(schema.0.iter().any(|r| r.field == "item"));
    let mut r = SliceWithPos::new(&bytes);
    let full: Vec<Vec<u16>> = deserialize_full_vec_deep::<Vec<u16>, _>(&mut r).unwrap();
    assert_eq!(full, items);
    assert_eq!(r.pos, bytes.len());
    let mut e = SliceWithPos::new(&bytes);
    if let Ok(eps) = deserialize_eps_vec_deep::<Vec<u16>>(&mut e) {
        assert_eq!(eps.len(), 2);
        assert_eq!(eps[1].to_vec(), vec![3]);
    }
}

#[test]
fn test_check_zero_copy_accepts_primitives() {
    check_zero_copy::<u32>();
    check_zero_copy::<char>();
}
