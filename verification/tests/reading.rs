use epserde::deser::{check_file, check_header, Deserialize, DeserializeInner, Error, ReadNoStd, ReadWithPos, SliceWithPos};
use epserde::ser::{Serialize, SchemaWriter, WriteWithNames};

fn bytes_of<T: Serialize>(value: &T) -> Vec<u8> {
    let mut buf: Vec<u8> = Vec::new();
    value.serialize(&mut buf).unwrap();
    buf
}

#[test]
fn test_eps_u64_needs_no_aligned_memory() {
    let buf = bytes_of(&0x0102_0304_0506_0708u64);
    let mut space = vec![0u8; buf.len() + 8];
    for k in 0..8 {
        space[k..k + buf.len()].copy_from_slice(&buf);
        assert_eq!(u64::deserialize_eps(&space[k..k + buf.len()]).unwrap(), 0x0102_0304_0506_0708);
    }
}

#[test]
fn test_eps_strings_need_no_aligned_memory() {
    let v: Vec<String> = vec![String::from("ab"), String::from("c")];
    let buf = bytes_of(&v);
    let mut space = vec![0u8; buf.len() + 8];
    for k in 0..8 {
        space[k..k + buf.len()].copy_from_slice(&buf);
        let w = <Vec<String>>::deserialize_eps(&space[k..k + buf.len()]).unwrap();
        assert_eq!(w, vec!["ab", "c"]);
    }
}

#[test]
fn test_written_header_checks_on_a_slice() {
    let buf = bytes_of(&vec![1u32, 2, 3]);
    let mut reader = SliceWithPos::new(&buf);
    check_header::<Vec<u32>, SliceWithPos>(&mut reader).unwrap();
    // The header is 29 bytes, then the type name `Vec<u32>` as a string.
    assert_eq!(reader.pos(), 29 + core::mem::size_of::<usize>() + 8);
    let mut reader = SliceWithPos::new(&buf);
    assert!(matches!(
        check_header::<Vec<u64>, SliceWithPos>(&mut reader),
        Err(Error::WrongTypeHash { .. })
    ));
}

#[test]
fn test_option_eps_bad_tag() {
    let mut buf = bytes_of(&Some(7u8));
    let n = buf.len();
    buf[n - 2] = 2;
    assert!(matches!(<Option<u8>>::deserialize_eps(&buf), Err(Error::InvalidTag(2))));
    let none = bytes_of(&None::<u8>);
    assert_eq!(<Option<u8>>::deserialize_full(&mut SliceWithPos::new(&none)).unwrap(), None);
}

#[test]
fn test_short_read_leaves_the_slice_unchanged() {
    let data = [1u8, 2, 3];
    let mut s = SliceWithPos::new(&data);
    let mut buf = [9u8; 4];
    assert!(matches!(s.read_exact(&mut buf), Err(Error::ReadError)));
    assert_eq!(s.pos, 0);
    assert_eq!(s.data, &data[..]);
    assert_eq!(buf, [9u8; 4]);
    let mut two = [0u8; 2];
    s.read_exact(&mut two).unwrap();
    assert_eq!(two, [1, 2]);
    assert_eq!(s.pos, 2);
}

#[test]
fn test_check_file_finds_invalid_strings_and_chars() {
    let buf = bytes_of(&String::from("abc"));
    assert!(check_file::<String>(&buf));
    let mut bad = buf.clone();
    let n = bad.len();
    bad[n - 1] = 0xff;
    assert!(!check_file::<String>(&bad));
    // A truncated file can be decoded: reading it gives a read error.
    assert!(check_file::<String>(&buf[..buf.len() - 1]));
    let c = bytes_of(&'x');
    assert!(check_file::<char>(&c));
    let mut bad = c.clone();
    let n = bad.len();
    bad[n - 4..].copy_from_slice(&0xD800u32.to_le_bytes());
    assert!(!check_file::<char>(&bad));
    let v = bytes_of(&vec![Some(String::from("x")), None]);
    assert!(check_file::<Vec<Option<String>>>(&v));
}

#[test]
fn test_deep_slice_rows() {
    let v: Vec<String> = vec![String::from("a"), String::from("bc")];
    let mut buf: Vec<u8> = Vec::new();
    let schema = v.serialize_with_schema(&mut buf).unwrap();
    let fields: Vec<&str> = schema.0.iter().map(|r| r.field.as_str()).collect();
    assert!(fields.contains(&"ROOT.len"));
    assert_eq!(fields.iter().filter(|f| **f == "ROOT.item").count(), 2);
}

#[test]
fn test_zero_padding_adds_no_row() {
    let mut sw = SchemaWriter::new(Vec::<u8>::new());
    sw.align::<u64>().unwrap();
    let (schema, _) = sw.into_parts();
    assert!(schema.0.is_empty());
}

#[test]
fn test_header_alone_reads_back() {
    let mut buf: Vec<u8> = Vec::new();
    epserde::ser::write_header::<u32, Vec<u8>>(&mut buf).unwrap();
    let mut reader = SliceWithPos::new(&buf);
    check_header::<u32, SliceWithPos>(&mut reader).unwrap();
    assert_eq!(reader.pos(), buf.len());
    assert_eq!(buf.len(), 29 + core::mem::size_of::<usize>() + 3);
    let mut reader = SliceWithPos::new(&buf);
    match check_header::<u64, SliceWithPos>(&mut reader) {
        Err(Error::WrongTypeHash { got_type_name, expected_type_name, expected, got }) => {
            assert_eq!(got_type_name, "u64");
            assert_eq!(expected_type_name, "u32");
            assert_eq!(expected, epserde::traits::type_hash_of::<u32>());
            assert_eq!(got, epserde::traits::type_hash_of::<u64>());
        },
        _ => panic!("expected a type hash error"),
    }
    // A hash mismatch is found after the whole header was read.
    assert_eq!(reader.pos(), buf.len());
}

#[test]
fn test_header_errors_stop_after_the_wrong_field() {
    let buf = bytes_of(&1u8);
    let mut bad = buf.clone();
    bad[0] ^= 1;
    let mut reader = SliceWithPos::new(&bad);
    assert!(matches!(check_header::<u8, SliceWithPos>(&mut reader), Err(Error::MagicCookieError(_))));
    assert_eq!(reader.pos(), 8);
    let mut bad = buf.clone();
    bad[8] = 9;
    let mut reader = SliceWithPos::new(&bad);
    assert!(matches!(check_header::<u8, SliceWithPos>(&mut reader), Err(Error::MajorVersionMismatch(9))));
    assert_eq!(reader.pos(), 10);
    let mut bad = buf.clone();
    bad[12] = 3;
    let mut reader = SliceWithPos::new(&bad);
    assert!(matches!(check_header::<u8, SliceWithPos>(&mut reader), Err(Error::UsizeSizeMismatch(3))));
    assert_eq!(reader.pos(), 13);
}

#[test]
fn test_option_bad_tag_reads_one_byte() {
    let data = [2u8, 5, 6];
    let mut reader = SliceWithPos::new(&data);
    assert!(matches!(<Option<u8>>::_deserialize_full_inner(&mut reader), Err(Error::InvalidTag(2))));
    assert_eq!(reader.pos(), 1);
    let mut reader = SliceWithPos::new(&data);
    assert!(matches!(<Option<u8>>::_deserialize_eps_inner(&mut reader), Err(Error::InvalidTag(2))));
    assert_eq!(reader.pos, 1);
    assert_eq!(reader.data, &data[1..]);
}

#[test]
fn test_deep_slice_round_trip() {
    let v: Vec<Option<u16>> = vec![Some(3), None, Some(70)];
    let buf = bytes_of(&v);
    let w = <Vec<Option<u16>>>::deserialize_full(&mut SliceWithPos::new(&buf)).unwrap();
    assert_eq!(w, v);
    let e = <Vec<Option<u16>>>::deserialize_eps(&buf).unwrap();
    assert_eq!(e, v);
}
