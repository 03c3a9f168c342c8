use epserde::deser::{Deserialize, Error, SliceWithPos};
use epserde::ser::Serialize;
use epserde::traits::type_hash_of;

fn bytes_of<T: Serialize>(value: &T) -> Vec<u8> {
    let mut buf: Vec<u8> = Vec::new();
    value.serialize(&mut buf).unwrap();
    buf
}

fn full<T: Deserialize>(buf: &[u8]) -> Result<T, Error> {
    T::deserialize_full(&mut SliceWithPos::new(buf))
}

#[test]
fn test_header_layout() {
    let buf = bytes_of(&1u8);
    assert_eq!(&buf[0..8], b"epserde ");
    assert_eq!(u16::from_le_bytes([buf[8], buf[9]]), 1);
    assert_eq!(u16::from_le_bytes([buf[10], buf[11]]), 1);
    assert_eq!(buf[12] as usize, core::mem::size_of::<usize>());
    assert_eq!(u64::from_le_bytes(buf[13..21].try_into().unwrap()), epserde::traits::type_hash_of::<u8>());
    assert_eq!(u64::from_le_bytes(buf[21..29].try_into().unwrap()), epserde::traits::repr_hash_of::<u8>());
    assert_eq!(u64::from_le_bytes(buf[29..37].try_into().unwrap()), 2);
    assert_eq!(&buf[37..39], b"u8");
    assert_eq!(buf[39], 1);
    assert_eq!(buf.len(), 40);
}

#[test]
fn test_wrong_magic_cookie() {
    let mut buf = bytes_of(&1u32);
    buf[0] = b'E';
    let expected = u64::from_le_bytes(buf[0..8].try_into().unwrap());
    match full::<u32>(&buf) {
        Err(Error::MagicCookieError(m)) => assert_eq!(m, expected),
        other => panic!("unexpected {:?}", other),
    }
}

#[test]
fn test_reversed_magic_cookie_is_an_endianness_error() {
    let mut buf = bytes_of(&1u32);
    buf[0..8].reverse();
    match full::<u32>(&buf) {
        Err(Error::EndiannessError) => {}
        other => panic!("unexpected {:?}", other),
    }
    match u32::deserialize_eps(&buf) {
        Err(Error::EndiannessError) => {}
        other => panic!("unexpected {:?}", other),
    }
}

#[test]
fn test_version_mismatches() {
    let mut buf = bytes_of(&1u32);
    buf[8] = 2;
    match full::<u32>(&buf) {
        Err(Error::MajorVersionMismatch(2)) => {}
        other => panic!("unexpected {:?}", other),
    }
    let mut buf = bytes_of(&1u32);
    buf[10] = 2;
    match full::<u32>(&buf) {
        Err(Error::MinorVersionMismatch(2)) => {}
        other => panic!("unexpected {:?}", other),
    }
    // An older minor version is accepted.
    let mut buf = bytes_of(&1u32);
    buf[10] = 0;
    assert_eq!(full::<u32>(&buf).unwrap(), 1);
}

#[test]
fn test_usize_size_mismatch() {
    let mut buf = bytes_of(&1u32);
    buf[12] = 3;
    match full::<u32>(&buf) {
        Err(Error::UsizeSizeMismatch(3)) => {}
        other => panic!("unexpected {:?}", other),
    }
}

#[test]
fn test_wrong_type_hash_names_both_types() {
    let buf = bytes_of(&vec![1u32, 2]);
    match full::<Vec<i32>>(&buf) {
        Err(Error::WrongTypeHash { got_type_name, expected_type_name, expected, got }) => {
            assert_eq!(got_type_name, "Vec<i32>");
            assert_eq!(expected_type_name, "Vec<u32>");
            assert_eq!(expected, epserde::traits::type_hash_of::<Vec<u32>>());
            assert_eq!(got, epserde::traits::type_hash_of::<Vec<i32>>());
        }
        other => panic!("unexpected {:?}", other.map(|_| ())),
    }
    match <Vec<i32>>::deserialize_eps(&buf) {
        Err(Error::WrongTypeHash { .. }) => {}
        other => panic!("unexpected {:?}", other.map(|_| ())),
    }
}

#[test]
fn test_wrong_repr_hash() {
    let mut buf = bytes_of(&1u64);
    buf[21] ^= 0xff;
    match full::<u64>(&buf) {
        Err(Error::WrongTypeReprHash { got_type_name, expected_type_name, got, .. }) => {
            assert_eq!(got_type_name, "u64");
            assert_eq!(expected_type_name, "u64");
            assert_eq!(got, epserde::traits::repr_hash_of::<u64>());
        }
        other => panic!("unexpected {:?}", other),
    }
}

#[test]
fn test_type_hashes_distinguish_types() {
    assert_ne!(type_hash_of::<u32>(), type_hash_of::<i32>());
    assert_ne!(type_hash_of::<Vec<u8>>(), type_hash_of::<String>());
    assert_ne!(type_hash_of::<Option<u8>>(), type_hash_of::<u8>());
    assert_eq!(type_hash_of::<Vec<u8>>(), type_hash_of::<Vec<u8>>());
}
