use epserde::deser::{Deserialize, SliceWithPos};
use epserde::ser::Serialize;
use epserde::traits::{MaxSizeOf, TypeName};

fn bytes_of<T: Serialize>(value: &T) -> Vec<u8> {
    let mut buf: Vec<u8> = Vec::new();
    value.serialize(&mut buf).unwrap();
    buf
}

#[test]
fn test_zero_array_round_trip() {
    let a: [u32; 4] = [1, 2, 0xdead_beef, 4];
    let buf = bytes_of(&a);
    let b = <[u32; 4]>::deserialize_full(&mut SliceWithPos::new(&buf)).unwrap();
    assert_eq!(a, b);
    let c = <[u32; 4]>::deserialize_eps(&buf).unwrap();
    assert_eq!(a, c);
}

#[test]
fn test_zero_array_image_has_no_length() {
    let a: [u16; 3] = [0x0102, 0x0304, 0x0506];
    let buf = bytes_of(&a);
    // The items follow one another, with no length before them.
    assert_eq!(&buf[buf.len() - 6..], &[2, 1, 4, 3, 6, 5]);
}

#[test]
fn test_empty_array_round_trip() {
    let a: [u64; 0] = [];
    let buf = bytes_of(&a);
    let b = <[u64; 0]>::deserialize_full(&mut SliceWithPos::new(&buf)).unwrap();
    assert_eq!(a, b);
}

#[test]
fn test_deep_array_round_trip() {
    let a: [String; 3] = [String::from("a"), String::from(""), String::from("ε-serde")];
    let buf = bytes_of(&a);
    let b = <[String; 3]>::deserialize_full(&mut SliceWithPos::new(&buf)).unwrap();
    assert_eq!(a, b);
    let c = <[String; 3]>::deserialize_eps(&buf).unwrap();
    assert_eq!(c.len(), 3);
    assert_eq!(c[2], "ε-serde");
}

#[test]
fn test_vec_of_arrays_round_trip() {
    let v: Vec<[u16; 2]> = vec![[1, 2], [3, 4], [5, 6]];
    let buf = bytes_of(&v);
    let w = <Vec<[u16; 2]>>::deserialize_full(&mut SliceWithPos::new(&buf)).unwrap();
    assert_eq!(v, w);
}

#[test]
fn test_array_names_and_alignment() {
    assert_eq!(<[u32; 4]>::type_name_str(), "[u32; 4]");
    assert_eq!(<[Vec<u8>; 12]>::type_name_str(), "[Vec<u8>; 12]");
    assert_eq!(<[u64; 3]>::max_size_of(), 8);
}

#[test]
fn test_array_length_is_checked_by_type_hash() {
    let a: [u8; 4] = [1, 2, 3, 4];
    let buf = bytes_of(&a);
    assert!(<[u8; 3]>::deserialize_full(&mut SliceWithPos::new(&buf)).is_err());
}

#[test]
fn test_phantom_slice_round_trip() {
    let p: core::marker::PhantomData<[u32]> = core::marker::PhantomData;
    let buf = bytes_of(&p);
    let _q = <core::marker::PhantomData<[u32]>>::deserialize_full(&mut SliceWithPos::new(&buf)).unwrap();
    assert_eq!(<core::marker::PhantomData<[u32]>>::type_name_str(), "PhantomData<[u32]>");
}

#[test]
fn test_slice_is_read_back_as_vector() {
    let a: Vec<i32> = vec![1, 2, 3, 4];
    let s = a.as_slice();
    let mut buf: Vec<u8> = Vec::new();
    let n = epserde::impls::slice::serialize_slice(s, &mut buf).unwrap();
    assert_eq!(n, buf.len());
    assert_eq!(buf, bytes_of(&a));
    let b = <Vec<i32>>::deserialize_full(&mut SliceWithPos::new(&buf)).unwrap();
    assert_eq!(a, b);
    let c = <Vec<i32>>::deserialize_eps(&buf).unwrap();
    assert_eq!(c.to_vec(), a);
}

#[test]
fn test_slice_of_strings_is_read_back_as_vector() {
    let a: Vec<String> = vec![String::from("x"), String::from("yz")];
    let mut buf: Vec<u8> = Vec::new();
    epserde::impls::slice::serialize_slice(a.as_slice(), &mut buf).unwrap();
    let b = <Vec<String>>::deserialize_full(&mut SliceWithPos::new(&buf)).unwrap();
    assert_eq!(a, b);
}
