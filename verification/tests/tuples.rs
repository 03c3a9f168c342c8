use epserde::deser::{Deserialize, SliceWithPos};
use epserde::ser::Serialize;
use epserde::traits::{MaxSizeOf, TypeName};

fn bytes_of<T: Serialize>(value: &T) -> Vec<u8> {
    let mut buf: Vec<u8> = Vec::new();
    value.serialize(&mut buf).unwrap();
    buf
}

#[test]
fn test_pair_round_trip() {
    let v: (u16, u64) = (0xbeef, 0x0102_0304_0506_0708);
    let buf = bytes_of(&v);
    let w = <(u16, u64)>::deserialize_full(&mut SliceWithPos::new(&buf)).unwrap();
    assert_eq!(v, w);
}

#[test]
fn test_one_tuple_round_trip() {
    let v: (i32,) = (-5,);
    let buf = bytes_of(&v);
    let w = <(i32,)>::deserialize_full(&mut SliceWithPos::new(&buf)).unwrap();
    assert_eq!(v, w);
    let e = <(i32,)>::deserialize_eps(&buf).unwrap();
    assert_eq!(e, v);
}

#[test]
fn test_long_tuple_round_trip() {
    let v: (u8, u16, u32, u64, i8, i16, i32, i64, bool, char, u128) =
        (1, 2, 3, 4, -5, -6, -7, -8, true, 'z', 1u128 << 70);
    let buf = bytes_of(&v);
    let w = <(u8, u16, u32, u64, i8, i16, i32, i64, bool, char, u128)>::deserialize_full(
        &mut SliceWithPos::new(&buf),
    )
    .unwrap();
    assert_eq!(v, w);
}

#[test]
fn test_tuple_image_is_concatenation() {
    let v: (u8, u32) = (0xaa, 0x0102_0304);
    let buf = bytes_of(&v);
    // The image of the pair is the image of each element, with no inner padding.
    assert_eq!(&buf[buf.len() - 5..], &[0xaa, 4, 3, 2, 1]);
}

#[test]
fn test_tuple_names_and_alignment() {
    assert_eq!(<(u8, u32)>::type_name_str(), "(u8, u32)");
    assert_eq!(<(u8,)>::type_name_str(), "(u8,)");
    assert_eq!(<(u8, u32)>::max_size_of(), 4);
    assert_eq!(<(u8, u16, u64)>::max_size_of(), 8);
}

#[test]
fn test_vec_of_tuples_round_trip() {
    let v: Vec<(u32, u32)> = vec![(1, 2), (3, 4), (5, 6)];
    let buf = bytes_of(&v);
    let w = <Vec<(u32, u32)>>::deserialize_full(&mut SliceWithPos::new(&buf)).unwrap();
    assert_eq!(v, w);
}

#[test]
fn test_tuple_bool_reads_nonzero_as_true() {
    let v: (u8, bool) = (3, false);
    let mut buf = bytes_of(&v);
    let last = buf.len() - 1;
    buf[last] = 2;
    let w = <(u8, bool)>::deserialize_full(&mut SliceWithPos::new(&buf)).unwrap();
    assert_eq!(w, (3, true));
}

#[test]
fn test_tuple_of_tuple_and_array_round_trip() {
    let v: ((u8, u16), [u32; 2]) = ((1, 0x0203), [4, 5]);
    let buf = bytes_of(&v);
    let w = <((u8, u16), [u32; 2])>::deserialize_full(&mut SliceWithPos::new(&buf)).unwrap();
    assert_eq!(v, w);
    let e = <((u8, u16), [u32; 2])>::deserialize_eps(&buf).unwrap();
    assert_eq!(e, v);
    assert_eq!(<((u8, u16), [u32; 2])>::max_size_of(), 4);
    // The image is the concatenation of the images of the elements, after the padding
    // that aligns it to four bytes.
    let n = buf.len();
    assert_eq!(&buf[n - 11..], &[1, 3, 2, 4, 0, 0, 0, 5, 0, 0, 0]);
    assert_eq!(<((u8, u16), [u32; 2])>::type_name_str(), "((u8, u16), [u32; 2])");
}
