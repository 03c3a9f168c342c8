use epserde::deser::{Deserialize, SliceWithPos};
use epserde::ser::Serialize;

fn round_trip_full<T>(value: T) -> T
where
    T: Serialize + Deserialize,
{
    let mut buf: Vec<u8> = Vec::new();
    let n = value.serialize(&mut buf).unwrap();
    assert_eq!(n, buf.len());
    let mut reader = SliceWithPos::new(&buf);
    T::deserialize_full(&mut reader).unwrap()
}

#[test]
fn test_unsigned_round_trip() {
    assert_eq!(round_trip_full(0u8), 0);
    assert_eq!(round_trip_full(255u8), 255);
    assert_eq!(round_trip_full(0xbeefu16), 0xbeef);
    assert_eq!(round_trip_full(0xdead_beefu32), 0xdead_beef);
    assert_eq!(round_trip_full(u64::MAX - 3), u64::MAX - 3);
    assert_eq!(round_trip_full(1u128 << 100), 1u128 << 100);
    assert_eq!(round_trip_full(usize::MAX), usize::MAX);
}

#[test]
fn test_signed_round_trip() {
    assert_eq!(round_trip_full(-1i8), -1);
    assert_eq!(round_trip_full(i16::MIN), i16::MIN);
    assert_eq!(round_trip_full(-123456i32), -123456);
    assert_eq!(round_trip_full(i64::MIN + 7), i64::MIN + 7);
    assert_eq!(round_trip_full(-(1i128 << 90)), -(1i128 << 90));
    assert_eq!(round_trip_full(isize::MIN), isize::MIN);
}

#[test]
fn test_bool_char_unit_round_trip() {
    assert!(round_trip_full(true));
    assert!(!round_trip_full(false));
    assert_eq!(round_trip_full('x'), 'x');
    assert_eq!(round_trip_full('ε'), 'ε');
    assert_eq!(round_trip_full('\u{10FFFF}'), '\u{10FFFF}');
    round_trip_full(());
    let _: core::marker::PhantomData<u32> = round_trip_full(core::marker::PhantomData::<u32>);
}

#[test]
fn test_eps_primitives() {
    let mut buf: Vec<u8> = Vec::new();
    0x0102_0304u32.serialize(&mut buf).unwrap();
    assert_eq!(u32::deserialize_eps(&buf).unwrap(), 0x0102_0304);
    let mut buf: Vec<u8> = Vec::new();
    'q'.serialize(&mut buf).unwrap();
    assert_eq!(char::deserialize_eps(&buf).unwrap(), 'q');
}

#[test]
fn test_value_bytes_are_little_endian_after_header() {
    let mut buf: Vec<u8> = Vec::new();
    let n = 0x0102_0304u32.serialize(&mut buf).unwrap();
    // The header is 29 bytes, then the type name "u32" as a string (8 + 3 bytes).
    assert_eq!(n, 29 + 8 + 3 + 4);
    assert_eq!(&buf[buf.len() - 4..], &[4, 3, 2, 1]);
}
