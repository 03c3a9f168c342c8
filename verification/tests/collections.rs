use epserde::deser::{Deserialize, SliceWithPos};
use epserde::ser::Serialize;

fn bytes_of<T: Serialize>(value: &T) -> Vec<u8> {
    let mut buf: Vec<u8> = Vec::new();
    value.serialize(&mut buf).unwrap();
    buf
}

#[test]
fn test_vec_zero_round_trip() {
    let v: Vec<u32> = vec![1, 2, 3, 4, 0xffff_ffff];
    let buf = bytes_of(&v);
    let w = <Vec<u32>>::deserialize_full(&mut SliceWithPos::new(&buf)).unwrap();
    assert_eq!(v, w);
}

#[test]
fn test_vec_zero_eps_is_a_view() {
    let v: Vec<u64> = vec![10, 20, 30];
    let buf = bytes_of(&v);
    let mut space = vec![0u8; buf.len() + 8];
    let mut found = false;
    for k in 0..8 {
        space[k..k + buf.len()].copy_from_slice(&buf);
        if let Ok(s) = <Vec<u64>>::deserialize_eps(&space[k..k + buf.len()]) {
            found = true;
            assert_eq!(s.len(), 3);
            assert!(!s.is_empty());
            assert_eq!(s.get(0), 10);
            assert_eq!(s.get(2), 30);
            assert_eq!(s.to_vec(), v);
            assert_eq!(s.as_bytes().len(), 24);
        }
    }
    assert!(found);
}

#[test]
fn test_eps_alignment_is_checked() {
    let v: Vec<u64> = vec![7, 8, 9];
    let buf = bytes_of(&v);
    let mut space = vec![0u8; buf.len() + 8];
    let mut ok = 0;
    let mut misaligned = 0;
    for k in 0..8 {
        space[k..k + buf.len()].copy_from_slice(&buf);
        match <Vec<u64>>::deserialize_eps(&space[k..k + buf.len()]) {
            Ok(s) => {
                ok += 1;
                assert_eq!(s.to_vec(), v);
            }
            Err(epserde::deser::Error::AlignmentError) => misaligned += 1,
            Err(e) => panic!("unexpected error {:?}", e),
        }
    }
    assert_eq!(ok, 1);
    assert_eq!(misaligned, 7);
}

#[test]
fn test_vec_deep_round_trip() {
    let v: Vec<Vec<u8>> = vec![vec![], vec![1], vec![2, 3, 4]];
    let buf = bytes_of(&v);
    let w = <Vec<Vec<u8>>>::deserialize_full(&mut SliceWithPos::new(&buf)).unwrap();
    assert_eq!(v, w);
    let e = <Vec<Vec<u8>>>::deserialize_eps(&buf).unwrap();
    assert_eq!(e.len(), 3);
    assert_eq!(e[0].to_vec(), Vec::<u8>::new());
    assert_eq!(e[2].to_vec(), vec![2, 3, 4]);
}

#[test]
fn test_string_round_trip() {
    let s = String::from("ε-serde, ünïcødé");
    let buf = bytes_of(&s);
    let t = String::deserialize_full(&mut SliceWithPos::new(&buf)).unwrap();
    assert_eq!(s, t);
    let e: &str = String::deserialize_eps(&buf).unwrap();
    assert_eq!(e, s.as_str());
}

#[test]
fn test_vec_of_strings_round_trip() {
    let v: Vec<String> = vec!["a".to_string(), "".to_string(), "hello".to_string()];
    let buf = bytes_of(&v);
    let w = <Vec<String>>::deserialize_full(&mut SliceWithPos::new(&buf)).unwrap();
    assert_eq!(v, w);
    let e = <Vec<String>>::deserialize_eps(&buf).unwrap();
    assert_eq!(e, vec!["a", "", "hello"]);
}

#[test]
fn test_option_round_trip() {
    let a: Option<u32> = None;
    let b: Option<u32> = Some(17);
    assert_eq!(<Option<u32>>::deserialize_full(&mut SliceWithPos::new(&bytes_of(&a))).unwrap(), a);
    assert_eq!(<Option<u32>>::deserialize_full(&mut SliceWithPos::new(&bytes_of(&b))).unwrap(), b);
    assert_eq!(<Option<u32>>::deserialize_eps(&bytes_of(&b)).unwrap(), Some(17));
    let c: Option<Vec<String>> = Some(vec!["x".to_string()]);
    let buf = bytes_of(&c);
    assert_eq!(<Option<Vec<String>>>::deserialize_full(&mut SliceWithPos::new(&buf)).unwrap(), c);
    assert_eq!(<Option<Vec<String>>>::deserialize_eps(&buf).unwrap(), Some(vec!["x"]));
}

#[test]
fn test_option_invalid_tag() {
    let buf = bytes_of(&Some(5u8));
    let mut bad = buf.clone();
    let tag_pos = bad.len() - 2;
    assert_eq!(bad[tag_pos], 1);
    bad[tag_pos] = 7;
    match <Option<u8>>::deserialize_full(&mut SliceWithPos::new(&bad)) {
        Err(epserde::deser::Error::InvalidTag(7)) => {}
        other => panic!("unexpected {:?}", other),
    }
    match <Option<u8>>::deserialize_eps(&bad) {
        Err(epserde::deser::Error::InvalidTag(7)) => {}
        other => panic!("unexpected {:?}", other),
    }
}

#[test]
fn test_boxed_round_trip() {
    let b: Box<[u16]> = vec![1u16, 2, 3].into_boxed_slice();
    let buf = bytes_of(&b);
    assert_eq!(<Box<[u16]>>::deserialize_full(&mut SliceWithPos::new(&buf)).unwrap(), b);
    let d: Box<[String]> = vec!["p".to_string(), "q".to_string()].into_boxed_slice();
    let buf = bytes_of(&d);
    assert_eq!(<Box<[String]>>::deserialize_full(&mut SliceWithPos::new(&buf)).unwrap(), d);
    let e = <Box<[String]>>::deserialize_eps(&buf).unwrap();
    assert_eq!(&*e, &["p", "q"]);
    let s: Box<str> = "boxed".into();
    let buf = bytes_of(&s);
    assert_eq!(<Box<str>>::deserialize_full(&mut SliceWithPos::new(&buf)).unwrap(), s);
    assert_eq!(<Box<str>>::deserialize_eps(&buf).unwrap(), "boxed");
}

#[test]
fn test_vec_and_string_share_a_format() {
    let s = String::from("abc");
    let v: Vec<u8> = b"abc".to_vec();
    let sb = bytes_of(&s);
    let vb = bytes_of(&v);
    // The headers differ only in hashes and type names; the bodies are the same.
    assert_eq!(&sb[sb.len() - 11..], &vb[vb.len() - 11..]);
}

#[test]
fn test_truncated_input_is_a_read_error() {
    let buf = bytes_of(&vec![1u32, 2, 3]);
    for cut in [0, 5, 20, buf.len() - 1] {
        match <Vec<u32>>::deserialize_full(&mut SliceWithPos::new(&buf[..cut])) {
            Err(epserde::deser::Error::ReadError) => {}
            other => panic!("cut {}: unexpected {:?}", cut, other),
        }
        match <Vec<u32>>::deserialize_eps(&buf[..cut]) {
            Err(epserde::deser::Error::ReadError) | Err(epserde::deser::Error::AlignmentError) => {}
            other => panic!("cut {}: unexpected {:?}", cut, other.map(|s| s.to_vec())),
        }
    }
}
