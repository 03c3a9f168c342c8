use epserde::pad_align_to;
use epserde::{MAGIC, MAGIC_REV, VERSION};

#[test]
fn test_pad_align_to_examples() {
    assert_eq!(7 + pad_align_to(7, 8), 8);
    assert_eq!(8 + pad_align_to(8, 8), 8);
    assert_eq!(9 + pad_align_to(9, 8), 16);
}

#[test]
fn test_pad_align_to_small_alignments() {
    for v in 0..100usize {
        assert_eq!(pad_align_to(v, 1), 0);
        let p = pad_align_to(v, 16);
        assert!(p < 16);
        assert_eq!((v + p) % 16, 0);
        assert_eq!(p == 0, v % 16 == 0);
    }
    assert_eq!(pad_align_to(usize::MAX, 4), 1);
    assert_eq!(pad_align_to(0, 64), 0);
}

#[test]
fn test_magic_cookie_spells_epserde() {
    assert_eq!(MAGIC.to_le_bytes(), *b"epserde ");
    assert_eq!(MAGIC_REV, u64::from_be_bytes(MAGIC.to_le_bytes()));
    assert_eq!(VERSION, (1, 1));
}
