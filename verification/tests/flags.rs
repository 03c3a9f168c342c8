use epserde::deser::Flags;

#[test]
fn test_flags_set_operations() {
    let mut f = Flags::empty();
    assert!(f.is_empty());
    f.insert(Flags::sequential());
    assert!(f.contains(Flags::sequential()));
    assert!(!f.contains(Flags::random_access()));
    f.insert(Flags::random_access());
    f.remove(Flags::sequential());
    assert!(!f.intersects(Flags::sequential()));
    assert_eq!(f.bits(), 4);
    f.toggle(Flags::transparent_huge_pages());
    assert_eq!(f.bits(), 5);
    f.set(Flags::random_access(), false);
    assert_eq!(f, Flags::transparent_huge_pages());
    assert_eq!(Flags::all().bits(), 7);
    assert!(Flags::all().is_all());
    assert_eq!(Flags::from_bits(8), None);
    assert_eq!(Flags::from_bits(3).map(|f| f.bits()), Some(3));
    assert_eq!(Flags::from_bits_truncate(0xff).bits(), 7);
    assert_eq!(Flags::from_bits_retain(0xff).bits(), 0xff);
    assert_eq!(Flags::sequential().union(Flags::random_access()).bits(), 6);
    assert_eq!(Flags::all().intersection(Flags::sequential()).bits(), 2);
    assert_eq!(Flags::all().difference(Flags::sequential()).bits(), 5);
    assert_eq!(Flags::sequential().complement().bits(), 5);
    assert_eq!(Flags::default(), Flags::empty());
}

#[test]
fn test_flags_from_name_and_symmetric_difference() {
    assert_eq!(Flags::from_name("SEQUENTIAL"), Some(Flags::sequential()));
    assert_eq!(Flags::from_name("RANDOM_ACCESS"), Some(Flags::random_access()));
    assert_eq!(Flags::from_name("TRANSPARENT_HUGE_PAGES"), Some(Flags::transparent_huge_pages()));
    assert_eq!(Flags::from_name(""), None);
    assert_eq!(Flags::from_name("sequential"), None);
    let a = Flags::sequential().union(Flags::random_access());
    let b = Flags::random_access().union(Flags::transparent_huge_pages());
    assert_eq!(a.symmetric_difference(b).bits(), 0b011);
}
