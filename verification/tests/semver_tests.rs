use nero::semver::SemanticVersion;

#[test]
fn parse_reads_three_components() {
    assert_eq!(SemanticVersion::parse("0.0.1"), Some(SemanticVersion::new(0, 0, 1)));
    assert_eq!(SemanticVersion::parse("12.345.6789"), Some(SemanticVersion::new(12, 345, 6789)));
    assert_eq!(SemanticVersion::parse("007.0.10"), Some(SemanticVersion::new(7, 0, 10)));
}

#[test]
fn parse_takes_the_largest_component() {
    assert_eq!(
        SemanticVersion::parse("18446744073709551615.0.0"),
        Some(SemanticVersion::new(u64::MAX, 0, 0))
    );
    assert_eq!(SemanticVersion::parse("18446744073709551616.0.0"), None);
    assert_eq!(SemanticVersion::parse("0.0.99999999999999999999999"), None);
}

#[test]
fn parse_rejects_malformed_text() {
    assert_eq!(SemanticVersion::parse(""), None);
    assert_eq!(SemanticVersion::parse("1"), None);
    assert_eq!(SemanticVersion::parse("1.2"), None);
    assert_eq!(SemanticVersion::parse("1.2."), None);
    assert_eq!(SemanticVersion::parse(".1.2"), None);
    assert_eq!(SemanticVersion::parse("1..2"), None);
    assert_eq!(SemanticVersion::parse("1.2.3.4"), None);
    assert_eq!(SemanticVersion::parse("1.2.3 "), None);
    assert_eq!(SemanticVersion::parse("v1.2.3"), None);
    assert_eq!(SemanticVersion::parse("1.2.3-beta"), None);
    assert_eq!(SemanticVersion::parse("1.2.x"), None);
    assert_eq!(SemanticVersion::parse("١.٢.٣"), None);
}

#[test]
fn order_goes_by_major_then_minor_then_patch() {
    let a = SemanticVersion::new(0, 0, 1);
    let b = SemanticVersion::new(0, 1, 0);
    let c = SemanticVersion::new(1, 0, 0);
    assert!(a.le(&a));
    assert!(!a.lt(&a));
    assert!(a.lt(&b));
    assert!(b.lt(&c));
    assert!(a.lt(&c));
    assert!(!c.le(&b));
    assert!(SemanticVersion::new(1, 2, 3).lt(&SemanticVersion::new(1, 2, 4)));
    assert!(SemanticVersion::new(1, 9, 9).lt(&SemanticVersion::new(2, 0, 0)));
    assert!(!SemanticVersion::new(2, 0, 0).le(&SemanticVersion::new(1, 9, 9)));
}
