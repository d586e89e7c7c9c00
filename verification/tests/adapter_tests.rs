use nero::adapter::{select_threshold, Adapter};
use nero::semver::SemanticVersion;

fn thresholds() -> Vec<SemanticVersion> {
    vec![
        SemanticVersion::new(0, 0, 1),
        SemanticVersion::new(0, 1, 0),
        SemanticVersion::new(1, 0, 0),
    ]
}

#[test]
fn selects_the_greatest_threshold_at_most_the_version() {
    let t = thresholds();
    assert_eq!(select_threshold(&t, &SemanticVersion::new(0, 0, 1)), Some(0));
    assert_eq!(select_threshold(&t, &SemanticVersion::new(0, 0, 9)), Some(0));
    assert_eq!(select_threshold(&t, &SemanticVersion::new(0, 1, 0)), Some(1));
    assert_eq!(select_threshold(&t, &SemanticVersion::new(0, 5, 0)), Some(1));
    assert_eq!(select_threshold(&t, &SemanticVersion::new(1, 0, 0)), Some(2));
    assert_eq!(select_threshold(&t, &SemanticVersion::new(7, 3, 2)), Some(2));
}

#[test]
fn selects_nothing_below_the_lowest_threshold() {
    let t = thresholds();
    assert_eq!(select_threshold(&t, &SemanticVersion::new(0, 0, 0)), None);
    assert_eq!(select_threshold(&Vec::new(), &SemanticVersion::new(3, 0, 0)), None);
}

#[test]
fn selection_does_not_depend_on_the_order_of_thresholds() {
    let t = vec![
        SemanticVersion::new(1, 0, 0),
        SemanticVersion::new(0, 0, 1),
        SemanticVersion::new(0, 1, 0),
    ];
    assert_eq!(select_threshold(&t, &SemanticVersion::new(0, 5, 0)), Some(2));
    assert_eq!(select_threshold(&t, &SemanticVersion::new(2, 0, 0)), Some(0));
    assert_eq!(select_threshold(&t, &SemanticVersion::new(0, 0, 0)), None);
}

#[test]
fn selection_takes_the_earliest_of_equal_thresholds() {
    let t = vec![SemanticVersion::new(0, 1, 0), SemanticVersion::new(0, 1, 0)];
    assert_eq!(select_threshold(&t, &SemanticVersion::new(0, 1, 0)), Some(0));
}

#[test]
fn selection_is_monotonic() {
    let t = thresholds();
    let versions = [
        SemanticVersion::new(0, 0, 0),
        SemanticVersion::new(0, 0, 1),
        SemanticVersion::new(0, 0, 2),
        SemanticVersion::new(0, 1, 0),
        SemanticVersion::new(0, 9, 9),
        SemanticVersion::new(1, 0, 0),
        SemanticVersion::new(2, 0, 0),
    ];
    let mut last: Option<usize> = None;
    for v in versions.iter() {
        let now = select_threshold(&t, v);
        assert!(now >= last);
        last = now;
    }
}

#[test]
fn baseline_adapter_binds_from_its_threshold_on() {
    assert_eq!(Adapter::V001.min_version(), SemanticVersion::new(0, 0, 1));
    assert_eq!(Adapter::all(), vec![Adapter::V001]);
    assert_eq!(Adapter::for_version(&SemanticVersion::new(0, 0, 1)), Some(Adapter::V001));
    assert_eq!(Adapter::for_version(&SemanticVersion::new(0, 0, 2)), Some(Adapter::V001));
    assert_eq!(Adapter::for_version(&SemanticVersion::new(0, 3, 0)), Some(Adapter::V001));
    assert_eq!(Adapter::for_version(&SemanticVersion::new(12, 0, 0)), Some(Adapter::V001));
}

#[test]
fn no_adapter_binds_below_the_lowest_threshold() {
    assert_eq!(Adapter::for_version(&SemanticVersion::new(0, 0, 0)), None);
}
