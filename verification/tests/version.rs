use ruma_api::error::UnknownVersionError;
use ruma_api::version::{MatrixVersion, VersionOrder, VersionRepr};

#[test]
fn current_tokens_parse() {
    assert_eq!(MatrixVersion::try_from("v1.0"), Ok(MatrixVersion::V1_0));
    assert_eq!(MatrixVersion::try_from("v1.1"), Ok(MatrixVersion::V1_1));
    assert_eq!(MatrixVersion::try_from("v1.2"), Ok(MatrixVersion::V1_2));
}

#[test]
fn legacy_tokens_parse_to_the_first_version() {
    assert_eq!(MatrixVersion::try_from("r0.5.0"), Ok(MatrixVersion::V1_0));
    assert_eq!(MatrixVersion::try_from("r0.6.0"), Ok(MatrixVersion::V1_0));
    assert_eq!(MatrixVersion::try_from("r0.6.1"), Ok(MatrixVersion::V1_0));
}

#[test]
fn unknown_tokens_are_rejected() {
    assert_eq!(MatrixVersion::try_from("v1.3"), Err(UnknownVersionError));
    assert_eq!(MatrixVersion::try_from(""), Err(UnknownVersionError));
    assert_eq!(MatrixVersion::try_from("V1.0"), Err(UnknownVersionError));
    assert_eq!(MatrixVersion::try_from("v1.0 "), Err(UnknownVersionError));
    assert_eq!(MatrixVersion::try_from("r0.4.0"), Err(UnknownVersionError));
}

#[test]
fn superset_follows_the_minor_version() {
    assert!(MatrixVersion::V1_2.is_superset_of(MatrixVersion::V1_1));
    assert!(MatrixVersion::V1_1.is_superset_of(MatrixVersion::V1_1));
    assert!(!MatrixVersion::V1_0.is_superset_of(MatrixVersion::V1_1));
    assert!(MatrixVersion::V1_0.is_superset_of(MatrixVersion::V1_0));
}

#[test]
fn different_major_versions_are_incomparable() {
    let a = VersionRepr::new(2, 0);
    let b = VersionRepr::new(1, 0);
    assert_eq!(a.compare(&b), VersionOrder::Incomparable);
    assert_eq!(b.compare(&a), VersionOrder::Incomparable);
    assert_eq!(a.partial_cmp(&b), None);
    assert!(!(a > b));
    assert!(!(a < b));
    assert!(!(a >= b));
    assert!(a != b);
}

#[test]
fn same_major_versions_compare_by_minor() {
    assert_eq!(VersionRepr::new(1, 1).compare(&VersionRepr::new(1, 2)), VersionOrder::Less);
    assert_eq!(VersionRepr::new(1, 2).compare(&VersionRepr::new(1, 2)), VersionOrder::Equal);
    assert_eq!(VersionRepr::new(1, 3).compare(&VersionRepr::new(1, 2)), VersionOrder::Greater);
    assert_eq!(MatrixVersion::V1_0.compare(MatrixVersion::V1_2), VersionOrder::Less);
}

#[test]
fn repr_gives_major_and_minor() {
    let r = MatrixVersion::V1_2.repr();
    assert_eq!((r.major, r.minor), (1, 2));
}

#[test]
fn versions_print_as_their_tokens() {
    assert_eq!(MatrixVersion::V1_0.to_string(), "v1.0");
    assert_eq!(MatrixVersion::V1_1.to_string(), "v1.1");
    assert_eq!(MatrixVersion::V1_2.to_string(), "v1.2");
}

#[test]
fn printed_versions_parse_back() {
    for v in [MatrixVersion::V1_0, MatrixVersion::V1_1, MatrixVersion::V1_2] {
        assert_eq!(MatrixVersion::try_from(&v.to_string()), Ok(v));
    }
}

#[test]
fn superset_agrees_with_the_order_of_the_numbers() {
    let all = [MatrixVersion::V1_0, MatrixVersion::V1_1, MatrixVersion::V1_2];
    for a in all {
        for b in all {
            let (x, y) = (a.repr(), b.repr());
            assert_eq!(a.is_superset_of(b), x.major == y.major && x.minor >= y.minor);
            assert_eq!(a.is_superset_of(b), x >= y);
        }
    }
}
