use unicreate::version::{clean_version, is_newer_version, parse_version_parts};

#[test]
fn newer_version_examples() {
    assert!(is_newer_version("2.1.0", "2.0.9"));
    assert!(!is_newer_version("1.0", "1.0.0"));
}

#[test]
fn a_leading_v_does_not_make_a_lower_number_newer() {
    assert!(!is_newer_version("v1.2", "1.3"));
    assert!(is_newer_version("1.3", "v1.2"));
    assert!(is_newer_version("v1.3", "1.2"));
}

#[test]
fn equal_versions_are_not_newer() {
    assert!(!is_newer_version("1.2.3", "1.2.3"));
    assert!(!is_newer_version("1.0.0", "1.0"));
    assert!(!is_newer_version("", ""));
    assert!(!is_newer_version("v1", "V1"));
}

#[test]
fn leading_v_and_suffixes_do_not_count() {
    assert!(!is_newer_version("v1.2.3", "1.2.3"));
    assert!(!is_newer_version("1.2.3", "V1.2.3"));
    assert!(!is_newer_version("1.2.3-beta", "1.2.3"));
    assert!(!is_newer_version("1.2.3", "1.2.3+build.9"));
    assert!(is_newer_version("1.2.4-rc1", "1.2.3"));
    assert!(is_newer_version("vV2", "1"));
}

#[test]
fn order_is_by_numbers_not_by_text() {
    assert!(is_newer_version("1.10", "1.9"));
    assert!(!is_newer_version("1.9", "1.10"));
    assert!(is_newer_version("1.0.1", "1"));
    assert!(!is_newer_version("1", "1.0.1"));
}

#[test]
fn a_second_leading_v_is_part_of_the_version() {
    assert_eq!(parse_version_parts("vv1"), vec![0]);
    assert_eq!(parse_version_parts("v1"), vec![1]);
    assert!(is_newer_version("v1", "0.5"));
    assert!(!is_newer_version("vv1", "0.5"));
}

#[test]
fn clean_version_drops_one_small_and_one_capital_v() {
    assert_eq!(clean_version("v1.2"), "1.2");
    assert_eq!(clean_version("V1.2"), "1.2");
    assert_eq!(clean_version("vV1.2"), "1.2");
    assert_eq!(clean_version("Vv1.2"), "v1.2");
    assert_eq!(clean_version("1.2"), "1.2");
    assert_eq!(clean_version(""), "");
    assert_eq!(clean_version("v"), "");
}

#[test]
fn version_parts_are_the_leading_digits_of_each_piece() {
    assert_eq!(parse_version_parts("1.2.3"), vec![1, 2, 3]);
    assert_eq!(parse_version_parts("v1.2.3-beta.4+7"), vec![1, 2, 3]);
    assert_eq!(parse_version_parts("1.2+7-x"), vec![1, 2]);
    assert_eq!(parse_version_parts("1.x.3rc"), vec![1, 0, 3]);
    assert_eq!(parse_version_parts("1..2"), vec![1, 0, 2]);
    assert_eq!(parse_version_parts(""), vec![0]);
    assert_eq!(parse_version_parts("4294967295.4294967296"), vec![4294967295, 0]);
    assert_eq!(parse_version_parts("007"), vec![7]);
}

#[test]
fn the_order_is_total_on_samples() {
    let tags = ["", "0", "1", "1.0", "v1.0.0", "1.0.1", "1.1", "2", "V2.0-x", "10", "1.10", "1.9"];
    for a in tags {
        assert!(!is_newer_version(a, a));
        for b in tags {
            assert!(!(is_newer_version(a, b) && is_newer_version(b, a)), "{} {}", a, b);
            for c in tags {
                if is_newer_version(a, b) && is_newer_version(b, c) {
                    assert!(is_newer_version(a, c), "{} {} {}", a, b, c);
                }
                if !is_newer_version(a, b) && !is_newer_version(b, a) {
                    assert_eq!(is_newer_version(a, c), is_newer_version(b, c), "{} {} {}", a, b, c);
                }
            }
        }
    }
}
