use tauritavern::version::{is_newer_version, parse_version_from_tag, version_parts};

#[test]
fn newer_patch_version() {
    assert!(is_newer_version("1.3.0", "1.3.1"));
}

#[test]
fn newer_minor_version() {
    assert!(is_newer_version("1.3.0", "1.4.0"));
}

#[test]
fn newer_major_version() {
    assert!(is_newer_version("1.3.0", "2.0.0"));
}

#[test]
fn same_version() {
    assert!(!is_newer_version("1.3.0", "1.3.0"));
}

#[test]
fn older_version() {
    assert!(!is_newer_version("1.3.0", "1.2.9"));
}

#[test]
fn different_segment_lengths() {
    assert!(is_newer_version("1.3", "1.3.1"));
    assert!(!is_newer_version("1.3.1", "1.3"));
}

#[test]
fn desktop_auto_tag() {
    assert_eq!(parse_version_from_tag("desktop-auto-v1.4.0"), "1.4.0");
}

#[test]
fn simple_v_tag() {
    assert_eq!(parse_version_from_tag("v1.4.0"), "1.4.0");
}

#[test]
fn bare_version() {
    assert_eq!(parse_version_from_tag("1.4.0"), "1.4.0");
}

#[test]
fn mobile_tag() {
    assert_eq!(parse_version_from_tag("mobile-v2.0.0"), "2.0.0");
}

#[test]
fn mobile_auto_tag() {
    assert_eq!(parse_version_from_tag("mobile-auto-v2.0.0"), "2.0.0");
}

#[test]
fn suffix_is_stripped() {
    assert_eq!(parse_version_from_tag("v1.4.0-beta.1"), "1.4.0");
}

#[test]
fn desktop_auto_branch_suffix_keeps_release_version() {
    assert_eq!(
        parse_version_from_tag("desktop-auto-v1.4.0-next-2.0.0"),
        "1.4.0"
    );
}

#[test]
fn mobile_auto_branch_suffix_keeps_release_version() {
    assert_eq!(
        parse_version_from_tag("mobile-auto-v1.4.0-next-2.0.0"),
        "1.4.0"
    );
}

// Tags without digits, and whitespace around tags.

#[test]
fn tag_without_digits_is_returned_trimmed() {
    assert_eq!(parse_version_from_tag("  nightly \n"), "nightly");
    assert_eq!(parse_version_from_tag(""), "");
    assert_eq!(parse_version_from_tag(" \t "), "");
}

#[test]
fn tag_with_surrounding_whitespace() {
    assert_eq!(parse_version_from_tag("\u{3000} v1.2.3 \u{a0}"), "1.2.3");
}

#[test]
fn tag_version_keeps_trailing_dots() {
    assert_eq!(parse_version_from_tag("v1.2."), "1.2.");
}

#[test]
fn tag_version_is_idempotent_on_examples() {
    for tag in ["desktop-auto-v1.4.0", "  nightly ", "v1.4.0-beta.1", "", "x"] {
        let once = parse_version_from_tag(tag);
        assert_eq!(parse_version_from_tag(&once), once);
    }
}

// Components.

#[test]
fn components_of_versions() {
    assert_eq!(version_parts("1.3.0"), vec![1, 3, 0]);
    assert_eq!(version_parts(""), vec![0]);
    assert_eq!(version_parts("1..2"), vec![1, 0, 2]);
    assert_eq!(version_parts("1.x.3"), vec![1, 0, 3]);
    assert_eq!(version_parts("+7.007"), vec![7, 7]);
    assert_eq!(version_parts("-1.2"), vec![0, 2]);
    assert_eq!(version_parts("+.1"), vec![0, 1]);
    assert_eq!(version_parts("18446744073709551615"), vec![u64::MAX]);
    assert_eq!(version_parts("18446744073709551616.1"), vec![0, 1]);
    assert_eq!(version_parts(" 1.2"), vec![0, 2]);
}

#[test]
fn non_numeric_components_count_as_zero() {
    assert!(!is_newer_version("1.0", "1.beta"));
    assert!(is_newer_version("1.beta", "1.1"));
    assert!(!is_newer_version("1.2", "1.2-rc1"));
}

#[test]
fn zero_padding_makes_versions_equal() {
    assert!(!is_newer_version("1.3", "1.3.0"));
    assert!(!is_newer_version("1.3.0", "1.3"));
    assert!(!is_newer_version("", "0.0"));
}

#[test]
fn comparison_is_numeric_not_textual() {
    assert!(is_newer_version("1.9.0", "1.10.0"));
    assert!(!is_newer_version("1.10.0", "1.9.0"));
}

#[test]
fn newer_is_asymmetric_and_transitive_on_examples() {
    let versions = ["0.9", "1.0", "1.0.1", "1.2", "2", "10.0.0"];
    for a in versions {
        assert!(!is_newer_version(a, a));
        for b in versions {
            if is_newer_version(a, b) {
                assert!(!is_newer_version(b, a));
            }
            for c in versions {
                if is_newer_version(a, b) && is_newer_version(b, c) {
                    assert!(is_newer_version(a, c));
                }
            }
        }
    }
}
