use volt_resolver::semver::{is_range_text_safe, SemverRange, SemverVersion};
use volt_resolver::version::{select_version, Selection};

fn keys(list: &[&str]) -> Vec<String> {
    list.iter().map(|k| k.to_string()).collect()
}

fn pick(range: &str, list: &[&str]) -> Option<Selection> {
    let range = SemverRange::parse(range).unwrap();
    select_version(&range, &keys(list))
}

#[test]
fn caret_range_selects_the_highest_match() {
    assert_eq!(
        pick("^1.0.0", &["1.0.0", "1.2.0", "2.0.0"]),
        Some(Selection { index: 1, version: "1.2.0".to_string() })
    );
}

#[test]
fn selection_does_not_depend_on_key_order() {
    assert_eq!(
        pick("^1.0.0", &["2.0.0", "1.2.0", "1.0.0", "1.10.0", "1.9.9"]),
        Some(Selection { index: 3, version: "1.10.0".to_string() })
    );
}

#[test]
fn exact_version_selects_itself() {
    assert_eq!(
        pick("1.0.0", &["0.9.0", "1.0.0", "1.0.1"]),
        Some(Selection { index: 1, version: "1.0.0".to_string() })
    );
}

#[test]
fn tilde_range_stays_in_the_minor() {
    assert_eq!(
        pick("~1.2.0", &["1.2.0", "1.2.7", "1.3.0"]),
        Some(Selection { index: 1, version: "1.2.7".to_string() })
    );
}

#[test]
fn comparator_set_is_an_intersection() {
    assert_eq!(
        pick(">=1.2.7 <1.3.0", &["1.2.6", "1.2.8", "1.2.99", "1.3.0"]),
        Some(Selection { index: 2, version: "1.2.99".to_string() })
    );
}

#[test]
fn star_accepts_every_release() {
    assert_eq!(
        pick("*", &["0.1.0", "3.1.4", "2.7.1"]),
        Some(Selection { index: 1, version: "3.1.4".to_string() })
    );
}

#[test]
fn release_comes_after_its_prereleases() {
    assert_eq!(
        pick(">=1.2.3-alpha", &["1.2.3-alpha", "1.2.3-beta.2", "1.2.3"]),
        Some(Selection { index: 2, version: "1.2.3".to_string() })
    );
}

#[test]
fn first_of_equal_versions_is_kept() {
    assert_eq!(
        pick("^1.0.0", &["1.5.0+build1", "1.5.0+build2"]),
        Some(Selection { index: 0, version: "1.5.0".to_string() })
    );
}

#[test]
fn leading_v_is_dropped_from_the_selected_version() {
    assert_eq!(
        pick("^1.0.0", &["v1.4.0"]),
        Some(Selection { index: 0, version: "1.4.0".to_string() })
    );
}

#[test]
fn no_match_selects_nothing() {
    assert_eq!(pick("^3.0.0", &["1.0.0", "1.2.0", "2.0.0"]), None);
    assert_eq!(pick("^1.0.0", &[]), None);
}

#[test]
fn keys_that_are_no_versions_do_not_match_a_caret_range() {
    assert_eq!(
        pick("^1.0.0", &["latest", "1.1", "1.0.5"]),
        Some(Selection { index: 2, version: "1.0.5".to_string() })
    );
}

#[test]
fn keys_that_are_no_versions_are_discarded_by_every_range() {
    assert!(SemverVersion::parse("latest").is_none());
    assert!(SemverVersion::parse("1.1").is_none());
    assert!(SemverVersion::parse("").is_none());
    assert_eq!(pick("*", &["garbage"]), None);
    assert_eq!(pick("", &["garbage", "0.0.0"]), Some(Selection { index: 1, version: "0.0.0".to_string() }));
}

#[test]
fn version_with_a_number_too_large_is_discarded() {
    assert!(SemverVersion::parse("99999999999999999999.0.0").is_none());
    assert_eq!(
        pick("*", &["99999999999999999999.0.0", "1.0.0"]),
        Some(Selection { index: 1, version: "1.0.0".to_string() })
    );
}

#[test]
fn numbers_compare_as_numbers() {
    assert_eq!(
        pick("*", &["1.9.0", "1.10.0"]),
        Some(Selection { index: 1, version: "1.10.0".to_string() })
    );
    assert_eq!(
        pick("*", &["1.10.0", "1.9.0"]),
        Some(Selection { index: 0, version: "1.10.0".to_string() })
    );
}

#[test]
fn range_of_alternatives_accepts_what_one_of_them_accepts() {
    let range = "1.2.7 || >=1.2.9 <2.0.0";
    assert!(pick(range, &["1.2.7"]).is_some());
    assert!(pick(range, &["1.4.6"]).is_some());
    assert!(pick(range, &["1.2.8"]).is_none());
    assert!(pick(range, &["2.0.0"]).is_none());
}

#[test]
fn text_that_is_no_range_is_refused() {
    assert!(SemverRange::parse("not a range").is_none());
    assert!(SemverRange::parse("^1.0.0").is_some());
    assert!(SemverRange::parse("").is_some());
}

#[test]
fn range_with_a_long_number_is_refused() {
    assert!(is_range_text_safe("^123456789.0.0"));
    assert!(!is_range_text_safe("^1234567890.0.0"));
    assert!(SemverRange::parse("^1234567890.0.0").is_none());
    assert!(SemverRange::parse("~1.99999999999999999999").is_none());
}

#[test]
fn long_numbers_in_a_tag_are_accepted() {
    assert!(is_range_text_safe("1.0.0-rc.12345678901"));
    assert!(is_range_text_safe(">=1.0.0+build.20240101123456789"));
    assert_eq!(
        pick("1.0.0-rc.12345678901", &["1.0.0-rc.12345678900", "1.0.0-rc.12345678901"]),
        Some(Selection { index: 1, version: "1.0.0-rc.12345678901".to_string() })
    );
}

#[test]
fn a_tag_ends_with_its_piece() {
    assert!(!is_range_text_safe("1.0.0-a 12345678901.0.0"));
    assert!(!is_range_text_safe("1.0.0-a\t12345678901.0.0"));
    assert!(!is_range_text_safe("1.0.0-a||~99999999999999999999999"));
    assert!(!is_range_text_safe("1.0.0 - 12345678901.0.0"));
    assert!(is_range_text_safe("1.0.0-a 123456789.0.0"));
    assert!(SemverRange::parse("1.0.0-a||~99999999999999999999999").is_none());
}

#[test]
fn long_numbers_in_tags_never_stop_the_parser() {
    let long = "9".repeat(25);
    let operators = ["", "^", "~", "~>", ">", ">=", "<", "<=", "=", "v", "^v", "~=", "^ ", "> "];
    let cores = ["", "1", "1.2", "1.2.3", "0", "0.0", "0.0.1", "0.1.0", "x", "1.x", "1.2.x", "*", "1.*", "X"];
    let openers = ["-", "+", "-a.", "+b.", "-1.", "--", "-+", "+-", "-a", "+7"];
    let tails = ["", ".1", "-2", "+3", ".x", "x", ".0.0", "-a.b"];
    let rests = ["", " 1.2.3", " - 2.3.4", "||1.2.3", " || ^1", " <2.0.0-b"];
    let mut parsed = 0;
    for operator in operators {
        for core in cores {
            for opener in openers {
                for tail in tails {
                    for rest in rests {
                        let text = format!("{}{}{}{}{}{}", operator, core, opener, long, tail, rest);
                        assert!(is_range_text_safe(&text), "{}", text);
                        if SemverRange::parse(&text).is_some() {
                            parsed += 1;
                        }
                    }
                }
            }
        }
    }
    assert!(parsed > 0);
}

#[test]
fn range_outside_ascii_is_refused() {
    assert!(!is_range_text_safe("^1.0.0\u{a0}"));
    assert!(SemverRange::parse("~1.1\u{663}").is_none());
}
