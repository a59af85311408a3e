use leftwm_theme::errors::LeftError;
use leftwm_theme::theme::Theme;
use leftwm_theme::version::{check_versions, checks};

fn theme_with_constraint(constraint: Option<&str>) -> Theme {
    let mut t = Theme::new("foo", None, Some(String::from("/themes/foo")));
    t.leftwm_versions = constraint.map(String::from);
    t
}

#[test]
fn wildcard_accepts_any_release() {
    assert_eq!(check_versions("*", "0.0.1"), Ok(true));
    assert_eq!(check_versions("*", "1.0.0"), Ok(true));
    assert_eq!(check_versions("*", "99.99.99"), Ok(true));
}

#[test]
fn range_accepts_newer_version() {
    assert_eq!(check_versions(">=0.3.0", "0.4.0"), Ok(true));
}

#[test]
fn range_refuses_older_version() {
    assert_eq!(check_versions(">=0.3.0", "0.2.0"), Ok(false));
}

#[test]
fn caret_range_matches_like_semver() {
    assert_eq!(check_versions("^1.2", "1.9.3"), Ok(true));
    assert_eq!(check_versions("^1.2", "2.0.0"), Ok(false));
}

#[test]
fn malformed_constraint_is_a_parse_error() {
    assert_eq!(check_versions("not a range", "1.0.0"), Err(LeftError::ParseError));
}

#[test]
fn malformed_version_is_a_parse_error() {
    assert_eq!(check_versions("*", "not a version"), Err(LeftError::ParseError));
    assert_eq!(check_versions(">=0.3.0", ""), Err(LeftError::ParseError));
}

#[test]
fn repeated_calls_agree() {
    let pairs = [("*", "1.0.0"), (">=0.3.0", "0.2.0"), ("bad", "1.0.0"), ("^2", "2.4.1")];
    for (c, v) in pairs {
        let first = check_versions(c, v);
        let second = check_versions(c, v);
        assert_eq!(first, second);
    }
}

#[test]
fn checks_pass_on_compatible_theme() {
    let t = theme_with_constraint(Some(">=0.3.0"));
    assert!(checks(&t, "0.4.0"));
}

#[test]
fn checks_fail_on_incompatible_theme() {
    let t = theme_with_constraint(Some(">=0.3.0"));
    assert!(!checks(&t, "0.2.0"));
}

#[test]
fn checks_fail_on_malformed_constraint() {
    let t = theme_with_constraint(Some("not a range"));
    assert!(!checks(&t, "0.4.0"));
}

#[test]
fn missing_constraint_counts_as_wildcard() {
    let t = theme_with_constraint(None);
    assert!(checks(&t, "0.2.0"));
    assert!(checks(&t, "12.0.0"));
}
