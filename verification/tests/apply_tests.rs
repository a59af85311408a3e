use leftwm_theme::apply::Apply;
use leftwm_theme::config::{Config, Repository};
use leftwm_theme::errors::LeftError;
use leftwm_theme::theme::Theme;

fn theme(name: &str, dir: Option<&str>, constraint: &str) -> Theme {
    let mut t = Theme::new(name, None, dir.map(String::from));
    t.leftwm_versions = Some(String::from(constraint));
    t
}

fn request(name: &str, override_checks: bool) -> Apply {
    Apply { name: String::from(name), no_reset: true, override_checks }
}

fn scenario_config() -> Config {
    Config {
        repos: vec![Repository {
            name: String::from("core"),
            themes: vec![theme("foo", Some("/themes/foo"), ">=0.3.0")],
        }],
    }
}

fn current_names(config: &Config) -> Vec<(String, String)> {
    let mut out = Vec::new();
    for repo in &config.repos {
        for t in &repo.themes {
            if t.current == Some(true) {
                out.push((repo.name.clone(), t.name.clone()));
            }
        }
    }
    out
}

#[test]
fn applying_an_unknown_name_fails_not_found() {
    let mut config = scenario_config();
    let r = request("missing", false).plan(&mut config, "0.4.0");
    assert_eq!(r.err(), Some(LeftError::ThemeNotFound));
    assert!(current_names(&config).is_empty());
}

#[test]
fn applying_an_uninstalled_theme_fails_not_installed() {
    let mut config = Config {
        repos: vec![Repository {
            name: String::from("core"),
            themes: vec![theme("foo", None, "*")],
        }],
    };
    let r = request("foo", false).plan(&mut config, "0.4.0");
    assert_eq!(r.err(), Some(LeftError::ThemeNotInstalled));
}

#[test]
fn compatible_apply_resolves_and_sets_one_current() {
    let mut config = scenario_config();
    let planned = request("foo", false).plan(&mut config, "0.4.0").expect("plan succeeds");
    assert_eq!(planned.directory.as_deref(), Some("/themes/foo"));
    assert_eq!(planned.source.as_deref(), Some("core"));
    let done = Apply::update_current(&mut config, "foo", "core");
    assert_eq!(done, Ok(()));
    assert_eq!(current_names(&config), vec![(String::from("core"), String::from("foo"))]);
}

#[test]
fn incompatible_apply_fails_prerequisites_and_mutates_nothing() {
    let mut config = scenario_config();
    let r = request("foo", false).plan(&mut config, "0.2.0");
    assert_eq!(r.err(), Some(LeftError::PrerequisitesNotMet));
    assert!(current_names(&config).is_empty());
    assert_eq!(config.repos[0].themes[0].directory.as_deref(), Some("/themes/foo"));
}

#[test]
fn override_ignores_a_failing_check() {
    let mut config = scenario_config();
    let planned = request("foo", true).plan(&mut config, "0.2.0").expect("override wins");
    assert_eq!(planned.directory.as_deref(), Some("/themes/foo"));
}

#[test]
fn override_ignores_a_malformed_constraint() {
    let mut config = Config {
        repos: vec![Repository {
            name: String::from("core"),
            themes: vec![theme("foo", Some("/themes/foo"), "not a range")],
        }],
    };
    let r = request("foo", true).plan(&mut config, "0.4.0");
    assert!(r.is_ok());
    let r2 = request("foo", false).plan(&mut config, "0.4.0");
    assert_eq!(r2.err(), Some(LeftError::PrerequisitesNotMet));
}

#[test]
fn two_applies_leave_exactly_one_current() {
    let mut config = Config {
        repos: vec![
            Repository {
                name: String::from("core"),
                themes: vec![
                    theme("foo", Some("/themes/foo"), "*"),
                    theme("bar", Some("/themes/bar"), "*"),
                ],
            },
        ],
    };
    assert_eq!(Apply::update_current(&mut config, "foo", "core"), Ok(()));
    assert_eq!(current_names(&config), vec![(String::from("core"), String::from("foo"))]);
    assert_eq!(Apply::update_current(&mut config, "bar", "core"), Ok(()));
    assert_eq!(current_names(&config), vec![(String::from("core"), String::from("bar"))]);
}

#[test]
fn update_with_missing_target_clears_and_reports() {
    let mut config = scenario_config();
    config.repos[0].themes[0].current = Some(true);
    let r = Apply::update_current(&mut config, "foo", "nowhere");
    assert_eq!(r, Err(LeftError::ThemeNotFound));
    assert!(current_names(&config).is_empty());
}

#[test]
fn update_touches_only_current_flags() {
    let mut config = scenario_config();
    assert_eq!(Apply::update_current(&mut config, "foo", "core"), Ok(()));
    let t = &config.repos[0].themes[0];
    assert_eq!(t.name, "foo");
    assert_eq!(t.directory.as_deref(), Some("/themes/foo"));
    assert_eq!(t.leftwm_versions.as_deref(), Some(">=0.3.0"));
}

#[test]
fn default_config_knows_nothing() {
    let mut config = Config::default();
    assert!(config.repos.is_empty());
    let r = request("foo", false).plan(&mut config, "0.4.0");
    assert_eq!(r.err(), Some(LeftError::ThemeNotFound));
}
