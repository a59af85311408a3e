use leftwm_theme::config::{Config, Repository};
use leftwm_theme::theme::{DependencyL, TempThemes, Theme};

fn theme(name: &str, dir: Option<&str>, marker: &str) -> Theme {
    Theme::new(name, Some(String::from(marker)), dir.map(String::from))
}

fn two_repo_config() -> Config {
    Config {
        repos: vec![
            Repository {
                name: String::from("core"),
                themes: vec![
                    theme("foo", Some("/themes/core-foo"), "core-foo"),
                    theme("bar", None, "core-bar"),
                ],
            },
            Repository {
                name: String::from("extra"),
                themes: vec![
                    theme("foo", Some("/themes/extra-foo"), "extra-foo"),
                    theme("bar", Some("/themes/extra-bar"), "extra-bar"),
                ],
            },
        ],
    }
}

#[test]
fn find_returns_first_repository_match() {
    let mut config = two_repo_config();
    let found = Theme::find(&mut config, "foo").expect("foo is known");
    assert_eq!(found.description.as_deref(), Some("core-foo"));
    assert_eq!(found.source.as_deref(), Some("core"));
}

#[test]
fn find_unknown_name_yields_nothing() {
    let mut config = two_repo_config();
    assert!(Theme::find(&mut config, "nope").is_none());
}

#[test]
fn find_installed_skips_uninstalled_earlier_match() {
    let mut config = two_repo_config();
    // `bar` exists uninstalled in `core`, installed in `extra`: the
    // installed one wins even though `core` is declared first.
    let found = Theme::find_installed(&mut config, "bar").expect("bar is installed somewhere");
    assert_eq!(found.description.as_deref(), Some("extra-bar"));
    assert_eq!(found.source.as_deref(), Some("extra"));
    // The unrestricted search still returns the first declaration.
    let first = Theme::find(&mut config, "bar").expect("bar is known");
    assert_eq!(first.description.as_deref(), Some("core-bar"));
    assert!(first.directory.is_none());
}

#[test]
fn find_all_preserves_declaration_order() {
    let mut config = two_repo_config();
    let all = Theme::find_all(&mut config, "foo").expect("always a list");
    assert_eq!(all.len(), 2);
    assert_eq!(all[0].source.as_deref(), Some("core"));
    assert_eq!(all[1].source.as_deref(), Some("extra"));
}

#[test]
fn find_all_of_unknown_name_is_empty() {
    let mut config = two_repo_config();
    let all = Theme::find_all(&mut config, "nope").expect("always a list");
    assert!(all.is_empty());
}

#[test]
fn find_mut_locates_by_name_and_repository() {
    let mut config = two_repo_config();
    assert_eq!(Theme::find_mut(&mut config, "foo", "extra"), Some((1, 0)));
    assert_eq!(Theme::find_mut(&mut config, "bar", "core"), Some((0, 1)));
}

#[test]
fn find_mut_needs_both_names() {
    let mut config = two_repo_config();
    assert_eq!(Theme::find_mut(&mut config, "foo", "nowhere"), None);
    assert_eq!(Theme::find_mut(&mut config, "nope", "core"), None);
}

#[test]
fn new_theme_has_documented_defaults() {
    let t = Theme::new("fresh", None, None);
    assert_eq!(t.name, "fresh");
    assert_eq!(t.version.as_deref(), Some("0.0.0"));
    assert_eq!(t.leftwm_versions.as_deref(), Some("*"));
    assert!(t.current.is_none());
    assert!(t.directory.is_none());
    assert!(!t.is_installed());
}

#[test]
fn installed_means_a_directory_is_recorded() {
    let t = Theme::new("fresh", None, Some(String::from("/somewhere")));
    assert!(t.is_installed());
}

#[test]
fn clearing_the_current_flag_is_normalized() {
    let mut t = Theme::new("fresh", None, None);
    t.current(true);
    assert_eq!(t.current, Some(true));
    t.current(false);
    assert_eq!(t.current, None);
}

#[test]
fn default_dependency_names_the_host() {
    let d = DependencyL::default();
    assert_eq!(d.program, "leftwm");
    assert!(d.optional.is_none());
    assert!(d.package.is_none());
}

#[test]
fn temp_themes_carry_plain_records() {
    let batch = TempThemes { theme: vec![Theme::new("one", None, None)] };
    assert_eq!(batch.theme.len(), 1);
    assert_eq!(batch.theme[0].name, "one");
}

#[test]
fn source_tags_the_owning_repository() {
    let mut t = Theme::new("fresh", None, None);
    t.source(String::from("core"));
    assert_eq!(t.source.as_deref(), Some("core"));
}
