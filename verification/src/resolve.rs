use vstd::prelude::*;
use vstd::string::*;
use crate::config::{Config, ConfigV, RepoV, catalog};
use crate::theme::{Theme, ThemeV, themes_view};

verus! {

/// The first theme at or after position `i` whose name is `name`.
pub open spec fn first_match_from(s: Seq<ThemeV>, name: Seq<char>, i: int) -> Option<ThemeV>
    decreases s.len() - i,
{
    if i < 0 || i >= s.len() {
        None
    } else if s[i].name == name {
        Some(s[i])
    } else {
        first_match_from(s, name, i + 1)
    }
}

/// The first theme named `name`, in catalog order.
pub open spec fn first_match(s: Seq<ThemeV>, name: Seq<char>) -> Option<ThemeV> {
    first_match_from(s, name, 0)
}

/// The first *installed* theme at or after position `i` whose name is `name`.
pub open spec fn first_installed_from(s: Seq<ThemeV>, name: Seq<char>, i: int) -> Option<ThemeV>
    decreases s.len() - i,
{
    if i < 0 || i >= s.len() {
        None
    } else if s[i].name == name && s[i].directory is Some {
        Some(s[i])
    } else {
        first_installed_from(s, name, i + 1)
    }
}

/// The first installed theme named `name`, in catalog order.
pub open spec fn first_installed_match(s: Seq<ThemeV>, name: Seq<char>) -> Option<ThemeV> {
    first_installed_from(s, name, 0)
}

/// Every theme at or after position `i` whose name is `name`, in order.
pub open spec fn all_matches_from(s: Seq<ThemeV>, name: Seq<char>, i: int) -> Seq<ThemeV>
    decreases s.len() - i,
{
    if i < 0 || i >= s.len() {
        Seq::empty()
    } else if s[i].name == name {
        seq![s[i]] + all_matches_from(s, name, i + 1)
    } else {
        all_matches_from(s, name, i + 1)
    }
}

/// Every theme named `name`, in catalog order.
pub open spec fn all_matches(s: Seq<ThemeV>, name: Seq<char>) -> Seq<ThemeV> {
    all_matches_from(s, name, 0)
}

/// The first repository at or after position `i` whose name is `name`.
pub open spec fn first_repo_from(rs: Seq<RepoV>, name: Seq<char>, i: int) -> Option<int>
    decreases rs.len() - i,
{
    if i < 0 || i >= rs.len() {
        None
    } else if rs[i].name == name {
        Some(i)
    } else {
        first_repo_from(rs, name, i + 1)
    }
}

/// The first theme index at or after position `j` whose name is `name`.
pub open spec fn first_theme_idx_from(ts: Seq<ThemeV>, name: Seq<char>, j: int) -> Option<int>
    decreases ts.len() - j,
{
    if j < 0 || j >= ts.len() {
        None
    } else if ts[j].name == name {
        Some(j)
    } else {
        first_theme_idx_from(ts, name, j + 1)
    }
}

/// The position of the theme named `theme_name` inside the repository named
/// `repo_name`: the first repository of that name is searched, and only it.
pub open spec fn locate(c: ConfigV, theme_name: Seq<char>, repo_name: Seq<char>) -> Option<(
    int,
    int,
)> {
    match first_repo_from(c.repos, repo_name, 0) {
        Some(i) => match first_theme_idx_from(c.repos[i].themes, theme_name, 0) {
            Some(j) => Some((i, j)),
            None => None,
        },
        None => None,
    }
}

/// The view of an optionally resolved theme.
pub open spec fn opt_theme_view(r: Option<Theme>) -> Option<ThemeV> {
    match r {
        Some(t) => Some(t@),
        None => None,
    }
}

impl Theme {
    /// The first theme named `name` across all repositories, in
    /// repository-declaration order; a copy, safe to inspect without
    /// affecting the store.
    pub fn find(config: &mut Config, name: &str) -> (r: Option<Theme>)
        ensures
            *final(config) == *old(config),
            opt_theme_view(r) == first_match(catalog(old(config)@), name@),
    {
        let themes = config.themes();
        let key = String::from_str(name);
        let ghost cat = catalog(config@);
        let mut k: usize = 0;
        while k < themes.len()
            invariant
                k <= themes.len(),
                *config == *old(config),
                cat == catalog(config@),
                themes_view(themes@) == cat,
                key@ == name@,
                first_match_from(cat, name@, 0) == first_match_from(cat, name@, k as int),
            decreases themes.len() - k,
        {
            if themes[k].name == key {
                let t = themes[k].clone();
                proof {
                    assert(cat[k as int] == themes@[k as int]@);
                    assert(cat[k as int].name == name@);
                    assert(first_match_from(cat, name@, k as int) == Some(cat[k as int]));
                    assert(t@ == cat[k as int]);
                }
                return Some(t);
            }
            proof {
                assert(cat[k as int] == themes@[k as int]@);
            }
            k += 1;
        }
        None
    }

    /// The first *installed* theme named `name`: an entry that is merely
    /// known, without a directory, is passed over.
    pub fn find_installed(config: &mut Config, name: &str) -> (r: Option<Theme>)
        ensures
            *final(config) == *old(config),
            opt_theme_view(r) == first_installed_match(catalog(old(config)@), name@),
    {
        let themes = config.themes();
        let key = String::from_str(name);
        let ghost cat = catalog(config@);
        let mut k: usize = 0;
        while k < themes.len()
            invariant
                k <= themes.len(),
                *config == *old(config),
                cat == catalog(config@),
                themes_view(themes@) == cat,
                key@ == name@,
                first_installed_from(cat, name@, 0) == first_installed_from(
                    cat,
                    name@,
                    k as int,
                ),
            decreases themes.len() - k,
        {
            if themes[k].name == key && themes[k].is_installed() {
                let t = themes[k].clone();
                proof {
                    assert(cat[k as int] == themes@[k as int]@);
                    assert(cat[k as int].name == name@ && cat[k as int].directory is Some);
                    assert(first_installed_from(cat, name@, k as int) == Some(cat[k as int]));
                    assert(t@ == cat[k as int]);
                }
                return Some(t);
            }
            proof {
                assert(cat[k as int] == themes@[k as int]@);
            }
            k += 1;
        }
        None
    }

    /// Every theme named `name` across all repositories, preserving catalog
    /// order; used for disambiguation and listing.
    pub fn find_all(config: &mut Config, name: &str) -> (r: Option<Vec<Theme>>)
        ensures
            *final(config) == *old(config),
            r matches Some(v) && themes_view(v@) == all_matches(catalog(old(config)@), name@),
    {
        let themes = config.themes();
        let key = String::from_str(name);
        let ghost cat = catalog(config@);
        let mut out: Vec<Theme> = Vec::new();
        let mut k: usize = 0;
        proof {
            assert(themes_view(out@) + all_matches_from(cat, name@, 0) =~= all_matches_from(
                cat,
                name@,
                0,
            ));
        }
        while k < themes.len()
            invariant
                k <= themes.len(),
                *config == *old(config),
                cat == catalog(config@),
                themes_view(themes@) == cat,
                key@ == name@,
                themes_view(out@) + all_matches_from(cat, name@, k as int) == all_matches_from(
                    cat,
                    name@,
                    0,
                ),
            decreases themes.len() - k,
        {
            proof {
                assert(cat[k as int] == themes@[k as int]@);
            }
            if themes[k].name == key {
                let t = themes[k].clone();
                proof {
                    assert(themes_view(out@.push(t)) =~= themes_view(out@).push(t@));
                    assert(themes_view(out@).push(cat[k as int]) + all_matches_from(
                        cat,
                        name@,
                        k as int + 1,
                    ) =~= themes_view(out@) + all_matches_from(cat, name@, k as int));
                }
                out.push(t);
            }
            k += 1;
        }
        proof {
            assert(themes_view(out@) + all_matches_from(cat, name@, k as int) =~= themes_view(
                out@,
            ));
        }
        Some(out)
    }

    /// Locate the theme named `name` inside the repository named
    /// `repo_name`, the only path that identifies a record for in-place
    /// mutation. The handle is the pair of positions (repository, theme)
    /// inside the configuration; either name missing yields nothing.
    pub fn find_mut(config: &mut Config, name: &str, repo_name: &str) -> (r: Option<
        (usize, usize),
    >)
        ensures
            *final(config) == *old(config),
            match r {
                Some(p) => locate(old(config)@, name@, repo_name@) == Some(
                    (p.0 as int, p.1 as int),
                ),
                None => locate(old(config)@, name@, repo_name@) is None,
            },
    {
        let rkey = String::from_str(repo_name);
        let tkey = String::from_str(name);
        let ghost cv = config@;
        let mut i: usize = 0;
        while i < config.repos.len()
            invariant
                i <= config.repos.len(),
                *config == *old(config),
                cv == config@,
                rkey@ == repo_name@,
                tkey@ == name@,
                first_repo_from(cv.repos, repo_name@, 0) == first_repo_from(
                    cv.repos,
                    repo_name@,
                    i as int,
                ),
            decreases config.repos.len() - i,
        {
            proof {
                assert(cv.repos[i as int] == config.repos@[i as int]@);
            }
            if config.repos[i].name == rkey {
                let repo = &config.repos[i];
                let mut j: usize = 0;
                while j < repo.themes.len()
                    invariant
                        i < config.repos.len(),
                        j <= repo.themes.len(),
                        *config == *old(config),
                        repo == &config.repos[i as int],
                        cv == config@,
                        tkey@ == name@,
                        cv.repos[i as int] == config.repos@[i as int]@,
                        cv.repos[i as int].name == repo_name@,
                        first_repo_from(cv.repos, repo_name@, 0) == Some(i as int),
                        first_theme_idx_from(cv.repos[i as int].themes, name@, 0)
                            == first_theme_idx_from(cv.repos[i as int].themes, name@, j as int),
                    decreases repo.themes.len() - j,
                {
                    proof {
                        assert(cv.repos[i as int].themes[j as int] == repo.themes@[j as int]@);
                    }
                    if repo.themes[j].name == tkey {
                        proof {
                            assert(cv.repos[i as int].name == repo_name@);
                            assert(first_repo_from(cv.repos, repo_name@, i as int) == Some(
                                i as int,
                            ));
                            assert(cv.repos[i as int].themes[j as int].name == name@);
                            assert(first_theme_idx_from(cv.repos[i as int].themes, name@, j as int)
                                == Some(j as int));
                        }
                        return Some((i, j));
                    }
                    j += 1;
                }
                return None;
            }
            i += 1;
        }
        None
    }
}

/// A located repository index lies in range, at or after the start of the
/// search, and bears the searched name.
pub proof fn lemma_first_repo_from_props(rs: Seq<RepoV>, name: Seq<char>, k: int)
    ensures
        first_repo_from(rs, name, k) matches Some(i) ==> k <= i < rs.len() && rs[i].name == name,
    decreases rs.len() - k,
{
    if 0 <= k < rs.len() && rs[k].name != name {
        lemma_first_repo_from_props(rs, name, k + 1);
    }
}

/// A located theme index lies in range, at or after the start of the
/// search, and bears the searched name.
pub proof fn lemma_first_theme_idx_from_props(ts: Seq<ThemeV>, name: Seq<char>, k: int)
    ensures
        first_theme_idx_from(ts, name, k) matches Some(j) ==> k <= j < ts.len() && ts[j].name
            == name,
    decreases ts.len() - k,
{
    if 0 <= k < ts.len() && ts[k].name != name {
        lemma_first_theme_idx_from_props(ts, name, k + 1);
    }
}

/// The resolver picks the earliest match: when the name occurs at position
/// `i` of the catalog and at no position before it, the first match is
/// exactly the record at `i`. With the catalog laid out in
/// repository-declaration order, a name present in two repositories
/// resolves to the one declared first.
pub proof fn lemma_first_match_earliest(s: Seq<ThemeV>, name: Seq<char>, i: int)
    requires
        0 <= i < s.len(),
        s[i].name == name,
        forall|k: int| 0 <= k < i ==> s[k].name != name,
    ensures
        first_match(s, name) == Some(s[i]),
{
    lemma_first_match_from_earliest(s, name, i, 0);
}

proof fn lemma_first_match_from_earliest(s: Seq<ThemeV>, name: Seq<char>, i: int, j: int)
    requires
        0 <= j <= i < s.len(),
        s[i].name == name,
        forall|k: int| j <= k < i ==> s[k].name != name,
    ensures
        first_match_from(s, name, j) == Some(s[i]),
    decreases i - j,
{
    if j < i {
        lemma_first_match_from_earliest(s, name, i, j + 1);
    }
}

/// The installed resolver passes over an uninstalled record that an
/// unrestricted search would return: when the earliest record of the name
/// (position `i`) has no directory and the earliest installed one sits later
/// (position `j`), the installed search yields the record at `j`, while the
/// unrestricted search yields an uninstalled record.
pub proof fn lemma_find_installed_skips(s: Seq<ThemeV>, name: Seq<char>, i: int, j: int)
    requires
        0 <= i < j < s.len(),
        s[i].name == name,
        s[i].directory is None,
        forall|k: int| 0 <= k < i ==> s[k].name != name,
        s[j].name == name,
        s[j].directory is Some,
        forall|k: int| 0 <= k < j ==> !(s[k].name == name && s[k].directory is Some),
    ensures
        first_installed_match(s, name) == Some(s[j]),
        first_match(s, name) == Some(s[i]),
        first_match(s, name) != first_installed_match(s, name),
{
    lemma_first_installed_from_earliest(s, name, j, 0);
    lemma_first_match_earliest(s, name, i);
}

proof fn lemma_first_installed_from_earliest(s: Seq<ThemeV>, name: Seq<char>, i: int, j: int)
    requires
        0 <= j <= i < s.len(),
        s[i].name == name,
        s[i].directory is Some,
        forall|k: int| j <= k < i ==> !(s[k].name == name && s[k].directory is Some),
    ensures
        first_installed_from(s, name, j) == Some(s[i]),
    decreases i - j,
{
    if j < i {
        lemma_first_installed_from_earliest(s, name, i, j + 1);
    }
}

} // verus!
