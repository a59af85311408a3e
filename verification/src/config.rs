use vstd::prelude::*;
use crate::theme::{Theme, ThemeV, themes_view, with_source};

verus! {

/// Mathematical value of a [`Repository`].
pub ghost struct RepoV {
    pub name: Seq<char>,
    pub themes: Seq<ThemeV>,
}

/// Mathematical value of a [`Config`].
pub ghost struct ConfigV {
    pub repos: Seq<RepoV>,
}

/// A named collection of theme records, the unit of discovery.
pub struct Repository {
    pub name: String,
    pub themes: Vec<Theme>,
}

/// The persisted root document: every known repository, in declaration
/// order, each with the themes known within it.
pub struct Config {
    pub repos: Vec<Repository>,
}

impl View for Repository {
    type V = RepoV;

    open spec fn view(&self) -> RepoV {
        RepoV { name: self.name@, themes: themes_view(self.themes@) }
    }
}

impl View for Config {
    type V = ConfigV;

    open spec fn view(&self) -> ConfigV {
        ConfigV { repos: self.repos@.map_values(|r: Repository| r@) }
    }
}

impl Default for Config {
    /// The default stands in when the stored document is absent or corrupt:
    /// no repositories at all.
    fn default() -> (r: Config)
        ensures
            r@.repos == Seq::<RepoV>::empty(),
    {
        let r = Config { repos: Vec::new() };
        proof {
            assert(r@.repos =~= Seq::<RepoV>::empty());
        }
        r
    }
}

/// The themes of one repository, each tagged with the repository's name.
pub open spec fn repo_catalog(r: RepoV) -> Seq<ThemeV> {
    r.themes.map_values(|t: ThemeV| with_source(t, r.name))
}

/// The catalog of the first `n` repositories, in declaration order.
pub open spec fn catalog_prefix(c: ConfigV, n: int) -> Seq<ThemeV>
    decreases n,
{
    if n <= 0 {
        Seq::empty()
    } else {
        catalog_prefix(c, n - 1) + repo_catalog(c.repos[n - 1])
    }
}

/// Every theme the configuration knows, in repository-declaration order and
/// within one repository in its declared order, each tagged with its owning
/// repository's name.
pub open spec fn catalog(c: ConfigV) -> Seq<ThemeV> {
    catalog_prefix(c, c.repos.len() as int)
}

impl Config {
    /// Collect every known theme across all repositories, in
    /// repository-declaration order, tagging each with the repository it
    /// came from.
    pub fn themes(&self) -> (r: Vec<Theme>)
        ensures
            themes_view(r@) == catalog(self@),
    {
        let mut out: Vec<Theme> = Vec::new();
        proof {
            assert(themes_view(out@) =~= catalog_prefix(self@, 0));
        }
        let mut i: usize = 0;
        while i < self.repos.len()
            invariant
                i <= self.repos.len(),
                themes_view(out@) == catalog_prefix(self@, i as int),
            decreases self.repos.len() - i,
        {
            let repo = &self.repos[i];
            let mut j: usize = 0;
            while j < repo.themes.len()
                invariant
                    i < self.repos.len(),
                    j <= repo.themes.len(),
                    repo == &self.repos[i as int],
                    themes_view(out@) == catalog_prefix(self@, i as int)
                        + repo_catalog(self@.repos[i as int]).take(j as int),
                decreases repo.themes.len() - j,
            {
                let mut t = repo.themes[j].clone();
                t.source = Some(repo.name.clone());
                proof {
                    assert(t@ == with_source(repo.themes@[j as int]@, repo.name@));
                    assert(repo_catalog(self@.repos[i as int]).take(j as int + 1)
                        =~= repo_catalog(self@.repos[i as int]).take(j as int).push(t@));
                    assert(themes_view(out@.push(t)) =~= themes_view(out@).push(t@));
                }
                out.push(t);
                j += 1;
            }
            proof {
                assert(repo_catalog(self@.repos[i as int]).take(j as int)
                    =~= repo_catalog(self@.repos[i as int]));
            }
            i += 1;
        }
        out
    }
}

} // verus!
