use vstd::prelude::*;
use crate::config::{Config, ConfigV, catalog};
use crate::errors::LeftError;
use crate::resolve::{
    first_match, first_repo_from, first_theme_idx_from, lemma_first_repo_from_props,
    lemma_first_theme_idx_from_props, locate,
};
use crate::theme::{Theme, ThemeV, is_current, with_current};
use crate::version::{checks, passes_checks};

verus! {

/// The apply request: the theme name asked for, whether the host reload is
/// skipped afterwards, and whether the prerequisite checks are overridden.
pub struct Apply {
    pub name: String,
    pub no_reset: bool,
    pub override_checks: bool,
}

/// The view of an apply outcome.
pub open spec fn res_view(r: Result<Theme, LeftError>) -> Result<ThemeV, LeftError> {
    match r {
        Ok(t) => Ok(t@),
        Err(e) => Err(e),
    }
}

/// What resolving and checking an apply request decides, before anything is
/// touched: the first record of the name wins; one that is not installed is
/// refused; an installed one must pass the version check unless the checks
/// are overridden.
pub open spec fn apply_plan(
    c: ConfigV,
    name: Seq<char>,
    override_checks: bool,
    host: Seq<char>,
) -> Result<ThemeV, LeftError> {
    match first_match(catalog(c), name) {
        None => Err(LeftError::ThemeNotFound),
        Some(t) => if t.directory is None {
            Err(LeftError::ThemeNotInstalled)
        } else if !override_checks && !passes_checks(t, host) {
            Err(LeftError::PrerequisitesNotMet)
        } else {
            Ok(t)
        },
    }
}

/// Whether `i, j` addresses a theme of `c`.
pub open spec fn valid_pos(c: ConfigV, i: int, j: int) -> bool {
    0 <= i < c.repos.len() && 0 <= j < c.repos[i].themes.len()
}

/// `b` has the repositories of `a`: as many, under the same names, each with
/// as many themes.
pub open spec fn same_shape(a: ConfigV, b: ConfigV) -> bool {
    &&& b.repos.len() == a.repos.len()
    &&& forall|i: int|
        0 <= i < a.repos.len() ==> (#[trigger] b.repos[i]).name == a.repos[i].name
            && b.repos[i].themes.len() == a.repos[i].themes.len()
}

/// `b` is `a` with every current flag rewritten: set on the target position
/// alone, cleared (to the normalized absent value) everywhere else.
pub open spec fn current_flags_set(a: ConfigV, b: ConfigV, target: Option<(int, int)>) -> bool {
    &&& same_shape(a, b)
    &&& forall|i: int, j: int|
        valid_pos(a, i, j) ==> (#[trigger] b.repos[i].themes[j]) == with_current(
            a.repos[i].themes[j],
            if target == Some((i, j)) {
                Some(true)
            } else {
                None::<bool>
            },
        )
}

/// Exactly one theme of `c` is current.
pub open spec fn exactly_one_current(c: ConfigV) -> bool {
    exists|i: int, j: int|
        valid_pos(c, i, j) && is_current(#[trigger] c.repos[i].themes[j]) && (forall|
            i2: int,
            j2: int,
        |
            valid_pos(c, i2, j2) && is_current(#[trigger] c.repos[i2].themes[j2]) ==> i2 == i && j2
                == j)
}

/// No theme of `c` is current.
pub open spec fn no_current(c: ConfigV) -> bool {
    forall|i: int, j: int|
        valid_pos(c, i, j) ==> !is_current(#[trigger] c.repos[i].themes[j])
}

/// However the flags stood before, a flag update that reached its target
/// leaves exactly one current theme across the whole configuration; a later
/// update of another target leaves again exactly one, never two.
pub proof fn lemma_flags_exactly_one(a: ConfigV, b: ConfigV, i: int, j: int)
    requires
        current_flags_set(a, b, Some((i, j))),
        valid_pos(a, i, j),
    ensures
        exactly_one_current(b),
{
    assert(is_current(b.repos[i].themes[j]));
}

impl Apply {
    /// Resolve the requested theme and run its prerequisite checks, deciding
    /// what an apply would do; nothing is mutated. `host_version` is the
    /// installed host software's version string as queried outside.
    pub fn plan(&self, config: &mut Config, host_version: &str) -> (r: Result<Theme, LeftError>)
        ensures
            *final(config) == *old(config),
            res_view(r) == apply_plan(
                old(config)@,
                self.name@,
                self.override_checks,
                host_version@,
            ),
    {
        match Theme::find(config, self.name.as_str()) {
            Some(theme) => {
                if theme.is_installed() {
                    if !self.override_checks && !checks(&theme, host_version) {
                        Err(LeftError::PrerequisitesNotMet)
                    } else {
                        Ok(theme)
                    }
                } else {
                    Err(LeftError::ThemeNotInstalled)
                }
            },
            None => Err(LeftError::ThemeNotFound),
        }
    }

    /// Rewrite every current flag in the configuration: cleared everywhere,
    /// then set on the one theme named `name` inside the repository named
    /// `repo_name`. When that record is missing the flags stay cleared and
    /// the update reports the loss; nothing else of any record changes.
    pub fn update_current(config: &mut Config, name: &str, repo_name: &str) -> (r: Result<
        (),
        LeftError,
    >)
        ensures
            current_flags_set(
                old(config)@,
                final(config)@,
                locate(old(config)@, name@, repo_name@),
            ),
            r is Ok <==> locate(old(config)@, name@, repo_name@) is Some,
            r is Err ==> r == Result::<(), LeftError>::Err(LeftError::ThemeNotFound),
            r is Ok ==> exactly_one_current(final(config)@),
            r is Err ==> no_current(final(config)@),
    {
        let ghost orig = config@;
        let target = Theme::find_mut(config, name, repo_name);
        let mut i: usize = 0;
        while i < config.repos.len()
            invariant
                i <= config.repos.len(),
                orig == old(config)@,
                (match target {
                    Some(p) => locate(orig, name@, repo_name@) == Some((p.0 as int, p.1 as int)),
                    None => locate(orig, name@, repo_name@) is None,
                }),
                config@.repos.len() == orig.repos.len(),
                same_shape(orig, config@),
                forall|k: int, l: int|
                    valid_pos(orig, k, l) && k < i as int ==> (
                    #[trigger] config@.repos[k].themes[l]) == with_current(
                        orig.repos[k].themes[l],
                        None::<bool>,
                    ),
                forall|k: int, l: int|
                    valid_pos(orig, k, l) && k >= i as int ==> (
                    #[trigger] config@.repos[k].themes[l]) == orig.repos[k].themes[l],
            decreases config.repos.len() - i,
        {
            let mut j: usize = 0;
            while j < config.repos[i].themes.len()
                invariant
                    i < config.repos.len(),
                    j <= orig.repos[i as int].themes.len(),
                    orig == old(config)@,
                    (match target {
                        Some(p) => locate(orig, name@, repo_name@) == Some(
                            (p.0 as int, p.1 as int),
                        ),
                        None => locate(orig, name@, repo_name@) is None,
                    }),
                    config@.repos.len() == orig.repos.len(),
                    same_shape(orig, config@),
                    forall|k: int, l: int|
                        valid_pos(orig, k, l) && k < i as int ==> (
                        #[trigger] config@.repos[k].themes[l]) == with_current(
                            orig.repos[k].themes[l],
                            None::<bool>,
                        ),
                    forall|l: int|
                        0 <= l < j as int ==> (#[trigger] config@.repos[i as int].themes[l])
                            == with_current(orig.repos[i as int].themes[l], None::<bool>),
                    forall|l: int|
                        j as int <= l < orig.repos[i as int].themes.len() ==> (
                        #[trigger] config@.repos[i as int].themes[l])
                            == orig.repos[i as int].themes[l],
                    forall|k: int, l: int|
                        valid_pos(orig, k, l) && k > i as int ==> (
                        #[trigger] config@.repos[k].themes[l]) == orig.repos[k].themes[l],
                decreases config.repos@[i as int].themes@.len() - j,
            {
                let ghost pre = config@;
                config.repos[i].themes[j].current = None;
                proof {
                    assert(config@.repos[i as int].themes[j as int] == with_current(
                        pre.repos[i as int].themes[j as int],
                        None::<bool>,
                    ));
                    assert forall|k: int, l: int|
                        valid_pos(pre, k, l) && !(k == i as int && l == j as int) implies (
                    #[trigger] config@.repos[k].themes[l]) == pre.repos[k].themes[l] by {
                        assert(config.repos@[k]@ == config@.repos[k]);
                    }
                    assert forall|k: int|
                        0 <= k < pre.repos.len() && k != i as int implies (
                    #[trigger] config@.repos[k]) == pre.repos[k] by {
                        assert(config.repos@[k]@ == config@.repos[k]);
                    }
                    assert(config@.repos[i as int].name == pre.repos[i as int].name);
                    assert(config@.repos[i as int].themes.len() == pre.repos[
                        i as int
                    ].themes.len());
                    assert(same_shape(orig, config@));
                }
                j += 1;
            }
            i += 1;
        }
        match target {
            Some((ti, tj)) => {
                proof {
                    lemma_first_repo_from_props(orig.repos, repo_name@, 0);
                    assert(first_repo_from(orig.repos, repo_name@, 0) == Some(ti as int));
                    lemma_first_theme_idx_from_props(
                        orig.repos[ti as int].themes,
                        name@,
                        0,
                    );
                    assert(first_theme_idx_from(orig.repos[ti as int].themes, name@, 0) == Some(
                        tj as int,
                    ));
                    assert((tj as int) < orig.repos[ti as int].themes.len());
                    assert(config@.repos[ti as int].themes.len() == orig.repos[
                        ti as int
                    ].themes.len());
                    assert(ti < config.repos@.len());
                    assert(config.repos@[ti as int]@ == config@.repos[ti as int]);
                    assert(tj < config.repos@[ti as int].themes@.len());
                }
                let ghost pre = config@;
                config.repos[ti].themes[tj].current = Some(true);
                proof {
                    let t = locate(orig, name@, repo_name@);
                    assert(config@.repos[ti as int].themes[tj as int] == with_current(
                        pre.repos[ti as int].themes[tj as int],
                        Some(true),
                    ));
                    assert forall|k: int, l: int|
                        valid_pos(pre, k, l) && !(k == ti as int && l == tj as int) implies (
                    #[trigger] config@.repos[k].themes[l]) == pre.repos[k].themes[l] by {
                        assert(config.repos@[k]@ == config@.repos[k]);
                    }
                    assert forall|k: int|
                        0 <= k < pre.repos.len() && k != ti as int implies (
                    #[trigger] config@.repos[k]) == pre.repos[k] by {
                        assert(config.repos@[k]@ == config@.repos[k]);
                    }
                    assert(config@.repos[ti as int].name == pre.repos[ti as int].name);
                    assert(config@.repos[ti as int].themes.len() == pre.repos[
                        ti as int
                    ].themes.len());
                    assert(same_shape(orig, config@));
                    assert(current_flags_set(orig, config@, t));
                    lemma_flags_exactly_one(orig, config@, ti as int, tj as int);
                }
                Ok(())
            },
            None => Err(LeftError::ThemeNotFound),
        }
    }
}

} // verus!
