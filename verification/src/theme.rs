use vstd::prelude::*;
use vstd::string::*;

verus! {

/// Mathematical value of a [`DependencyL`] record.
pub ghost struct DepV {
    pub program: Seq<char>,
    pub optional: Option<bool>,
    pub package: Option<Seq<char>>,
}

/// Mathematical value of a [`Theme`] record.
pub ghost struct ThemeV {
    pub name: Seq<char>,
    pub description: Option<Seq<char>>,
    pub directory: Option<Seq<char>>,
    pub repository: Option<Seq<char>>,
    pub commit: Option<Seq<char>>,
    pub version: Option<Seq<char>>,
    pub leftwm_versions: Option<Seq<char>>,
    pub current: Option<bool>,
    pub dependencies: Option<Seq<DepV>>,
    pub source: Option<Seq<char>>,
}

/// The view of an optional string.
pub open spec fn opt_str_view(o: Option<String>) -> Option<Seq<char>> {
    match o {
        Some(s) => Some(s@),
        None => None,
    }
}

/// The views of a sequence of dependency records.
pub open spec fn deps_view(s: Seq<DependencyL>) -> Seq<DepV> {
    s.map_values(|d: DependencyL| d@)
}

/// The views of a sequence of themes.
pub open spec fn themes_view(s: Seq<Theme>) -> Seq<ThemeV> {
    s.map_values(|t: Theme| t@)
}

/// A program a theme asks for: declarative only, never enforced here.
pub struct DependencyL {
    pub program: String,
    pub optional: Option<bool>,
    pub package: Option<String>,
}

/// One theme instance as recorded in the configuration document.
///
/// `directory` being present is the sole signal that the instance is
/// installed; `source` names the owning repository once the record has been
/// taken out of its repository context.
pub struct Theme {
    pub name: String,
    pub description: Option<String>,
    pub directory: Option<String>,
    pub repository: Option<String>,
    pub commit: Option<String>,
    pub version: Option<String>,
    pub leftwm_versions: Option<String>,
    pub current: Option<bool>,
    pub dependencies: Option<Vec<DependencyL>>,
    pub source: Option<String>,
}

/// A plain vector of themes, used while a repository's records are processed.
pub struct TempThemes {
    pub theme: Vec<Theme>,
}

impl View for DependencyL {
    type V = DepV;

    open spec fn view(&self) -> DepV {
        DepV {
            program: self.program@,
            optional: self.optional,
            package: opt_str_view(self.package),
        }
    }
}

impl View for Theme {
    type V = ThemeV;

    open spec fn view(&self) -> ThemeV {
        ThemeV {
            name: self.name@,
            description: opt_str_view(self.description),
            directory: opt_str_view(self.directory),
            repository: opt_str_view(self.repository),
            commit: opt_str_view(self.commit),
            version: opt_str_view(self.version),
            leftwm_versions: opt_str_view(self.leftwm_versions),
            current: self.current,
            dependencies: match self.dependencies {
                Some(v) => Some(deps_view(v@)),
                None => None,
            },
            source: opt_str_view(self.source),
        }
    }
}

impl View for TempThemes {
    type V = Seq<ThemeV>;

    open spec fn view(&self) -> Seq<ThemeV> {
        themes_view(self.theme@)
    }
}

/// `t` with its `source` tag replaced.
pub open spec fn with_source(t: ThemeV, s: Seq<char>) -> ThemeV {
    ThemeV { source: Some(s), ..t }
}

/// `t` with its `current` flag replaced.
pub open spec fn with_current(t: ThemeV, c: Option<bool>) -> ThemeV {
    ThemeV { current: c, ..t }
}

/// Whether this record is the designated current theme. Only a stored `true`
/// counts: an absent flag means "not current".
pub open spec fn is_current(t: ThemeV) -> bool {
    t.current == Some(true)
}

impl Clone for DependencyL {
    fn clone(&self) -> (res: Self)
        ensures
            res == *self,
    {
        DependencyL {
            program: self.program.clone(),
            optional: self.optional,
            package: match &self.package {
                Some(p) => Some(p.clone()),
                None => None,
            },
        }
    }
}

impl Clone for Theme {
    fn clone(&self) -> (res: Self)
        ensures
            res@ == self@,
    {
        let dependencies: Option<Vec<DependencyL>> = match &self.dependencies {
            Some(v) => {
                let w = v.clone();
                proof {
                    assert(deps_view(w@) =~= deps_view(v@));
                }
                Some(w)
            },
            None => None,
        };
        let res = Theme {
            name: self.name.clone(),
            description: match &self.description {
                Some(s) => Some(s.clone()),
                None => None,
            },
            directory: match &self.directory {
                Some(s) => Some(s.clone()),
                None => None,
            },
            repository: match &self.repository {
                Some(s) => Some(s.clone()),
                None => None,
            },
            commit: match &self.commit {
                Some(s) => Some(s.clone()),
                None => None,
            },
            version: match &self.version {
                Some(s) => Some(s.clone()),
                None => None,
            },
            leftwm_versions: match &self.leftwm_versions {
                Some(s) => Some(s.clone()),
                None => None,
            },
            current: self.current,
            dependencies,
            source: match &self.source {
                Some(s) => Some(s.clone()),
                None => None,
            },
        };
        res
    }
}

impl Default for DependencyL {
    /// A fresh dependency record names the host program itself.
    fn default() -> (r: DependencyL)
        ensures
            r@.program == "leftwm"@,
            r@.optional is None,
            r@.package is None,
    {
        DependencyL { program: String::from_str("leftwm"), optional: None, package: None }
    }
}

impl Theme {
    /// A fresh record: version `0.0.0`, a wildcard compatibility range, not
    /// current, attached to no repository.
    #[must_use]
    pub fn new(name: &str, description: Option<String>, directory: Option<String>) -> (r: Self)
        ensures
            r@.name == name@,
            r@.description == opt_str_view(description),
            r@.directory == opt_str_view(directory),
            r@.repository is None,
            r@.commit is None,
            r@.version == Some("0.0.0"@),
            r@.leftwm_versions == Some("*"@),
            r@.current is None,
            r@.dependencies is None,
            r@.source is None,
    {
        Theme {
            name: String::from_str(name),
            description,
            directory,
            repository: None,
            commit: None,
            version: Some(String::from_str("0.0.0")),
            leftwm_versions: Some(String::from_str("*")),
            dependencies: None,
            current: None,
            source: None,
        }
    }

    /// A theme instance counts as installed exactly when a directory is
    /// recorded for it.
    #[must_use]
    pub fn is_installed(&self) -> (r: bool)
        ensures
            r == (self@.directory is Some),
    {
        match &self.directory {
            Some(_dir) => true,
            None => false,
        }
    }

    /// Tag this record with the repository it was found in.
    pub fn source(&mut self, name: String)
        ensures
            final(self)@ == with_source(old(self)@, name@),
    {
        self.source = Some(name);
    }

    /// Set or clear the current flag, normalized: clearing stores the absent
    /// value, never a stored `false`.
    pub fn current(&mut self, currency: bool)
        ensures
            final(self)@ == with_current(old(self)@, if currency { Some(true) } else { None }),
            is_current(final(self)@) == currency,
    {
        self.current = if currency {
            Some(true)
        } else {
            None
        };
    }
}

} // verus!
