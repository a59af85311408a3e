use vstd::prelude::*;

verus! {

/// The failure kinds an operation on the theme store can end in.
///
/// `ParseError` covers malformed version or constraint strings;
/// `ThemeNotFound` a requested name that matches nothing;
/// `ThemeNotInstalled` a known theme without an install directory;
/// `PrerequisitesNotMet` a failed version-compatibility check;
/// `IoFailure` a failed filesystem or subprocess call;
/// `PersistFailure` a failed save of the configuration document.
#[derive(Clone, Copy, Debug, PartialEq, Eq, Structural)]
pub enum LeftError {
    ParseError,
    ThemeNotFound,
    ThemeNotInstalled,
    PrerequisitesNotMet,
    IoFailure,
    PersistFailure,
}

} // verus!
