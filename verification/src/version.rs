use vstd::prelude::*;
use crate::errors::LeftError;
use crate::theme::{Theme, ThemeV};

verus! {

/// Whether `s` is a well-formed semantic-version requirement, as
/// `semver::VersionReq::parse` accepts it.
pub uninterp spec fn req_parse_ok(s: Seq<char>) -> bool;

/// Whether `s` is a well-formed semantic version, as
/// `semver::Version::parse` accepts it.
pub uninterp spec fn version_parse_ok(s: Seq<char>) -> bool;

/// Whether the version written `v` satisfies the requirement written `c`.
/// Both strings must be well-formed; the answer depends on the two strings
/// alone.
pub uninterp spec fn req_matches(c: Seq<char>, v: Seq<char>) -> bool;

/// The requirement that accepts everything.
pub open spec fn wildcard() -> Seq<char> {
    "*"@
}

#[verifier::external_type_specification]
#[verifier::external_body]
pub struct ExSemverError(semver::Error);

/// Relies on semver's `VersionReq::parse`, `Version::parse` and
/// `VersionReq::matches`, composed here in one step because the two parsed
/// values only carry the strings' content between the calls: each parse
/// succeeds exactly on a well-formed string, matching is a function of the
/// two strings alone, and the wildcard requirement `*` accepts every
/// well-formed version that carries no pre-release part (one without `-` in
/// it; semver documents that `*` matches no pre-release version).
#[verifier::external_body]
fn evaluate_constraint(constraint: &str, installed: &str) -> (r: Result<bool, semver::Error>)
    ensures
        r is Ok <==> (req_parse_ok(constraint@) && version_parse_ok(installed@)),
        r is Ok ==> r->Ok_0 == req_matches(constraint@, installed@),
        r == (if constraint@ == wildcard() && version_parse_ok(installed@)
            && !installed@.contains('-') { Result::<bool, semver::Error>::Ok(true) } else { r }),
{
    match semver::VersionReq::parse(constraint) {
        Ok(req) => match semver::Version::parse(installed) {
            Ok(ver) => Ok(req.matches(&ver)),
            Err(e) => Err(e),
        },
        Err(e) => Err(e),
    }
}

/// Whether the installed host version `installed` satisfies the
/// requirement written `vstring`. The outcome is a function of the two
/// strings alone: a malformed string on either side is surfaced as
/// `ParseError`, never treated as "incompatible".
pub fn check_versions(vstring: &str, installed: &str) -> (r: Result<bool, LeftError>)
    ensures
        r == (if req_parse_ok(vstring@) && version_parse_ok(installed@) {
            Result::<bool, LeftError>::Ok(req_matches(vstring@, installed@))
        } else {
            Result::<bool, LeftError>::Err(LeftError::ParseError)
        }),
        (vstring@ == wildcard() && version_parse_ok(installed@) && !installed@.contains('-'))
            ==> r == Result::<bool, LeftError>::Ok(true),
{
    match evaluate_constraint(vstring, installed) {
        Ok(b) => Ok(b),
        Err(_) => Err(LeftError::ParseError),
    }
}

/// The requirement string a theme declares, a wildcard when it declares
/// none.
pub open spec fn constraint_of(t: ThemeV) -> Seq<char> {
    match t.leftwm_versions {
        Some(s) => s,
        None => wildcard(),
    }
}

/// Whether `t` may be applied under host version `installed`: its declared
/// requirement and the version must be well-formed and the version must
/// satisfy the requirement.
pub open spec fn passes_checks(t: ThemeV, installed: Seq<char>) -> bool {
    &&& req_parse_ok(constraint_of(t))
    &&& version_parse_ok(installed)
    &&& req_matches(constraint_of(t), installed)
}

/// Run every prerequisite check of `theme` against the installed host
/// version: today that is the version-compatibility check. A malformed
/// string counts as a failed check here; `check_versions` is the way to
/// see the parse failure itself.
pub fn checks(theme: &Theme, installed: &str) -> (r: bool)
    ensures
        r == passes_checks(theme@, installed@),
{
    let vstring: &str = match &theme.leftwm_versions {
        Some(s) => s.as_str(),
        None => "*",
    };
    match check_versions(vstring, installed) {
        Ok(true) => true,
        _ => false,
    }
}

} // verus!
