use vstd::prelude::*;

verus! {

/// The error that `semver` gives for a text that is no semantic version.
#[verifier::external_type_specification]
#[verifier::external_body]
pub struct ExSemVerError(semver::Error);

/// A semantic version as `semver` holds it.
#[verifier::external_type_specification]
#[verifier::external_body]
pub struct ExSemVerVersion(semver::Version);

/// Whether `semver::Version::parse` takes a text for a semantic version.
pub uninterp spec fn is_semver(text: Seq<char>) -> bool;

/// Whether, of two texts that are semantic versions, `semver` orders the version that the
/// first one states at or above the version that the second one states.  The order is the
/// total order of `semver::Version`, which looks at the three numbers, the pre-release
/// identifiers and the build metadata, in that order.
pub uninterp spec fn semver_at_least(left: Seq<char>, right: Seq<char>) -> bool;

/// A semantic version together with the text that it was parsed from.  A value of this type is
/// only ever made by [`parse_version`], so the version that it holds is the one that its text
/// states.
pub struct ParsedVersion {
    text: String,
    version: semver::Version,
}

impl View for ParsedVersion {
    type V = Seq<char>;

    /// The text that the version was parsed from.
    closed spec fn view(&self) -> Seq<char> {
        self.text@
    }
}

/// Calls `semver::Version::parse`, and keeps the text beside the version that was parsed
/// from it.
///
/// Whether the parser takes the text depends on the text alone.
#[verifier::external_body]
pub(crate) fn parse_version(text: &str) -> (r: Result<ParsedVersion, semver::Error>)
    ensures
        match r {
            Ok(parsed) => parsed@ == text@ && is_semver(text@),
            Err(_) => !is_semver(text@),
        },
{
    match semver::Version::parse(text) {
        Ok(version) => Ok(ParsedVersion { text: text.to_string(), version }),
        Err(e) => Err(e),
    }
}

/// Compares two parsed versions with the `>=` of `semver::Version`.
///
/// Each of the two versions is the one that its text states, so the outcome depends on the two
/// texts alone.  A version is at or above itself: two versions that were parsed from the same
/// text are equal.
#[verifier::external_body]
pub(crate) fn version_at_least(left: &ParsedVersion, right: &ParsedVersion) -> (r: bool)
    ensures
        r == semver_at_least(left@, right@),
        left@ == right@ ==> r,
{
    left.version >= right.version
}

} // verus!
