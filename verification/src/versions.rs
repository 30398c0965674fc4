//! Release versions, parsed and ordered by the `semver` crate.

use vstd::prelude::*;

verus! {

/// What a semantic version consists of.
pub struct VersionView {
    pub major: u64,
    pub minor: u64,
    pub patch: u64,
    pub pre: Seq<char>,
    pub build: Seq<char>,
}

/// What `semver::Version::parse` makes of a text.
pub uninterp spec fn parsed_version(value: Seq<char>) -> Option<VersionView>;

/// How `semver` orders two versions with equal numbers that are both releases or both
/// pre-releases, by their pre-release and build identifiers.
pub uninterp spec fn identifiers_precede(
    pre: Seq<char>,
    build: Seq<char>,
    other_pre: Seq<char>,
    other_build: Seq<char>,
) -> bool;

/// Whether two versions have the same numbers and are both releases or both pre-releases.
pub open spec fn same_release_line(version: VersionView, other: VersionView) -> bool {
    &&& version.major == other.major
    &&& version.minor == other.minor
    &&& version.patch == other.patch
    &&& (version.pre.len() == 0) == (other.pre.len() == 0)
}

/// Whether a version precedes another: by its three numbers first; a pre-release precedes its
/// release.
pub open spec fn precedes(version: VersionView, other: VersionView) -> bool {
    if version.major != other.major {
        version.major < other.major
    } else if version.minor != other.minor {
        version.minor < other.minor
    } else if version.patch != other.patch {
        version.patch < other.patch
    } else if (version.pre.len() == 0) != (other.pre.len() == 0) {
        other.pre.len() == 0
    } else {
        identifiers_precede(version.pre, version.build, other.pre, other.build)
    }
}

/// Whether one text is a version that precedes the version in the other text.
pub open spec fn text_precedes(value: Seq<char>, other: Seq<char>) -> bool {
    match (parsed_version(value), parsed_version(other)) {
        (Some(first), Some(second)) => precedes(first, second),
        _ => false,
    }
}

/// `semver::Version::parse` decides by the text alone whether it is a semantic version.
#[verifier::external_body]
pub(crate) fn is_version(value: &str) -> (valid: bool)
    ensures
        valid == parsed_version(value@) is Some,
{
    semver::Version::parse(value).is_ok()
}

/// The order of `semver::Version` compares the numbers first, then the pre-release, in which a
/// release follows its pre-releases, then the build identifiers. Two texts of which one is no
/// version are in no order.
#[verifier::external_body]
pub(crate) fn version_precedes(value: &str, other: &str) -> (result: bool)
    ensures
        result == text_precedes(value@, other@),
        (parsed_version(value@) matches Some(first) && parsed_version(other@) matches Some(second)
            && same_release_line(first, second)) ==> result == identifiers_precede(
            parsed_version(value@)->0.pre,
            parsed_version(value@)->0.build,
            parsed_version(other@)->0.pre,
            parsed_version(other@)->0.build,
        ),
{
    match (semver::Version::parse(value), semver::Version::parse(other)) {
        (Ok(first), Ok(second)) => first < second,
        _ => false,
    }
}

/// The first of the three numbers in which two versions differ decides which precedes. Where they
/// differ in none, a pre-release precedes its release, and a release never its pre-release.
pub proof fn versions_are_ordered_by_their_numbers(version: VersionView, other: VersionView)
    ensures
        version.major < other.major ==> precedes(version, other) && !precedes(other, version),
        version.major == other.major && version.minor < other.minor ==> precedes(version, other)
            && !precedes(other, version),
        version.major == other.major && version.minor == other.minor && version.patch
            < other.patch ==> precedes(version, other) && !precedes(other, version),
        version.major == other.major && version.minor == other.minor && version.patch
            == other.patch && version.pre.len() > 0 && other.pre.len() == 0 ==> precedes(
            version,
            other,
        ) && !precedes(other, version),
        !same_release_line(version, other) ==> precedes(version, other) != precedes(other, version),
{
}

} // verus!
