//! The numeric version triple carried by a versioned artifact reference,
//! its text rendering, and parsing through the `semver` crate.
use vstd::prelude::*;

use crate::text::spec_dec_digits;
use crate::text::u64_to_dec_string;

verus! {

/// A version as the dependency model reads it: the numeric
/// major/minor/patch triple of a semantic version.
#[derive(Debug, Clone, Copy, PartialEq, Eq, Structural, Hash, PartialOrd, Ord)]
pub struct Version {
    pub major: u64,
    pub minor: u64,
    pub patch: u64,
}

/// The text rendering of a version: `major.minor.patch`.
pub open spec fn spec_version_text(v: Version) -> Seq<char> {
    spec_dec_digits(v.major as nat) + seq!['.'] + spec_dec_digits(v.minor as nat) + seq!['.']
        + spec_dec_digits(v.patch as nat)
}

impl Version {
    pub fn new(major: u64, minor: u64, patch: u64) -> (r: Version)
        ensures
            r == (Version { major, minor, patch }),
    {
        Version { major, minor, patch }
    }

    /// Renders the version as `major.minor.patch`.
    pub fn to_text(&self) -> (r: String)
        ensures
            r@ == spec_version_text(*self),
    {
        let mut s = u64_to_dec_string(self.major);
        s.append(".");
        s.append(u64_to_dec_string(self.minor).as_str());
        s.append(".");
        s.append(u64_to_dec_string(self.patch).as_str());
        proof {
            reveal_strlit(".");
            assert(s@ =~= spec_version_text(*self));
        }
        s
    }
}

/// The version tag a registry URI carries: a `v` followed by the version text.
pub open spec fn spec_version_tag(v: Version) -> Seq<char> {
    seq!['v'] + spec_version_text(v)
}

/// Renders the tag used in image URIs: `v` followed by the version text.
pub fn version_tag(v: &Version) -> (r: String)
    ensures
        r@ == spec_version_tag(*v),
{
    let mut s: String = "v".to_owned();
    s.append(v.to_text().as_str());
    proof {
        reveal_strlit("v");
        assert(s@ =~= spec_version_tag(*v));
    }
    s
}

/// The major/minor/patch triple that a semantic-version text denotes, or
/// nothing when the text is not a valid semantic version. Left abstract: the
/// `semver` crate decides it.
pub uninterp spec fn semver_triple_of(s: Seq<char>) -> Option<(u64, u64, u64)>;

/// Relies on `semver::Version::parse`: the parsed triple is a function of the
/// text alone; pre-release and build metadata are dropped here.
#[verifier::external_body]
pub fn parse_semver(s: &str) -> (r: Option<Version>)
    ensures
        r is Some <==> semver_triple_of(s@) is Some,
        r matches Some(v) ==> semver_triple_of(s@) == Some((v.major, v.minor, v.patch)),
{
    semver::Version::parse(s).ok().map(
        |v| Version { major: v.major, minor: v.minor, patch: v.patch },
    )
}

} // verus!
