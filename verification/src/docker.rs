//! Reading the container daemon's version out of its reported version text.
use vstd::prelude::*;

use crate::version::parse_semver;
use crate::version::semver_triple_of;
use crate::version::Version;

verus! {

/// The text with leading and trailing whitespace removed. Left abstract:
/// the standard library decides it.
pub uninterp spec fn trimmed_of(s: Seq<char>) -> Seq<char>;

/// Relies on `str::trim`: removes leading and trailing whitespace; the
/// result is a function of the text alone.
#[verifier::external_body]
fn str_trim(s: &str) -> (r: &str)
    ensures
        r@ == trimmed_of(s@),
{
    s.trim()
}

/// Why the daemon's version could not be read.
#[derive(Debug, PartialEq, Eq)]
pub enum DockerError {
    /// The daemon's reported version text is not a semantic version; the
    /// trimmed text is kept for the error line.
    VersionParse { raw: String },
}

impl DockerError {
    /// The single human-readable line describing the failure.
    pub fn message(&self) -> (r: String)
        ensures
            self matches DockerError::VersionParse { raw } ==> r@
                == "failed to parse docker version as semver: "@ + raw@,
    {
        match self {
            DockerError::VersionParse { raw } => {
                let mut s: String = "failed to parse docker version as semver: ".to_owned();
                s.append(raw.as_str());
                s
            },
        }
    }
}

/// Reads the daemon's version from the text its version command printed:
/// the text is trimmed and parsed as a semantic version. Succeeds exactly
/// when the trimmed text is a semantic version; fails naming the trimmed
/// text otherwise.
pub fn server_version_from_output(raw: &str) -> (r: Result<Version, DockerError>)
    ensures
        r is Ok <==> semver_triple_of(trimmed_of(raw@)) is Some,
        r matches Ok(v) ==> semver_triple_of(trimmed_of(raw@)) == Some(
            (v.major, v.minor, v.patch),
        ),
        r matches Err(e) ==> e matches DockerError::VersionParse { raw: t } && t@ == trimmed_of(
            raw@,
        ),
{
    let trimmed = str_trim(raw);
    match parse_semver(trimmed) {
        Some(v) => Ok(v),
        None => Err(DockerError::VersionParse { raw: trimmed.to_owned() }),
    }
}

} // verus!
