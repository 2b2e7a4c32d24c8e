//! The version that the program reports.

use vstd::prelude::*;

verus! {

/// The version to report, or the message in its place.
pub open spec fn version_text(package_version: Option<Seq<char>>) -> Result<Seq<char>, Seq<char>> {
    match package_version {
        Some(version) => Ok(version),
        None => Err("Version unknown (not compiled with cargo)"@),
    }
}

/// A text or the message in its place, as sequences.
pub open spec fn texts(r: Result<String, String>) -> Result<Seq<char>, Seq<char>> {
    match r {
        Ok(text) => Ok(text@),
        Err(message) => Err(message@),
    }
}

/// The version to report: the package's version where the build knew it,
/// which `package_version` holds, and a message in its place where not.
pub fn cargo_version(package_version: Option<&str>) -> (r: Result<String, String>)
    ensures
        texts(r) == version_text(
            match package_version {
                Some(version) => Some(version@),
                None => None,
            },
        ),
{
    match package_version {
        Some(version) => Ok(version.to_owned()),
        None => Err("Version unknown (not compiled with cargo)".to_owned()),
    }
}

} // verus!
