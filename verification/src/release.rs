//! Release descriptors from the remote feed, and the update-check gate.

use vstd::prelude::*;

verus! {

/// One downloadable artifact attached to a release.
#[derive(Debug)]
pub struct ReleaseAsset {
    pub name: String,
    pub download_url: String,
}

/// A release as the remote feed describes it: an opaque version string,
/// compared only for equality, and the artifacts attached to the release.
#[derive(Debug)]
pub struct ReleaseDescriptor {
    pub version: String,
    pub assets: Vec<ReleaseAsset>,
}

/// Three-way outcome of asking the feed for the latest release and holding
/// it against the installed version.
#[derive(Debug)]
pub enum UpdateCheck {
    /// The feed answered with a release whose version differs from the
    /// installed one (or nothing is installed).
    UpdateAvailable(ReleaseDescriptor),
    /// The feed answered with exactly the installed version.
    NoUpdate,
    /// The feed could not be reached.
    CheckFailed,
}

/// Classify a release query against the current version marker.  Versions
/// are compared by string equality alone: any difference counts as an
/// update, newer or not.
pub fn check_for_update(query: Result<ReleaseDescriptor, String>, marker: &Option<String>) -> (r:
    UpdateCheck)
    ensures
        query matches Err(_) ==> r is CheckFailed,
        query matches Ok(rel) ==> match *marker {
            Option::Some(v) => if v@ == rel.version@ {
                r is NoUpdate
            } else {
                r == UpdateCheck::UpdateAvailable(rel)
            },
            Option::None => r == UpdateCheck::UpdateAvailable(rel),
        },
{
    match query {
        Result::Err(_) => UpdateCheck::CheckFailed,
        Result::Ok(rel) => match marker {
            Option::Some(v) => {
                if *v == rel.version {
                    UpdateCheck::NoUpdate
                } else {
                    UpdateCheck::UpdateAvailable(rel)
                }
            },
            Option::None => UpdateCheck::UpdateAvailable(rel),
        },
    }
}

} // verus!
