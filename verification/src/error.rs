//! The error surface of binary resolution.
//!
//! Every failure carries a single human-readable message; the variant says
//! which step of the chain gave it up.

use vstd::prelude::*;

verus! {

/// Why a resolution attempt failed.
#[derive(Debug)]
pub enum ResolveError {
    /// The running architecture has no release asset at all.
    UnsupportedPlatform(String),
    /// The latest release holds no asset matching the running platform.
    MissingAsset(String),
    /// The release query or the download itself failed in transport.
    NetworkFailure(String),
    /// A read, write, extract or permission step failed.
    FilesystemFailure(String),
    /// Local state is inconsistent: a marker without its binary, or an
    /// event that the resolver was not waiting for.
    InvalidState(String),
}

/// The message carried by an error, whatever its variant.
pub open spec fn spec_error_message(e: ResolveError) -> Seq<char> {
    match e {
        ResolveError::UnsupportedPlatform(m) => m@,
        ResolveError::MissingAsset(m) => m@,
        ResolveError::NetworkFailure(m) => m@,
        ResolveError::FilesystemFailure(m) => m@,
        ResolveError::InvalidState(m) => m@,
    }
}

impl ResolveError {
    /// The human-readable message, as the original surfaced it.
    pub fn message(&self) -> (r: String)
        ensures
            r@ == spec_error_message(*self),
    {
        match self {
            ResolveError::UnsupportedPlatform(m) => m.clone(),
            ResolveError::MissingAsset(m) => m.clone(),
            ResolveError::NetworkFailure(m) => m.clone(),
            ResolveError::FilesystemFailure(m) => m.clone(),
            ResolveError::InvalidState(m) => m.clone(),
        }
    }
}

} // verus!
