//! Resolution and self-update of the `codebook-lsp` language-server binary.
//!
//! The crate models the ordered fallback chain that turns a request for a
//! runnable language server into a concrete executable path: a development
//! override in the working directory, the system `PATH`, an in-memory cache,
//! the versioned on-disk install, and finally a download of the latest
//! release.  All decisions are made here, over plain values; the host performs
//! the filesystem and network work and feeds the results back as events.

pub mod binary;
pub mod error;
pub mod platform;
pub mod release;
pub mod resolver;
pub mod text;
pub mod version_store;
