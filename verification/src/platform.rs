//! Platform tags and the names derived from them.
//!
//! The release feed hosts one archive per supported platform; the functions
//! here fix, once and for all, the file names that the rest of the crate
//! expects: the binary's own name, the name of a versioned install
//! directory, and the per-platform release-asset name.

use vstd::prelude::*;

verus! {

/// Operating-system tag of the running host.
#[derive(Clone, Copy, Debug, PartialEq, Eq, Structural)]
pub enum Os {
    Mac,
    Linux,
    Windows,
}

/// CPU-architecture tag of the running host.
#[derive(Clone, Copy, Debug, PartialEq, Eq, Structural)]
pub enum Arch {
    Aarch64,
    X8664,
    X86,
}

/// Base name of the language-server executable.
pub open spec fn lsp_name() -> Seq<char> {
    "codebook-lsp"@
}

/// Prefix shared by every versioned install directory: the binary's base
/// name followed by a dash.
pub open spec fn version_dir_prefix() -> Seq<char> {
    "codebook-lsp-"@
}

/// Name of the directory holding the install of version `v`.
pub open spec fn spec_version_dir_name(v: Seq<char>) -> Seq<char> {
    version_dir_prefix() + v
}

/// File name of the executable itself; Windows binaries carry an `.exe`
/// extension, the other platforms use the bare name.
pub open spec fn spec_binary_file_name(os: Os) -> Seq<char> {
    if os is Windows {
        "codebook-lsp.exe"@
    } else {
        "codebook-lsp"@
    }
}

/// Path of the executable inside the versioned directory for version `v`.
pub open spec fn spec_version_binary_path(v: Seq<char>, os: Os) -> Seq<char> {
    spec_version_dir_name(v) + "/"@ + spec_binary_file_name(os)
}

/// Architecture part of a release-asset name.  The 32-bit architecture has
/// no release asset; it is rejected before this name is ever used.
pub open spec fn spec_arch_name(arch: Arch) -> Seq<char> {
    match arch {
        Arch::Aarch64 => "aarch64"@,
        Arch::X8664 => "x86_64"@,
        Arch::X86 => Seq::<char>::empty(),
    }
}

/// Target-triple suffix of a release-asset name.
pub open spec fn spec_os_triple(os: Os) -> Seq<char> {
    match os {
        Os::Mac => "apple-darwin"@,
        Os::Linux => "unknown-linux-musl"@,
        Os::Windows => "pc-windows-msvc"@,
    }
}

/// Archive format the release feed uses for the given operating system.
pub open spec fn spec_archive_ext(os: Os) -> Seq<char> {
    if os is Windows {
        "zip"@
    } else {
        "tar.gz"@
    }
}

/// Human-readable platform descriptor, used in error messages and as the
/// middle part of an asset name.
pub open spec fn spec_platform_descriptor(os: Os, arch: Arch) -> Seq<char> {
    spec_arch_name(arch) + "-"@ + spec_os_triple(os)
}

/// Exact name of the release asset expected for the given platform.
pub open spec fn spec_asset_file_name(os: Os, arch: Arch) -> Seq<char> {
    version_dir_prefix() + spec_platform_descriptor(os, arch) + "."@ + spec_archive_ext(os)
}

} // verus!
