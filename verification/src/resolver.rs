//! The resolver: the fallback chain and the self-update state machine.
//!
//! The resolver owns the in-memory cache and decides, step by step, how a
//! request for a runnable binary is satisfied.  It performs no I/O itself:
//! each step hands the host a [`Request`], the host performs it and feeds
//! the result back as an [`Event`], until a step ends in a binary or an
//! error.  Status notifications to the host's progress sink are returned
//! alongside each step.

use vstd::prelude::*;
use vstd::string::*;

use crate::binary::CodebookBinary;
use crate::error::ResolveError;
use crate::error::spec_error_message;
use crate::platform::Arch;
use crate::platform::Os;
use crate::platform::lsp_name;
use crate::platform::spec_asset_file_name;
use crate::platform::spec_binary_file_name;
use crate::platform::spec_platform_descriptor;
use crate::platform::spec_version_binary_path;
use crate::platform::spec_version_dir_name;
use crate::platform::version_dir_prefix;
use crate::release::ReleaseAsset;
use crate::release::ReleaseDescriptor;
use crate::release::UpdateCheck;
use crate::text::has_prefix;
use crate::text::str_has_prefix;

verus! {

/// One entry of a directory listing, as the host reports it.
#[derive(Debug)]
pub struct DirEntry {
    pub name: String,
    pub is_dir: bool,
}

/// Archive format of a download, deciding how the host extracts it.
#[derive(Clone, Copy, Debug, PartialEq, Eq, Structural)]
pub enum ArchiveKind {
    Zip,
    GzipTar,
}

/// What the resolver asks the host to do next.
#[derive(Debug)]
pub enum Request {
    /// Does a file exist at this path, relative to the working directory?
    ProbeFile(String),
    /// Resolve this executable name through the project's `PATH`.
    ProbePath(String),
    /// Ask the release feed for the latest release of `repo`.
    QueryRelease { repo: String, require_assets: bool, pre_release: bool },
    /// Read the marker file at this path.
    ReadMarker(String),
    /// Download the archive at `url` into `directory` and extract it.
    Download { url: String, directory: String, archive: ArchiveKind },
    /// Mark the file at this path executable.
    MakeExecutable(String),
    /// Write `contents`, exactly, to the marker file at `path`.
    WriteMarker { path: String, contents: String },
    /// List the entries of the working directory.
    ListWorkDir,
    /// Remove these directories, best effort: failures are logged by the
    /// host and never reported back.
    RemoveDirs(Vec<String>),
}

/// The host's answer to the previous request.
#[derive(Debug)]
pub enum Event {
    /// Answer to `ProbeFile`: whether the path exists.
    Exists(bool),
    /// Answer to `ProbePath`: the resolved path, if any.
    PathLookup(Option<String>),
    /// Answer to `QueryRelease`: the latest release, or the transport error.
    Query(Result<ReleaseDescriptor, String>),
    /// Answer to `ReadMarker`: the raw file contents, or the read error.
    Marker(Result<String, String>),
    /// Answer to `Download`, `MakeExecutable` or `WriteMarker`.
    Completed(Result<(), String>),
    /// Answer to `ListWorkDir`: the entries, or the listing error.
    Listing(Result<Vec<DirEntry>, String>),
    /// Answer to `RemoveDirs`.
    Removed,
}

/// Install-status notification for the host's progress sink.
#[derive(Debug)]
pub enum Status {
    CheckingForUpdate,
    Downloading,
    Failed(String),
    Idle,
}

/// How a step ends: another request, a usable binary, or an error.
#[derive(Debug)]
pub enum Outcome {
    Next(Request),
    Done(CodebookBinary),
    Fail(ResolveError),
}

/// One step's output: the statuses to emit, in order, then the outcome.
#[derive(Debug)]
pub struct StepResult {
    pub statuses: Vec<Status>,
    pub outcome: Outcome,
}

/// Where the resolver stands inside one resolution, between a request and
/// the event answering it.
#[derive(Debug)]
pub enum Phase {
    /// No resolution in progress.
    Idle,
    /// Probing the development override in the working directory.
    AwaitDev { os: Os, arch: Arch },
    /// Asking the project's `PATH` for the binary.
    AwaitPath { os: Os, arch: Arch },
    /// Checking that the cached path still exists on disk.
    AwaitCache { os: Os, arch: Arch, path: String },
    /// Querying the release feed.
    AwaitQuery { os: Os, arch: Arch },
    /// Reading the marker to hold it against the query's answer.
    AwaitMarkerCheck { os: Os, arch: Arch, query: Result<ReleaseDescriptor, String> },
    /// Checking that the already-installed binary exists.
    AwaitExisting { binary_path: String },
    /// Checking whether the release to install is already on disk.
    AwaitInstallProbe { os: Os, version: String, url: String, version_dir: String, binary_path: String },
    /// Downloading and extracting the release archive.
    AwaitDownload { version: String, version_dir: String, binary_path: String },
    /// Marking the extracted binary executable.
    AwaitMakeExec { version: String, version_dir: String, binary_path: String },
    /// Persisting the new version marker.
    AwaitWriteMarker { version_dir: String, binary_path: String },
    /// Listing the working directory to find stale version directories.
    AwaitList { version_dir: String, binary_path: String },
    /// Removing the stale version directories.
    AwaitCleanup { binary_path: String },
    /// Rolling back a partial install before reporting its error.
    AwaitRollback { error: ResolveError },
}

/// The resolver: the in-memory path cache, surviving across resolutions,
/// and the phase of the resolution in progress.
#[derive(Debug)]
pub struct CodebookExtension {
    pub binary_cache: Option<String>,
    pub phase: Phase,
}

/// The environment injected into every binary resolved outside the
/// development override: info-level logging.
pub open spec fn is_info_env(env: Seq<(String, String)>) -> bool {
    env.len() == 1 && env[0].0@ == "RUST_LOG"@ && env[0].1@ == "info"@
}

/// A binary handle at `path` with the standard environment.
pub open spec fn is_info_binary(b: CodebookBinary, path: Seq<char>) -> bool {
    b.path@ == path && is_info_env(b.env@)
}

/// The development-override handle: the bare binary name, debug logging,
/// and backtraces.
pub open spec fn is_dev_binary(b: CodebookBinary) -> bool {
    &&& b.path@ == lsp_name()
    &&& b.env@.len() == 2
    &&& b.env@[0].0@ == "RUST_LOG"@
    &&& b.env@[0].1@ == "debug"@
    &&& b.env@[1].0@ == "RUST_BACKTRACE"@
    &&& b.env@[1].1@ == "1"@
}

/// A directory-listing entry that cleanup is allowed to delete: a
/// directory whose name shares the binary-name prefix and is not the
/// directory of the version just installed.
pub open spec fn is_stale_entry(e: DirEntry, current: Seq<char>) -> bool {
    &&& e.is_dir
    &&& has_prefix(e.name@, version_dir_prefix())
    &&& e.name@ != current
}

/// `name` is the name of some stale entry of the listing.
pub open spec fn names_stale_entry(entries: Seq<DirEntry>, current: Seq<char>, name: Seq<char>) -> bool {
    exists|j: int|
        0 <= j < entries.len() && is_stale_entry(#[trigger] entries[j], current) && name
            == entries[j].name@
}

/// Some element of `r` reads `name`.
pub open spec fn contains_name(r: Seq<String>, name: Seq<char>) -> bool {
    exists|i: int| 0 <= i < r.len() && (#[trigger] r[i])@ == name
}

/// The request probes the file at `path`.
pub open spec fn is_probe_request(q: Request, path: Seq<char>) -> bool {
    q matches Request::ProbeFile(p) && p@ == path
}

/// The request asks the feed for the latest release of the project's
/// repository, with at least one asset and prereleases excluded.
pub open spec fn is_query_request(q: Request) -> bool {
    q matches Request::QueryRelease { repo, require_assets, pre_release } && repo@
        == "blopker/codebook"@ && require_assets == true && pre_release == false
}

/// The request reads the marker file.
pub open spec fn is_read_marker_request(q: Request) -> bool {
    q matches Request::ReadMarker(p) && p@ == crate::version_store::marker_file_name()
}

/// The request downloads `url` into `dir`, in the archive format of `os`.
pub open spec fn is_download_request_for(q: Request, url: Seq<char>, dir: Seq<char>, os: Os) -> bool {
    q matches Request::Download { url: u, directory: d, archive } && u@ == url && d@ == dir
        && archive == (if os is Windows {
        ArchiveKind::Zip
    } else {
        ArchiveKind::GzipTar
    })
}

/// The request writes `v`, exactly, as the new marker.
pub open spec fn is_write_marker_request(q: Request, v: Seq<char>) -> bool {
    q matches Request::WriteMarker { path, contents } && path@
        == crate::version_store::marker_file_name() && contents@ == v
}

/// The request removes exactly the one directory `dir`.
pub open spec fn is_remove_one_request(q: Request, dir: Seq<char>) -> bool {
    q matches Request::RemoveDirs(ds) && ds@.len() == 1 && ds@[0]@ == dir
}

/// The version named by a raw marker read: the trimmed contents, or
/// nothing when the read failed.
pub open spec fn spec_marker_version(mr: Result<String, String>) -> Option<Seq<char>> {
    match mr {
        Result::Ok(s) => Option::Some(crate::text::spec_trim(s@)),
        Result::Err(_) => Option::None,
    }
}

/// The query answered with a release whose version differs from the
/// marker's (or there is no readable marker): an update is due.
pub open spec fn spec_update_available(
    query: Result<ReleaseDescriptor, String>,
    m: Option<Seq<char>>,
) -> bool {
    query matches Ok(rel) && (m is None || m != Option::Some(rel.version@))
}

/// `url` is the download locator of the first asset named `want`.
pub open spec fn first_asset_url(assets: Seq<ReleaseAsset>, want: Seq<char>, url: Seq<char>) -> bool {
    exists|i: int|
        0 <= i < assets.len() && (#[trigger] assets[i]).name@ == want && url
            == assets[i].download_url@ && (forall|j: int|
            0 <= j < i ==> (#[trigger] assets[j]).name@ != want)
}

/// No asset of the release carries the wanted name.
pub open spec fn no_asset_named(assets: Seq<ReleaseAsset>, want: Seq<char>) -> bool {
    forall|i: int| 0 <= i < assets.len() ==> (#[trigger] assets[i]).name@ != want
}

/// A step that got an event it was not waiting for: the resolution is
/// abandoned with `InvalidState` and the cache is left alone.
pub open spec fn step_rejects(pre: CodebookExtension, post: CodebookExtension, r: StepResult) -> bool {
    &&& r.statuses@.len() == 0
    &&& r.outcome matches Outcome::Fail(ResolveError::InvalidState(m)) && m@
        == "Resolver got an event it was not waiting for"@
    &&& post.binary_cache == pre.binary_cache
    &&& post.phase is Idle
}

/// The transition relation of the resolver: what one call of
/// [`CodebookExtension::step`] does, for every phase and event.
pub open spec fn step_spec(
    pre: CodebookExtension,
    ev: Event,
    post: CodebookExtension,
    r: StepResult,
) -> bool {
    match (pre.phase, ev) {
        (Phase::AwaitDev { os, arch }, Event::Exists(e)) => {
            if e {
                &&& r.statuses@.len() == 0
                &&& r.outcome matches Outcome::Done(b) && is_dev_binary(b)
                &&& post.binary_cache == pre.binary_cache
                &&& post.phase is Idle
            } else {
                &&& r.statuses@.len() == 0
                &&& r.outcome matches Outcome::Next(q) && q matches Request::ProbePath(name)
                    && name@ == lsp_name()
                &&& post.binary_cache == pre.binary_cache
                &&& post.phase == Phase::AwaitPath { os, arch }
            }
        },
        (Phase::AwaitPath { os, arch }, Event::PathLookup(w)) => {
            match w {
                Option::Some(p) => {
                    &&& r.statuses@.len() == 0
                    &&& r.outcome matches Outcome::Done(b) && is_info_binary(b, p@)
                    &&& post.binary_cache == pre.binary_cache
                    &&& post.phase is Idle
                },
                Option::None => {
                    match pre.binary_cache {
                        Option::Some(cp) => {
                            &&& r.statuses@.len() == 0
                            &&& r.outcome matches Outcome::Next(q) && is_probe_request(q, cp@)
                            &&& post.binary_cache == pre.binary_cache
                            &&& post.phase matches Phase::AwaitCache { os: o2, arch: a2, path }
                                && o2 == os && a2 == arch && path@ == cp@
                        },
                        Option::None => {
                            &&& r.statuses@.len() == 1 && r.statuses@[0] is CheckingForUpdate
                            &&& r.outcome matches Outcome::Next(q) && is_query_request(q)
                            &&& post.binary_cache == pre.binary_cache
                            &&& post.phase == Phase::AwaitQuery { os, arch }
                        },
                    }
                },
            }
        },
        (Phase::AwaitCache { os, arch, path }, Event::Exists(e)) => {
            if e {
                &&& r.statuses@.len() == 0
                &&& r.outcome matches Outcome::Done(b) && is_info_binary(b, path@)
                &&& post.binary_cache == pre.binary_cache
                &&& post.phase is Idle
            } else {
                &&& r.statuses@.len() == 1 && r.statuses@[0] is CheckingForUpdate
                &&& r.outcome matches Outcome::Next(q) && is_query_request(q)
                &&& post.binary_cache == pre.binary_cache
                &&& post.phase == Phase::AwaitQuery { os, arch }
            }
        },
        (Phase::AwaitQuery { os, arch }, Event::Query(q)) => {
            &&& r.statuses@.len() == 0
            &&& r.outcome matches Outcome::Next(rq) && is_read_marker_request(rq)
            &&& post.binary_cache == pre.binary_cache
            &&& post.phase matches Phase::AwaitMarkerCheck { os: o2, arch: a2, query } && o2 == os
                && a2 == arch && query == q
        },
        (Phase::AwaitMarkerCheck { os, arch, query }, Event::Marker(mr)) => {
            let m = spec_marker_version(mr);
            if spec_update_available(query, m) {
                let rel = query->Ok_0;
                if arch is X86 {
                    &&& r.outcome matches Outcome::Fail(ResolveError::UnsupportedPlatform(em)) && em@
                        == "x86 architecture is not supported"@
                    &&& r.statuses@.len() == 2
                    &&& r.statuses@[0] is Downloading
                    &&& r.statuses@[1] matches Status::Failed(fm) && fm@
                        == "Failed to install release: "@ + "x86 architecture is not supported"@
                    &&& post.binary_cache == pre.binary_cache
                    &&& post.phase is Idle
                } else if no_asset_named(rel.assets@, spec_asset_file_name(os, arch)) {
                    &&& r.outcome matches Outcome::Fail(ResolveError::MissingAsset(em)) && em@
                        == "No compatible binary found for "@ + spec_platform_descriptor(os, arch)
                    &&& r.statuses@.len() == 2
                    &&& r.statuses@[0] is Downloading
                    &&& r.statuses@[1] matches Status::Failed(fm) && fm@
                        == "Failed to install release: "@ + ("No compatible binary found for "@
                        + spec_platform_descriptor(os, arch))
                    &&& post.binary_cache == pre.binary_cache
                    &&& post.phase is Idle
                } else {
                    &&& r.statuses@.len() == 1 && r.statuses@[0] is Downloading
                    &&& r.outcome matches Outcome::Next(q) && is_probe_request(
                        q,
                        spec_version_binary_path(rel.version@, os),
                    )
                    &&& post.binary_cache == pre.binary_cache
                    &&& post.phase matches Phase::AwaitInstallProbe {
                        os: o2,
                        version,
                        url,
                        version_dir,
                        binary_path,
                    } && o2 == os && version@ == rel.version@ && first_asset_url(
                        rel.assets@,
                        spec_asset_file_name(os, arch),
                        url@,
                    ) && version_dir@ == spec_version_dir_name(rel.version@) && binary_path@
                        == spec_version_binary_path(rel.version@, os)
                }
            } else {
                match m {
                    Option::Some(v) => {
                        &&& r.statuses@.len() == 0
                        &&& r.outcome matches Outcome::Next(q) && is_probe_request(
                            q,
                            spec_version_binary_path(v, os),
                        )
                        &&& post.binary_cache == pre.binary_cache
                        &&& post.phase matches Phase::AwaitExisting { binary_path } && binary_path@
                            == spec_version_binary_path(v, os)
                    },
                    Option::None => {
                        &&& r.statuses@.len() == 0
                        &&& r.outcome matches Outcome::Fail(ResolveError::FilesystemFailure(em))
                            && em@ == "Failed to read version file: "@ + mr->Err_0@
                        &&& post.binary_cache == pre.binary_cache
                        &&& post.phase is Idle
                    },
                }
            }
        },
        (Phase::AwaitExisting { binary_path }, Event::Exists(e)) => {
            if e {
                &&& r.statuses@.len() == 1 && r.statuses@[0] is Idle
                &&& r.outcome matches Outcome::Done(b) && is_info_binary(b, binary_path@)
                &&& post.binary_cache == Option::Some(binary_path)
                &&& post.phase is Idle
            } else {
                &&& r.statuses@.len() == 0
                &&& r.outcome matches Outcome::Fail(ResolveError::InvalidState(em)) && em@
                    == "Binary not found at expected path: "@ + binary_path@
                &&& post.binary_cache == pre.binary_cache
                &&& post.phase is Idle
            }
        },
        (Phase::AwaitInstallProbe { os, version, url, version_dir, binary_path }, Event::Exists(e)) => {
            if e {
                &&& r.statuses@.len() == 1 && r.statuses@[0] is Idle
                &&& r.outcome matches Outcome::Done(b) && is_info_binary(b, binary_path@)
                &&& post.binary_cache == Option::Some(binary_path)
                &&& post.phase is Idle
            } else {
                &&& r.statuses@.len() == 0
                &&& r.outcome matches Outcome::Next(q) && is_download_request_for(
                    q,
                    url@,
                    version_dir@,
                    os,
                )
                &&& post.binary_cache == pre.binary_cache
                &&& post.phase matches Phase::AwaitDownload { version: v2, version_dir: d2, binary_path: b2 }
                    && v2@ == version@ && d2@ == version_dir@ && b2@ == binary_path@
            }
        },
        (Phase::AwaitDownload { version, version_dir, binary_path }, Event::Completed(res)) => {
            match res {
                Result::Ok(_) => {
                    &&& r.statuses@.len() == 0
                    &&& r.outcome matches Outcome::Next(q) && q matches Request::MakeExecutable(p)
                        && p@ == binary_path@
                    &&& post.binary_cache == pre.binary_cache
                    &&& post.phase matches Phase::AwaitMakeExec {
                        version: v2,
                        version_dir: d2,
                        binary_path: b2,
                    } && v2@ == version@ && d2@ == version_dir@ && b2@ == binary_path@
                },
                Result::Err(e) => {
                    &&& r.statuses@.len() == 0
                    &&& r.outcome matches Outcome::Next(q) && is_remove_one_request(q, version_dir@)
                    &&& post.binary_cache == pre.binary_cache
                    &&& post.phase matches Phase::AwaitRollback {
                        error: ResolveError::NetworkFailure(em),
                    } && em@ == "Failed to download binary: "@ + e@
                },
            }
        },
        (Phase::AwaitMakeExec { version, version_dir, binary_path }, Event::Completed(res)) => {
            match res {
                Result::Ok(_) => {
                    &&& r.statuses@.len() == 0
                    &&& r.outcome matches Outcome::Next(q) && is_write_marker_request(q, version@)
                    &&& post.binary_cache == pre.binary_cache
                    &&& post.phase matches Phase::AwaitWriteMarker { version_dir: d2, binary_path: b2 }
                        && d2@ == version_dir@ && b2@ == binary_path@
                },
                Result::Err(e) => {
                    &&& r.statuses@.len() == 0
                    &&& r.outcome matches Outcome::Next(q) && is_remove_one_request(q, version_dir@)
                    &&& post.binary_cache == pre.binary_cache
                    &&& post.phase matches Phase::AwaitRollback {
                        error: ResolveError::FilesystemFailure(em),
                    } && em@ == "Failed to make binary executable: "@ + e@
                },
            }
        },
        (Phase::AwaitWriteMarker { version_dir, binary_path }, Event::Completed(res)) => {
            match res {
                Result::Ok(_) => {
                    &&& r.statuses@.len() == 0
                    &&& r.outcome matches Outcome::Next(q) && q is ListWorkDir
                    &&& post.binary_cache == pre.binary_cache
                    &&& post.phase matches Phase::AwaitList { version_dir: d2, binary_path: b2 }
                        && d2@ == version_dir@ && b2@ == binary_path@
                },
                Result::Err(e) => {
                    &&& r.outcome matches Outcome::Fail(ResolveError::FilesystemFailure(em)) && em@
                        == "Failed to write version file: "@ + e@
                    &&& r.statuses@.len() == 1
                    &&& r.statuses@[0] matches Status::Failed(fm) && fm@
                        == "Failed to install release: "@ + ("Failed to write version file: "@ + e@)
                    &&& post.binary_cache == pre.binary_cache
                    &&& post.phase is Idle
                },
            }
        },
        (Phase::AwaitList { version_dir, binary_path }, Event::Listing(res)) => {
            match res {
                Result::Ok(entries) => {
                    &&& r.statuses@.len() == 0
                    &&& r.outcome matches Outcome::Next(q) && q matches Request::RemoveDirs(ds) && {
                        &&& forall|i: int| 0 <= i < ds@.len() ==> has_prefix(
                            (#[trigger] ds@[i])@,
                            version_dir_prefix(),
                        ) && ds@[i]@ != version_dir@
                        &&& forall|i: int| 0 <= i < ds@.len() ==> names_stale_entry(
                            entries@,
                            version_dir@,
                            (#[trigger] ds@[i])@,
                        )
                        &&& forall|j: int| 0 <= j < entries@.len() && is_stale_entry(
                            #[trigger] entries@[j],
                            version_dir@,
                        ) ==> contains_name(ds@, entries@[j].name@)
                    }
                    &&& post.binary_cache == pre.binary_cache
                    &&& post.phase matches Phase::AwaitCleanup { binary_path: b2 } && b2@
                        == binary_path@
                },
                Result::Err(_) => {
                    &&& r.statuses@.len() == 1 && r.statuses@[0] is Idle
                    &&& r.outcome matches Outcome::Done(b) && is_info_binary(b, binary_path@)
                    &&& post.binary_cache == Option::Some(binary_path)
                    &&& post.phase is Idle
                },
            }
        },
        (Phase::AwaitCleanup { binary_path }, Event::Removed) => {
            &&& r.statuses@.len() == 1 && r.statuses@[0] is Idle
            &&& r.outcome matches Outcome::Done(b) && is_info_binary(b, binary_path@)
            &&& post.binary_cache == Option::Some(binary_path)
            &&& post.phase is Idle
        },
        (Phase::AwaitRollback { error }, Event::Removed) => {
            &&& r.statuses@.len() == 1
            &&& r.statuses@[0] matches Status::Failed(fm) && fm@
                == "Failed to install release: "@ + spec_error_message(error)
            &&& r.outcome matches Outcome::Fail(e) && e == error
            &&& post.binary_cache == pre.binary_cache
            &&& post.phase is Idle
        },
        _ => step_rejects(pre, post, r),
    }
}

impl CodebookExtension {
    /// A fresh resolver: empty cache, no resolution in progress.
    pub fn new() -> (r: Self)
        ensures
            r.binary_cache is None,
            r.phase is Idle,
    {
        CodebookExtension { binary_cache: Option::None, phase: Phase::Idle }
    }

    /// Name of the directory holding the given version's install.
    pub fn get_version_directory_path(&self, version: &str) -> (r: String)
        ensures
            r@ == spec_version_dir_name(version@),
    {
        let mut r = "codebook-lsp-".to_owned();
        r.append(version);
        r
    }

    /// File name of the executable for the given operating system.
    pub fn get_binary_filename(&self, os: Os) -> (r: String)
        ensures
            r@ == spec_binary_file_name(os),
    {
        match os {
            Os::Windows => "codebook-lsp.exe".to_owned(),
            _ => "codebook-lsp".to_owned(),
        }
    }

    /// Path of the given version's executable, inside its versioned
    /// directory.
    pub fn version_binary_path(&self, version: &str, os: Os) -> (r: String)
        ensures
            r@ == spec_version_binary_path(version@, os),
    {
        let mut r = self.get_version_directory_path(version);
        r.append("/");
        let f = self.get_binary_filename(os);
        r.append(f.as_str());
        r
    }

    /// The release-asset name and platform descriptor expected for the
    /// given platform.  The 32-bit architecture has no asset and is
    /// rejected outright, whatever the operating system.
    pub fn asset_name(&self, platform: Os, arch: Arch) -> (r: Result<(String, String), ResolveError>)
        ensures
            arch is X86 ==> (r matches Err(ResolveError::UnsupportedPlatform(m)) && m@
                == "x86 architecture is not supported"@),
            !(arch is X86) ==> (r matches Ok(nd) && nd.0@ == spec_asset_file_name(platform, arch)
                && nd.1@ == spec_platform_descriptor(platform, arch)),
    {
        let arch_name: &str = match arch {
            Arch::Aarch64 => "aarch64",
            Arch::X8664 => "x86_64",
            Arch::X86 => {
                return Result::Err(
                    ResolveError::UnsupportedPlatform("x86 architecture is not supported".to_owned()),
                );
            },
        };
        let os_str: &str = match platform {
            Os::Mac => "apple-darwin",
            Os::Linux => "unknown-linux-musl",
            Os::Windows => "pc-windows-msvc",
        };
        let file_ext: &str = match platform {
            Os::Windows => "zip",
            _ => "tar.gz",
        };
        let mut descriptor = arch_name.to_owned();
        descriptor.append("-");
        descriptor.append(os_str);
        let mut name = "codebook-lsp-".to_owned();
        name.append(descriptor.as_str());
        name.append(".");
        name.append(file_ext);
        Result::Ok((name, descriptor))
    }

    /// The development override: if a bare-named executable sits in the
    /// working directory, use it with verbose logging.
    pub fn find_development_binary(&self, dev_exists: bool) -> (r: Option<CodebookBinary>)
        ensures
            dev_exists ==> (r matches Some(b) && is_dev_binary(b)),
            !dev_exists ==> r is None,
    {
        if dev_exists {
            let mut b = CodebookBinary::new("codebook-lsp".to_owned(), "debug");
            b.env.push(("RUST_BACKTRACE".to_owned(), "1".to_owned()));
            Option::Some(b)
        } else {
            Option::None
        }
    }

    /// A binary resolved through the project's `PATH` is used as found,
    /// with no version management.
    pub fn find_system_binary(&self, which: Option<String>) -> (r: Option<CodebookBinary>)
        ensures
            which matches Some(p) ==> (r matches Some(b) && is_info_binary(b, p@)),
            which is None ==> r is None,
    {
        match which {
            Option::Some(p) => Option::Some(CodebookBinary::new(p, "info")),
            Option::None => Option::None,
        }
    }

    /// The in-memory cache: reused only when its path still exists on
    /// disk; a stale path is never handed out.
    pub fn get_cached_binary(&self, cache_exists: bool) -> (r: Option<CodebookBinary>)
        ensures
            self.binary_cache matches Some(p) ==> (cache_exists ==> (r matches Some(b)
                && is_info_binary(b, p@))),
            self.binary_cache is None || !cache_exists ==> r is None,
    {
        match &self.binary_cache {
            Option::Some(p) => {
                if cache_exists {
                    Option::Some(CodebookBinary::new(p.clone(), "info"))
                } else {
                    Option::None
                }
            },
            Option::None => Option::None,
        }
    }

    /// The first asset of the release whose name matches the running
    /// platform; its absence is a hard error naming the platform.
    pub fn find_compatible_asset(&self, release: &ReleaseDescriptor, platform: Os, arch: Arch) -> (r:
        Result<ReleaseAsset, ResolveError>)
        ensures
            arch is X86 ==> (r matches Err(ResolveError::UnsupportedPlatform(m)) && m@
                == "x86 architecture is not supported"@),
            !(arch is X86) ==> match r {
                Result::Ok(a) => exists|i: int|
                    0 <= i < release.assets@.len()
                        && (#[trigger] release.assets@[i]).name@ == spec_asset_file_name(platform, arch)
                        && a.name@ == release.assets@[i].name@
                        && a.download_url@ == release.assets@[i].download_url@
                        && (forall|j: int| 0 <= j < i ==> (#[trigger] release.assets@[j]).name@
                            != spec_asset_file_name(platform, arch)),
                Result::Err(e) => {
                    &&& forall|i: int| 0 <= i < release.assets@.len()
                        ==> (#[trigger] release.assets@[i]).name@ != spec_asset_file_name(platform, arch)
                    &&& e matches ResolveError::MissingAsset(m) && m@
                        == "No compatible binary found for "@ + spec_platform_descriptor(platform, arch)
                },
            },
    {
        let nd = match self.asset_name(platform, arch) {
            Result::Ok(nd) => nd,
            Result::Err(e) => {
                return Result::Err(e);
            },
        };
        let (want, descriptor) = nd;
        let n = release.assets.len();
        let mut i: usize = 0;
        while i < n
            invariant
                !(arch is X86),
                n == release.assets@.len(),
                i <= n,
                want@ == spec_asset_file_name(platform, arch),
                forall|j: int| 0 <= j < i ==> (#[trigger] release.assets@[j]).name@
                    != spec_asset_file_name(platform, arch),
            decreases n - i,
        {
            let a = &release.assets[i];
            if a.name == want {
                return Result::Ok(
                    ReleaseAsset { name: a.name.clone(), download_url: a.download_url.clone() },
                );
            }
            i = i + 1;
        }
        let mut m = "No compatible binary found for ".to_owned();
        m.append(descriptor.as_str());
        Result::Err(ResolveError::MissingAsset(m))
    }

    /// Select the stale version directories out of a listing of the
    /// working directory: every directory sharing the binary-name prefix
    /// except the one named by `current_dir_name`.  Nothing else is ever
    /// selected, and the just-installed directory never is.
    pub fn cleanup_old_versions(&self, entries: &Vec<DirEntry>, current_dir_name: &String) -> (r:
        Vec<String>)
        ensures
            forall|i: int| 0 <= i < r@.len() ==> has_prefix((#[trigger] r@[i])@, version_dir_prefix())
                && r@[i]@ != current_dir_name@,
            forall|i: int| 0 <= i < r@.len() ==> names_stale_entry(
                entries@,
                current_dir_name@,
                (#[trigger] r@[i])@,
            ),
            forall|j: int| 0 <= j < entries@.len() && is_stale_entry(
                #[trigger] entries@[j],
                current_dir_name@,
            ) ==> contains_name(r@, entries@[j].name@),
    {
        let n = entries.len();
        let mut r: Vec<String> = Vec::new();
        let mut k: usize = 0;
        while k < n
            invariant
                n == entries@.len(),
                k <= n,
                forall|i: int| 0 <= i < r@.len() ==> has_prefix(
                    (#[trigger] r@[i])@,
                    version_dir_prefix(),
                ) && r@[i]@ != current_dir_name@,
                forall|i: int| 0 <= i < r@.len() ==> names_stale_entry(
                    entries@,
                    current_dir_name@,
                    (#[trigger] r@[i])@,
                ),
                forall|j: int| 0 <= j < k && is_stale_entry(
                    #[trigger] entries@[j],
                    current_dir_name@,
                ) ==> contains_name(r@, entries@[j].name@),
            decreases n - k,
        {
            let e = &entries[k];
            if e.is_dir && str_has_prefix(e.name.as_str(), "codebook-lsp-") && !(e.name
                == *current_dir_name) {
                let ghost old_r = r@;
                r.push(e.name.clone());
                proof {
                    assert(is_stale_entry(entries@[k as int], current_dir_name@));
                    assert forall|i: int| #![trigger r@[i]] 0 <= i < r@.len() implies
                        names_stale_entry(entries@, current_dir_name@, r@[i]@) by {
                        if i < old_r.len() {
                            assert(r@[i] == old_r[i]);
                            assert(names_stale_entry(entries@, current_dir_name@, old_r[i]@));
                        } else {
                            assert(r@[i]@ == entries@[k as int].name@);
                        }
                    }
                    assert forall|j: int|
                        0 <= j < k + 1 && is_stale_entry(
                            #[trigger] entries@[j],
                            current_dir_name@,
                        ) implies contains_name(r@, entries@[j].name@) by {
                        if j < k {
                            let i = choose|i: int|
                                0 <= i < old_r.len() && (#[trigger] old_r[i])@ == entries@[j].name@;
                            assert(r@[i] == old_r[i]);
                        } else {
                            assert((r@[r@.len() - 1])@ == entries@[j].name@);
                        }
                    }
                }
            }
            k = k + 1;
        }
        r
    }

    /// Move the phase out, leaving the resolver idle.
    fn take_phase(&mut self) -> (ph: Phase)
        ensures
            ph == old(self).phase,
            final(self).phase is Idle,
            final(self).binary_cache == old(self).binary_cache,
    {
        let mut ph = Phase::Idle;
        core::mem::swap(&mut ph, &mut self.phase);
        ph
    }

    /// Start a fresh resolution for the given platform.  The chain always
    /// opens by probing the development override in the working directory;
    /// a resolution already in progress is abandoned.
    pub fn begin_resolution(&mut self, os: Os, arch: Arch) -> (r: Request)
        ensures
            final(self).binary_cache == old(self).binary_cache,
            final(self).phase == (Phase::AwaitDev { os, arch }),
            is_probe_request(r, lsp_name()),
    {
        self.phase = Phase::AwaitDev { os, arch };
        Request::ProbeFile("codebook-lsp".to_owned())
    }

    /// Run one step of the resolution: consume the event answering the
    /// previous request, emit the statuses it calls for, and either ask
    /// for the next piece of outside work or finish.  The exact transition
    /// taken is the one [`step_spec`] prescribes.
    pub fn step(&mut self, event: Event) -> (r: StepResult)
        ensures
            step_spec(*old(self), event, *final(self), r),
    {
        let ph = self.take_phase();
        match (ph, event) {
            (Phase::AwaitDev { os, arch }, Event::Exists(e)) => {
                if e {
                    let b = self.find_development_binary(true).unwrap();
                    StepResult { statuses: Vec::new(), outcome: Outcome::Done(b) }
                } else {
                    self.phase = Phase::AwaitPath { os, arch };
                    StepResult {
                        statuses: Vec::new(),
                        outcome: Outcome::Next(Request::ProbePath("codebook-lsp".to_owned())),
                    }
                }
            },
            (Phase::AwaitPath { os, arch }, Event::PathLookup(w)) => {
                match w {
                    Option::Some(p) => {
                        let b = CodebookBinary::new(p, "info");
                        StepResult { statuses: Vec::new(), outcome: Outcome::Done(b) }
                    },
                    Option::None => {
                        match &self.binary_cache {
                            Option::Some(cp) => {
                                let probe = cp.clone();
                                self.phase = Phase::AwaitCache { os, arch, path: cp.clone() };
                                StepResult {
                                    statuses: Vec::new(),
                                    outcome: Outcome::Next(Request::ProbeFile(probe)),
                                }
                            },
                            Option::None => {
                                self.phase = Phase::AwaitQuery { os, arch };
                                StepResult {
                                    statuses: one_status(Status::CheckingForUpdate),
                                    outcome: Outcome::Next(query_release_request()),
                                }
                            },
                        }
                    },
                }
            },
            (Phase::AwaitCache { os, arch, path }, Event::Exists(e)) => {
                if e {
                    let b = CodebookBinary::new(path, "info");
                    StepResult { statuses: Vec::new(), outcome: Outcome::Done(b) }
                } else {
                    self.phase = Phase::AwaitQuery { os, arch };
                    StepResult {
                        statuses: one_status(Status::CheckingForUpdate),
                        outcome: Outcome::Next(query_release_request()),
                    }
                }
            },
            (Phase::AwaitQuery { os, arch }, Event::Query(q)) => {
                self.phase = Phase::AwaitMarkerCheck { os, arch, query: q };
                StepResult {
                    statuses: Vec::new(),
                    outcome: Outcome::Next(Request::ReadMarker(".version".to_owned())),
                }
            },
            (Phase::AwaitMarkerCheck { os, arch, query }, Event::Marker(mr)) => {
                let marker: Option<String>;
                let read_err: Option<ResolveError>;
                match crate::version_store::read_version_file(mr) {
                    Result::Ok(t) => {
                        marker = Option::Some(t);
                        read_err = Option::None;
                    },
                    Result::Err(e) => {
                        marker = Option::None;
                        read_err = Option::Some(e);
                    },
                }
                match crate::release::check_for_update(query, &marker) {
                    UpdateCheck::UpdateAvailable(rel) => {
                        match self.find_compatible_asset(&rel, os, arch) {
                            Result::Err(e) => {
                                let m = e.message();
                                let mut fm = "Failed to install release: ".to_owned();
                                fm.append(m.as_str());
                                StepResult {
                                    statuses: two_statuses(Status::Downloading, Status::Failed(fm)),
                                    outcome: Outcome::Fail(e),
                                }
                            },
                            Result::Ok(asset) => {
                                let version_dir = self.get_version_directory_path(
                                    rel.version.as_str(),
                                );
                                let binary_path = self.version_binary_path(
                                    rel.version.as_str(),
                                    os,
                                );
                                let probe = binary_path.clone();
                                self.phase = Phase::AwaitInstallProbe {
                                    os,
                                    version: rel.version,
                                    url: asset.download_url,
                                    version_dir,
                                    binary_path,
                                };
                                StepResult {
                                    statuses: one_status(Status::Downloading),
                                    outcome: Outcome::Next(Request::ProbeFile(probe)),
                                }
                            },
                        }
                    },
                    UpdateCheck::NoUpdate | UpdateCheck::CheckFailed => {
                        match marker {
                            Option::Some(v) => {
                                let binary_path = self.version_binary_path(v.as_str(), os);
                                let probe = binary_path.clone();
                                self.phase = Phase::AwaitExisting { binary_path };
                                StepResult {
                                    statuses: Vec::new(),
                                    outcome: Outcome::Next(Request::ProbeFile(probe)),
                                }
                            },
                            Option::None => {
                                StepResult {
                                    statuses: Vec::new(),
                                    outcome: Outcome::Fail(read_err.unwrap()),
                                }
                            },
                        }
                    },
                }
            },
            (Phase::AwaitExisting { binary_path }, Event::Exists(e)) => {
                if e {
                    let b = CodebookBinary::new(binary_path.clone(), "info");
                    self.binary_cache = Option::Some(binary_path);
                    StepResult { statuses: one_status(Status::Idle), outcome: Outcome::Done(b) }
                } else {
                    let mut em = "Binary not found at expected path: ".to_owned();
                    em.append(binary_path.as_str());
                    StepResult {
                        statuses: Vec::new(),
                        outcome: Outcome::Fail(ResolveError::InvalidState(em)),
                    }
                }
            },
            (
                Phase::AwaitInstallProbe { os, version, url, version_dir, binary_path },
                Event::Exists(e),
            ) => {
                if e {
                    let b = CodebookBinary::new(binary_path.clone(), "info");
                    self.binary_cache = Option::Some(binary_path);
                    StepResult { statuses: one_status(Status::Idle), outcome: Outcome::Done(b) }
                } else {
                    let archive = match os {
                        Os::Windows => ArchiveKind::Zip,
                        _ => ArchiveKind::GzipTar,
                    };
                    let directory = version_dir.clone();
                    self.phase = Phase::AwaitDownload { version, version_dir, binary_path };
                    StepResult {
                        statuses: Vec::new(),
                        outcome: Outcome::Next(Request::Download { url, directory, archive }),
                    }
                }
            },
            (Phase::AwaitDownload { version, version_dir, binary_path }, Event::Completed(res)) => {
                match res {
                    Result::Ok(_) => {
                        let target = binary_path.clone();
                        self.phase = Phase::AwaitMakeExec { version, version_dir, binary_path };
                        StepResult {
                            statuses: Vec::new(),
                            outcome: Outcome::Next(Request::MakeExecutable(target)),
                        }
                    },
                    Result::Err(e) => {
                        let mut em = "Failed to download binary: ".to_owned();
                        em.append(e.as_str());
                        let mut ds: Vec<String> = Vec::new();
                        ds.push(version_dir);
                        self.phase = Phase::AwaitRollback {
                            error: ResolveError::NetworkFailure(em),
                        };
                        StepResult {
                            statuses: Vec::new(),
                            outcome: Outcome::Next(Request::RemoveDirs(ds)),
                        }
                    },
                }
            },
            (Phase::AwaitMakeExec { version, version_dir, binary_path }, Event::Completed(res)) => {
                match res {
                    Result::Ok(_) => {
                        let contents = version;
                        self.phase = Phase::AwaitWriteMarker { version_dir, binary_path };
                        StepResult {
                            statuses: Vec::new(),
                            outcome: Outcome::Next(
                                Request::WriteMarker { path: ".version".to_owned(), contents },
                            ),
                        }
                    },
                    Result::Err(e) => {
                        let mut em = "Failed to make binary executable: ".to_owned();
                        em.append(e.as_str());
                        let mut ds: Vec<String> = Vec::new();
                        ds.push(version_dir);
                        self.phase = Phase::AwaitRollback {
                            error: ResolveError::FilesystemFailure(em),
                        };
                        StepResult {
                            statuses: Vec::new(),
                            outcome: Outcome::Next(Request::RemoveDirs(ds)),
                        }
                    },
                }
            },
            (Phase::AwaitWriteMarker { version_dir, binary_path }, Event::Completed(res)) => {
                match res {
                    Result::Ok(_) => {
                        self.phase = Phase::AwaitList { version_dir, binary_path };
                        StepResult {
                            statuses: Vec::new(),
                            outcome: Outcome::Next(Request::ListWorkDir),
                        }
                    },
                    Result::Err(e) => {
                        let mut em = "Failed to write version file: ".to_owned();
                        em.append(e.as_str());
                        let mut fm = "Failed to install release: ".to_owned();
                        fm.append(em.as_str());
                        StepResult {
                            statuses: one_status(Status::Failed(fm)),
                            outcome: Outcome::Fail(ResolveError::FilesystemFailure(em)),
                        }
                    },
                }
            },
            (Phase::AwaitList { version_dir, binary_path }, Event::Listing(res)) => {
                match res {
                    Result::Ok(entries) => {
                        let ds = self.cleanup_old_versions(&entries, &version_dir);
                        self.phase = Phase::AwaitCleanup { binary_path };
                        StepResult {
                            statuses: Vec::new(),
                            outcome: Outcome::Next(Request::RemoveDirs(ds)),
                        }
                    },
                    Result::Err(_) => {
                        let b = CodebookBinary::new(binary_path.clone(), "info");
                        self.binary_cache = Option::Some(binary_path);
                        StepResult { statuses: one_status(Status::Idle), outcome: Outcome::Done(b) }
                    },
                }
            },
            (Phase::AwaitCleanup { binary_path }, Event::Removed) => {
                let b = CodebookBinary::new(binary_path.clone(), "info");
                self.binary_cache = Option::Some(binary_path);
                StepResult { statuses: one_status(Status::Idle), outcome: Outcome::Done(b) }
            },
            (Phase::AwaitRollback { error }, Event::Removed) => {
                let m = error.message();
                let mut fm = "Failed to install release: ".to_owned();
                fm.append(m.as_str());
                StepResult {
                    statuses: one_status(Status::Failed(fm)),
                    outcome: Outcome::Fail(error),
                }
            },
            _ => {
                StepResult {
                    statuses: Vec::new(),
                    outcome: Outcome::Fail(
                        ResolveError::InvalidState(
                            "Resolver got an event it was not waiting for".to_owned(),
                        ),
                    ),
                }
            },
        }
    }
}

/// How far a resolution still has to go from a phase; strictly falling
/// along every transition of the machine.
pub open spec fn phase_rank(ph: Phase) -> nat {
    match ph {
        Phase::Idle => 0,
        Phase::AwaitDev { .. } => 12,
        Phase::AwaitPath { .. } => 11,
        Phase::AwaitCache { .. } => 10,
        Phase::AwaitQuery { .. } => 9,
        Phase::AwaitMarkerCheck { .. } => 8,
        Phase::AwaitExisting { .. } => 7,
        Phase::AwaitInstallProbe { .. } => 7,
        Phase::AwaitDownload { .. } => 6,
        Phase::AwaitMakeExec { .. } => 5,
        Phase::AwaitWriteMarker { .. } => 4,
        Phase::AwaitList { .. } => 3,
        Phase::AwaitCleanup { .. } => 2,
        Phase::AwaitRollback { .. } => 1,
    }
}

/// A resolution never blocks indefinitely: every step either finishes,
/// leaving the resolver idle, or asks for more work from a phase of
/// strictly smaller rank.  A driver looping on `step` therefore ends
/// after a bounded number of rounds.
pub proof fn lemma_step_makes_progress(
    pre: CodebookExtension,
    ev: Event,
    post: CodebookExtension,
    r: StepResult,
)
    requires
        step_spec(pre, ev, post, r),
    ensures
        r.outcome is Next ==> phase_rank(post.phase) < phase_rank(pre.phase),
        !(r.outcome is Next) ==> post.phase is Idle,
{
}

/// A marker naming a version whose binary is missing on disk fails the
/// resolution with `InvalidState`: no silent empty handle comes back.
pub proof fn lemma_missing_binary_is_invalid_state(
    pre: CodebookExtension,
    ev: Event,
    post: CodebookExtension,
    r: StepResult,
)
    requires
        step_spec(pre, ev, post, r),
        pre.phase is AwaitExisting,
        ev == Event::Exists(false),
    ensures
        r.outcome matches Outcome::Fail(e) && e is InvalidState,
        !(r.outcome is Done),
{
}

/// A cached path that no longer exists on disk is never handed out: the
/// step falls through to the update check instead of returning the stale
/// handle.
pub proof fn lemma_stale_cache_not_returned(
    pre: CodebookExtension,
    ev: Event,
    post: CodebookExtension,
    r: StepResult,
)
    requires
        step_spec(pre, ev, post, r),
        pre.phase is AwaitCache,
        ev == Event::Exists(false),
    ensures
        !(r.outcome is Done),
        r.outcome matches Outcome::Next(q) && is_query_request(q),
{
}

/// When the feed answers with exactly the version the marker names, the
/// installer is never invoked: the resolver turns to the existing install
/// and requests no download.
pub proof fn lemma_up_to_date_never_downloads(
    pre: CodebookExtension,
    ev: Event,
    post: CodebookExtension,
    r: StepResult,
)
    requires
        step_spec(pre, ev, post, r),
        match (pre.phase, ev) {
            (Phase::AwaitMarkerCheck { query, .. }, Event::Marker(mr)) => match (query, mr) {
                (Result::Ok(rel), Result::Ok(s)) => crate::text::spec_trim(s@) == rel.version@,
                _ => false,
            },
            _ => false,
        },
    ensures
        r.outcome matches Outcome::Next(q) && !(q is Download),
        post.phase is AwaitExisting,
{
}

/// The existing-install branch performs no network work: a step taken
/// from `AwaitExisting` never requests a download, whatever the event.
pub proof fn lemma_existing_branch_never_downloads(
    pre: CodebookExtension,
    ev: Event,
    post: CodebookExtension,
    r: StepResult,
)
    requires
        step_spec(pre, ev, post, r),
        pre.phase is AwaitExisting,
    ensures
        match r.outcome {
            Outcome::Next(q) => !(q is Download),
            _ => true,
        },
{
}

/// A one-element status list.
fn one_status(s: Status) -> (v: Vec<Status>)
    ensures
        v@.len() == 1,
        v@[0] == s,
{
    let mut v: Vec<Status> = Vec::new();
    v.push(s);
    v
}

/// A two-element status list, emitted in order.
fn two_statuses(s0: Status, s1: Status) -> (v: Vec<Status>)
    ensures
        v@.len() == 2,
        v@[0] == s0,
        v@[1] == s1,
{
    let mut v: Vec<Status> = Vec::new();
    v.push(s0);
    v.push(s1);
    v
}

/// The one query the resolver ever sends: the latest release of the
/// project's repository, with at least one asset, prereleases excluded.
fn query_release_request() -> (q: Request)
    ensures
        is_query_request(q),
{
    Request::QueryRelease {
        repo: "blopker/codebook".to_owned(),
        require_assets: true,
        pre_release: false,
    }
}

} // verus!
