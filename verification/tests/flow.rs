use codebook_extension::error::ResolveError;
use codebook_extension::platform::Arch;
use codebook_extension::platform::Os;
use codebook_extension::release::ReleaseAsset;
use codebook_extension::release::ReleaseDescriptor;
use codebook_extension::resolver::ArchiveKind;
use codebook_extension::resolver::CodebookExtension;
use codebook_extension::resolver::DirEntry;
use codebook_extension::resolver::Event;
use codebook_extension::resolver::Outcome;
use codebook_extension::resolver::Request;
use codebook_extension::resolver::Status;
use codebook_extension::resolver::StepResult;

fn release_123() -> ReleaseDescriptor {
    ReleaseDescriptor {
        version: "1.2.3".to_string(),
        assets: vec![ReleaseAsset {
            name: "codebook-lsp-x86_64-unknown-linux-musl.tar.gz".to_string(),
            download_url: "https://example.com/codebook-lsp.tar.gz".to_string(),
        }],
    }
}

fn expect_next(r: StepResult) -> Request {
    match r.outcome {
        Outcome::Next(q) => q,
        Outcome::Done(b) => panic!("expected another request, resolution finished at {}", b.path),
        Outcome::Fail(e) => panic!("expected another request, resolution failed: {}", e.message()),
    }
}

#[test]
fn development_override_wins_immediately() {
    let mut ext = CodebookExtension::new();
    let req = ext.begin_resolution(Os::Linux, Arch::X8664);
    assert!(matches!(req, Request::ProbeFile(p) if p == "codebook-lsp"));

    let r = ext.step(Event::Exists(true));
    assert!(r.statuses.is_empty());
    match r.outcome {
        Outcome::Done(b) => {
            assert_eq!(b.path, "codebook-lsp");
            assert_eq!(
                b.env,
                vec![
                    ("RUST_LOG".to_string(), "debug".to_string()),
                    ("RUST_BACKTRACE".to_string(), "1".to_string()),
                ]
            );
        }
        _ => panic!("expected the development binary"),
    }
    assert!(ext.binary_cache.is_none());
}

#[test]
fn path_resolved_binary_is_used_as_found() {
    let mut ext = CodebookExtension::new();
    ext.begin_resolution(Os::Mac, Arch::Aarch64);
    let r = ext.step(Event::Exists(false));
    assert!(matches!(r.outcome, Outcome::Next(Request::ProbePath(n)) if n == "codebook-lsp"));

    let r = ext.step(Event::PathLookup(Some("/usr/local/bin/codebook-lsp".to_string())));
    match r.outcome {
        Outcome::Done(b) => {
            assert_eq!(b.path, "/usr/local/bin/codebook-lsp");
            assert_eq!(b.env, vec![("RUST_LOG".to_string(), "info".to_string())]);
        }
        _ => panic!("expected the PATH binary"),
    }
}

#[test]
fn stale_cache_falls_through_to_update_check() {
    let mut ext = CodebookExtension::new();
    ext.binary_cache = Some("codebook-lsp-1.0.0/codebook-lsp".to_string());
    ext.begin_resolution(Os::Linux, Arch::X8664);
    ext.step(Event::Exists(false));
    let r = ext.step(Event::PathLookup(None));
    assert!(matches!(r.outcome, Outcome::Next(Request::ProbeFile(p)) if p == "codebook-lsp-1.0.0/codebook-lsp"));

    // The cached path no longer exists: the stale handle is never returned.
    let r = ext.step(Event::Exists(false));
    assert_eq!(r.statuses.len(), 1);
    assert!(matches!(r.statuses[0], Status::CheckingForUpdate));
    match r.outcome {
        Outcome::Next(Request::QueryRelease { repo, require_assets, pre_release }) => {
            assert_eq!(repo, "blopker/codebook");
            assert!(require_assets);
            assert!(!pre_release);
        }
        _ => panic!("expected the update check, not a stale handle"),
    }
}

#[test]
fn matching_version_never_downloads() {
    let mut ext = CodebookExtension::new();
    ext.begin_resolution(Os::Linux, Arch::X8664);
    ext.step(Event::Exists(false));
    let r = ext.step(Event::PathLookup(None));
    assert!(matches!(r.outcome, Outcome::Next(Request::QueryRelease { .. })));

    let r = ext.step(Event::Query(Ok(release_123())));
    assert!(matches!(r.outcome, Outcome::Next(Request::ReadMarker(p)) if p == ".version"));

    // The marker already names the released version: no download request.
    let r = ext.step(Event::Marker(Ok("1.2.3\n".to_string())));
    assert!(r.statuses.is_empty());
    match &r.outcome {
        Outcome::Next(Request::Download { .. }) => panic!("installer must not be invoked"),
        Outcome::Next(Request::ProbeFile(p)) => {
            assert_eq!(p, "codebook-lsp-1.2.3/codebook-lsp");
        }
        _ => panic!("expected a probe of the existing install"),
    }

    let r = ext.step(Event::Exists(true));
    assert_eq!(r.statuses.len(), 1);
    assert!(matches!(r.statuses[0], Status::Idle));
    match r.outcome {
        Outcome::Done(b) => assert_eq!(b.path, "codebook-lsp-1.2.3/codebook-lsp"),
        _ => panic!("expected the existing binary"),
    }
    assert_eq!(ext.binary_cache.as_deref(), Some("codebook-lsp-1.2.3/codebook-lsp"));
}

#[test]
fn marker_without_binary_is_invalid_state() {
    let mut ext = CodebookExtension::new();
    ext.begin_resolution(Os::Linux, Arch::X8664);
    ext.step(Event::Exists(false));
    ext.step(Event::PathLookup(None));
    // The feed is unreachable, so the existing install is the only hope.
    ext.step(Event::Query(Err("offline".to_string())));
    let r = ext.step(Event::Marker(Ok("9.9.9".to_string())));
    assert!(matches!(r.outcome, Outcome::Next(Request::ProbeFile(p)) if p == "codebook-lsp-9.9.9/codebook-lsp"));

    // The marker's binary is gone: a descriptive error, not an empty handle.
    let r = ext.step(Event::Exists(false));
    match r.outcome {
        Outcome::Fail(ResolveError::InvalidState(m)) => {
            assert_eq!(m, "Binary not found at expected path: codebook-lsp-9.9.9/codebook-lsp");
        }
        _ => panic!("expected InvalidState"),
    }
}

#[test]
fn fresh_install_end_to_end() {
    let mut ext = CodebookExtension::new();
    let req = ext.begin_resolution(Os::Linux, Arch::X8664);
    assert!(matches!(req, Request::ProbeFile(p) if p == "codebook-lsp"));

    ext.step(Event::Exists(false));
    let r = ext.step(Event::PathLookup(None));
    assert_eq!(r.statuses.len(), 1);
    assert!(matches!(r.statuses[0], Status::CheckingForUpdate));

    let r = ext.step(Event::Query(Ok(release_123())));
    assert!(matches!(r.outcome, Outcome::Next(Request::ReadMarker(_))));

    // Fresh environment: no marker yet, so the update is due.
    let r = ext.step(Event::Marker(Err("not found".to_string())));
    assert_eq!(r.statuses.len(), 1);
    assert!(matches!(r.statuses[0], Status::Downloading));
    assert!(matches!(r.outcome, Outcome::Next(Request::ProbeFile(p)) if p == "codebook-lsp-1.2.3/codebook-lsp"));

    let r = ext.step(Event::Exists(false));
    match expect_next(r) {
        Request::Download { url, directory, archive } => {
            assert_eq!(url, "https://example.com/codebook-lsp.tar.gz");
            assert_eq!(directory, "codebook-lsp-1.2.3");
            assert_eq!(archive, ArchiveKind::GzipTar);
        }
        _ => panic!("expected the download"),
    }

    let r = ext.step(Event::Completed(Ok(())));
    assert!(matches!(r.outcome, Outcome::Next(Request::MakeExecutable(p)) if p == "codebook-lsp-1.2.3/codebook-lsp"));

    let r = ext.step(Event::Completed(Ok(())));
    match expect_next(r) {
        Request::WriteMarker { path, contents } => {
            assert_eq!(path, ".version");
            assert_eq!(contents, "1.2.3");
        }
        _ => panic!("expected the marker write"),
    }

    let r = ext.step(Event::Completed(Ok(())));
    assert!(matches!(r.outcome, Outcome::Next(Request::ListWorkDir)));

    let entries = vec![
        DirEntry { name: "codebook-lsp-1.0.0".to_string(), is_dir: true },
        DirEntry { name: "codebook-lsp-1.2.3".to_string(), is_dir: true },
        DirEntry { name: "src".to_string(), is_dir: true },
    ];
    let r = ext.step(Event::Listing(Ok(entries)));
    match expect_next(r) {
        Request::RemoveDirs(ds) => assert_eq!(ds, vec!["codebook-lsp-1.0.0".to_string()]),
        _ => panic!("expected the cleanup"),
    }

    let r = ext.step(Event::Removed);
    assert_eq!(r.statuses.len(), 1);
    assert!(matches!(r.statuses[0], Status::Idle));
    match r.outcome {
        Outcome::Done(b) => {
            assert!(b.path.ends_with("codebook-lsp-1.2.3/codebook-lsp"));
            assert!(b.env.contains(&("RUST_LOG".to_string(), "info".to_string())));
        }
        _ => panic!("expected the installed binary"),
    }
    assert_eq!(ext.binary_cache.as_deref(), Some("codebook-lsp-1.2.3/codebook-lsp"));
}

#[test]
fn failed_download_rolls_back_and_reports() {
    let mut ext = CodebookExtension::new();
    ext.begin_resolution(Os::Mac, Arch::Aarch64);
    ext.step(Event::Exists(false));
    ext.step(Event::PathLookup(None));
    let rel = ReleaseDescriptor {
        version: "1.2.3".to_string(),
        assets: vec![ReleaseAsset {
            name: "codebook-lsp-aarch64-apple-darwin.tar.gz".to_string(),
            download_url: "https://example.com/mac.tar.gz".to_string(),
        }],
    };
    ext.step(Event::Query(Ok(rel)));
    ext.step(Event::Marker(Err("not found".to_string())));
    ext.step(Event::Exists(false));

    // The transport fails mid-download: the partial directory is removed
    // before the error is surfaced.
    let r = ext.step(Event::Completed(Err("timeout".to_string())));
    match expect_next(r) {
        Request::RemoveDirs(ds) => assert_eq!(ds, vec!["codebook-lsp-1.2.3".to_string()]),
        _ => panic!("expected the rollback"),
    }

    let r = ext.step(Event::Removed);
    assert_eq!(r.statuses.len(), 1);
    match &r.statuses[0] {
        Status::Failed(m) => {
            assert_eq!(m, "Failed to install release: Failed to download binary: timeout");
        }
        _ => panic!("expected the Failed status"),
    }
    match r.outcome {
        Outcome::Fail(ResolveError::NetworkFailure(m)) => {
            assert_eq!(m, "Failed to download binary: timeout");
        }
        _ => panic!("expected NetworkFailure"),
    }
    assert!(ext.binary_cache.is_none());
}

#[test]
fn unsupported_architecture_fails_the_update() {
    let mut ext = CodebookExtension::new();
    ext.begin_resolution(Os::Windows, Arch::X86);
    ext.step(Event::Exists(false));
    ext.step(Event::PathLookup(None));
    ext.step(Event::Query(Ok(release_123())));
    let r = ext.step(Event::Marker(Err("not found".to_string())));
    assert_eq!(r.statuses.len(), 2);
    assert!(matches!(r.statuses[0], Status::Downloading));
    match &r.statuses[1] {
        Status::Failed(m) => {
            assert_eq!(m, "Failed to install release: x86 architecture is not supported");
        }
        _ => panic!("expected the Failed status"),
    }
    match r.outcome {
        Outcome::Fail(ResolveError::UnsupportedPlatform(m)) => {
            assert_eq!(m, "x86 architecture is not supported");
        }
        _ => panic!("expected UnsupportedPlatform"),
    }
}

#[test]
fn marker_write_failure_surfaces_without_rollback() {
    let mut ext = CodebookExtension::new();
    ext.begin_resolution(Os::Linux, Arch::X8664);
    ext.step(Event::Exists(false));
    ext.step(Event::PathLookup(None));
    ext.step(Event::Query(Ok(release_123())));
    ext.step(Event::Marker(Err("not found".to_string())));
    ext.step(Event::Exists(false));
    ext.step(Event::Completed(Ok(())));
    ext.step(Event::Completed(Ok(())));

    let r = ext.step(Event::Completed(Err("disk full".to_string())));
    match r.outcome {
        Outcome::Fail(ResolveError::FilesystemFailure(m)) => {
            assert_eq!(m, "Failed to write version file: disk full");
        }
        _ => panic!("expected FilesystemFailure"),
    }
}

#[test]
fn listing_failure_is_downgraded_to_a_warning() {
    let mut ext = CodebookExtension::new();
    ext.begin_resolution(Os::Linux, Arch::X8664);
    ext.step(Event::Exists(false));
    ext.step(Event::PathLookup(None));
    ext.step(Event::Query(Ok(release_123())));
    ext.step(Event::Marker(Err("not found".to_string())));
    ext.step(Event::Exists(false));
    ext.step(Event::Completed(Ok(())));
    ext.step(Event::Completed(Ok(())));
    ext.step(Event::Completed(Ok(())));

    // Cleanup is best effort: a listing failure never fails the install.
    let r = ext.step(Event::Listing(Err("permission denied".to_string())));
    match r.outcome {
        Outcome::Done(b) => assert_eq!(b.path, "codebook-lsp-1.2.3/codebook-lsp"),
        _ => panic!("expected the installed binary"),
    }
}

#[test]
fn already_installed_release_skips_network_work() {
    let mut ext = CodebookExtension::new();
    ext.begin_resolution(Os::Linux, Arch::X8664);
    ext.step(Event::Exists(false));
    ext.step(Event::PathLookup(None));
    ext.step(Event::Query(Ok(release_123())));
    ext.step(Event::Marker(Ok("1.0.0".to_string())));

    // The versioned binary is already on disk from an earlier partial run.
    let r = ext.step(Event::Exists(true));
    match r.outcome {
        Outcome::Done(b) => assert_eq!(b.path, "codebook-lsp-1.2.3/codebook-lsp"),
        _ => panic!("expected the already-installed binary"),
    }
    assert_eq!(ext.binary_cache.as_deref(), Some("codebook-lsp-1.2.3/codebook-lsp"));
}

#[test]
fn cached_binary_is_reused_while_it_exists() {
    let mut ext = CodebookExtension::new();
    ext.binary_cache = Some("codebook-lsp-1.2.3/codebook-lsp".to_string());
    ext.begin_resolution(Os::Linux, Arch::X8664);
    ext.step(Event::Exists(false));
    let r = ext.step(Event::PathLookup(None));
    assert!(matches!(r.outcome, Outcome::Next(Request::ProbeFile(p)) if p == "codebook-lsp-1.2.3/codebook-lsp"));

    let r = ext.step(Event::Exists(true));
    assert!(r.statuses.is_empty());
    match r.outcome {
        Outcome::Done(b) => {
            assert_eq!(b.path, "codebook-lsp-1.2.3/codebook-lsp");
            assert_eq!(b.env, vec![("RUST_LOG".to_string(), "info".to_string())]);
        }
        _ => panic!("expected the cached binary"),
    }
}

#[test]
fn failed_make_executable_rolls_back() {
    let mut ext = CodebookExtension::new();
    ext.begin_resolution(Os::Linux, Arch::X8664);
    ext.step(Event::Exists(false));
    ext.step(Event::PathLookup(None));
    ext.step(Event::Query(Ok(release_123())));
    ext.step(Event::Marker(Err("not found".to_string())));
    ext.step(Event::Exists(false));
    ext.step(Event::Completed(Ok(())));

    let r = ext.step(Event::Completed(Err("permission denied".to_string())));
    match expect_next(r) {
        Request::RemoveDirs(ds) => assert_eq!(ds, vec!["codebook-lsp-1.2.3".to_string()]),
        _ => panic!("expected the rollback"),
    }
    let r = ext.step(Event::Removed);
    match r.outcome {
        Outcome::Fail(ResolveError::FilesystemFailure(m)) => {
            assert_eq!(m, "Failed to make binary executable: permission denied");
        }
        _ => panic!("expected FilesystemFailure"),
    }
}

#[test]
fn windows_install_uses_exe_name_and_zip() {
    let mut ext = CodebookExtension::new();
    ext.begin_resolution(Os::Windows, Arch::Aarch64);
    ext.step(Event::Exists(false));
    ext.step(Event::PathLookup(None));
    let rel = ReleaseDescriptor {
        version: "1.2.3".to_string(),
        assets: vec![ReleaseAsset {
            name: "codebook-lsp-aarch64-pc-windows-msvc.zip".to_string(),
            download_url: "https://example.com/win.zip".to_string(),
        }],
    };
    ext.step(Event::Query(Ok(rel)));
    let r = ext.step(Event::Marker(Err("not found".to_string())));
    assert!(matches!(r.outcome, Outcome::Next(Request::ProbeFile(p)) if p == "codebook-lsp-1.2.3/codebook-lsp.exe"));

    let r = ext.step(Event::Exists(false));
    match expect_next(r) {
        Request::Download { url, directory, archive } => {
            assert_eq!(url, "https://example.com/win.zip");
            assert_eq!(directory, "codebook-lsp-1.2.3");
            assert_eq!(archive, ArchiveKind::Zip);
        }
        _ => panic!("expected the download"),
    }
}

#[test]
fn unexpected_event_is_rejected() {
    let mut ext = CodebookExtension::new();
    ext.begin_resolution(Os::Linux, Arch::X8664);
    let r = ext.step(Event::Removed);
    match r.outcome {
        Outcome::Fail(ResolveError::InvalidState(m)) => {
            assert_eq!(m, "Resolver got an event it was not waiting for");
        }
        _ => panic!("expected InvalidState"),
    }
}
