use codebook_extension::binary::CodebookBinary;
use codebook_extension::platform::Arch;
use codebook_extension::platform::Os;
use codebook_extension::resolver::CodebookExtension;

#[test]
fn test_codebook_binary_new() {
    let path = String::from("/test/path/binary");
    let binary = CodebookBinary::new(path.clone(), "debug");

    assert_eq!(binary.path, path);
    assert_eq!(binary.env.len(), 1);
    assert_eq!(binary.env[0].0, "RUST_LOG");
    assert_eq!(binary.env[0].1, "debug");
}

#[test]
fn test_codebook_binary_with_info_level() {
    let path = String::from("/usr/bin/codebook");
    let binary = CodebookBinary::new(path.clone(), "info");

    assert_eq!(binary.path, path);
    assert_eq!(binary.env[0], ("RUST_LOG".to_string(), "info".to_string()));
}

#[test]
fn test_get_version_directory_path() {
    let extension = CodebookExtension::new();
    let version = "1.2.3";
    let path = extension.get_version_directory_path(version);

    assert_eq!(path, "codebook-lsp-1.2.3");
}

#[test]
fn test_get_version_directory_path_with_prerelease() {
    let extension = CodebookExtension::new();
    let version = "2.0.0-beta.1";
    let path = extension.get_version_directory_path(version);

    assert_eq!(path, "codebook-lsp-2.0.0-beta.1");
}

#[test]
fn test_windows_arm64_asset_name_includes_exe_variant() {
    let extension = CodebookExtension::new();
    let (name, descriptor) = extension
        .asset_name(Os::Windows, Arch::Aarch64)
        .expect("expected candidates");

    assert_eq!(descriptor, "aarch64-pc-windows-msvc");
    assert_eq!(name, "codebook-lsp-aarch64-pc-windows-msvc.zip");
}

#[test]
fn test_macos_x86_asset_name_does_not_include_exe_variant() {
    let extension = CodebookExtension::new();
    let (name, descriptor) = extension
        .asset_name(Os::Mac, Arch::X8664)
        .expect("expected candidates");

    assert_eq!(descriptor, "x86_64-apple-darwin");
    assert_eq!(name, "codebook-lsp-x86_64-apple-darwin.tar.gz");
}

#[test]
fn test_extension_new() {
    let extension = CodebookExtension::new();
    assert!(extension.binary_cache.is_none());
}

#[test]
fn test_get_cached_binary_no_cache() {
    let extension = CodebookExtension::new();
    let result = extension.get_cached_binary(false);
    assert!(result.is_none());
}

#[test]
fn test_get_cached_binary_with_nonexistent_cache() {
    let mut extension = CodebookExtension::new();
    extension.binary_cache = Some(String::from("/nonexistent/path"));

    let result = extension.get_cached_binary(false);
    assert!(result.is_none());
}
