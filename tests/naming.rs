use jj_lsp_installer::error::{InstallStep, FsOp, ResolveError};
use jj_lsp_installer::platform::{
    archive_kind, get_release_asset_name, raw_binary_name, tagged_binary_name, ArchiveKind,
    Architecture, Os,
};
use jj_lsp_installer::release::{find_asset, install_source, ReleaseAsset, ReleaseInfo};

fn release(version: &str, assets: &[(&str, &str)]) -> ReleaseInfo {
    ReleaseInfo {
        version: version.to_string(),
        assets: assets
            .iter()
            .map(|(name, url)| ReleaseAsset { name: name.to_string(), download_url: url.to_string() })
            .collect(),
    }
}

#[test]
fn asset_name_linux_x86_64() {
    assert_eq!(
        get_release_asset_name(Os::Linux, Architecture::X8664),
        Ok("jj-lsp-x86_64-unknown-linux-gnu.tar.gz".to_string())
    );
}

#[test]
fn asset_name_mac_aarch64() {
    assert_eq!(
        get_release_asset_name(Os::Mac, Architecture::Aarch64),
        Ok("jj-lsp-aarch64-apple-darwin.tar.gz".to_string())
    );
}

#[test]
fn asset_name_windows_x86_64() {
    assert_eq!(
        get_release_asset_name(Os::Windows, Architecture::X8664),
        Ok("jj-lsp-x86_64-pc-windows-msvc.zip".to_string())
    );
}

#[test]
fn asset_name_all_supported_pairs_are_stable() {
    for os in [Os::Mac, Os::Linux, Os::Windows] {
        for arch in [Architecture::Aarch64, Architecture::X8664] {
            let first = get_release_asset_name(os, arch).unwrap();
            let second = get_release_asset_name(os, arch).unwrap();
            assert_eq!(first, second);
            assert!(first.starts_with("jj-lsp-"));
        }
    }
}

#[test]
fn asset_name_unsupported_architecture() {
    for os in [Os::Mac, Os::Linux, Os::Windows] {
        assert_eq!(
            get_release_asset_name(os, Architecture::X86),
            Err(ResolveError::UnsupportedArchitecture(Architecture::X86))
        );
    }
}

#[test]
fn binary_names_by_os() {
    assert_eq!(raw_binary_name(Os::Linux), "jj-lsp");
    assert_eq!(raw_binary_name(Os::Mac), "jj-lsp");
    assert_eq!(raw_binary_name(Os::Windows), "jj-lsp.exe");
    assert_eq!(tagged_binary_name("v1.2.0", Os::Linux), "v1.2.0-jj-lsp");
    assert_eq!(tagged_binary_name("v1.2.0", Os::Windows), "v1.2.0-jj-lsp.exe");
}

#[test]
fn archive_kind_by_os() {
    assert_eq!(archive_kind(Os::Linux), ArchiveKind::GzipTar);
    assert_eq!(archive_kind(Os::Mac), ArchiveKind::GzipTar);
    assert_eq!(archive_kind(Os::Windows), ArchiveKind::Zip);
}

#[test]
fn find_asset_takes_first_exact_match() {
    let rel = release(
        "v1",
        &[("jj-lsp-x86_64", "u0"), ("jj-lsp", "u1"), ("jj-lsp", "u2")],
    );
    assert_eq!(find_asset(&rel, &"jj-lsp".to_string()), Some(1));
    assert_eq!(find_asset(&rel, &"jj-ls".to_string()), None);
    assert_eq!(find_asset(&release("v1", &[]), &"jj-lsp".to_string()), None);
}

#[test]
fn install_source_picks_platform_asset() {
    let rel = release(
        "v1.2.0",
        &[
            ("jj-lsp-aarch64-apple-darwin.tar.gz", "https://example.com/mac"),
            ("jj-lsp-x86_64-unknown-linux-gnu.tar.gz", "https://example.com/linux"),
        ],
    );
    assert_eq!(
        install_source(&rel, Os::Linux, Architecture::X8664),
        Ok("https://example.com/linux".to_string())
    );
    assert_eq!(
        install_source(&rel, Os::Mac, Architecture::Aarch64),
        Ok("https://example.com/mac".to_string())
    );
}

#[test]
fn install_source_missing_asset() {
    let rel = release("v1.2.0", &[("jj-lsp-x86_64-unknown-linux-gnu.zip", "u")]);
    assert_eq!(
        install_source(&rel, Os::Linux, Architecture::X8664),
        Err(ResolveError::AssetNotFound("jj-lsp-x86_64-unknown-linux-gnu.tar.gz".to_string()))
    );
}

#[test]
fn install_source_unsupported_architecture() {
    let rel = release("v1.2.0", &[("jj-lsp-x86-unknown-linux-gnu.tar.gz", "u")]);
    assert_eq!(
        install_source(&rel, Os::Linux, Architecture::X86),
        Err(ResolveError::UnsupportedArchitecture(Architecture::X86))
    );
}

#[test]
fn error_messages() {
    assert_eq!(
        ResolveError::UnsupportedArchitecture(Architecture::X86).message(),
        "unsupported architecture: X86"
    );
    assert_eq!(ResolveError::ReleaseLookup("rate limited".to_string()).message(), "rate limited");
    assert_eq!(
        ResolveError::AssetNotFound("a.zip".to_string()).message(),
        "No asset 'a.zip' found in latest GitHub release"
    );
    assert_eq!(
        ResolveError::Filesystem(FsOp::CurrentDir, "gone".to_string()).message(),
        "Failed to get current directory: gone"
    );
    assert_eq!(
        ResolveError::Filesystem(FsOp::ReadDir, "denied".to_string()).message(),
        "Failed to read directory: denied"
    );
    assert_eq!(
        ResolveError::Filesystem(FsOp::ReadEntry, "x".to_string()).message(),
        "Failed to get entry of current directory: x"
    );
    assert_eq!(
        ResolveError::Filesystem(FsOp::RemoveDir, "busy".to_string()).message(),
        "Failed to remove directory: busy"
    );
    assert_eq!(
        ResolveError::Filesystem(FsOp::RemoveFile, "busy".to_string()).message(),
        "Failed to remove file: busy"
    );
    assert_eq!(
        ResolveError::Install(InstallStep::Download, "404".to_string()).message(),
        "failed to download file: 404"
    );
    assert_eq!(
        ResolveError::Install(InstallStep::Rename, "missing".to_string()).message(),
        "Failed to rename lsp binary: missing"
    );
    assert_eq!(
        ResolveError::Install(InstallStep::MakeExecutable, "ro".to_string()).message(),
        "Failed to make lsp binary executable: ro"
    );
}

#[test]
fn duplicate_keeps_error() {
    let e = ResolveError::Install(InstallStep::Rename, "missing".to_string());
    assert_eq!(e.duplicate(), e);
}
