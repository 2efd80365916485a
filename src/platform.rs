//! Maps a host platform onto the naming conventions of upstream releases.
use crate::error::{ErrorView, ResolveError};
use vstd::prelude::*;
use vstd::string::*;

verus! {

/// Name of the language-server executable, both on the system path and in
/// release archives (without the Windows `.exe` suffix).
pub const LSP_BINARY: &'static str = "jj-lsp";

/// Host operating system.
#[derive(Clone, Copy, Debug, PartialEq, Eq, Structural)]
pub enum Os {
    Mac,
    Linux,
    Windows,
}

/// Host CPU architecture.
#[derive(Clone, Copy, Debug, PartialEq, Eq, Structural)]
pub enum Architecture {
    Aarch64,
    X86,
    X8664,
}

/// Archive format of a release asset.
#[derive(Clone, Copy, Debug, PartialEq, Eq, Structural)]
pub enum ArchiveKind {
    GzipTar,
    Zip,
}

/// Architectures for which releases publish a binary.
pub open spec fn arch_supported(arch: Architecture) -> bool {
    arch != Architecture::X86
}

/// Architecture label used in asset names.
pub open spec fn arch_label(arch: Architecture) -> Seq<char> {
    match arch {
        Architecture::Aarch64 => "aarch64"@,
        Architecture::X8664 => "x86_64"@,
        Architecture::X86 => Seq::empty(),
    }
}

/// Target-triple suffix used in asset names.
pub open spec fn os_triple(os: Os) -> Seq<char> {
    match os {
        Os::Mac => "apple-darwin"@,
        Os::Linux => "unknown-linux-gnu"@,
        Os::Windows => "pc-windows-msvc"@,
    }
}

/// File extension of the release archive.
pub open spec fn archive_extension(os: Os) -> Seq<char> {
    match os {
        Os::Windows => "zip"@,
        Os::Mac | Os::Linux => "tar.gz"@,
    }
}

/// `<binary>-<arch>-<triple>.<extension>`
pub open spec fn asset_name_spec(os: Os, arch: Architecture) -> Seq<char> {
    LSP_BINARY@ + "-"@ + arch_label(arch) + "-"@ + os_triple(os) + "."@ + archive_extension(os)
}

/// Archive format by operating system.
pub open spec fn archive_kind_spec(os: Os) -> ArchiveKind {
    match os {
        Os::Windows => ArchiveKind::Zip,
        Os::Mac | Os::Linux => ArchiveKind::GzipTar,
    }
}

/// Name of the executable that extracting the archive yields.
pub open spec fn raw_binary_name_spec(os: Os) -> Seq<char> {
    match os {
        Os::Windows => LSP_BINARY@ + ".exe"@,
        Os::Mac | Os::Linux => LSP_BINARY@,
    }
}

/// Name under which a release's executable is kept in the cache.
pub open spec fn tagged_name_spec(version: Seq<char>, os: Os) -> Seq<char> {
    version + "-"@ + raw_binary_name_spec(os)
}

/// Name of the release asset built for `os` and `arch`; fails with
/// `UnsupportedArchitecture` for an architecture that upstream does not build for.
pub fn get_release_asset_name(os: Os, arch: Architecture) -> (r: Result<String, ResolveError>)
    ensures
        r is Ok <==> arch_supported(arch),
        r matches Ok(n) ==> n@ == asset_name_spec(os, arch),
        r matches Err(e) ==> e@ == ErrorView::UnsupportedArchitecture(arch),
{
    let label: &str = match arch {
        Architecture::Aarch64 => "aarch64",
        Architecture::X8664 => "x86_64",
        Architecture::X86 => {
            return Err(ResolveError::UnsupportedArchitecture(arch));
        },
    };
    let triple: &str = match os {
        Os::Mac => "apple-darwin",
        Os::Linux => "unknown-linux-gnu",
        Os::Windows => "pc-windows-msvc",
    };
    let extension: &str = match os {
        Os::Mac | Os::Linux => "tar.gz",
        Os::Windows => "zip",
    };
    let mut name = String::from_str(LSP_BINARY);
    name.append("-");
    name.append(label);
    name.append("-");
    name.append(triple);
    name.append(".");
    name.append(extension);
    Ok(name)
}

/// Archive format of the asset for `os`.
pub fn archive_kind(os: Os) -> (r: ArchiveKind)
    ensures
        r == archive_kind_spec(os),
{
    match os {
        Os::Mac | Os::Linux => ArchiveKind::GzipTar,
        Os::Windows => ArchiveKind::Zip,
    }
}

/// Name of the executable that the release archive holds on `os`.
pub fn raw_binary_name(os: Os) -> (r: String)
    ensures
        r@ == raw_binary_name_spec(os),
{
    let mut name = String::from_str(LSP_BINARY);
    if let Os::Windows = os {
        name.append(".exe");
    }
    name
}

/// Version-tagged cache name `"{version}-{raw name}"`.
pub fn tagged_binary_name(version: &str, os: Os) -> (r: String)
    ensures
        r@ == tagged_name_spec(version@, os),
{
    let raw = raw_binary_name(os);
    let mut name = String::from_str(version);
    name.append("-");
    name.append(raw.as_str());
    name
}

} // verus!
