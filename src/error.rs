//! Failures of a resolution attempt, and their rendering for the host.
use crate::platform::Architecture;
use vstd::prelude::*;
use vstd::string::*;

verus! {

/// Filesystem operation on the cache directory.
#[derive(Clone, Copy, Debug, PartialEq, Eq, Structural)]
pub enum FsOp {
    CurrentDir,
    ReadDir,
    ReadEntry,
    RemoveDir,
    RemoveFile,
}

/// Step of installing a downloaded release.
#[derive(Clone, Copy, Debug, PartialEq, Eq, Structural)]
pub enum InstallStep {
    Download,
    Rename,
    MakeExecutable,
}

/// Why resolving the executable failed. Each variant keeps the host's own
/// message where there is one.
#[derive(Clone, Debug, PartialEq, Eq)]
pub enum ResolveError {
    UnsupportedArchitecture(Architecture),
    ReleaseLookup(String),
    AssetNotFound(String),
    Filesystem(FsOp, String),
    Install(InstallStep, String),
}

/// Mathematical model of [`ResolveError`].
/// Mathematical model of a [`ResolveError`].
pub enum ErrorView {
    UnsupportedArchitecture(Architecture),
    ReleaseLookup(Seq<char>),
    AssetNotFound(Seq<char>),
    Filesystem(FsOp, Seq<char>),
    Install(InstallStep, Seq<char>),
}

impl View for ResolveError {
    type V = ErrorView;

    open spec fn view(&self) -> ErrorView {
        match self {
            ResolveError::UnsupportedArchitecture(a) => ErrorView::UnsupportedArchitecture(*a),
            ResolveError::ReleaseLookup(d) => ErrorView::ReleaseLookup(d@),
            ResolveError::AssetNotFound(n) => ErrorView::AssetNotFound(n@),
            ResolveError::Filesystem(op, d) => ErrorView::Filesystem(*op, d@),
            ResolveError::Install(step, d) => ErrorView::Install(*step, d@),
        }
    }
}

/// How an architecture is named in messages.
pub open spec fn arch_debug_name(arch: Architecture) -> Seq<char> {
    match arch {
        Architecture::Aarch64 => "Aarch64"@,
        Architecture::X86 => "X86"@,
        Architecture::X8664 => "X8664"@,
    }
}

/// Message prefix of a failed filesystem operation.
pub open spec fn fs_op_prefix(op: FsOp) -> Seq<char> {
    match op {
        FsOp::CurrentDir => "Failed to get current directory: "@,
        FsOp::ReadDir => "Failed to read directory: "@,
        FsOp::ReadEntry => "Failed to get entry of current directory: "@,
        FsOp::RemoveDir => "Failed to remove directory: "@,
        FsOp::RemoveFile => "Failed to remove file: "@,
    }
}

/// Message prefix of a failed installation step.
pub open spec fn install_step_prefix(step: InstallStep) -> Seq<char> {
    match step {
        InstallStep::Download => "failed to download file: "@,
        InstallStep::Rename => "Failed to rename lsp binary: "@,
        InstallStep::MakeExecutable => "Failed to make lsp binary executable: "@,
    }
}

/// Human-readable text of an error, as shown to the user.
pub open spec fn message_spec(e: ErrorView) -> Seq<char> {
    match e {
        ErrorView::UnsupportedArchitecture(a) => "unsupported architecture: "@ + arch_debug_name(a),
        ErrorView::ReleaseLookup(d) => d,
        ErrorView::AssetNotFound(n) => "No asset '"@ + n + "' found in latest GitHub release"@,
        ErrorView::Filesystem(op, d) => fs_op_prefix(op) + d,
        ErrorView::Install(step, d) => install_step_prefix(step) + d,
    }
}

/// Model of the outcome of a resolution attempt: a path or an error.
pub open spec fn outcome_view(r: Result<String, ResolveError>) -> Result<Seq<char>, ErrorView> {
    match r {
        Ok(p) => Ok(p@),
        Err(e) => Err(e@),
    }
}

impl ResolveError {
    /// A copy of this error.
    pub fn duplicate(&self) -> (r: ResolveError)
        ensures
            r@ == self@,
    {
        match self {
            ResolveError::UnsupportedArchitecture(a) => ResolveError::UnsupportedArchitecture(*a),
            ResolveError::ReleaseLookup(d) => ResolveError::ReleaseLookup(d.clone()),
            ResolveError::AssetNotFound(n) => ResolveError::AssetNotFound(n.clone()),
            ResolveError::Filesystem(op, d) => ResolveError::Filesystem(*op, d.clone()),
            ResolveError::Install(step, d) => ResolveError::Install(*step, d.clone()),
        }
    }

    /// Renders the error as the single message handed to the host.
    pub fn message(&self) -> (r: String)
        ensures
            r@ == message_spec(self@),
    {
        match self {
            ResolveError::UnsupportedArchitecture(a) => {
                let mut m = String::from_str("unsupported architecture: ");
                let name: &str = match a {
                    Architecture::Aarch64 => "Aarch64",
                    Architecture::X86 => "X86",
                    Architecture::X8664 => "X8664",
                };
                m.append(name);
                m
            },
            ResolveError::ReleaseLookup(d) => d.clone(),
            ResolveError::AssetNotFound(n) => {
                let mut m = String::from_str("No asset '");
                m.append(n.as_str());
                m.append("' found in latest GitHub release");
                m
            },
            ResolveError::Filesystem(op, d) => {
                let prefix: &str = match op {
                    FsOp::CurrentDir => "Failed to get current directory: ",
                    FsOp::ReadDir => "Failed to read directory: ",
                    FsOp::ReadEntry => "Failed to get entry of current directory: ",
                    FsOp::RemoveDir => "Failed to remove directory: ",
                    FsOp::RemoveFile => "Failed to remove file: ",
                };
                let mut m = String::from_str(prefix);
                m.append(d.as_str());
                m
            },
            ResolveError::Install(step, d) => {
                let prefix: &str = match step {
                    InstallStep::Download => "failed to download file: ",
                    InstallStep::Rename => "Failed to rename lsp binary: ",
                    InstallStep::MakeExecutable => "Failed to make lsp binary executable: ",
                };
                let mut m = String::from_str(prefix);
                m.append(d.as_str());
                m
            },
        }
    }
}

} // verus!
