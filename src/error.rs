use vstd::prelude::*;

verus! {

/// Every way the packaging pipeline can fail. Each stage fails fast: the
/// first error aborts the whole run. Besides the failures of the stages,
/// `UnsupportedTarget` reports a target triple for which no engine library
/// or Android ABI exists.
#[derive(Debug, Clone, Copy, PartialEq, Eq, Structural)]
pub enum Error {
    /// The tool was not started as a cargo subcommand.
    NotCalledWithCargo,
    /// The requested packaging format has no packager.
    FormatNotSupported,
    /// No engine version could be determined from any source.
    EngineVersionUnavailable,
    /// The native build failed.
    NativeBuildFailed,
    /// Bundling the UI assets failed.
    BundleBuildFailed,
    /// Producing the ahead-of-time snapshot failed.
    AotBuildFailed,
    /// The metadata or the package model lacks what the format needs.
    PackagingConfigInvalid,
    /// The format's packaging tool reported a failure.
    PackagingToolFailed,
    /// A path that is needed as text is not valid text.
    NonRepresentablePath,
    /// The target triple names a platform that has no engine library.
    UnsupportedTarget,
}

/// The description of each error, as printed for the operator.
pub open spec fn error_text(e: Error) -> Seq<char> {
    match e {
        Error::NotCalledWithCargo => "must be run as a cargo subcommand: `cargo flutter`"@,
        Error::FormatNotSupported => "packaging format not supported"@,
        Error::EngineVersionUnavailable => "no flutter engine version is available"@,
        Error::NativeBuildFailed => "the native build failed"@,
        Error::BundleBuildFailed => "building the flutter bundle failed"@,
        Error::AotBuildFailed => "building the aot snapshot failed"@,
        Error::PackagingConfigInvalid => "the packaging configuration is incomplete"@,
        Error::PackagingToolFailed => "the packaging tool failed"@,
        Error::NonRepresentablePath => "a path is not valid unicode"@,
        Error::UnsupportedTarget => "no flutter engine exists for this target"@,
    }
}

impl Error {
    /// A one-line description of the error, for the operator.
    pub fn message(&self) -> (r: String)
        ensures
            r@ == error_text(*self),
    {
        let s = match self {
            Error::NotCalledWithCargo => "must be run as a cargo subcommand: `cargo flutter`",
            Error::FormatNotSupported => "packaging format not supported",
            Error::EngineVersionUnavailable => "no flutter engine version is available",
            Error::NativeBuildFailed => "the native build failed",
            Error::BundleBuildFailed => "building the flutter bundle failed",
            Error::AotBuildFailed => "building the aot snapshot failed",
            Error::PackagingConfigInvalid => "the packaging configuration is incomplete",
            Error::PackagingToolFailed => "the packaging tool failed",
            Error::NonRepresentablePath => "a path is not valid unicode",
            Error::UnsupportedTarget => "no flutter engine exists for this target",
        };
        String::from_str(s)
    }
}

} // verus!
