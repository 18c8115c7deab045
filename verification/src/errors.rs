//! The error taxonomy of the library.

use vstd::prelude::*;

verus! {

/// Every failure the library can report. All are fatal to the invocation
/// that meets them; none is retried.
#[derive(Clone, Copy, Debug, PartialEq, Eq, Structural)]
pub enum CarefulError {
    /// The library source tree could not be located.
    SourceMissing,
    /// An explicitly named source tree lacks the expected entry point.
    SourceNotFound,
    /// The source tree's parent holds no dependency lock file.
    LockfileMissing,
    /// The synthetic sysroot compilation failed.
    BuildFailed,
    /// Artifact materialization into the sysroot failed.
    CopyFailed,
    /// The requested sanitizer is not supported by the target.
    VariantUnsupported,
    /// A toolchain query could not be read.
    ConfigQueryFailed,
    /// The user declined an interactive confirmation.
    UserAborted,
    /// A tool-specific flag was not recognized.
    UnsupportedFlag,
    /// No subcommand, or an unknown one, was given.
    BadSubcommand,
}

} // verus!
