//! Verified core of a cargo wrapper that builds and caches an instrumented
//! standard-library sysroot and delegates the real build to cargo.
//!
//! The library holds the logic: argument analysis, instrumentation-flag
//! assembly, the sysroot cache-key and marker protocol, the synthetic build
//! project, and the interpretation of toolchain queries. Process invocation
//! and file-system work live outside the library and drive it with plain
//! values.

mod errors;

pub mod args;
pub mod hash;
pub mod interact;
pub mod invocation;
pub mod numenc;
pub mod project;
pub mod rustflags;
pub mod sanitizer;
pub mod strutil;
pub mod sysroot;

pub use errors::CarefulError;
