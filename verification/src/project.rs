//! The synthetic build project: the manifest that makes the standard library
//! buildable as an ordinary dependency, the paths and arguments of its
//! compilation, and the plan that materializes its artifacts into the
//! sysroot.

use vstd::prelude::*;
use vstd::string::*;

use crate::errors::CarefulError;
use crate::rustflags::{encode_flags, spec_encode_flags};
use crate::strutil::{
    concat_str, parent_dir, path_join, quote_path, spec_parent_dir, spec_path_join, spec_quoted,
};
use crate::sysroot::BuildMode;

verus! {

/// The text before the first path of the synthetic manifest.
pub open spec fn manifest_head() -> Seq<char> {
    "[package]\nauthors = [\"The Rust Project Developers\"]\nname = \"sysroot\"\nversion = \"0.0.0\"\n\n[lib]\npath = \"lib.rs\"\n\n[dependencies.std]\nfeatures = [\"panic_unwind\", \"backtrace\"]\npath = "@
}

/// The text between the standard-library path and the test-support path.
pub open spec fn manifest_test_dep() -> Seq<char> {
    "\n[dependencies.test]\npath = "@
}

/// The text introducing the first workspace-internal redirection.
pub open spec fn manifest_patch_core() -> Seq<char> {
    "\n\n[patch.crates-io.rustc-std-workspace-core]\npath = "@
}

/// The text introducing the second workspace-internal redirection.
pub open spec fn manifest_patch_alloc() -> Seq<char> {
    "\n[patch.crates-io.rustc-std-workspace-alloc]\npath = "@
}

/// The text introducing the third workspace-internal redirection.
pub open spec fn manifest_patch_std() -> Seq<char> {
    "\n[patch.crates-io.rustc-std-workspace-std]\npath = "@
}

/// The whole synthetic manifest: the library crates as path dependencies
/// into the source tree, and the workspace-internal crates redirected to the
/// same tree so that resolution never pulls published counterparts.
pub open spec fn spec_manifest(src_dir: Seq<char>) -> Seq<char> {
    manifest_head() + spec_quoted(spec_path_join(src_dir, "std"@)) + manifest_test_dep()
        + spec_quoted(spec_path_join(src_dir, "test"@)) + manifest_patch_core() + spec_quoted(
        spec_path_join(src_dir, "rustc-std-workspace-core"@),
    ) + manifest_patch_alloc() + spec_quoted(spec_path_join(src_dir, "rustc-std-workspace-alloc"@))
        + manifest_patch_std() + spec_quoted(spec_path_join(src_dir, "rustc-std-workspace-std"@))
        + "\n"@
}

/// Renders the synthetic manifest for a source tree.
pub fn manifest_contents(src_dir: &str) -> (r: String)
    ensures
        r@ == spec_manifest(src_dir@),
{
    let mut r =
        "[package]\nauthors = [\"The Rust Project Developers\"]\nname = \"sysroot\"\nversion = \"0.0.0\"\n\n[lib]\npath = \"lib.rs\"\n\n[dependencies.std]\nfeatures = [\"panic_unwind\", \"backtrace\"]\npath = ".to_owned();
    let std_path = path_join(src_dir, "std");
    let q = quote_path(std_path.as_str());
    r.append(q.as_str());
    r.append("\n[dependencies.test]\npath = ");
    let test_path = path_join(src_dir, "test");
    let q = quote_path(test_path.as_str());
    r.append(q.as_str());
    r.append("\n\n[patch.crates-io.rustc-std-workspace-core]\npath = ");
    let core_path = path_join(src_dir, "rustc-std-workspace-core");
    let q = quote_path(core_path.as_str());
    r.append(q.as_str());
    r.append("\n[patch.crates-io.rustc-std-workspace-alloc]\npath = ");
    let alloc_path = path_join(src_dir, "rustc-std-workspace-alloc");
    let q = quote_path(alloc_path.as_str());
    r.append(q.as_str());
    r.append("\n[patch.crates-io.rustc-std-workspace-std]\npath = ");
    let std2_path = path_join(src_dir, "rustc-std-workspace-std");
    let q = quote_path(std2_path.as_str());
    r.append(q.as_str());
    r.append("\n");
    assert(r@ =~= spec_manifest(src_dir@));
    r
}

/// The lock file the synthetic project inherits: the one beside the source
/// tree, in its parent directory. A source tree without a parent has no lock
/// file to inherit.
pub fn lock_source_path(src_dir: &str) -> (r: Result<String, CarefulError>)
    ensures
        ({
            match spec_parent_dir(src_dir@) {
                Some(p) => r matches Ok(l) && l@ == spec_path_join(p, "Cargo.lock"@),
                None => r == Err::<String, CarefulError>(CarefulError::LockfileMissing),
            }
        }),
{
    match parent_dir(src_dir) {
        Some(p) => Ok(path_join(p.as_str(), "Cargo.lock")),
        None => Err(CarefulError::LockfileMissing),
    }
}

/// The word the build tool is invoked with for a build mode.
pub open spec fn spec_mode_word(mode: BuildMode) -> Seq<char> {
    match mode {
        BuildMode::Build => "build"@,
        BuildMode::Check => "check"@,
    }
}

/// The arguments of the synthetic compilation: the mode word, a release
/// build, the synthetic manifest, and the requested target.
pub open spec fn spec_build_cargo_args(
    mode: BuildMode,
    manifest_path: Seq<char>,
    target: Seq<char>,
) -> Seq<Seq<char>> {
    seq![spec_mode_word(mode), "--release"@, "--manifest-path"@, manifest_path, "--target"@, target]
}

/// Assembles the arguments of the synthetic compilation.
pub fn build_cargo_args(mode: BuildMode, manifest_path: &str, target: &str) -> (r: Vec<String>)
    ensures
        r.deep_view() == spec_build_cargo_args(mode, manifest_path@, target@),
{
    let mut r: Vec<String> = Vec::new();
    match mode {
        BuildMode::Build => r.push("build".to_owned()),
        BuildMode::Check => r.push("check".to_owned()),
    }
    r.push("--release".to_owned());
    r.push("--manifest-path".to_owned());
    r.push(manifest_path.to_owned());
    r.push("--target".to_owned());
    r.push(target.to_owned());
    assert(r.deep_view() =~= spec_build_cargo_args(mode, manifest_path@, target@));
    r
}

/// The environment of the synthetic compilation: its own isolated output
/// directory, never the ambient one; a metadata tag that keeps its artifact
/// hashes apart from an ordinary build of the same library; and the encoded
/// instrumentation flags for the compiler.
pub open spec fn spec_build_env(
    build_dir: Seq<char>,
    flags: Seq<Seq<char>>,
) -> Seq<(Seq<char>, Seq<char>)> {
    seq![
        ("CARGO_TARGET_DIR"@, spec_path_join(build_dir, "target"@)),
        ("__CARGO_DEFAULT_LIB_METADATA"@, "cargo-careful"@),
        ("CARGO_ENCODED_RUSTFLAGS"@, spec_encode_flags(flags)),
    ]
}

/// Assembles the environment of the synthetic compilation.
pub fn build_env(build_dir: &str, flags: &Vec<String>) -> (r: Vec<(String, String)>)
    ensures
        r.deep_view() == spec_build_env(build_dir@, flags.deep_view()),
{
    let mut r: Vec<(String, String)> = Vec::new();
    r.push(("CARGO_TARGET_DIR".to_owned(), path_join(build_dir, "target")));
    r.push(("__CARGO_DEFAULT_LIB_METADATA".to_owned(), "cargo-careful".to_owned()));
    r.push(("CARGO_ENCODED_RUSTFLAGS".to_owned(), encode_flags(flags)));
    assert(r.deep_view() =~= spec_build_env(build_dir@, flags.deep_view()));
    r
}

/// Where the synthetic compilation leaves the library artifacts.
pub open spec fn spec_build_out_dir(build_dir: Seq<char>, target: Seq<char>) -> Seq<char> {
    build_dir + "/target/"@ + target + "/release/deps"@
}

/// The directory the synthetic compilation leaves the library artifacts in.
pub fn build_out_dir(build_dir: &str, target: &str) -> (r: String)
    ensures
        r@ == spec_build_out_dir(build_dir@, target@),
{
    let mut r = concat_str(build_dir, "/target/");
    r.append(target);
    r.append("/release/deps");
    assert(r@ =~= spec_build_out_dir(build_dir@, target@));
    r
}

/// The artifact directory inside a sysroot's target directory.
pub fn artifact_dst_dir(target_dir: &str) -> (r: String)
    ensures
        r@ == spec_path_join(target_dir@, "lib"@),
{
    path_join(target_dir, "lib")
}

/// One entry of the build tool's output directory, as plain values.
pub struct DirEntryInfo {
    /// The entry's file name.
    pub name: String,
    /// Whether the entry is a regular file.
    pub is_file: bool,
}

/// One file copy of the materialization: source and destination path.
pub struct CopyPair {
    pub src: String,
    pub dst: String,
}

/// The materialization plan: every entry of the output directory is copied
/// under its own name into the artifact directory; a subdirectory in the
/// output violates the layout and fails the copy.
pub fn artifact_copy_plan(out_dir: &str, dst_dir: &str, entries: &Vec<DirEntryInfo>) -> (r: Result<
    Vec<CopyPair>,
    CarefulError,
>)
    ensures
        ({
            match r {
                Ok(pairs) => (forall|i: int|
                    0 <= i < entries.len() ==> (#[trigger] entries[i]).is_file) && pairs.len()
                    == entries.len() && (forall|i: int|
                    0 <= i < entries.len() ==> (#[trigger] pairs[i]).src@ == spec_path_join(
                        out_dir@,
                        entries[i].name@,
                    ) && pairs[i].dst@ == spec_path_join(dst_dir@, entries[i].name@)),
                Err(e) => e == CarefulError::CopyFailed && (exists|i: int|
                    0 <= i < entries.len() && !(#[trigger] entries[i]).is_file),
            }
        }),
{
    let mut pairs: Vec<CopyPair> = Vec::new();
    let mut i: usize = 0;
    while i < entries.len()
        invariant
            i <= entries.len(),
            pairs.len() == i,
            forall|j: int| 0 <= j < i ==> (#[trigger] entries[j]).is_file,
            forall|j: int|
                0 <= j < i ==> (#[trigger] pairs[j]).src@ == spec_path_join(
                    out_dir@,
                    entries[j].name@,
                ) && pairs[j].dst@ == spec_path_join(dst_dir@, entries[j].name@),
        decreases entries.len() - i,
    {
        if !entries[i].is_file {
            return Err(CarefulError::CopyFailed);
        }
        let src = path_join(out_dir, entries[i].name.as_str());
        let dst = path_join(dst_dir, entries[i].name.as_str());
        pairs.push(CopyPair { src, dst });
        i += 1;
    }
    Ok(pairs)
}

/// The name of the sanitizer runtime library the Darwin post-step copies.
pub open spec fn asan_runtime_name() -> Seq<char> {
    "librustc-nightly_rt.asan.dylib"@
}

/// The source and destination of the Darwin sanitizer-runtime copy, from the
/// toolchain's library-directory answer and the sysroot's artifact
/// directory.
pub fn asan_runtime_paths(target_libdir: &str, dst_lib_dir: &str) -> (r: (String, String))
    ensures
        r.0@ == spec_path_join(target_libdir@, asan_runtime_name()),
        r.1@ == spec_path_join(dst_lib_dir@, asan_runtime_name()),
{
    let src = path_join(target_libdir, "librustc-nightly_rt.asan.dylib");
    let dst = path_join(dst_lib_dir, "librustc-nightly_rt.asan.dylib");
    (src, dst)
}

} // verus!
