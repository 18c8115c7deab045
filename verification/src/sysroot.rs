//! The sysroot cache: where a variant's sysroot lives, the marker file that
//! records the key of the artifacts on disk, and the rebuild-or-reuse
//! protocol with its laws.

use vstd::prelude::*;
use vstd::string::*;

use crate::errors::CarefulError;
use crate::numenc::{
    encode_u64, lemma_parse_encode_round_trip, parse_u64, spec_encode_u64, spec_parse_u64,
};
use crate::strutil::{
    concat_str, contains_substr, path_join, spec_contains_substr, spec_path_join, spec_trim,
    trim_str,
};

verus! {

/// How the synthetic project is compiled: a full build, or a check-only
/// build suited only for check-only use of the result.
#[derive(Clone, Copy, Debug, PartialEq, Eq, Structural)]
pub enum BuildMode {
    Build,
    Check,
}

/// The spec-level shape of a sysroot: its directory and its target triple.
pub ghost struct SysrootView {
    pub sysroot_dir: Seq<char>,
    pub target: Seq<char>,
}

/// One sysroot on disk: the directory it is rooted at and the target triple
/// its artifacts are built for.
pub struct Sysroot {
    sysroot_dir: String,
    target: String,
}

impl View for Sysroot {
    type V = SysrootView;

    closed spec fn view(&self) -> SysrootView {
        SysrootView { sysroot_dir: self.sysroot_dir@, target: self.target@ }
    }
}

/// The target-specific directory inside a sysroot.
pub open spec fn spec_target_dir(v: SysrootView) -> Seq<char> {
    v.sysroot_dir + "/lib/rustlib/"@ + v.target
}

/// The marker file that records the key of the artifacts on disk.
pub open spec fn spec_hash_file(v: SysrootView) -> Seq<char> {
    spec_target_dir(v) + "/"@ + ".cargo-careful-hash"@
}

impl Sysroot {
    /// A sysroot rooted at `sysroot_dir` for `target`.
    pub fn new(sysroot_dir: &str, target: &str) -> (r: Self)
        ensures
            r@.sysroot_dir == sysroot_dir@,
            r@.target == target@,
    {
        Sysroot { sysroot_dir: sysroot_dir.to_owned(), target: target.to_owned() }
    }

    /// The target-specific directory inside this sysroot.
    pub fn target_dir(&self) -> (r: String)
        ensures
            r@ == spec_target_dir(self@),
    {
        let mid = concat_str(self.sysroot_dir.as_str(), "/lib/rustlib/");
        concat_str(mid.as_str(), self.target.as_str())
    }

    /// The path of this sysroot's marker file.
    pub fn hash_file(&self) -> (r: String)
        ensures
            r@ == spec_hash_file(self@),
    {
        let td = self.target_dir();
        path_join(td.as_str(), ".cargo-careful-hash")
    }
}

/// The directory a variant's sysroot lives in: the cache root itself for the
/// baseline variant, a subdirectory named after the variant otherwise, so
/// that variants never share artifacts.
pub open spec fn spec_sysroot_dir_for(cache_root: Seq<char>, variant: Option<Seq<char>>) -> Seq<
    char,
> {
    match variant {
        Some(v) => spec_path_join(cache_root, v),
        None => cache_root,
    }
}

/// Chooses the directory a variant's sysroot lives in.
pub fn sysroot_dir_for(cache_root: &str, variant: Option<&String>) -> (r: String)
    ensures
        r@ == spec_sysroot_dir_for(cache_root@, variant.deep_view()),
{
    match variant {
        Some(v) => path_join(cache_root, v.as_str()),
        None => cache_root.to_owned(),
    }
}

/// Distinct variants live in distinct directories: the baseline never shares
/// a directory with a named variant, and two differently named variants
/// never share one.
pub proof fn lemma_variant_dirs_distinct(
    cache_root: Seq<char>,
    v1: Option<Seq<char>>,
    v2: Option<Seq<char>>,
)
    requires
        v1 != v2,
    ensures
        spec_sysroot_dir_for(cache_root, v1) != spec_sysroot_dir_for(cache_root, v2),
{
    reveal_strlit("/");
    let d1 = spec_sysroot_dir_for(cache_root, v1);
    let d2 = spec_sysroot_dir_for(cache_root, v2);
    match (v1, v2) {
        (Some(a), Some(b)) => {
            if d1 == d2 {
                assert(a.len() == b.len());
                assert forall|i: int| 0 <= i < a.len() implies a[i] == b[i] by {
                    assert(d1[cache_root.len() + 1 + i] == a[i]);
                    assert(d2[cache_root.len() + 1 + i] == b[i]);
                }
                assert(a =~= b);
            }
        },
        (Some(a), None) => {
            assert(d1.len() == cache_root.len() + 1 + a.len());
        },
        (None, Some(b)) => {
            assert(d2.len() == cache_root.len() + 1 + b.len());
        },
        (None, None) => {},
    }
}

/// A marker text is fresh for a key exactly when it parses back to that key.
pub open spec fn spec_is_fresh(marker: Option<Seq<char>>, key: u64) -> bool {
    match marker {
        Some(t) => spec_parse_u64(t) == Some(key),
        None => false,
    }
}

/// Decides from the marker text whether the sysroot on disk was built for
/// `key`; a missing or unreadable marker is stale, never an error.
pub fn is_fresh(marker: Option<&String>, key: u64) -> (r: bool)
    ensures
        r == spec_is_fresh(marker.deep_view(), key),
{
    match marker {
        Some(t) => {
            match parse_u64(t.as_str()) {
                Some(k) => k == key,
                None => false,
            }
        },
        None => false,
    }
}

/// The text the marker file records for `key`.
pub fn marker_contents(key: u64) -> (r: String)
    ensures
        r@ == spec_encode_u64(key as nat),
{
    encode_u64(key)
}

/// Concludes one build attempt: a successful compilation yields the marker
/// text to record; a failed one is a build error and records nothing.
pub fn conclude_build(key: u64, compile_ok: bool) -> (r: Result<String, CarefulError>)
    ensures
        compile_ok ==> (r matches Ok(m) && m@ == spec_encode_u64(key as nat)),
        !compile_ok ==> r == Err::<String, CarefulError>(CarefulError::BuildFailed),
{
    if compile_ok {
        Ok(encode_u64(key))
    } else {
        Err(CarefulError::BuildFailed)
    }
}

/// What one invocation of the sysroot step does to the cache.
pub ghost struct CacheStepSpec {
    /// Whether the expensive compilation ran.
    pub compiled: bool,
    /// The marker text on disk afterwards.
    pub marker_after: Option<Seq<char>>,
    /// Whether the step succeeded.
    pub ok: bool,
}

/// The cache protocol: a fresh marker is reused without compiling; a stale
/// or missing one compiles, and only a successful compilation records the
/// key; a failed one leaves no marker behind.
pub open spec fn spec_cache_step(marker: Option<Seq<char>>, key: u64, compile_ok: bool) -> CacheStepSpec {
    if spec_is_fresh(marker, key) {
        CacheStepSpec { compiled: false, marker_after: marker, ok: true }
    } else if compile_ok {
        CacheStepSpec {
            compiled: true,
            marker_after: Some(spec_encode_u64(key as nat)),
            ok: true,
        }
    } else {
        CacheStepSpec { compiled: true, marker_after: None, ok: false }
    }
}

/// Idempotence of the build step: whatever the cache held, after one
/// successful step for a key, a second step for the same key reuses the
/// sysroot and does not compile; the expensive compilation runs at most once
/// across the two.
pub proof fn lemma_build_idempotent(marker: Option<Seq<char>>, key: u64)
    ensures
        ({
            let s1 = spec_cache_step(marker, key, true);
            let s2 = spec_cache_step(s1.marker_after, key, true);
            s1.ok && s2.ok && !s2.compiled && s2.marker_after == s1.marker_after
        }),
{
    let s1 = spec_cache_step(marker, key, true);
    if !spec_is_fresh(marker, key) {
        lemma_parse_encode_round_trip(key);
        assert(spec_is_fresh(s1.marker_after, key));
    }
}

/// Partial-failure safety: a failed compilation never leaves a fresh marker
/// behind, so the following step for the same key treats the cache as stale
/// and compiles again.
pub proof fn lemma_failed_build_stays_stale(marker: Option<Seq<char>>, key: u64)
    requires
        !spec_is_fresh(marker, key),
    ensures
        ({
            let s1 = spec_cache_step(marker, key, false);
            &&& !s1.ok
            &&& s1.marker_after is None
            &&& !spec_is_fresh(s1.marker_after, key)
            &&& spec_cache_step(s1.marker_after, key, true).compiled
        }),
{
}

/// Whether the target does without the standard library, read from its
/// triple.
pub open spec fn spec_target_no_std(target: Seq<char>) -> bool {
    spec_contains_substr(target, "-none"@) || spec_contains_substr(target, "nvptx"@)
        || spec_contains_substr(target, "switch"@) || spec_contains_substr(target, "-uefi"@)
}

/// Decides whether the target does without the standard library.
pub fn target_no_std(target: &str) -> (r: bool)
    ensures
        r == spec_target_no_std(target@),
{
    contains_substr(target, "-none") || contains_substr(target, "nvptx") || contains_substr(
        target,
        "switch",
    ) || contains_substr(target, "-uefi")
}

/// Whether the target belongs to the Darwin family.
pub open spec fn spec_target_darwin(target: Seq<char>) -> bool {
    spec_contains_substr(target, "-darwin"@)
}

/// Decides whether the target belongs to the Darwin family.
pub fn target_is_darwin(target: &str) -> (r: bool)
    ensures
        r == spec_target_darwin(target@),
{
    contains_substr(target, "-darwin")
}

/// Whether the platform post-step must copy the sanitizer runtime library
/// beside the other artifacts: only for a sanitizer variant on a Darwin
/// target.
pub fn needs_sanitizer_runtime(target: &str, sanitizer: Option<&String>) -> (r: bool)
    ensures
        r == (sanitizer is Some && spec_target_darwin(target@)),
{
    sanitizer.is_some() && target_is_darwin(target)
}

/// The path the main-thread checker library is expected at, from the text
/// the developer-directory query printed.
pub fn main_thread_checker_candidate(query_output: &str) -> (r: String)
    ensures
        r@ == spec_path_join(spec_trim(query_output@), "usr/lib/libMainThreadChecker.dylib"@),
{
    let dir = trim_str(query_output);
    path_join(dir.as_str(), "usr/lib/libMainThreadChecker.dylib")
}

} // verus!
