use cargo_careful::project::{
    artifact_copy_plan, artifact_dst_dir, asan_runtime_paths, build_cargo_args, build_env,
    build_out_dir, lock_source_path, manifest_contents, DirEntryInfo,
};
use cargo_careful::sysroot::BuildMode;
use cargo_careful::CarefulError;

fn strs(v: &[&str]) -> Vec<String> {
    v.iter().map(|s| s.to_string()).collect()
}

#[test]
fn manifest_references_source_tree() {
    let manifest = manifest_contents("/rust/library");
    let expected = "[package]\nauthors = [\"The Rust Project Developers\"]\nname = \"sysroot\"\nversion = \"0.0.0\"\n\n[lib]\npath = \"lib.rs\"\n\n[dependencies.std]\nfeatures = [\"panic_unwind\", \"backtrace\"]\npath = \"/rust/library/std\"\n[dependencies.test]\npath = \"/rust/library/test\"\n\n[patch.crates-io.rustc-std-workspace-core]\npath = \"/rust/library/rustc-std-workspace-core\"\n[patch.crates-io.rustc-std-workspace-alloc]\npath = \"/rust/library/rustc-std-workspace-alloc\"\n[patch.crates-io.rustc-std-workspace-std]\npath = \"/rust/library/rustc-std-workspace-std\"\n";
    assert_eq!(manifest, expected);
}

#[test]
fn manifest_quotes_awkward_paths() {
    let manifest = manifest_contents("/odd\\dir");
    assert!(manifest.contains("path = \"/odd\\\\dir/std\"\n"));
}

#[test]
fn lockfile_comes_from_parent() {
    assert_eq!(
        lock_source_path("/rust/library"),
        Ok("/rust/Cargo.lock".to_string())
    );
    assert_eq!(
        lock_source_path("rootless"),
        Err(CarefulError::LockfileMissing)
    );
}

#[test]
fn synthetic_build_arguments() {
    let args = build_cargo_args(BuildMode::Build, "/tmp/b/Cargo.toml", "x86_64-unknown-linux-gnu");
    assert_eq!(
        args,
        strs(&[
            "build",
            "--release",
            "--manifest-path",
            "/tmp/b/Cargo.toml",
            "--target",
            "x86_64-unknown-linux-gnu",
        ])
    );
    let args = build_cargo_args(BuildMode::Check, "m", "t");
    assert_eq!(args[0], "check");
}

#[test]
fn synthetic_build_environment() {
    let flags = strs(&["-Cdebug-assertions=on", "--cfg"]);
    let env = build_env("/tmp/b", &flags);
    assert_eq!(
        env,
        vec![
            ("CARGO_TARGET_DIR".to_string(), "/tmp/b/target".to_string()),
            ("__CARGO_DEFAULT_LIB_METADATA".to_string(), "cargo-careful".to_string()),
            (
                "CARGO_ENCODED_RUSTFLAGS".to_string(),
                "-Cdebug-assertions=on\x1f--cfg".to_string()
            ),
        ]
    );
}

#[test]
fn artifact_directories() {
    assert_eq!(
        build_out_dir("/tmp/b", "x86_64-unknown-linux-gnu"),
        "/tmp/b/target/x86_64-unknown-linux-gnu/release/deps"
    );
    assert_eq!(artifact_dst_dir("/cache/lib/rustlib/t"), "/cache/lib/rustlib/t/lib");
}

#[test]
fn copy_plan_maps_every_file() {
    let entries = vec![
        DirEntryInfo { name: "libstd.rlib".to_string(), is_file: true },
        DirEntryInfo { name: "libcore.rlib".to_string(), is_file: true },
    ];
    let pairs = match artifact_copy_plan("/out", "/dst", &entries) {
        Ok(p) => p,
        Err(_) => panic!("flat files must be copyable"),
    };
    assert_eq!(pairs.len(), 2);
    assert_eq!(pairs[0].src, "/out/libstd.rlib");
    assert_eq!(pairs[0].dst, "/dst/libstd.rlib");
    assert_eq!(pairs[1].src, "/out/libcore.rlib");
    assert_eq!(pairs[1].dst, "/dst/libcore.rlib");
}

#[test]
fn copy_plan_rejects_subdirectories() {
    let entries = vec![
        DirEntryInfo { name: "libstd.rlib".to_string(), is_file: true },
        DirEntryInfo { name: "incremental".to_string(), is_file: false },
    ];
    match artifact_copy_plan("/out", "/dst", &entries) {
        Err(e) => assert_eq!(e, CarefulError::CopyFailed),
        Ok(_) => panic!("a subdirectory in the output directory violates the layout"),
    }
}

#[test]
fn sanitizer_runtime_paths() {
    let (src, dst) = asan_runtime_paths("/toolchain/lib", "/cache/lib/rustlib/t/lib");
    assert_eq!(src, "/toolchain/lib/librustc-nightly_rt.asan.dylib");
    assert_eq!(dst, "/cache/lib/rustlib/t/lib/librustc-nightly_rt.asan.dylib");
}
