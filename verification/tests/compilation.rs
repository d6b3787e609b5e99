use casper_node_logic::compilation::{abi_generator_features, join_strings, CompilationResults, CompileJob};

fn strings(v: &[&str]) -> Vec<String> {
    v.iter().map(|s| s.to_string()).collect()
}

#[test]
fn build_arguments() {
    let job = CompileJob::new("./Cargo.toml", Some(strings(&["a"])), None);
    assert_eq!(
        job.build_args("wasm32-unknown-unknown", strings(&["b", "c"]), "/tmp/build-1"),
        strings(&[
            "build",
            "--manifest-path",
            "./Cargo.toml",
            "--target",
            "wasm32-unknown-unknown",
            "--features",
            "a,b,c",
            "--lib",
            "--release",
            "--message-format=json",
            "--target-dir",
            "/tmp/build-1",
        ])
    );
    assert_eq!(job.features_arg(vec![]), "a");
}

#[test]
fn rustflags_combine_with_environment() {
    let job = CompileJob::new("./Cargo.toml", None, Some("-C link-dead-code".to_string()));
    assert_eq!(job.effective_rustflags(String::new()), "-C link-dead-code");
    assert_eq!(job.effective_rustflags("-O".to_string()), "-O -C link-dead-code");
    let plain = CompileJob::new("./Cargo.toml", None, None);
    assert_eq!(plain.effective_rustflags("-O".to_string()), "-O");
    let replaced = plain.with_rustflags("-g".to_string());
    assert_eq!(replaced.effective_rustflags(String::new()), "-g");
}

#[test]
fn artifacts_skip_deps_and_are_found_by_extension() {
    let groups = vec![
        strings(&["/t/release/deps/libfoo.rlib"]),
        strings(&["/t/wasm/release/contract.wasm", "/t/wasm/release/libcontract.so"]),
    ];
    let results = CompilationResults::from_artifact_messages(&groups);
    assert_eq!(results.artifacts().to_vec(), strings(&["/t/wasm/release/contract.wasm", "/t/wasm/release/libcontract.so"]));
    assert_eq!(results.get_artifact_by_extension("so"), Some("/t/wasm/release/libcontract.so".to_string()));
    assert_eq!(results.get_artifact_by_extension("a"), None);
}

#[test]
fn joins() {
    assert_eq!(join_strings(&strings(&["x", "y", "z"]), ","), "x,y,z");
    assert_eq!(join_strings(&strings(&[]), ","), "");
}

#[test]
fn schema_features_follow_dependencies() {
    assert_eq!(
        abi_generator_features(&strings(&["serde", "casper-macros", "casper-sdk"])),
        strings(&["casper-sdk/__abi_generator", "casper-macros/__abi_generator"])
    );
    assert_eq!(abi_generator_features(&strings(&["casper-macros"])), strings(&["casper-macros/__abi_generator"]));
    assert!(abi_generator_features(&strings(&["serde"])).is_empty());
}
