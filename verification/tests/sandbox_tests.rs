use sandbox_build::sandbox::{remove_args, run_args, BUILD_SCRIPT, RUNTIME, WORK_DIR};

#[test]
fn the_run_is_described_argument_by_argument() {
    assert_eq!(
        run_args("/tmp/.tmpAbC123", "build-7", "soroban-runner", "make"),
        vec![
            "run",
            "--rm",
            "--name",
            "build-7",
            "--user",
            "root",
            "--entrypoint",
            "bash",
            "-v",
            "/tmp/.tmpAbC123:/work",
            "-w",
            "/work",
            "soroban-runner",
            "-c",
            "make",
        ]
    );
}

#[test]
fn the_run_mounts_the_workspace_at_the_working_directory() {
    let args = run_args("/w", "c", "i", BUILD_SCRIPT);
    assert_eq!(args.len(), 15);
    assert_eq!(args[9], format!("/w:{}", WORK_DIR));
    assert_eq!(args[11], WORK_DIR);
    assert_eq!(args[14], BUILD_SCRIPT);
    assert_eq!(RUNTIME, "docker");
    assert_eq!(WORK_DIR, "/work");
}

#[test]
fn the_script_hands_the_tree_over_and_builds_as_the_runner() {
    let chown = BUILD_SCRIPT.find("chown -R runner:runner /work").unwrap();
    let switch = BUILD_SCRIPT.find("su runner -c").unwrap();
    let build = BUILD_SCRIPT
        .find("/home/runner/.cargo/bin/cargo build --target wasm32-unknown-unknown --release 2>&1")
        .unwrap();
    assert!(chown < switch && switch < build);
    assert!(BUILD_SCRIPT.starts_with("\n        set -e\n        cd /work\n"));
}

#[test]
fn the_removal_names_the_container() {
    assert_eq!(remove_args("build-7"), vec!["rm", "-f", "build-7"]);
}
