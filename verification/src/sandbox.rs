//! The sandboxed run: the command line that starts the container, and the
//! one that removes it.

use vstd::prelude::*;
use crate::text::texts;

verus! {

/// The program that runs containers.
pub const RUNTIME: &'static str = "docker";

/// Where the workspace is mounted in the container, and where the build runs.
pub const WORK_DIR: &'static str = "/work";

/// What runs in the container. It starts as root, only to hand the mounted
/// tree to the unprivileged user `runner`, and runs the build as that user.
pub const BUILD_SCRIPT: &'static str = r#"
        set -e
        cd /work
        
        # Fix ownership to runner user
        chown -R runner:runner /work
        
        echo "=== Building Soroban Contract ==="
        echo "Running as: $(whoami)"
        echo ""
        
        # Now switch to runner and build
        su runner -c '
            set -e
            cd /work
            echo "Switched to user: $(whoami)"
            echo "Files in /work:"
            ls -la /work
            echo ""
            echo "Building with cargo..."
            /home/runner/.cargo/bin/cargo build --target wasm32-unknown-unknown --release 2>&1
            echo ""
            echo "Build complete. Checking output..."
            if [ -d "target/wasm32-unknown-unknown/release" ]; then
                ls -la target/wasm32-unknown-unknown/release/ | grep .wasm || echo "No WASM files found"
            else
                echo "Target directory not created"
            fi
        '
    "#;

/// The arguments that start one container for one build: removed when it
/// ends, under the name `container`, entered as root through `bash`, with
/// the directory `workspace_dir` mounted at the working directory, from the
/// image `image`, to run `script`.
pub open spec fn run_arguments(
    workspace_dir: Seq<char>,
    container: Seq<char>,
    image: Seq<char>,
    script: Seq<char>,
) -> Seq<Seq<char>> {
    seq![
        "run"@,
        "--rm"@,
        "--name"@,
        container,
        "--user"@,
        "root"@,
        "--entrypoint"@,
        "bash"@,
        "-v"@,
        workspace_dir + ":"@ + WORK_DIR@,
        "-w"@,
        WORK_DIR@,
        image,
        "-c"@,
        script,
    ]
}

/// The arguments that stop the container `container` and remove it.
pub open spec fn remove_arguments(container: Seq<char>) -> Seq<Seq<char>> {
    seq!["rm"@, "-f"@, container]
}

/// The arguments to the container runtime that start the build.
pub fn run_args(workspace_dir: &str, container: &str, image: &str, script: &str) -> (args: Vec<
    String,
>)
    ensures
        texts(args@) == run_arguments(workspace_dir@, container@, image@, script@),
{
    let mut mount = String::from_str(workspace_dir);
    mount.append(":");
    mount.append(WORK_DIR);
    let mut args: Vec<String> = Vec::new();
    args.push(String::from_str("run"));
    args.push(String::from_str("--rm"));
    args.push(String::from_str("--name"));
    args.push(String::from_str(container));
    args.push(String::from_str("--user"));
    args.push(String::from_str("root"));
    args.push(String::from_str("--entrypoint"));
    args.push(String::from_str("bash"));
    args.push(String::from_str("-v"));
    args.push(mount);
    args.push(String::from_str("-w"));
    args.push(String::from_str(WORK_DIR));
    args.push(String::from_str(image));
    args.push(String::from_str("-c"));
    args.push(String::from_str(script));
    assert(texts(args@) =~= run_arguments(workspace_dir@, container@, image@, script@));
    args
}

/// The arguments to the container runtime that stop the container of a
/// build and remove it, whether or not it still runs.
pub fn remove_args(container: &str) -> (args: Vec<String>)
    ensures
        texts(args@) == remove_arguments(container@),
{
    let mut args: Vec<String> = Vec::new();
    args.push(String::from_str("rm"));
    args.push(String::from_str("-f"));
    args.push(String::from_str(container));
    assert(texts(args@) =~= remove_arguments(container@));
    args
}

} // verus!
