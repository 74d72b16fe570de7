use base64::Engine;
use sandbox_build::artifact::Artifact;
use sandbox_build::outcome::{
    assemble, BuildOutcome, BuildResult, NO_ARTIFACT_MESSAGE, NO_FILES_MESSAGE,
};

fn exited(succeeded: bool) -> BuildOutcome {
    BuildOutcome::Exited {
        succeeded,
        status: "ExitStatus(unix_wait_status(0))".to_string(),
        stdout: "Compiling\nFinished\n".to_string(),
        stderr: "warning: unused\n".to_string(),
    }
}

fn artifact(bytes: &[u8]) -> Artifact {
    Artifact { filename: "contract.wasm".to_string(), bytes: bytes.to_vec() }
}

const RUN_LOGS: &str =
    "status: ExitStatus(unix_wait_status(0))\n\nstdout:\nCompiling\nFinished\n\n\nstderr:\nwarning: unused\n";

#[test]
fn a_project_without_files_has_its_own_reply() {
    assert_eq!(
        BuildResult::no_files(),
        BuildResult {
            success: false,
            logs: String::new(),
            artifact_base64: None,
            message: Some("No files found for this project".to_string()),
        }
    );
    assert_eq!(NO_FILES_MESSAGE, "No files found for this project");
}

#[test]
fn logs_hold_status_output_and_errors_in_order() {
    assert_eq!(exited(true).logs(), RUN_LOGS);
    assert_eq!(
        BuildOutcome::Exited {
            succeeded: false,
            status: "1".to_string(),
            stdout: String::new(),
            stderr: String::new(),
        }
        .logs(),
        "status: 1\n\nstdout:\n\n\nstderr:\n"
    );
}

#[test]
fn logs_of_a_timeout_state_the_budget() {
    assert_eq!(BuildOutcome::TimedOut { after_secs: 90 }.logs(), "Build timed out after 90 seconds");
    assert_eq!(BuildOutcome::TimedOut { after_secs: 1 }.logs(), "Build timed out after 1 seconds");
}

#[test]
fn logs_of_a_failed_launch_state_the_reason() {
    assert_eq!(
        BuildOutcome::LaunchFailed { reason: "No such file or directory (os error 2)".to_string() }
            .logs(),
        "Docker command failed: No such file or directory (os error 2)"
    );
}

#[test]
fn outcome_knows_how_it_ended() {
    assert!(exited(true).succeeded());
    assert!(!exited(false).succeeded());
    assert!(!BuildOutcome::TimedOut { after_secs: 5 }.succeeded());
    assert!(!BuildOutcome::LaunchFailed { reason: String::new() }.succeeded());
    assert!(BuildOutcome::TimedOut { after_secs: 5 }.has_timed_out());
    assert!(!exited(false).has_timed_out());
}

#[test]
fn outcome_keeps_the_output_of_a_run_that_ended() {
    assert_eq!(exited(false).stdout(), "Compiling\nFinished\n");
    assert_eq!(exited(false).stderr(), "warning: unused\n");
    assert_eq!(BuildOutcome::TimedOut { after_secs: 5 }.stdout(), "");
    assert_eq!(BuildOutcome::TimedOut { after_secs: 5 }.stderr(), "");
    assert_eq!(BuildOutcome::LaunchFailed { reason: "r".to_string() }.stdout(), "");
    assert_eq!(BuildOutcome::LaunchFailed { reason: "r".to_string() }.stderr(), "");
}

#[test]
fn success_with_an_artifact() {
    let found = artifact(b"\0asm\x01\0\0\0");
    assert_eq!(
        assemble(&exited(true), Some(&found)),
        BuildResult {
            success: true,
            logs: format!("{}\n\n\u{2705} Found WASM file: contract.wasm", RUN_LOGS),
            artifact_base64: Some("AGFzbQEAAAA=".to_string()),
            message: Some("Built successfully: contract.wasm".to_string()),
        }
    );
}

#[test]
fn success_without_an_artifact_is_a_failure_with_a_message() {
    assert_eq!(
        assemble(&exited(true), None),
        BuildResult {
            success: false,
            logs: RUN_LOGS.to_string(),
            artifact_base64: None,
            message: Some("Build succeeded but no artifact found".to_string()),
        }
    );
    assert_eq!(NO_ARTIFACT_MESSAGE, "Build succeeded but no artifact found");
}

#[test]
fn a_failed_run_has_no_message_and_no_artifact() {
    let expected =
        BuildResult { success: false, logs: RUN_LOGS.to_string(), artifact_base64: None, message: None };
    assert_eq!(assemble(&exited(false), None), expected);
    assert_eq!(assemble(&exited(false), Some(&artifact(b"stale"))), expected);
}

#[test]
fn a_timeout_is_a_failure_that_says_so() {
    let reply = assemble(&BuildOutcome::TimedOut { after_secs: 90 }, None);
    assert_eq!(
        reply,
        BuildResult {
            success: false,
            logs: "Build timed out after 90 seconds".to_string(),
            artifact_base64: None,
            message: None,
        }
    );
    assert!(reply.logs.contains("timed out"));
    let reply = assemble(&BuildOutcome::TimedOut { after_secs: 3 }, Some(&artifact(b"x")));
    assert!(!reply.success);
    assert_eq!(reply.artifact_base64, None);
    assert_eq!(reply.logs, "Build timed out after 3 seconds");
}

#[test]
fn a_failed_launch_is_a_failure_with_the_reason_in_the_logs() {
    assert_eq!(
        assemble(&BuildOutcome::LaunchFailed { reason: "no docker".to_string() }, None),
        BuildResult {
            success: false,
            logs: "Docker command failed: no docker".to_string(),
            artifact_base64: None,
            message: None,
        }
    );
}

fn encoded(bytes: &[u8]) -> String {
    assemble(&exited(true), Some(&artifact(bytes))).artifact_base64.unwrap()
}

#[test]
fn base64_of_known_bytes() {
    assert_eq!(encoded(b""), "");
    assert_eq!(encoded(b"f"), "Zg==");
    assert_eq!(encoded(b"fo"), "Zm8=");
    assert_eq!(encoded(b"foo"), "Zm9v");
    assert_eq!(encoded(b"foob"), "Zm9vYg==");
    assert_eq!(encoded(b"fooba"), "Zm9vYmE=");
    assert_eq!(encoded(b"foobar"), "Zm9vYmFy");
    assert_eq!(encoded(&[0xfb, 0xff]), "+/8=");
    assert_eq!(encoded(&[0xff, 0xff, 0xff]), "////");
    assert_eq!(encoded(&[0, 0, 0]), "AAAA");
    assert_eq!(encoded(&[0x69, 0xb7, 0x1d, 0x79]), "abcdeQ==");
}

#[test]
fn base64_decodes_to_the_artifact() {
    let mut bytes: Vec<u8> = Vec::new();
    for n in 0..700u32 {
        let text = encoded(&bytes);
        assert_eq!(text.len(), (bytes.len() + 2) / 3 * 4);
        assert_eq!(base64::engine::general_purpose::STANDARD.decode(&text).unwrap(), bytes);
        bytes.push((n * 37 % 256) as u8);
    }
}
