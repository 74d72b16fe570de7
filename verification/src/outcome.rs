//! How a sandboxed run ended, and the reply that is assembled from it.

use vstd::prelude::*;
use crate::artifact::Artifact;
use crate::encoding::{base64_bytes, base64_len, base64_text, lemma_base64_round_trip, standard_encode};
use crate::text::{decimal_text, has_substring, occurs_at, render_decimal};

verus! {

/// How the sandboxed run ended.
#[derive(Debug, PartialEq, Eq)]
pub enum BuildOutcome {
    /// The container ran to its end.
    Exited {
        /// Whether the exit status reported success.
        succeeded: bool,
        /// The exit status, as text.
        status: String,
        /// All of standard output.
        stdout: String,
        /// All of standard error.
        stderr: String,
    },
    /// The container runtime could not start the run.
    LaunchFailed {
        /// What the runtime reported.
        reason: String,
    },
    /// The deadline passed first; the output was discarded.
    TimedOut {
        /// The configured time budget, in seconds.
        after_secs: u64,
    },
}

/// A `BuildOutcome` as plain values.
pub enum OutcomeView {
    Exited { succeeded: bool, status: Seq<char>, stdout: Seq<char>, stderr: Seq<char> },
    LaunchFailed { reason: Seq<char> },
    TimedOut { after_secs: u64 },
}

impl View for BuildOutcome {
    type V = OutcomeView;

    open spec fn view(&self) -> OutcomeView {
        match *self {
            BuildOutcome::Exited { succeeded, status, stdout, stderr } => OutcomeView::Exited {
                succeeded,
                status: status@,
                stdout: stdout@,
                stderr: stderr@,
            },
            BuildOutcome::LaunchFailed { reason } => OutcomeView::LaunchFailed { reason: reason@ },
            BuildOutcome::TimedOut { after_secs } => OutcomeView::TimedOut { after_secs },
        }
    }
}

/// The reply to a build request.
#[derive(Debug, PartialEq, Eq)]
pub struct BuildResult {
    /// True only for a successful exit with an artifact.
    pub success: bool,
    /// The build's logs.
    pub logs: String,
    /// The artifact in base64, there exactly when `success` is true.
    pub artifact_base64: Option<String>,
    /// A short account of how it ended, where there is one.
    pub message: Option<String>,
}

/// A `BuildResult` as plain values.
pub struct BuildResultView {
    pub success: bool,
    pub logs: Seq<char>,
    pub artifact_base64: Option<Seq<char>>,
    pub message: Option<Seq<char>>,
}

/// The view of an optional string.
pub open spec fn opt_text(s: Option<String>) -> Option<Seq<char>> {
    match s {
        Some(s) => Some(s@),
        None => None,
    }
}

impl View for BuildResult {
    type V = BuildResultView;

    open spec fn view(&self) -> BuildResultView {
        BuildResultView {
            success: self.success,
            logs: self.logs@,
            artifact_base64: opt_text(self.artifact_base64),
            message: opt_text(self.message),
        }
    }
}

/// The message of a reply for a project without files.
pub const NO_FILES_MESSAGE: &'static str = "No files found for this project";

/// The message of a reply for a run that succeeded and left no artifact.
pub const NO_ARTIFACT_MESSAGE: &'static str = "Build succeeded but no artifact found";

/// The reply for a project without files.
pub open spec fn no_files_reply() -> BuildResultView {
    BuildResultView {
        success: false,
        logs: Seq::empty(),
        artifact_base64: None,
        message: Some(NO_FILES_MESSAGE@),
    }
}

/// The logs of a run that ended with `outcome`: for a run that came to its
/// end the exit status, standard output and standard error under their
/// labels, in that order; else what went wrong, with the time budget where
/// that ran out.
pub open spec fn run_logs(outcome: BuildOutcome) -> Seq<char> {
    match outcome {
        BuildOutcome::Exited { succeeded, status, stdout, stderr } => "status: "@ + status@
            + "\n\nstdout:\n"@ + stdout@ + "\n\nstderr:\n"@ + stderr@,
        BuildOutcome::LaunchFailed { reason } => "Docker command failed: "@ + reason@,
        BuildOutcome::TimedOut { after_secs } => "Build timed out after "@ + decimal_text(
            after_secs as nat,
        ) + " seconds"@,
    }
}

/// The reply for a run that ended with `outcome` and left the artifact
/// `artifact`, or none.
pub open spec fn assembled(outcome: BuildOutcome, artifact: Option<Artifact>) -> BuildResultView {
    if outcome.exit_succeeded() {
        match artifact {
            Some(found) => BuildResultView {
                success: true,
                logs: run_logs(outcome) + "\n\n\u{2705} Found WASM file: "@ + found.filename@,
                artifact_base64: Some(base64_text(found.bytes@)),
                message: Some("Built successfully: "@ + found.filename@),
            },
            None => BuildResultView {
                success: false,
                logs: run_logs(outcome),
                artifact_base64: None,
                message: Some(NO_ARTIFACT_MESSAGE@),
            },
        }
    } else {
        BuildResultView {
            success: false,
            logs: run_logs(outcome),
            artifact_base64: None,
            message: None,
        }
    }
}

impl BuildOutcome {
    /// The run came to its end and its exit status reported success.
    pub open spec fn exit_succeeded(&self) -> bool {
        *self matches BuildOutcome::Exited { succeeded, .. } && succeeded
    }

    /// The deadline passed before the run ended.
    pub open spec fn timed_out(&self) -> bool {
        self is TimedOut
    }

    /// What the run wrote to standard output, as far as it was kept:
    /// nothing for a run that was not started or did not end in time.
    pub open spec fn stdout_text(&self) -> Seq<char> {
        match *self {
            BuildOutcome::Exited { stdout, .. } => stdout@,
            _ => Seq::empty(),
        }
    }

    /// What the run wrote to standard error, as far as it was kept:
    /// nothing for a run that was not started or did not end in time.
    pub open spec fn stderr_text(&self) -> Seq<char> {
        match *self {
            BuildOutcome::Exited { stderr, .. } => stderr@,
            _ => Seq::empty(),
        }
    }

    /// Whether the run came to its end with a successful exit status.
    pub fn succeeded(&self) -> (yes: bool)
        ensures
            yes == self.exit_succeeded(),
    {
        match self {
            BuildOutcome::Exited { succeeded, .. } => *succeeded,
            _ => false,
        }
    }

    /// Whether the deadline passed before the run ended. A run that timed
    /// out did not succeed, and nothing of its output is kept.
    pub fn has_timed_out(&self) -> (yes: bool)
        ensures
            yes == self.timed_out(),
            yes ==> !self.exit_succeeded() && self.stdout_text().len() == 0
                && self.stderr_text().len() == 0,
    {
        match self {
            BuildOutcome::TimedOut { .. } => true,
            _ => false,
        }
    }

    /// What the run wrote to standard output, as far as it was kept.
    pub fn stdout(&self) -> (out: &str)
        ensures
            out@ == self.stdout_text(),
    {
        match self {
            BuildOutcome::Exited { stdout, .. } => stdout.as_str(),
            _ => {
                proof {
                    reveal_strlit("");
                }
                assert(""@ =~= Seq::<char>::empty());
                ""
            },
        }
    }

    /// What the run wrote to standard error, as far as it was kept.
    pub fn stderr(&self) -> (out: &str)
        ensures
            out@ == self.stderr_text(),
    {
        match self {
            BuildOutcome::Exited { stderr, .. } => stderr.as_str(),
            _ => {
                proof {
                    reveal_strlit("");
                }
                assert(""@ =~= Seq::<char>::empty());
                ""
            },
        }
    }

    /// The logs of the run.
    pub fn logs(&self) -> (out: String)
        ensures
            out@ == run_logs(*self),
    {
        match self {
            BuildOutcome::Exited { status, stdout, stderr, .. } => {
                let mut out = String::from_str("status: ");
                out.append(status.as_str());
                out.append("\n\nstdout:\n");
                out.append(stdout.as_str());
                out.append("\n\nstderr:\n");
                out.append(stderr.as_str());
                out
            },
            BuildOutcome::LaunchFailed { reason } => {
                let mut out = String::from_str("Docker command failed: ");
                out.append(reason.as_str());
                out
            },
            BuildOutcome::TimedOut { after_secs } => {
                let mut out = String::from_str("Build timed out after ");
                let secs = render_decimal(*after_secs);
                out.append(secs.as_str());
                out.append(" seconds");
                out
            },
        }
    }
}

impl BuildResult {
    /// The reply for a project without files: no success, empty logs, no
    /// artifact, and the message that says so.
    pub fn no_files() -> (reply: BuildResult)
        ensures
            reply@ == no_files_reply(),
    {
        BuildResult {
            success: false,
            logs: String::new(),
            artifact_base64: None,
            message: Some(String::from_str(NO_FILES_MESSAGE)),
        }
    }
}

/// Assembles the reply from how the run ended and the artifact that was
/// found, if any. The reply reports success only for a successful exit with
/// an artifact, and carries the artifact, in base64 that decodes to its
/// bytes, exactly then. A successful exit without an artifact has its own
/// message; a run that did not succeed has none. The artifact must be one
/// whose base64 text has a length that the machine can count, as every
/// artifact in memory is on the common machines.
pub fn assemble(outcome: &BuildOutcome, artifact: Option<&Artifact>) -> (reply: BuildResult)
    requires
        artifact matches Some(found) ==> base64_len(found.bytes@.len()) <= usize::MAX,
    ensures
        reply@ == assembled(
            *outcome,
            match artifact {
                Some(found) => Some(*found),
                None => None,
            },
        ),
        reply.success == (outcome.exit_succeeded() && artifact is Some),
        reply.artifact_base64 is Some <==> reply.success,
        reply.success ==> base64_bytes(reply.artifact_base64->0@) == Some(artifact->0.bytes@),
        outcome.exit_succeeded() && artifact is None ==> reply@.message == Some(
            NO_ARTIFACT_MESSAGE@,
        ),
        !outcome.exit_succeeded() ==> reply.message is None,
        outcome.timed_out() ==> reply.logs@ == run_logs(*outcome),
{
    let logs = outcome.logs();
    if outcome.succeeded() {
        match artifact {
            Some(found) => {
                let mut logs = logs;
                logs.append("\n\n\u{2705} Found WASM file: ");
                logs.append(found.filename.as_str());
                let mut message = String::from_str("Built successfully: ");
                message.append(found.filename.as_str());
                proof {
                    lemma_base64_round_trip(found.bytes@);
                }
                BuildResult {
                    success: true,
                    logs,
                    artifact_base64: Some(standard_encode(found.bytes.as_slice())),
                    message: Some(message),
                }
            },
            None => BuildResult {
                success: false,
                logs,
                artifact_base64: None,
                message: Some(String::from_str(NO_ARTIFACT_MESSAGE)),
            },
        }
    } else {
        BuildResult { success: false, logs, artifact_base64: None, message: None }
    }
}

/// The logs of a run that timed out say so, and state the time that was
/// allowed.
pub proof fn lemma_timeout_is_stated(after_secs: u64)
    ensures
        has_substring(run_logs(BuildOutcome::TimedOut { after_secs }), "timed out"@),
        has_substring(
            run_logs(BuildOutcome::TimedOut { after_secs }),
            decimal_text(after_secs as nat),
        ),
{
    reveal_strlit("Build timed out after ");
    reveal_strlit("timed out");
    let logs = run_logs(BuildOutcome::TimedOut { after_secs });
    let budget = decimal_text(after_secs as nat);
    assert(logs.subrange(6, 15) =~= "timed out"@);
    assert(occurs_at(logs, "timed out"@, 6));
    assert(logs.subrange(22, 22 + budget.len() as int) =~= budget);
    assert(occurs_at(logs, budget, 22));
}

/// A successful run that left no artifact is told apart from a run that
/// failed: the first is answered with failure and the message that says
/// that no artifact was found, the second with failure and no message,
/// whatever was found.
pub proof fn lemma_missing_artifact_is_distinct(
    succeeded: BuildOutcome,
    failed: BuildOutcome,
    found: Option<Artifact>,
)
    requires
        succeeded.exit_succeeded(),
        !failed.exit_succeeded(),
    ensures
        !assembled(succeeded, None).success,
        assembled(succeeded, None).message == Some(NO_ARTIFACT_MESSAGE@),
        assembled(succeeded, None).logs == run_logs(succeeded),
        !assembled(failed, found).success,
        assembled(failed, found).message is None,
        assembled(succeeded, None).message != assembled(failed, found).message,
{
}

/// A reply carries an artifact exactly when it reports success, and
/// reports success only for a successful exit with an artifact; the
/// artifact it carries decodes to the bytes that were found.
pub proof fn lemma_reply_invariant(outcome: BuildOutcome, found: Option<Artifact>)
    ensures
        assembled(outcome, found).success == (outcome.exit_succeeded() && found is Some),
        assembled(outcome, found).artifact_base64 is Some <==> assembled(outcome, found).success,
        assembled(outcome, found).success ==> base64_bytes(
            assembled(outcome, found).artifact_base64->0,
        ) == Some(found->0.bytes@),
{
    if found is Some {
        lemma_base64_round_trip(found->0.bytes@);
    }
}

} // verus!
