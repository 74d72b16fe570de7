//! One build from request to reply, as a machine that is told what happened
//! and answers what to do next. The caller does the work that each action
//! names and hands back its event.

use vstd::prelude::*;
use crate::artifact::{first_qualifying, locate, Artifact, ARTIFACT_EXTENSION, DEPFILE_MARKER, OUTPUT_DIR};
use crate::config::BuildConfig;
use crate::encoding::base64_len;
use crate::outcome::{assemble, assembled, no_files_reply, BuildOutcome, NO_FILES_MESSAGE, BuildResult, BuildResultView, OutcomeView};
use crate::sandbox::{remove_args, remove_arguments, run_args, run_arguments, BUILD_SCRIPT};
use crate::store::{decode_file_rows, json_file_rows, lacking, project_files_address, project_files_url, row_view, source_files, Field, FileRow, MissingField};
use crate::text::{decimal_text, render_decimal, texts};
use crate::workspace::{confined, lemma_placement_confined, placement, stage, PathFault, Workspace, WorkspaceError};

verus! {

/// A step of staging that can fail on disk.
#[derive(Clone, Copy, Debug, PartialEq, Eq, Structural)]
pub enum StagingStep {
    /// Creating the workspace root.
    CreateRoot,
    /// Creating the directories above a file.
    CreateDirectories,
    /// Writing a file.
    WriteFile,
}

/// A failure of the service itself, as opposed to a failed build. It is
/// reported as an internal error, not as a reply.
#[derive(Debug, PartialEq, Eq)]
pub enum TransportError {
    /// The file store could not be reached.
    FetchFailed { reason: String },
    /// The file store's answer is no list of rows.
    InvalidFileList { reason: String },
    /// A row of the file store's answer lacks its path or its content.
    IncompleteRow { index: usize, field: Field },
    /// The path of a source file has no place in the workspace.
    UnsafePath { error: WorkspaceError },
    /// The workspace could not be written.
    StagingFailed { step: StagingStep, reason: String },
    /// The machine was told of something it was not waiting for.
    UnexpectedEvent,
}

/// A `TransportError` as plain values. The reason of an invalid file list
/// is the parser's own text and has no part in it.
pub enum TransportErrorView {
    FetchFailed { reason: Seq<char> },
    InvalidFileList,
    IncompleteRow { index: usize, field: Field },
    UnsafePath { error: WorkspaceError },
    StagingFailed { step: StagingStep, reason: Seq<char> },
    UnexpectedEvent,
}

impl View for TransportError {
    type V = TransportErrorView;

    open spec fn view(&self) -> TransportErrorView {
        match *self {
            TransportError::FetchFailed { reason } => TransportErrorView::FetchFailed {
                reason: reason@,
            },
            TransportError::InvalidFileList { reason } => TransportErrorView::InvalidFileList,
            TransportError::IncompleteRow { index, field } => TransportErrorView::IncompleteRow {
                index,
                field,
            },
            TransportError::UnsafePath { error } => TransportErrorView::UnsafePath { error },
            TransportError::StagingFailed { step, reason } => TransportErrorView::StagingFailed {
                step,
                reason: reason@,
            },
            TransportError::UnexpectedEvent => TransportErrorView::UnexpectedEvent,
        }
    }
}

/// The text under which `error` is reported.
pub open spec fn error_text(error: TransportError) -> Seq<char> {
    match error {
        TransportError::FetchFailed { reason } => "Failed to fetch files: "@ + reason@,
        TransportError::InvalidFileList { reason } => "Failed to parse files: "@ + reason@,
        TransportError::IncompleteRow { index, field } => "Failed to parse files: row "@
            + decimal_text(index as nat) + (match field {
            Field::Path => " has no path"@,
            Field::Content => " has no content"@,
        }),
        TransportError::UnsafePath { error } => "Failed to write file: the path of file "@
            + decimal_text(error.index as nat) + (match error.fault {
            PathFault::Escapes => " leaves the workspace"@,
            PathFault::NoFileName => " names no file"@,
        }),
        TransportError::StagingFailed { step, reason } => (match step {
            StagingStep::CreateRoot => "Failed to create temp dir: "@,
            StagingStep::CreateDirectories => "Failed to create directories: "@,
            StagingStep::WriteFile => "Failed to write file: "@,
        }) + reason@,
        TransportError::UnexpectedEvent => "Unexpected event"@,
    }
}

impl TransportError {
    /// The text under which the failure is reported.
    pub fn message(&self) -> (out: String)
        ensures
            out@ == error_text(*self),
    {
        match self {
            TransportError::FetchFailed { reason } => {
                let mut out = String::from_str("Failed to fetch files: ");
                out.append(reason.as_str());
                out
            },
            TransportError::InvalidFileList { reason } => {
                let mut out = String::from_str("Failed to parse files: ");
                out.append(reason.as_str());
                out
            },
            TransportError::IncompleteRow { index, field } => {
                let mut out = String::from_str("Failed to parse files: row ");
                out.append(render_decimal(*index as u64).as_str());
                match field {
                    Field::Path => out.append(" has no path"),
                    Field::Content => out.append(" has no content"),
                }
                out
            },
            TransportError::UnsafePath { error } => {
                let mut out = String::from_str("Failed to write file: the path of file ");
                out.append(render_decimal(error.index as u64).as_str());
                match error.fault {
                    PathFault::Escapes => out.append(" leaves the workspace"),
                    PathFault::NoFileName => out.append(" names no file"),
                }
                out
            },
            TransportError::StagingFailed { step, reason } => {
                let mut out = match step {
                    StagingStep::CreateRoot => String::from_str("Failed to create temp dir: "),
                    StagingStep::CreateDirectories => String::from_str(
                        "Failed to create directories: ",
                    ),
                    StagingStep::WriteFile => String::from_str("Failed to write file: "),
                };
                out.append(reason.as_str());
                out
            },
            TransportError::UnexpectedEvent => String::from_str("Unexpected event"),
        }
    }
}

/// Where a build stands.
#[derive(Debug, PartialEq, Eq)]
pub enum BuildState {
    /// Waiting for the project's files from the file store.
    Fetching,
    /// Waiting for the workspace to be written.
    Staging,
    /// Waiting for the container `container` to end; once the deadline has
    /// passed (`expired`), for it to be removed.
    Building { container: String, expired: bool },
    /// Looking for the artifact of a run that ended with `outcome`: waiting
    /// for the entries of the output directory, or, with `reading` set, for
    /// the bytes of the entry at that place.
    Locating { outcome: BuildOutcome, entries: Vec<String>, reading: Option<usize> },
    /// Done, with a reply.
    Assembled,
    /// Done before a build was run: without files, or on a failure of the
    /// service.
    EarlyExit,
}

/// What the caller reports.
#[derive(Debug, PartialEq, Eq)]
pub enum BuildEvent {
    /// The file store answered with `body`.
    Fetched { body: Vec<u8> },
    /// The file store could not be reached.
    FetchFailed { reason: String },
    /// The workspace is written, at `workspace_dir`; the container of this
    /// build is to be called `container`.
    Staged { workspace_dir: String, container: String },
    /// The workspace could not be written, and what was written is gone.
    StagingFailed { step: StagingStep, reason: String },
    /// The container ran to its end.
    Exited { succeeded: bool, status: String, stdout: String, stderr: String },
    /// The container runtime could not start the run.
    LaunchFailed { reason: String },
    /// The time budget ran out before the container ended.
    DeadlineExpired,
    /// The container is stopped and removed.
    ContainerRemoved,
    /// The names of the entries of the output directory, in the order in
    /// which it gave them; none where there is no such directory.
    Listed { entries: Vec<String> },
    /// The bytes of the entry that was to be read.
    ArtifactRead { bytes: Vec<u8> },
    /// The entry that was to be read could not be read.
    ArtifactUnreadable,
}

/// What the caller is to do next.
#[derive(Debug, PartialEq, Eq)]
pub enum BuildAction {
    /// Ask the file store at `url` for the project's files.
    Fetch { url: String },
    /// Create a fresh directory and write the files of `workspace` into it.
    Stage { workspace: Workspace },
    /// Run the container runtime with `args`, for `timeout_secs` seconds at
    /// most.
    Run { args: Vec<String>, timeout_secs: u64 },
    /// Run the container runtime with `args`, which stops and removes the
    /// container, and wait until it has.
    RemoveContainer { args: Vec<String> },
    /// List the directory `dir` of the workspace.
    List { dir: String },
    /// Read the file `name` in the directory `dir` of the workspace.
    Read { dir: String, name: String },
    /// Release the workspace and answer with `result`.
    Reply { result: BuildResult },
    /// Release the workspace, if there is one, and report `error`.
    Abort { error: TransportError },
}

/// A `BuildState` as plain values.
pub enum StateView {
    Fetching,
    Staging,
    Building { container: Seq<char>, expired: bool },
    Locating { outcome: OutcomeView, entries: Seq<Seq<char>>, reading: Option<int> },
    Assembled,
    EarlyExit,
}

/// A `BuildAction` as plain values.
pub enum ActionView {
    Fetch { url: Seq<char> },
    Stage { writes: Seq<(Seq<Seq<char>>, Seq<u8>)> },
    Run { args: Seq<Seq<char>>, timeout_secs: u64 },
    RemoveContainer { args: Seq<Seq<char>> },
    List { dir: Seq<char> },
    Read { dir: Seq<char>, name: Seq<char> },
    Reply { result: BuildResultView },
    Abort { error: TransportErrorView },
}

impl View for BuildState {
    type V = StateView;

    open spec fn view(&self) -> StateView {
        match *self {
            BuildState::Fetching => StateView::Fetching,
            BuildState::Staging => StateView::Staging,
            BuildState::Building { container, expired } => StateView::Building {
                container: container@,
                expired,
            },
            BuildState::Locating { outcome, entries, reading } => StateView::Locating {
                outcome: outcome@,
                entries: texts(entries@),
                reading: match reading {
                    Some(i) => Some(i as int),
                    None => None,
                },
            },
            BuildState::Assembled => StateView::Assembled,
            BuildState::EarlyExit => StateView::EarlyExit,
        }
    }
}

impl View for BuildAction {
    type V = ActionView;

    open spec fn view(&self) -> ActionView {
        match *self {
            BuildAction::Fetch { url } => ActionView::Fetch { url: url@ },
            BuildAction::Stage { workspace } => ActionView::Stage { writes: workspace@ },
            BuildAction::Run { args, timeout_secs } => ActionView::Run {
                args: texts(args@),
                timeout_secs,
            },
            BuildAction::RemoveContainer { args } => ActionView::RemoveContainer {
                args: texts(args@),
            },
            BuildAction::List { dir } => ActionView::List { dir: dir@ },
            BuildAction::Read { dir, name } => ActionView::Read { dir: dir@, name: name@ },
            BuildAction::Reply { result } => ActionView::Reply { result: result@ },
            BuildAction::Abort { error } => ActionView::Abort { error: error@ },
        }
    }
}

/// The place and the value of the first of `s` that is there; `None` where
/// none is.
pub open spec fn first_some<T>(s: Seq<Option<T>>) -> Option<(int, T)>
    decreases s.len(),
{
    if s.len() == 0 {
        None
    } else {
        match first_some(s.drop_last()) {
            Some(found) => Some(found),
            None => match s.last() {
                Some(value) => Some((s.len() - 1, value)),
                None => None,
            },
        }
    }
}

/// The first that is there is the one before which none is.
proof fn lemma_first_some_at<T>(s: Seq<Option<T>>, i: int)
    requires
        0 <= i < s.len(),
        s[i] is Some,
        forall|j: int| 0 <= j < i ==> s[j] is None,
    ensures
        first_some(s) == Some((i, s[i]->0)),
    decreases s.len(),
{
    if i < s.len() - 1 {
        lemma_first_some_at(s.drop_last(), i);
    } else {
        lemma_first_some_none(s.drop_last());
    }
}

/// Where none is there, there is no first.
proof fn lemma_first_some_none<T>(s: Seq<Option<T>>)
    requires
        forall|j: int| 0 <= j < s.len() ==> s[j] is None,
    ensures
        first_some(s) is None,
    decreases s.len(),
{
    if s.len() > 0 {
        lemma_first_some_none(s.drop_last());
    }
}

/// Where there is no first, none is there.
proof fn lemma_first_some_nowhere<T>(s: Seq<Option<T>>, j: int)
    requires
        first_some(s) is None,
        0 <= j < s.len(),
    ensures
        s[j] is None,
    decreases s.len(),
{
    if j < s.len() - 1 {
        lemma_first_some_nowhere(s.drop_last(), j);
    }
}

/// Of each row what it lacks.
pub open spec fn gaps(rows: Seq<(Option<Seq<char>>, Option<Seq<char>>)>) -> Seq<Option<Field>> {
    Seq::new(rows.len(), |i: int| lacking(rows[i]))
}

/// Of each row what is wrong with its path.
pub open spec fn faults(rows: Seq<(Option<Seq<char>>, Option<Seq<char>>)>) -> Seq<
    Option<PathFault>,
> {
    Seq::new(
        rows.len(),
        |i: int|
            match placement(rows[i].0->0) {
                Ok(_) => None,
                Err(fault) => Some(fault),
            },
    )
}

/// The writes that stage the rows: each row's bytes, in UTF-8, at the place
/// of its path.
pub open spec fn planned_writes(rows: Seq<(Option<Seq<char>>, Option<Seq<char>>)>) -> Seq<
    (Seq<Seq<char>>, Seq<u8>),
> {
    Seq::new(
        rows.len(),
        |i: int| (placement(rows[i].0->0)->Ok_0, vstd::utf8::encode_utf8(rows[i].1->0)),
    )
}

/// What follows the file store's answer, given the rows that it holds
/// (`None` where it is no list of rows). A list that cannot be read, a row
/// that lacks something and a path without a place are failures of the
/// service; no rows end the build at once with the reply that says so, and
/// nothing is staged; else the rows are staged.
pub open spec fn fetched_plan(rows: Option<Seq<(Option<Seq<char>>, Option<Seq<char>>)>>) -> (
    StateView,
    ActionView,
) {
    match rows {
        None => (
            StateView::EarlyExit,
            ActionView::Abort { error: TransportErrorView::InvalidFileList },
        ),
        Some(rows) => match first_some(gaps(rows)) {
            Some((index, field)) => (
                StateView::EarlyExit,
                ActionView::Abort {
                    error: TransportErrorView::IncompleteRow { index: index as usize, field },
                },
            ),
            None => if rows.len() == 0 {
                (StateView::EarlyExit, ActionView::Reply { result: no_files_reply() })
            } else {
                match first_some(faults(rows)) {
                    Some((index, fault)) => (
                        StateView::EarlyExit,
                        ActionView::Abort {
                            error: TransportErrorView::UnsafePath {
                                error: WorkspaceError { index: index as usize, fault },
                            },
                        },
                    ),
                    None => (
                        StateView::Staging,
                        ActionView::Stage { writes: planned_writes(rows) },
                    ),
                }
            },
        },
    }
}

/// What follows when the artifact is looked for among `entries` from place
/// `from` on, after a run that ended with `outcome`: the first entry that
/// is the name of an artifact is to be read; without one the reply is
/// assembled without an artifact.
pub open spec fn seek_plan(outcome: BuildOutcome, entries: Seq<String>, from: int) -> (
    StateView,
    ActionView,
) {
    match first_qualifying(texts(entries), from, ARTIFACT_EXTENSION@, DEPFILE_MARKER@) {
        Some(i) => (
            StateView::Locating { outcome: outcome@, entries: texts(entries), reading: Some(i) },
            ActionView::Read { dir: OUTPUT_DIR@, name: entries[i]@ },
        ),
        None => (StateView::Assembled, ActionView::Reply { result: assembled(outcome, None) }),
    }
}

/// What follows a run that ended with `outcome`: the output directory is
/// listed, however the run ended.
pub open spec fn ended_plan(outcome: BuildOutcome) -> (StateView, ActionView) {
    (
        StateView::Locating { outcome: outcome@, entries: Seq::empty(), reading: None },
        ActionView::List { dir: OUTPUT_DIR@ },
    )
}

/// The end of a build that was told of something it was not waiting for.
pub open spec fn unexpected() -> (StateView, ActionView) {
    (StateView::EarlyExit, ActionView::Abort { error: TransportErrorView::UnexpectedEvent })
}

/// The state after `event` in `state`, and what is to be done next.
pub open spec fn transition(config: BuildConfig, state: BuildState, event: BuildEvent) -> (
    StateView,
    ActionView,
) {
    match state {
        BuildState::Fetching => match event {
            BuildEvent::Fetched { body } => fetched_plan(json_file_rows(body@)),
            BuildEvent::FetchFailed { reason } => (
                StateView::EarlyExit,
                ActionView::Abort { error: TransportErrorView::FetchFailed { reason: reason@ } },
            ),
            _ => unexpected(),
        },
        BuildState::Staging => match event {
            BuildEvent::Staged { workspace_dir, container } => (
                StateView::Building { container: container@, expired: false },
                ActionView::Run {
                    args: run_arguments(workspace_dir@, container@, config.image(), BUILD_SCRIPT@),
                    timeout_secs: config.timeout(),
                },
            ),
            BuildEvent::StagingFailed { step, reason } => (
                StateView::EarlyExit,
                ActionView::Abort {
                    error: TransportErrorView::StagingFailed { step, reason: reason@ },
                },
            ),
            _ => unexpected(),
        },
        BuildState::Building { container, expired } => if expired {
            match event {
                BuildEvent::ContainerRemoved => ended_plan(
                    BuildOutcome::TimedOut { after_secs: config.timeout() },
                ),
                _ => unexpected(),
            }
        } else {
            match event {
                BuildEvent::Exited { succeeded, status, stdout, stderr } => ended_plan(
                    BuildOutcome::Exited { succeeded, status, stdout, stderr },
                ),
                BuildEvent::LaunchFailed { reason } => ended_plan(
                    BuildOutcome::LaunchFailed { reason },
                ),
                BuildEvent::DeadlineExpired => (
                    StateView::Building { container: container@, expired: true },
                    ActionView::RemoveContainer { args: remove_arguments(container@) },
                ),
                _ => unexpected(),
            }
        },
        BuildState::Locating { outcome, entries, reading } => match reading {
            None => match event {
                BuildEvent::Listed { entries: listed } => if outcome.exit_succeeded() {
                    seek_plan(outcome, listed@, 0)
                } else {
                    (
                        StateView::Assembled,
                        ActionView::Reply { result: assembled(outcome, None) },
                    )
                },
                _ => unexpected(),
            },
            Some(at) => if at < entries.len() {
                match event {
                    BuildEvent::ArtifactRead { bytes } => (
                        StateView::Assembled,
                        ActionView::Reply {
                            result: assembled(
                                outcome,
                                Some(Artifact { filename: entries[at as int], bytes }),
                            ),
                        },
                    ),
                    BuildEvent::ArtifactUnreadable => seek_plan(outcome, entries@, at + 1),
                    _ => unexpected(),
                }
            } else {
                unexpected()
            },
        },
        BuildState::Assembled => unexpected(),
        BuildState::EarlyExit => unexpected(),
    }
}

/// A project without files ends at once: the reply reports no success, has
/// empty logs and no artifact, and says that no files were found; nothing
/// is staged and no build is run.
pub proof fn lemma_no_files(config: BuildConfig, event: BuildEvent)
    requires
        event matches BuildEvent::Fetched { body } && json_file_rows(body@) == Some(
            Seq::<(Option<Seq<char>>, Option<Seq<char>>)>::empty(),
        ),
    ensures
        transition(config, BuildState::Fetching, event) == (
            StateView::EarlyExit,
            ActionView::Reply {
                result: BuildResultView {
                    success: false,
                    logs: Seq::empty(),
                    artifact_base64: None,
                    message: Some(NO_FILES_MESSAGE@),
                },
            },
        ),
{
    let rows = Seq::<(Option<Seq<char>>, Option<Seq<char>>)>::empty();
    assert(gaps(rows) =~= Seq::<Option<Field>>::empty());
}

/// When the deadline passes, the container is removed before anything else
/// happens: the next action removes it, no event but its removal leads on,
/// and the removal leads on as a run that timed out after the configured
/// time.
pub proof fn lemma_deadline_removes_container(
    config: BuildConfig,
    container: String,
    event: BuildEvent,
)
    ensures
        transition(
            config,
            BuildState::Building { container, expired: false },
            BuildEvent::DeadlineExpired,
        ) == (
            StateView::Building { container: container@, expired: true },
            ActionView::RemoveContainer { args: remove_arguments(container@) },
        ),
        event is ContainerRemoved ==> transition(
            config,
            BuildState::Building { container, expired: true },
            event,
        ) == (
            StateView::Locating {
                outcome: OutcomeView::TimedOut { after_secs: config.timeout() },
                entries: Seq::empty(),
                reading: None,
            },
            ActionView::List { dir: OUTPUT_DIR@ },
        ),
        event !is ContainerRemoved ==> transition(
            config,
            BuildState::Building { container, expired: true },
            event,
        ) == unexpected(),
{
}

/// A run that timed out is never answered with success: once the output
/// directory is listed the reply reports failure, carries no artifact, and
/// its logs state the timeout and the time that was allowed.
pub proof fn lemma_timed_out_build_fails(
    config: BuildConfig,
    after_secs: u64,
    entries: Vec<String>,
    listed: Vec<String>,
)
    ensures
        transition(
            config,
            BuildState::Locating {
                outcome: BuildOutcome::TimedOut { after_secs },
                entries,
                reading: None,
            },
            BuildEvent::Listed { entries: listed },
        ) == (
            StateView::Assembled,
            ActionView::Reply {
                result: BuildResultView {
                    success: false,
                    logs: "Build timed out after "@ + decimal_text(after_secs as nat)
                        + " seconds"@,
                    artifact_base64: None,
                    message: None,
                },
            },
        ),
{
}

/// Nothing is staged outside the workspace root: every write of a staging
/// action goes to a place made of ordinary names, whatever the paths of the
/// rows hold.
pub proof fn lemma_staging_is_confined(rows: Seq<(Option<Seq<char>>, Option<Seq<char>>)>, i: int)
    requires
        fetched_plan(Some(rows)).1 is Stage,
        0 <= i < rows.len(),
    ensures
        fetched_plan(Some(rows)).1->writes.len() == rows.len(),
        confined(fetched_plan(Some(rows)).1->writes[i].0),
        fetched_plan(Some(rows)).1->writes[i].1 == vstd::utf8::encode_utf8(rows[i].1->0),
{
    lemma_first_some_nowhere(faults(rows), i);
    lemma_placement_confined(rows[i].0->0);
}

/// Every reply keeps the rule of replies: it carries an artifact exactly
/// when it reports success.
pub proof fn lemma_replies_are_consistent(config: BuildConfig, state: BuildState, event: BuildEvent)
    ensures
        transition(config, state, event).1 matches ActionView::Reply { result }
            ==> (result.artifact_base64 is Some <==> result.success),
{
}

/// A build ends exactly when the workspace is released: the state after a
/// step is a last one exactly if the action of that step is a reply or the
/// report of a failure, and a last state waits for nothing.
pub proof fn lemma_ends_with_release(config: BuildConfig, state: BuildState, event: BuildEvent)
    ensures
        (transition(config, state, event).0 is Assembled || transition(config, state, event).0
            is EarlyExit) <==> (transition(config, state, event).1 is Reply || transition(
            config,
            state,
            event,
        ).1 is Abort),
        state is Assembled || state is EarlyExit ==> transition(config, state, event)
            == unexpected(),
{
}

/// Ends a build that was told of something it was not waiting for.
fn give_up() -> (r: (BuildState, BuildAction))
    ensures
        (r.0@, r.1@) == unexpected(),
{
    (BuildState::EarlyExit, BuildAction::Abort { error: TransportError::UnexpectedEvent })
}

/// Begins the build of the project `project_id`, whose files the store at
/// `store_url` holds: the files are to be fetched.
pub fn start(store_url: &str, project_id: u128) -> (r: (BuildState, BuildAction))
    ensures
        r.0@ == StateView::Fetching,
        r.1@ == (ActionView::Fetch { url: project_files_address(store_url@, project_id) }),
{
    (BuildState::Fetching, BuildAction::Fetch { url: project_files_url(store_url, project_id) })
}

/// What follows the file store's answer, given what decoding it gave: the
/// rows, or the reason why there are none.
pub fn plan_from_rows(decoded: Result<Vec<FileRow>, String>) -> (r: (BuildState, BuildAction))
    ensures
        (r.0@, r.1@) == fetched_plan(
            match decoded {
                Ok(rows) => Some(Seq::new(rows.len() as nat, |i: int| row_view(rows[i]))),
                Err(_) => None,
            },
        ),
{
    let rows = match decoded {
        Ok(rows) => rows,
        Err(reason) => {
            return (
                BuildState::EarlyExit,
                BuildAction::Abort { error: TransportError::InvalidFileList { reason } },
            );
        },
    };
    let ghost plain = Seq::new(rows.len() as nat, |i: int| row_view(rows[i]));
    let files = match source_files(&rows) {
        Ok(files) => files,
        Err(MissingField { index, field }) => {
            proof {
                assert(gaps(plain)[index as int] == Some(field));
                assert forall|j: int| 0 <= j < index implies gaps(plain)[j] is None by {
                    assert(lacking(row_view(rows[j])) is None);
                }
                lemma_first_some_at(gaps(plain), index as int);
            }
            return (
                BuildState::EarlyExit,
                BuildAction::Abort { error: TransportError::IncompleteRow { index, field } },
            );
        },
    };
    proof {
        assert forall|j: int| 0 <= j < plain.len() implies gaps(plain)[j] is None by {
            assert(rows[j].path is Some && rows[j].content is Some);
        }
        lemma_first_some_none(gaps(plain));
    }
    if files.len() == 0 {
        return (BuildState::EarlyExit, BuildAction::Reply { result: BuildResult::no_files() });
    }
    proof {
        assert forall|j: int| 0 <= j < plain.len() implies files[j].path@ == plain[j].0->0
            && files[j].content@ == vstd::utf8::encode_utf8(plain[j].1->0) by {
            assert(rows[j].path is Some && rows[j].content is Some);
        }
    }
    match stage(&files) {
        Ok(workspace) => {
            proof {
                assert forall|j: int| 0 <= j < plain.len() implies faults(plain)[j] is None by {
                    assert(placement(files[j].path@) is Ok);
                }
                lemma_first_some_none(faults(plain));
                assert forall|j: int| 0 <= j < plain.len() implies workspace@[j]
                    == planned_writes(plain)[j] by {
                    assert(placement(files[j].path@) == Ok::<Seq<Seq<char>>, PathFault>(
                        workspace@[j].0,
                    ));
                    assert(workspace@[j].1 == files[j].content@);
                }
                assert(workspace@ =~= planned_writes(plain));
            }
            (BuildState::Staging, BuildAction::Stage { workspace })
        },
        Err(error) => {
            proof {
                assert(faults(plain)[error.index as int] == Some(error.fault));
                assert forall|j: int| 0 <= j < error.index implies faults(plain)[j] is None by {
                    assert(placement(files[j].path@) is Ok);
                }
                lemma_first_some_at(faults(plain), error.index as int);
            }
            (BuildState::EarlyExit, BuildAction::Abort { error: TransportError::UnsafePath { error } })
        },
    }
}

/// Looks for the artifact among `entries` from place `from` on.
fn seek(outcome: BuildOutcome, entries: Vec<String>, from: usize) -> (r: (BuildState, BuildAction))
    ensures
        (r.0@, r.1@) == seek_plan(outcome, entries@, from as int),
{
    match locate(&entries, from, ARTIFACT_EXTENSION, DEPFILE_MARKER) {
        Some(i) => {
            let name = entries[i].clone();
            (
                BuildState::Locating { outcome, entries, reading: Some(i) },
                BuildAction::Read { dir: String::from_str(OUTPUT_DIR), name },
            )
        },
        None => {
            let result = assemble(&outcome, None);
            (BuildState::Assembled, BuildAction::Reply { result })
        },
    }
}

/// Goes on after a run that ended with `outcome`.
fn ended(outcome: BuildOutcome) -> (r: (BuildState, BuildAction))
    ensures
        (r.0@, r.1@) == ended_plan(outcome),
{
    let entries: Vec<String> = Vec::new();
    assert(texts(entries@) =~= Seq::<Seq<char>>::empty());
    (
        BuildState::Locating { outcome, entries, reading: None },
        BuildAction::List { dir: String::from_str(OUTPUT_DIR) },
    )
}

/// Takes the build one step on: from `state`, told of `event`, to the next
/// state and the action that the caller is to perform. A build without
/// files ends at once, with nothing staged; a run whose deadline has passed
/// has its container removed before anything else is done; however the run
/// ended, the output directory is listed next; an event that the state was
/// not waiting for ends the build as a failure of the service. A run that
/// did not succeed is answered once the directory is listed, with nothing
/// read. The bytes of an artifact must be such that their base64 text has a
/// length that the machine can count.
pub fn step(config: &BuildConfig, state: BuildState, event: BuildEvent) -> (r: (
    BuildState,
    BuildAction,
))
    requires
        event matches BuildEvent::ArtifactRead { bytes } ==> base64_len(bytes@.len())
            <= usize::MAX,
    ensures
        (r.0@, r.1@) == transition(*config, state, event),
{
    match state {
        BuildState::Fetching => match event {
            BuildEvent::Fetched { body } => plan_from_rows(decode_file_rows(body.as_slice())),
            BuildEvent::FetchFailed { reason } => (
                BuildState::EarlyExit,
                BuildAction::Abort { error: TransportError::FetchFailed { reason } },
            ),
            _ => give_up(),
        },
        BuildState::Staging => match event {
            BuildEvent::Staged { workspace_dir, container } => {
                let args = run_args(
                    workspace_dir.as_str(),
                    container.as_str(),
                    config.runner_image(),
                    BUILD_SCRIPT,
                );
                (
                    BuildState::Building { container, expired: false },
                    BuildAction::Run { args, timeout_secs: config.timeout_secs() },
                )
            },
            BuildEvent::StagingFailed { step, reason } => (
                BuildState::EarlyExit,
                BuildAction::Abort { error: TransportError::StagingFailed { step, reason } },
            ),
            _ => give_up(),
        },
        BuildState::Building { container, expired } => if expired {
            match event {
                BuildEvent::ContainerRemoved => ended(
                    BuildOutcome::TimedOut { after_secs: config.timeout_secs() },
                ),
                _ => give_up(),
            }
        } else {
            match event {
                BuildEvent::Exited { succeeded, status, stdout, stderr } => ended(
                    BuildOutcome::Exited { succeeded, status, stdout, stderr },
                ),
                BuildEvent::LaunchFailed { reason } => ended(BuildOutcome::LaunchFailed { reason }),
                BuildEvent::DeadlineExpired => {
                    let args = remove_args(container.as_str());
                    (
                        BuildState::Building { container, expired: true },
                        BuildAction::RemoveContainer { args },
                    )
                },
                _ => give_up(),
            }
        },
        BuildState::Locating { outcome, entries, reading } => match reading {
            None => match event {
                BuildEvent::Listed { entries: listed } => if outcome.succeeded() {
                    seek(outcome, listed, 0)
                } else {
                    let result = assemble(&outcome, None);
                    (BuildState::Assembled, BuildAction::Reply { result })
                },
                _ => give_up(),
            },
            Some(at) => if at < entries.len() {
                match event {
                    BuildEvent::ArtifactRead { bytes } => {
                        let artifact = Artifact { filename: entries[at].clone(), bytes };
                        let result = assemble(&outcome, Some(&artifact));
                        (BuildState::Assembled, BuildAction::Reply { result })
                    },
                    BuildEvent::ArtifactUnreadable => seek(outcome, entries, at + 1),
                    _ => give_up(),
                }
            } else {
                give_up()
            },
        },
        BuildState::Assembled => give_up(),
        BuildState::EarlyExit => give_up(),
    }
}

} // verus!
