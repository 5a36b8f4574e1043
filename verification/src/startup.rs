//! The startup sequence of the supervisor, as a state machine.
//!
//! Startup alternates between the supervisor deciding what is needed and the
//! host doing it: the supervisor hands out one `Step`, the host performs it
//! and reports a `Response`, and `advance` turns that into the next step. The
//! order is fixed: resolve the environment, bring it up to date, start the
//! backend, relay. Any failure aborts startup at once; no later step is taken
//! in a half-initialised state.
//!
//! The dependency sync is started and not waited for. Its `Done` response
//! says that the command runs, not that it has finished, so the backend may
//! start while the sync is still at work. With an environment that is already
//! up to date this costs nothing and the backend is reachable sooner.

use vstd::prelude::*;
use crate::command::{
    development_entry, development_entry_of, has_option, lemma_serve_line_binds_endpoint,
    serve_command, serve_line, sync_command, sync_line, CommandLine, SidecarCommand, BACKEND_HOST,
    BACKEND_PORT, BUNDLED_ENTRY,
};
use crate::environment::{
    environment_source, environment_source_of, located_view, resolve_environment_path,
    resolved_environment,
};
use crate::error::{Failure, StartupError, StartupErrorView};
use crate::host::{BuildMode, HostPath, HostPathView, Response, ResponseView};
use crate::paths::path_is_absolute;
use crate::provision::{manifest_copy, manifest_copy_of, FileCopy, FileCopyView, BUNDLE_DIRECTORY};

verus! {

/// What the host is to do next.
#[derive(Clone, Debug, PartialEq, Eq)]
pub enum Step {
    /// Tell this path. Answered with `Path` or `Failed`.
    Locate(HostPath),
    /// Copy this file over its destination. Answered with `Done` or `Failed`.
    Copy(FileCopy),
    /// Start the dependency sync and do not wait for it. Answered with `Done`
    /// once it runs, or `Failed`.
    Sync(SidecarCommand),
    /// Start the backend and keep its handles. Answered with `Done` or
    /// `Failed`.
    Launch(SidecarCommand),
    /// Startup is complete: relay the backend's output.
    Relay,
    /// Startup has failed: give up and surface the error.
    Abort(StartupError),
}

/// The mathematical value of a `Step`.
pub ghost enum StepView {
    Locate(HostPathView),
    Copy(FileCopyView),
    Sync(CommandLine),
    Launch(CommandLine),
    Relay,
    Abort(StartupErrorView),
}

impl View for Step {
    type V = StepView;

    open spec fn view(&self) -> StepView {
        match self {
            Step::Locate(path) => StepView::Locate(path@),
            Step::Copy(copy) => StepView::Copy(copy@),
            Step::Sync(command) => StepView::Sync(command@),
            Step::Launch(command) => StepView::Launch(command@),
            Step::Relay => StepView::Relay,
            Step::Abort(error) => StepView::Abort(error@),
        }
    }
}

/// Where startup stands: the request that is pending, with what later steps
/// will need.
#[derive(Clone, Debug, PartialEq, Eq)]
pub enum Startup {
    /// Waiting for the path the environment is derived from.
    Resolving { mode: BuildMode },
    /// Waiting for the bundled backend directory. Production only.
    LocatingBundle { environment: String },
    /// Waiting for the manifest to be copied. Production only.
    CopyingManifest { environment: String },
    /// Waiting for the dependency sync to be started.
    Syncing { mode: BuildMode, environment: String },
    /// Waiting for the bundled entry script. Production only.
    LocatingEntry { environment: String },
    /// Waiting for the backend to be started.
    Launching,
    /// The backend runs.
    Running,
    /// Startup was abandoned.
    Failed(StartupError),
}

/// The mathematical value of a `Startup`.
pub ghost enum StartupView {
    Resolving { mode: BuildMode },
    LocatingBundle { environment: Seq<char> },
    CopyingManifest { environment: Seq<char> },
    Syncing { mode: BuildMode, environment: Seq<char> },
    LocatingEntry { environment: Seq<char> },
    Launching,
    Running,
    Failed(StartupErrorView),
}

impl View for Startup {
    type V = StartupView;

    open spec fn view(&self) -> StartupView {
        match self {
            Startup::Resolving { mode } => StartupView::Resolving { mode: *mode },
            Startup::LocatingBundle { environment } => StartupView::LocatingBundle {
                environment: environment@,
            },
            Startup::CopyingManifest { environment } => StartupView::CopyingManifest {
                environment: environment@,
            },
            Startup::Syncing { mode, environment } => StartupView::Syncing {
                mode: *mode,
                environment: environment@,
            },
            Startup::LocatingEntry { environment } => StartupView::LocatingEntry {
                environment: environment@,
            },
            Startup::Launching => StartupView::Launching,
            Startup::Running => StartupView::Running,
            Startup::Failed(error) => StartupView::Failed(error@),
        }
    }
}

impl StartupView {
    /// A state is well formed if the environment path it holds is absolute
    /// and not empty.
    pub open spec fn well_formed(self) -> bool {
        match self {
            StartupView::LocatingBundle { environment }
            | StartupView::CopyingManifest { environment }
            | StartupView::Syncing { environment, .. }
            | StartupView::LocatingEntry { environment } => environment.len() > 0
                && path_is_absolute(environment),
            _ => true,
        }
    }
}

/// The first state and step: ask for the path the environment is derived from.
pub open spec fn initial(mode: BuildMode) -> (StartupView, StepView) {
    (StartupView::Resolving { mode }, StepView::Locate(environment_source_of(mode)))
}

/// Startup abandoned for `error`.
pub open spec fn aborted(error: StartupErrorView) -> (StartupView, StepView) {
    (StartupView::Failed(error), StepView::Abort(error))
}

/// Startup abandoned because the response does not answer the request.
pub open spec fn unexpected() -> (StartupView, StepView) {
    aborted(StartupErrorView { failure: Failure::UnexpectedResponse, detail: Seq::empty() })
}

/// What follows the resolution of the environment: in production the manifest
/// is fetched first, in development the sync starts at once.
pub open spec fn after_resolution(
    mode: BuildMode,
    outcome: Result<Seq<char>, StartupErrorView>,
) -> (StartupView, StepView) {
    match outcome {
        Ok(environment) => match mode {
            BuildMode::Development => (
                StartupView::Syncing { mode, environment },
                StepView::Sync(sync_line(environment)),
            ),
            BuildMode::Production => (
                StartupView::LocatingBundle { environment },
                StepView::Locate(HostPathView::Resource(BUNDLE_DIRECTORY@)),
            ),
        },
        Err(error) => aborted(error),
    }
}

/// The transition function: the state and step that follow `state` once the
/// host has answered its pending request with `response`.
pub open spec fn next(state: StartupView, response: ResponseView) -> (StartupView, StepView) {
    match state {
        StartupView::Resolving { mode } => match response {
            ResponseView::Path(located) => after_resolution(
                mode,
                resolved_environment(mode, Ok(located)),
            ),
            ResponseView::Failed(reason) => after_resolution(
                mode,
                resolved_environment(mode, Err(reason)),
            ),
            ResponseView::Done => unexpected(),
        },
        StartupView::LocatingBundle { environment } => match response {
            ResponseView::Path(bundle) => (
                StartupView::CopyingManifest { environment },
                StepView::Copy(manifest_copy_of(environment, bundle)),
            ),
            ResponseView::Failed(reason) => aborted(
                StartupErrorView { failure: Failure::BundleUnavailable, detail: reason },
            ),
            ResponseView::Done => unexpected(),
        },
        StartupView::CopyingManifest { environment } => match response {
            ResponseView::Done => (
                StartupView::Syncing { mode: BuildMode::Production, environment },
                StepView::Sync(sync_line(environment)),
            ),
            ResponseView::Failed(reason) => aborted(
                StartupErrorView { failure: Failure::ManifestCopyFailed, detail: reason },
            ),
            ResponseView::Path(_) => unexpected(),
        },
        StartupView::Syncing { mode, environment } => match response {
            ResponseView::Done => match mode {
                BuildMode::Development => (
                    StartupView::Launching,
                    StepView::Launch(serve_line(environment, development_entry_of(environment))),
                ),
                BuildMode::Production => (
                    StartupView::LocatingEntry { environment },
                    StepView::Locate(HostPathView::Resource(BUNDLED_ENTRY@)),
                ),
            },
            ResponseView::Failed(reason) => aborted(
                StartupErrorView { failure: Failure::SyncFailed, detail: reason },
            ),
            ResponseView::Path(_) => unexpected(),
        },
        StartupView::LocatingEntry { environment } => match response {
            ResponseView::Path(entry) => (
                StartupView::Launching,
                StepView::Launch(serve_line(environment, entry)),
            ),
            ResponseView::Failed(reason) => aborted(
                StartupErrorView { failure: Failure::EntryUnavailable, detail: reason },
            ),
            ResponseView::Done => unexpected(),
        },
        StartupView::Launching => match response {
            ResponseView::Done => (StartupView::Running, StepView::Relay),
            ResponseView::Failed(reason) => aborted(
                StartupErrorView { failure: Failure::LaunchFailed, detail: reason },
            ),
            ResponseView::Path(_) => unexpected(),
        },
        StartupView::Running => (StartupView::Running, StepView::Relay),
        StartupView::Failed(error) => aborted(error),
    }
}

/// Abandons startup for the given failure.
fn abort(failure: Failure, detail: String) -> (result: (Startup, Step))
    ensures
        (result.0@, result.1@) == aborted(StartupErrorView { failure, detail: detail@ }),
{
    let error = StartupError { failure, detail };
    let copy = error.duplicate();
    (Startup::Failed(copy), Step::Abort(error))
}

/// Abandons startup because the response does not answer the request.
fn reject() -> (result: (Startup, Step))
    ensures
        (result.0@, result.1@) == unexpected(),
{
    abort(Failure::UnexpectedResponse, String::new())
}

/// Resolves the environment from the host's first answer and decides what
/// follows.
fn resolve(mode: BuildMode, located: Result<String, String>) -> (result: (Startup, Step))
    ensures
        (result.0@, result.1@) == after_resolution(
            mode,
            resolved_environment(mode, located_view(located)),
        ),
        result.0@.well_formed(),
{
    match resolve_environment_path(mode, located) {
        Ok(environment) => match mode {
            BuildMode::Development => {
                let command = sync_command(environment.as_str());
                (Startup::Syncing { mode, environment }, Step::Sync(command))
            },
            BuildMode::Production => (
                Startup::LocatingBundle { environment },
                Step::Locate(HostPath::Resource(BUNDLE_DIRECTORY.to_owned())),
            ),
        },
        Err(error) => {
            let copy = error.duplicate();
            (Startup::Failed(copy), Step::Abort(error))
        },
    }
}

impl Startup {
    /// Begins startup: the first request is for the one path the environment
    /// is derived from, chosen by the build mode alone.
    pub fn begin(mode: BuildMode) -> (result: (Startup, Step))
        ensures
            (result.0@, result.1@) == initial(mode),
            result.0@.well_formed(),
    {
        (Startup::Resolving { mode }, Step::Locate(environment_source(mode)))
    }

    /// Takes the host's answer to the pending request and decides the next
    /// step.
    ///
    /// A `Failed` answer aborts startup with the failure of the step that was
    /// pending and the host's message. An answer of the wrong kind aborts it
    /// with `UnexpectedResponse`. Once startup is complete or abandoned, every
    /// further answer leaves the state as it is and repeats the last step.
    pub fn advance(self, response: Response) -> (result: (Startup, Step))
        ensures
            (result.0@, result.1@) == next(self@, response@),
            self@.well_formed() ==> result.0@.well_formed(),
    {
        match self {
            Startup::Resolving { mode } => match response {
                Response::Path(located) => resolve(mode, Ok(located)),
                Response::Failed(reason) => resolve(mode, Err(reason)),
                Response::Done => reject(),
            },
            Startup::LocatingBundle { environment } => match response {
                Response::Path(bundle) => {
                    let copy = manifest_copy(environment.as_str(), bundle.as_str());
                    (Startup::CopyingManifest { environment }, Step::Copy(copy))
                },
                Response::Failed(reason) => abort(Failure::BundleUnavailable, reason),
                Response::Done => reject(),
            },
            Startup::CopyingManifest { environment } => match response {
                Response::Done => {
                    let command = sync_command(environment.as_str());
                    (
                        Startup::Syncing { mode: BuildMode::Production, environment },
                        Step::Sync(command),
                    )
                },
                Response::Failed(reason) => abort(Failure::ManifestCopyFailed, reason),
                Response::Path(_) => reject(),
            },
            Startup::Syncing { mode, environment } => match response {
                Response::Done => match mode {
                    BuildMode::Development => {
                        let entry = development_entry(environment.as_str());
                        let command = serve_command(environment.as_str(), entry.as_str());
                        (Startup::Launching, Step::Launch(command))
                    },
                    BuildMode::Production => (
                        Startup::LocatingEntry { environment },
                        Step::Locate(HostPath::Resource(BUNDLED_ENTRY.to_owned())),
                    ),
                },
                Response::Failed(reason) => abort(Failure::SyncFailed, reason),
                Response::Path(_) => reject(),
            },
            Startup::LocatingEntry { environment } => match response {
                Response::Path(entry) => {
                    let command = serve_command(environment.as_str(), entry.as_str());
                    (Startup::Launching, Step::Launch(command))
                },
                Response::Failed(reason) => abort(Failure::EntryUnavailable, reason),
                Response::Done => reject(),
            },
            Startup::Launching => match response {
                Response::Done => (Startup::Running, Step::Relay),
                Response::Failed(reason) => abort(Failure::LaunchFailed, reason),
                Response::Path(_) => reject(),
            },
            Startup::Running => (Startup::Running, Step::Relay),
            Startup::Failed(error) => {
                let copy = error.duplicate();
                (Startup::Failed(copy), Step::Abort(error))
            },
        }
    }
}

/// Startup never holds an environment path that is empty or relative: a well
/// formed state is followed by a well formed state, whatever the host answers.
pub proof fn lemma_next_keeps_well_formed(state: StartupView, response: ResponseView)
    ensures
        state.well_formed() ==> next(state, response).0.well_formed(),
{
}

/// Whenever the backend is started, in either build mode, its command line
/// holds `--host 127.0.0.1` and `--port 60316`.
pub proof fn lemma_launch_binds_endpoint(state: StartupView, response: ResponseView)
    ensures
        next(state, response).1 matches StepView::Launch(command) ==> has_option(
            command.args,
            "--host"@,
            BACKEND_HOST@,
        ) && has_option(command.args, "--port"@, BACKEND_PORT@),
{
    match state {
        StartupView::Syncing { mode, environment } => {
            lemma_serve_line_binds_endpoint(environment, development_entry_of(environment));
        },
        StartupView::LocatingEntry { environment } => {
            match response {
                ResponseView::Path(entry) => {
                    lemma_serve_line_binds_endpoint(environment, entry);
                },
                _ => {},
            }
        },
        _ => {},
    }
}

} // verus!
