//! The environment resolver: where the backend project lives.
//!
//! In development the backend is the directory `api` beside the directory the
//! application is started from. In production it is the data directory that
//! the host keeps for this installation. Either way the result is an absolute,
//! non-empty path, or startup fails.

use vstd::prelude::*;
use crate::error::{Failure, StartupError, StartupErrorView};
use crate::host::{BuildMode, HostPath, HostPathView};
use crate::paths::{is_absolute, join, parent_of, path_is_absolute, path_join, path_parent};

verus! {

/// The name of the backend's directory beside a development checkout.
pub const BACKEND_DIRECTORY: &'static str = "api";

/// The one path the resolver asks the host for.
pub open spec fn environment_source_of(mode: BuildMode) -> HostPathView {
    match mode {
        BuildMode::Development => HostPathView::WorkingDirectory,
        BuildMode::Production => HostPathView::AppDataDirectory,
    }
}

/// The directory derived from the host's answer, before it is checked.
pub open spec fn environment_candidate_of(mode: BuildMode, located: Seq<char>) -> Seq<char> {
    match mode {
        BuildMode::Development => path_join(path_parent(located), BACKEND_DIRECTORY@),
        BuildMode::Production => located,
    }
}

/// The verdict on a derived directory, given whether it is absolute.
pub open spec fn checked_environment(
    candidate: Seq<char>,
    absolute: bool,
) -> Result<Seq<char>, StartupErrorView> {
    if absolute && candidate.len() > 0 {
        Ok(candidate)
    } else {
        Err(StartupErrorView { failure: Failure::EnvironmentNotAbsolute, detail: candidate })
    }
}

/// The environment path for a build mode and the host's answer.
pub open spec fn resolved_environment(
    mode: BuildMode,
    located: Result<Seq<char>, Seq<char>>,
) -> Result<Seq<char>, StartupErrorView> {
    match located {
        Ok(path) => checked_environment(
            environment_candidate_of(mode, path),
            path_is_absolute(environment_candidate_of(mode, path)),
        ),
        Err(reason) => Err(
            StartupErrorView { failure: Failure::EnvironmentUnavailable, detail: reason },
        ),
    }
}

/// The mathematical value of a resolver result.
pub open spec fn outcome_view(
    outcome: Result<String, StartupError>,
) -> Result<Seq<char>, StartupErrorView> {
    match outcome {
        Ok(path) => Ok(path@),
        Err(error) => Err(error@),
    }
}

/// The mathematical value of a host answer to a path request.
pub open spec fn located_view(located: Result<String, String>) -> Result<Seq<char>, Seq<char>> {
    match located {
        Ok(path) => Ok(path@),
        Err(reason) => Err(reason@),
    }
}

/// Which path the host is asked for: the working directory in development,
/// the private data directory in production. Nothing but the mode decides.
pub fn environment_source(mode: BuildMode) -> (source: HostPath)
    ensures
        source@ == environment_source_of(mode),
{
    match mode {
        BuildMode::Development => HostPath::WorkingDirectory,
        BuildMode::Production => HostPath::AppDataDirectory,
    }
}

/// Derives the environment directory from the host's answer: in development
/// the directory `api` beside the working directory, in production the answer
/// itself.
pub fn environment_candidate(mode: BuildMode, located: &str) -> (candidate: String)
    ensures
        candidate@ == environment_candidate_of(mode, located@),
{
    match mode {
        BuildMode::Development => {
            let parent = parent_of(located);
            join(parent.as_str(), BACKEND_DIRECTORY)
        },
        BuildMode::Production => located.to_owned(),
    }
}

/// Accepts a derived directory as the environment path if it is absolute and
/// not empty, and rejects it otherwise, handing the rejected path back in the
/// error.
pub fn check_environment_path(
    candidate: String,
    absolute: bool,
) -> (outcome: Result<String, StartupError>)
    ensures
        outcome_view(outcome) == checked_environment(candidate@, absolute),
{
    if absolute && !candidate.as_str().is_empty() {
        Ok(candidate)
    } else {
        Err(StartupError { failure: Failure::EnvironmentNotAbsolute, detail: candidate })
    }
}

/// Resolves the environment path from the host's answer to
/// `environment_source(mode)`.
///
/// Succeeds exactly when the host answered with a path and the directory
/// derived from it is absolute and not empty. A failure of the host is
/// surfaced as `EnvironmentUnavailable` with the host's message; a derived
/// directory that is empty or relative as `EnvironmentNotAbsolute`. There is
/// no default to fall back to.
pub fn resolve_environment_path(
    mode: BuildMode,
    located: Result<String, String>,
) -> (outcome: Result<String, StartupError>)
    ensures
        outcome_view(outcome) == resolved_environment(mode, located_view(located)),
        outcome matches Ok(path) ==> path@.len() > 0 && path_is_absolute(path@),
{
    match located {
        Ok(path) => {
            let candidate = environment_candidate(mode, path.as_str());
            let absolute = is_absolute(candidate.as_str());
            check_environment_path(candidate, absolute)
        },
        Err(reason) => Err(StartupError { failure: Failure::EnvironmentUnavailable, detail: reason }),
    }
}

/// Every resolved environment path is absolute and not empty, whatever the
/// build mode and whatever the host answered.
pub proof fn lemma_resolved_environment_is_absolute(
    mode: BuildMode,
    located: Result<Seq<char>, Seq<char>>,
)
    ensures
        resolved_environment(mode, located) matches Ok(path) ==> path.len() > 0
            && path_is_absolute(path),
{
}

} // verus!
