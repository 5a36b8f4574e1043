//! Why startup was abandoned.

use vstd::prelude::*;

verus! {

/// The step of startup that failed.
#[derive(Clone, Copy, Debug, PartialEq, Eq, Structural)]
pub enum Failure {
    /// The host could not tell the directory the environment is derived from.
    EnvironmentUnavailable,
    /// The directory derived for the environment is empty or not absolute.
    EnvironmentNotAbsolute,
    /// The host could not locate the bundled backend directory.
    BundleUnavailable,
    /// The bundled manifest could not be copied into the environment.
    ManifestCopyFailed,
    /// The dependency sync could not be started.
    SyncFailed,
    /// The host could not locate the bundled entry script.
    EntryUnavailable,
    /// The backend could not be started.
    LaunchFailed,
    /// The host answered with something the pending request cannot be
    /// answered with.
    UnexpectedResponse,
}

/// The family a failure belongs to. Every family is fatal to startup: nothing
/// is retried and no later step is attempted.
#[derive(Clone, Copy, Debug, PartialEq, Eq, Structural)]
pub enum FailureClass {
    /// The environment path could not be determined.
    Resolution,
    /// The environment could not be brought up to date.
    Provisioning,
    /// The backend process could not be started.
    Spawn,
    /// The host did not follow the request it was given.
    Protocol,
}

impl Failure {
    pub open spec fn class_of(self) -> FailureClass {
        match self {
            Failure::EnvironmentUnavailable | Failure::EnvironmentNotAbsolute => FailureClass::Resolution,
            Failure::BundleUnavailable | Failure::ManifestCopyFailed | Failure::SyncFailed => FailureClass::Provisioning,
            Failure::EntryUnavailable | Failure::LaunchFailed => FailureClass::Spawn,
            Failure::UnexpectedResponse => FailureClass::Protocol,
        }
    }

    /// The family of this failure.
    pub fn class(self) -> (class: FailureClass)
        ensures
            class == self.class_of(),
    {
        match self {
            Failure::EnvironmentUnavailable => FailureClass::Resolution,
            Failure::EnvironmentNotAbsolute => FailureClass::Resolution,
            Failure::BundleUnavailable => FailureClass::Provisioning,
            Failure::ManifestCopyFailed => FailureClass::Provisioning,
            Failure::SyncFailed => FailureClass::Provisioning,
            Failure::EntryUnavailable => FailureClass::Spawn,
            Failure::LaunchFailed => FailureClass::Spawn,
            Failure::UnexpectedResponse => FailureClass::Protocol,
        }
    }
}

/// A failed startup: what failed, and the detail that came with it. The detail
/// is the host's own message where the host reported the failure, the rejected
/// path for `EnvironmentNotAbsolute`, and empty for `UnexpectedResponse`.
#[derive(Clone, Debug, PartialEq, Eq)]
pub struct StartupError {
    pub failure: Failure,
    pub detail: String,
}

/// The mathematical value of a `StartupError`.
pub ghost struct StartupErrorView {
    pub failure: Failure,
    pub detail: Seq<char>,
}

impl View for StartupError {
    type V = StartupErrorView;

    open spec fn view(&self) -> StartupErrorView {
        StartupErrorView { failure: self.failure, detail: self.detail@ }
    }
}

impl StartupErrorView {
    /// The text that describes the error to an operator.
    pub open spec fn message(self) -> Seq<char> {
        match self.failure {
            Failure::EnvironmentNotAbsolute => "environment path is not absolute: "@ + self.detail,
            Failure::UnexpectedResponse => "the host answered out of turn"@,
            _ => self.detail,
        }
    }
}

impl StartupError {
    /// Describes the error to an operator: the host's own message where the
    /// host reported the failure, and a sentence of this crate otherwise.
    pub fn message(&self) -> (text: String)
        ensures
            text@ == self@.message(),
    {
        match self.failure {
            Failure::EnvironmentNotAbsolute => {
                let mut text = "environment path is not absolute: ".to_owned();
                text.append(self.detail.as_str());
                text
            },
            Failure::UnexpectedResponse => "the host answered out of turn".to_owned(),
            _ => self.detail.clone(),
        }
    }

    /// A copy of this error.
    pub fn duplicate(&self) -> (copy: StartupError)
        ensures
            copy@ == self@,
    {
        StartupError { failure: self.failure, detail: self.detail.clone() }
    }
}

} // verus!
