//! What the supervisor asks of the host application, and what it is told.

use vstd::prelude::*;

verus! {

/// Whether the application runs from a development checkout or from an
/// installed package. The flag is fixed when the application is built.
#[derive(Clone, Copy, Debug, PartialEq, Eq, Structural)]
pub enum BuildMode {
    Development,
    Production,
}

/// A path that only the host can tell.
#[derive(Clone, Debug, PartialEq, Eq)]
pub enum HostPath {
    /// The working directory of the running process.
    WorkingDirectory,
    /// The data directory that is private to this installation.
    AppDataDirectory,
    /// A file or directory among the packaged resources, by its path below the
    /// resource root.
    Resource(String),
}

/// The mathematical value of a `HostPath`.
pub ghost enum HostPathView {
    WorkingDirectory,
    AppDataDirectory,
    Resource(Seq<char>),
}

impl View for HostPath {
    type V = HostPathView;

    open spec fn view(&self) -> HostPathView {
        match self {
            HostPath::WorkingDirectory => HostPathView::WorkingDirectory,
            HostPath::AppDataDirectory => HostPathView::AppDataDirectory,
            HostPath::Resource(path) => HostPathView::Resource(path@),
        }
    }
}

/// The host's answer to a request.
#[derive(Clone, Debug, PartialEq, Eq)]
pub enum Response {
    /// The requested path.
    Path(String),
    /// The requested copy was made, or the requested process was started.
    Done,
    /// The request failed, with the host's message.
    Failed(String),
}

/// The mathematical value of a `Response`.
pub ghost enum ResponseView {
    Path(Seq<char>),
    Done,
    Failed(Seq<char>),
}

impl View for Response {
    type V = ResponseView;

    open spec fn view(&self) -> ResponseView {
        match self {
            Response::Path(path) => ResponseView::Path(path@),
            Response::Done => ResponseView::Done,
            Response::Failed(reason) => ResponseView::Failed(reason@),
        }
    }
}

} // verus!
