//! The environment provisioner: what is done to the environment before the
//! backend starts.
//!
//! An installed application carries the backend's dependency manifest among
//! its resources and copies it into the environment on every launch, over
//! whatever is there, so that a new version of the application brings its
//! dependencies with it. A development checkout already holds the manifest.
//! In both modes the dependencies are then synced.

use vstd::prelude::*;
use crate::paths::{join, path_join};

verus! {

/// The bundled backend directory, below the resource root.
pub const BUNDLE_DIRECTORY: &'static str = "api";

/// The file name of the dependency manifest.
pub const MANIFEST_FILE: &'static str = "pyproject.toml";

/// A file to copy, replacing the destination if it exists.
#[derive(Clone, Debug, PartialEq, Eq)]
pub struct FileCopy {
    pub from: String,
    pub to: String,
}

/// The mathematical value of a `FileCopy`.
pub ghost struct FileCopyView {
    pub from: Seq<char>,
    pub to: Seq<char>,
}

impl View for FileCopy {
    type V = FileCopyView;

    open spec fn view(&self) -> FileCopyView {
        FileCopyView { from: self.from@, to: self.to@ }
    }
}

/// The copy that brings the manifest from the bundle at `bundle` into the
/// project at `environment`.
pub open spec fn manifest_copy_of(environment: Seq<char>, bundle: Seq<char>) -> FileCopyView {
    FileCopyView {
        from: path_join(bundle, MANIFEST_FILE@),
        to: path_join(environment, MANIFEST_FILE@),
    }
}

/// Names the manifest in the bundle and its place in the environment. The copy
/// does not depend on whether the environment already holds a manifest.
pub fn manifest_copy(environment: &str, bundle: &str) -> (copy: FileCopy)
    ensures
        copy@ == manifest_copy_of(environment@, bundle@),
{
    FileCopy { from: join(bundle, MANIFEST_FILE), to: join(environment, MANIFEST_FILE) }
}

} // verus!
