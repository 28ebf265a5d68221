//! Errors that the synchronization core reports. Path errors come from
//! resolving an entry against the source root or from a relative path that
//! has no parent component; I/O errors wrap a failure reported back by the
//! shell that performs filesystem work, together with the path it concerns.

use vstd::prelude::*;
use crate::paths::FsPath;

verus! {

/// One failure of the synchronization core.
///
/// The first two variants are path errors and are raised by the core itself;
/// the `Io` variant wraps a failure of filesystem work done on the core's
/// behalf, keeping the path it concerns as `context` and the reported reason
/// as `detail`. Rendering a message from these values is left to the caller.
#[derive(Debug)]
pub enum FsError {
    /// The entry's path does not lie under the source root.
    PathNotUnderRoot { path: FsPath, root: FsPath },
    /// The relative path has no parent component (it names the root itself).
    PathNoParent { path: FsPath },
    /// Filesystem work failed; `context` names the path worked on.
    Io { context: FsPath, detail: Vec<u8> },
}

/// The mathematical value of an error: the same shape over sequences.
pub enum ErrorView {
    PathNotUnderRoot { path: Seq<Seq<u8>>, root: Seq<Seq<u8>> },
    PathNoParent { path: Seq<Seq<u8>> },
    Io { context: Seq<Seq<u8>>, detail: Seq<u8> },
}

impl View for FsError {
    type V = ErrorView;

    open spec fn view(&self) -> ErrorView {
        match self {
            FsError::PathNotUnderRoot { path, root } => ErrorView::PathNotUnderRoot {
                path: path@,
                root: root@,
            },
            FsError::PathNoParent { path } => ErrorView::PathNoParent { path: path@ },
            FsError::Io { context, detail } => ErrorView::Io {
                context: context@,
                detail: detail@,
            },
        }
    }
}

impl FsError {
    /// Whether this error is a path error (as opposed to a wrapped I/O
    /// failure).
    pub open spec fn spec_is_path_error(&self) -> bool {
        self is PathNotUnderRoot || self is PathNoParent
    }

    /// A copy of this error.
    pub fn clone_err(&self) -> (r: FsError)
        ensures
            r@ == self@,
    {
        match self {
            FsError::PathNotUnderRoot { path, root } => FsError::PathNotUnderRoot {
                path: path.clone_path(),
                root: root.clone_path(),
            },
            FsError::PathNoParent { path } => FsError::PathNoParent { path: path.clone_path() },
            FsError::Io { context, detail } => FsError::Io {
                context: context.clone_path(),
                detail: crate::paths::clone_bytes(detail),
            },
        }
    }

    /// Whether this error is a path error.
    pub fn is_path_error(&self) -> (r: bool)
        ensures
            r == self.spec_is_path_error(),
    {
        match self {
            FsError::PathNotUnderRoot { .. } => true,
            FsError::PathNoParent { .. } => true,
            FsError::Io { .. } => false,
        }
    }
}

} // verus!
