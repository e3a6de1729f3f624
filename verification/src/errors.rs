//! The error taxonomy of the dashboard, and the classification of raw
//! backend error codes into it.

use vstd::prelude::*;

verus! {

/// A failure reported by the version-control backend, reduced to the kinds
/// the dashboard distinguishes.
#[derive(Clone, Debug, PartialEq, Eq)]
pub enum BackendError {
    /// A repository, reference or object could not be found.
    NotFound,
    /// The remote rejected the credentials.
    AuthFailure,
    /// The network, TLS or SSH transport failed.
    NetworkFailure,
    /// The remote refused a non-fast-forward reference update.
    RejectedUpdate,
    /// Conflicts or uncommitted changes in the working tree prevented the
    /// operation.
    DirtyWorkingTree,
    /// A name in the repository is not valid UTF-8.
    InvalidEncoding,
    /// Any other backend failure, with its message.
    Other(String),
}

/// What a user-visible error dialog reports.
#[derive(Clone, Debug, PartialEq, Eq)]
pub enum ErrorType {
    /// A backend failure.
    GitError(BackendError),
    /// An explicit no on a prompt, e.g. declining to initialize a repository.
    UserRejected,
    /// A failure with only a message.
    Unknown(String),
}

impl BackendError {
    /// An owned copy equal to `self`.
    pub fn duplicate(&self) -> (r: BackendError)
        ensures
            r == *self,
    {
        match self {
            BackendError::NotFound => BackendError::NotFound,
            BackendError::AuthFailure => BackendError::AuthFailure,
            BackendError::NetworkFailure => BackendError::NetworkFailure,
            BackendError::RejectedUpdate => BackendError::RejectedUpdate,
            BackendError::DirtyWorkingTree => BackendError::DirtyWorkingTree,
            BackendError::InvalidEncoding => BackendError::InvalidEncoding,
            BackendError::Other(s) => BackendError::Other(s.clone()),
        }
    }

    /// How a raw libgit2 error code and error class map to a kind.
    ///
    /// The codes are libgit2's `git_error_code` values: -16 authentication,
    /// -11 non-fast-forward, -3 not found, -9 unborn branch, -13 checkout
    /// conflict, -22 uncommitted changes, -24 merge conflict. The classes are
    /// `git_error_t` values: 12 net, 16 ssl, 23 ssh, 34 http.
    pub open spec fn spec_classified(code: int, class: int, message: String) -> BackendError {
        if code == -16 {
            BackendError::AuthFailure
        } else if code == -11 {
            BackendError::RejectedUpdate
        } else if code == -3 || code == -9 {
            BackendError::NotFound
        } else if code == -13 || code == -22 || code == -24 {
            BackendError::DirtyWorkingTree
        } else if class == 12 || class == 16 || class == 23 || class == 34 {
            BackendError::NetworkFailure
        } else {
            BackendError::Other(message)
        }
    }

    /// Classify a raw backend error, given its `git_error_code` value, its
    /// `git_error_t` class value, and its message.
    pub fn classified(code: i32, class: i32, message: String) -> (e: BackendError)
        ensures
            e == BackendError::spec_classified(code as int, class as int, message),
    {
        if code == -16 {
            BackendError::AuthFailure
        } else if code == -11 {
            BackendError::RejectedUpdate
        } else if code == -3 || code == -9 {
            BackendError::NotFound
        } else if code == -13 || code == -22 || code == -24 {
            BackendError::DirtyWorkingTree
        } else if class == 12 || class == 16 || class == 23 || class == 34 {
            BackendError::NetworkFailure
        } else {
            BackendError::Other(message)
        }
    }
}

} // verus!
