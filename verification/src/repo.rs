//! Opening the working copy's repository, and mapping raw backend errors to
//! the dashboard's kinds.

use vstd::prelude::*;

use crate::errors::BackendError;
use crate::gitwrap;

verus! {

/// Turn a raw backend error into the dashboard's kind, by its code, class
/// and message.
pub(crate) fn backend_error_from(e: git2::Error) -> (r: BackendError) {
    let (code, class, message) = gitwrap::error_details(&e);
    BackendError::classified(code, class, message)
}

/// Open the repository at `path`.
pub(crate) fn open_repo(path: &str) -> (r: Result<git2::Repository, BackendError>) {
    match gitwrap::repo_open(path) {
        Ok(repo) => Ok(repo),
        Err(e) => Err(backend_error_from(e)),
    }
}

} // verus!
