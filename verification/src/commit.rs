//! Commits as the dashboard shows them, and the backend operations that
//! create commits.

use vstd::prelude::*;

use crate::errors::BackendError;
use crate::gitwrap;
use crate::repo::{backend_error_from, open_repo};

verus! {

/// One history entry: a commit's id and its message.
#[derive(Clone, Debug, PartialEq, Eq)]
pub struct Commit {
    pub id: String,
    pub message: String,
}

impl Commit {
    pub fn get_id(&self) -> (s: &String)
        ensures
            *s == self.id,
    {
        &self.id
    }

    pub fn get_message(&self) -> (s: &String)
        ensures
            *s == self.message,
    {
        &self.message
    }
}

/// The signature the configuration gives: `user.name` and `user.email` from
/// the default configuration, each falling back to the empty string where it
/// is missing or not valid UTF-8 (the backend then refuses to sign).
fn signature() -> (r: Result<git2::Signature<'static>, BackendError>) {
    let config = match gitwrap::config_open_default() {
        Ok(config) => config,
        Err(e) => {
            return Err(backend_error_from(e));
        }
    };
    let name = match gitwrap::config_string(&config, "user.name") {
        Ok(name) => name,
        Err(_) => String::new(),
    };
    let email = match gitwrap::config_string(&config, "user.email") {
        Ok(email) => email,
        Err(_) => String::new(),
    };
    match gitwrap::signature_now(name.as_str(), email.as_str()) {
        Ok(signature) => Ok(signature),
        Err(e) => Err(backend_error_from(e)),
    }
}

/// Commit the index as the repository's first commit, with the message
/// `Initial commit` and no parent, moving HEAD to it.
pub fn create_initial_commit(repo_path: &str) -> (r: Result<(), BackendError>) {
    let repo = match open_repo(repo_path) {
        Ok(repo) => repo,
        Err(e) => {
            return Err(e);
        }
    };
    let signature = match signature() {
        Ok(signature) => signature,
        Err(e) => {
            return Err(e);
        }
    };
    let mut index = match gitwrap::repo_index(&repo) {
        Ok(index) => index,
        Err(e) => {
            return Err(backend_error_from(e));
        }
    };
    let tree_id = match gitwrap::index_write_tree(&mut index) {
        Ok(tree_id) => tree_id,
        Err(e) => {
            return Err(backend_error_from(e));
        }
    };
    let tree = match gitwrap::find_tree(&repo, &tree_id) {
        Ok(tree) => tree,
        Err(e) => {
            return Err(backend_error_from(e));
        }
    };
    match gitwrap::commit_on_head(&repo, &signature, "Initial commit", &tree, &None) {
        Ok(_) => Ok(()),
        Err(e) => Err(backend_error_from(e)),
    }
}

/// Commit the index with the given message, the commit HEAD points at as the
/// parent, moving HEAD to the new commit. Where HEAD has no direct target
/// (an unborn branch) nothing is committed.
pub fn commit(repo_path: &str, message: &str) -> (r: Result<(), BackendError>) {
    let repo = match open_repo(repo_path) {
        Ok(repo) => repo,
        Err(e) => {
            return Err(e);
        }
    };
    let signature = match signature() {
        Ok(signature) => signature,
        Err(e) => {
            return Err(e);
        }
    };
    let mut index = match gitwrap::repo_index(&repo) {
        Ok(index) => index,
        Err(e) => {
            return Err(backend_error_from(e));
        }
    };
    let tree_id = match gitwrap::index_write_tree(&mut index) {
        Ok(tree_id) => tree_id,
        Err(e) => {
            return Err(backend_error_from(e));
        }
    };
    let tree = match gitwrap::find_tree(&repo, &tree_id) {
        Ok(tree) => tree,
        Err(e) => {
            return Err(backend_error_from(e));
        }
    };
    let head_ref = match gitwrap::repo_head(&repo) {
        Ok(head_ref) => head_ref,
        Err(e) => {
            return Err(backend_error_from(e));
        }
    };
    match gitwrap::reference_target(&head_ref) {
        Some(parent) => match gitwrap::commit_on_head(
            &repo,
            &signature,
            message,
            &tree,
            &Some(parent),
        ) {
            Ok(_) => Ok(()),
            Err(e) => Err(backend_error_from(e)),
        },
        None => Ok(()),
    }
}

} // verus!
