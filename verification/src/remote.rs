//! Backend operations on remotes — listing them and adding one — and the
//! pure pieces of a push: the progress percentage and the refspec.

use vstd::prelude::*;
use vstd::string::StringExecFns;

use crate::errors::BackendError;
use crate::gitwrap;
use crate::repo::{backend_error_from, open_repo};

verus! {

/// Add a remote under the given name and URL.
pub fn add_remote(repo_path: &str, name: &str, url: &str) -> (r: Result<(), BackendError>) {
    let repo = match open_repo(repo_path) {
        Ok(repo) => repo,
        Err(e) => {
            return Err(e);
        }
    };
    match gitwrap::remote_add(&repo, name, url) {
        Ok(()) => Ok(()),
        Err(e) => Err(backend_error_from(e)),
    }
}

/// Turn raw remote names into the list the dashboard shows: on success all
/// of them, in order; a name that is not valid UTF-8 refuses the whole list
/// as an invalid-encoding error.
pub fn names_from(raw: &Vec<Option<String>>) -> (r: Result<Vec<String>, BackendError>)
    ensures
        r matches Ok(v) ==> {
            &&& v@.len() == raw@.len()
            &&& forall|j: int|
                0 <= j < raw@.len() ==> (#[trigger] raw@[j]) is Some && v@[j] == raw@[j]->Some_0
        },
        r is Err ==> r == Err::<Vec<String>, BackendError>(BackendError::InvalidEncoding) && (
        exists|j: int| 0 <= j < raw@.len() && (#[trigger] raw@[j]) is None),
{
    let mut names: Vec<String> = Vec::new();
    let mut i: usize = 0;
    while i < raw.len()
        invariant
            i <= raw@.len(),
            names@.len() == i,
            forall|j: int|
                0 <= j < i ==> (#[trigger] raw@[j]) is Some && names@[j] == raw@[j]->Some_0,
        decreases raw@.len() - i,
    {
        match &raw[i] {
            Some(name) => names.push(name.clone()),
            None => {
                return Err(BackendError::InvalidEncoding);
            }
        }
        i = i + 1;
    }
    Ok(names)
}

/// The configured remote names, converted by `names_from`. A remote whose
/// name is not valid UTF-8 is reported as an invalid-encoding error.
pub fn get_remotes(repo_path: &str) -> (r: Result<Vec<String>, BackendError>) {
    let repo = match open_repo(repo_path) {
        Ok(repo) => repo,
        Err(e) => {
            return Err(e);
        }
    };
    let raw = match gitwrap::remote_names(&repo) {
        Ok(raw) => raw,
        Err(e) => {
            return Err(backend_error_from(e));
        }
    };
    names_from(&raw)
}

/// The percentage a push-transfer progress report shows: `current` objects
/// pushed out of `total`, in percent, rounded down; 100 where the total is
/// zero or already reached.
pub fn progress_percent(current: usize, total: usize) -> (p: u8)
    ensures
        current >= total ==> p == 100,
        current < total ==> p as int == current as int * 100 / total as int,
        p <= 100,
{
    if current >= total {
        return 100;
    }
    let percent = (current as u128) * 100 / (total as u128);
    proof {
        let c = current as int;
        let t = total as int;
        assert(c * 100 / t < 100 && c * 100 >= 0) by (nonlinear_arith)
            requires
                0 <= c,
                c < t,
        {
        }
    }
    percent as u8
}

/// The refspec a push sends: `refs/heads/` followed by the branch name.
pub fn head_refspec(branch: &str) -> (r: String)
    ensures
        r@ == "refs/heads/"@ + branch@,
{
    let mut refspec = String::from_str("refs/heads/");
    refspec.append(branch);
    refspec
}

/// The remote a push goes to: the first configured remote, or none where the
/// repository has no remote yet.
pub fn first_remote(repo_path: &str) -> (r: Result<Option<String>, BackendError>) {
    let mut names = match get_remotes(repo_path) {
        Ok(names) => names,
        Err(e) => {
            return Err(e);
        }
    };
    if names.len() == 0 {
        Ok(None)
    } else {
        Ok(Some(names.remove(0)))
    }
}

} // verus!
