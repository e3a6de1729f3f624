//! Branches as the dashboard shows them, and the backend operations on them.

use vstd::prelude::*;
use vstd::string::StringExecFns;

use crate::commit::Commit;
use crate::errors::BackendError;
use crate::gitwrap;
use crate::repo::{backend_error_from, open_repo};
use crate::text::{chars_of_str, string_of_chars};

verus! {

/// Whether a branch is local or tracks a remote.
#[derive(Clone, Copy, Debug, PartialEq, Eq, Structural)]
pub enum BranchKind {
    Local,
    Remote,
}

/// One branch: its short name, its kind, and the commit it points at.
#[derive(Clone, Debug, PartialEq, Eq)]
pub struct Branch {
    pub name: String,
    pub branch_type: BranchKind,
    pub last_commit: Commit,
}

/// The short name of the branch HEAD points at. A name that is not valid
/// UTF-8 is reported as an invalid-encoding error.
pub fn head(repo_path: &str) -> (r: Result<String, BackendError>) {
    let repo = match open_repo(repo_path) {
        Ok(repo) => repo,
        Err(e) => {
            return Err(e);
        }
    };
    let head_ref = match gitwrap::repo_head(&repo) {
        Ok(head_ref) => head_ref,
        Err(e) => {
            return Err(backend_error_from(e));
        }
    };
    match gitwrap::reference_shorthand(&head_ref) {
        Some(name) => Ok(name),
        None => Err(BackendError::InvalidEncoding),
    }
}

/// Split a qualified remote branch name at its first `/`: the part before it
/// is the remote's name; the rest, with every further `/` removed, is the
/// local branch name. Without any `/` the whole input is the remote's name
/// and the local name is empty.
pub fn split_remote_branch(s: &str) -> (r: (String, String))
    ensures
        r.0@.len() <= s@.len(),
        r.0@ == s@.subrange(0, r.0@.len() as int),
        forall|j: int| 0 <= j < r.0@.len() ==> s@[j] != '/',
        r.0@.len() < s@.len() ==> s@[r.0@.len() as int] == '/',
        r.1@ == if r.0@.len() == s@.len() {
            Seq::<char>::empty()
        } else {
            s@.subrange(r.0@.len() + 1int, s@.len() as int).filter(|c: char| c != '/')
        },
{
    let chars = chars_of_str(s);
    let n = chars.len();
    let mut i: usize = 0;
    while i < n && chars[i] != '/'
        invariant
            n == chars@.len(),
            i <= n,
            forall|j: int| 0 <= j < i ==> chars@[j] != '/',
        decreases n - i,
    {
        i = i + 1;
    }
    let mut remote_chars: Vec<char> = Vec::new();
    let mut j: usize = 0;
    while j < i
        invariant
            i <= n,
            n == chars@.len(),
            j <= i,
            remote_chars@ == chars@.subrange(0, j as int),
        decreases i - j,
    {
        remote_chars.push(chars[j]);
        proof {
            assert(remote_chars@ =~= chars@.subrange(0, j + 1));
        }
        j = j + 1;
    }
    let mut name_chars: Vec<char> = Vec::new();
    if i < n {
        let mut k: usize = i + 1;
        while k < n
            invariant
                i < n,
                n == chars@.len(),
                i + 1 <= k <= n,
                name_chars@ == chars@.subrange(i + 1, k as int).filter(|c: char| c != '/'),
            decreases n - k,
        {
            let c = chars[k];
            proof {
                reveal_with_fuel(Seq::<char>::filter, 2);
                assert(chars@.subrange(i + 1, k + 1).drop_last() =~= chars@.subrange(
                    i + 1,
                    k as int,
                ));
                assert(chars@.subrange(i + 1, k + 1).last() == chars@[k as int]);
            }
            if c != '/' {
                name_chars.push(c);
            }
            k = k + 1;
        }
    }
    proof {
        assert(remote_chars@ =~= s@.subrange(0, i as int));
        if i < n {
            assert(chars@.subrange(i + 1, n as int) =~= s@.subrange(i + 1, s@.len() as int));
        }
    }
    (string_of_chars(&remote_chars), string_of_chars(&name_chars))
}

/// Make the working tree and HEAD match the named local branch (or, failing
/// a reference, the commit the name resolves to, leaving HEAD detached).
pub fn checkout_local_branch(repo_path: &str, branch_name: &str) -> (r: Result<(), BackendError>) {
    let repo = match open_repo(repo_path) {
        Ok(repo) => repo,
        Err(e) => {
            return Err(e);
        }
    };
    let (object, reference) = match gitwrap::revparse_ext(&repo, branch_name) {
        Ok(found) => found,
        Err(e) => {
            return Err(backend_error_from(e));
        }
    };
    if let Err(e) = gitwrap::checkout_tree_default(&repo, &object) {
        return Err(backend_error_from(e));
    }
    match reference {
        Some(gref) => {
            let name = match gitwrap::reference_name(&gref) {
                Some(name) => name,
                None => {
                    return Err(BackendError::InvalidEncoding);
                }
            };
            match gitwrap::set_head(&repo, name.as_str()) {
                Ok(()) => Ok(()),
                Err(e) => Err(backend_error_from(e)),
            }
        }
        None => {
            let oid = gitwrap::object_id(&object);
            match gitwrap::set_head_detached(&repo, &oid) {
                Ok(()) => Ok(()),
                Err(e) => Err(backend_error_from(e)),
            }
        }
    }
}

/// Create a local branch for the named remote branch, check it out, and set
/// its upstream. Refused when a local branch of that name already exists.
pub fn checkout_remote_branch(repo_path: &str, remote_branch_name: &str) -> (r: Result<
    (),
    BackendError,
>) {
    let repo = match open_repo(repo_path) {
        Ok(repo) => repo,
        Err(e) => {
            return Err(e);
        }
    };
    let (remote_name, name) = split_remote_branch(remote_branch_name);
    if gitwrap::local_branch_lookup(&repo, name.as_str()).is_ok() {
        return Err(BackendError::Other(String::from_str("local branch already exists")));
    }
    let (object, _reference) = match gitwrap::revparse_ext(&repo, remote_branch_name) {
        Ok(found) => found,
        Err(e) => {
            return Err(backend_error_from(e));
        }
    };
    let target = match gitwrap::object_commit_id(&object) {
        Some(oid) => oid,
        None => {
            return Err(BackendError::Other(String::from_str("object is not a commit")));
        }
    };
    if let Err(e) = gitwrap::create_branch_at(&repo, name.as_str(), &target, false) {
        return Err(backend_error_from(e));
    }
    let (object, reference) = match gitwrap::revparse_ext(&repo, name.as_str()) {
        Ok(found) => found,
        Err(e) => {
            return Err(backend_error_from(e));
        }
    };
    if let Err(e) = gitwrap::checkout_tree_default(&repo, &object) {
        return Err(backend_error_from(e));
    }
    let head_set = match reference {
        Some(gref) => {
            let refname = match gitwrap::reference_name(&gref) {
                Some(refname) => refname,
                None => {
                    return Err(BackendError::InvalidEncoding);
                }
            };
            gitwrap::set_head(&repo, refname.as_str())
        }
        None => {
            let oid = gitwrap::object_id(&object);
            gitwrap::set_head_detached(&repo, &oid)
        }
    };
    if let Err(e) = head_set {
        return Err(backend_error_from(e));
    }
    set_upstream_branch(repo_path, remote_name.as_str(), name.as_str())
}

/// Delete the named local branch.
pub fn delete_branch(repo_path: &str, branch_name: &str) -> (r: Result<(), BackendError>) {
    let repo = match open_repo(repo_path) {
        Ok(repo) => repo,
        Err(e) => {
            return Err(e);
        }
    };
    match gitwrap::local_branch_delete(&repo, branch_name) {
        Ok(()) => Ok(()),
        Err(e) => Err(backend_error_from(e)),
    }
}

/// All local and remote branches, local ones first, each with the commit it
/// points at. A branch name or commit message that is not valid UTF-8 is
/// reported as an invalid-encoding error; a branch that does not point at a
/// commit directly is reported as not found.
///
/// Whatever the backend returned: on success the local branches precede the
/// remote ones (once a remote branch appears, everything after it is remote),
/// and every entry carries a 40-digit commit id.
pub fn get_branches(repo_path: &str) -> (r: Result<Vec<Branch>, BackendError>)
    ensures
        r matches Ok(v) ==> forall|i: int, j: int|
            0 <= i < j < v@.len() && (#[trigger] v@[i]).branch_type is Remote ==> (
            #[trigger] v@[j]).branch_type is Remote,
        r matches Ok(v) ==> forall|j: int|
            0 <= j < v@.len() ==> (#[trigger] v@[j]).last_commit.id@.len() == 40,
{
    let repo = match open_repo(repo_path) {
        Ok(repo) => repo,
        Err(e) => {
            return Err(e);
        }
    };
    let locals = match gitwrap::branch_entries(&repo, true) {
        Ok(locals) => locals,
        Err(e) => {
            return Err(backend_error_from(e));
        }
    };
    let remotes = match gitwrap::branch_entries(&repo, false) {
        Ok(remotes) => remotes,
        Err(e) => {
            return Err(backend_error_from(e));
        }
    };
    let mut branch_list: Vec<Branch> = Vec::new();
    match collect_branches(&repo, &locals, BranchKind::Local, &mut branch_list) {
        Ok(()) => {}
        Err(e) => {
            return Err(e);
        }
    }
    let ghost local_count = branch_list@.len();
    match collect_branches(&repo, &remotes, BranchKind::Remote, &mut branch_list) {
        Ok(()) => {}
        Err(e) => {
            return Err(e);
        }
    }
    proof {
        assert forall|i: int, j: int|
            0 <= i < j < branch_list@.len() && (#[trigger] branch_list@[i]).branch_type is Remote
                implies (#[trigger] branch_list@[j]).branch_type is Remote by {
            assert(i >= local_count);
        }
    }
    Ok(branch_list)
}

/// Resolve one batch of raw branch entries and append them to `out`: on
/// success exactly one branch per entry, in order, carrying the entry's name,
/// the given kind and the 40-digit form of the entry's commit id; an entry
/// without a name (not valid UTF-8) or without a direct target refuses the
/// whole batch.
fn collect_branches(
    repo: &git2::Repository,
    entries: &Vec<(Option<String>, Option<git2::Oid>)>,
    kind: BranchKind,
    out: &mut Vec<Branch>,
) -> (r: Result<(), BackendError>)
    ensures
        r is Ok ==> final(out)@.len() == old(out)@.len() + entries@.len(),
        forall|j: int| 0 <= j < old(out)@.len() ==> final(out)@[j] == old(out)@[j],
        r is Ok ==> forall|j: int|
            0 <= j < entries@.len() ==> {
                let b = final(out)@[old(out)@.len() + j];
                &&& (#[trigger] entries@[j]).0 is Some
                &&& entries@[j].1 is Some
                &&& b.name == entries@[j].0->Some_0
                &&& b.branch_type == kind
                &&& b.last_commit.id@.len() == 40
            },
        forall|j: int|
            old(out)@.len() <= j < final(out)@.len() ==> (#[trigger] final(out)@[j]).branch_type
                == kind,
        forall|j: int|
            old(out)@.len() <= j < final(out)@.len()
                ==> (#[trigger] final(out)@[j]).last_commit.id@.len() == 40,
{
    let mut i: usize = 0;
    while i < entries.len()
        invariant
            out@.len() == old(out)@.len() + i,
            i <= entries@.len(),
            forall|j: int| 0 <= j < old(out)@.len() ==> out@[j] == old(out)@[j],
            forall|j: int|
                0 <= j < i ==> {
                    let b = out@[old(out)@.len() + j];
                    &&& (#[trigger] entries@[j]).0 is Some
                    &&& entries@[j].1 is Some
                    &&& b.name == entries@[j].0->Some_0
                    &&& b.last_commit.id@.len() == 40
                },
            forall|j: int|
                old(out)@.len() <= j < out@.len() ==> (#[trigger] out@[j]).branch_type == kind,
            forall|j: int|
                old(out)@.len() <= j < out@.len() ==> (#[trigger] out@[j]).last_commit.id@.len()
                    == 40,
        decreases entries@.len() - i,
    {
        let name = match &entries[i].0 {
            Some(name) => name.clone(),
            None => {
                return Err(BackendError::InvalidEncoding);
            }
        };
        let oid = match &entries[i].1 {
            Some(oid) => oid,
            None => {
                return Err(BackendError::NotFound);
            }
        };
        let message = match gitwrap::commit_message_of(repo, oid) {
            Ok(Some(message)) => message,
            Ok(None) => {
                return Err(BackendError::InvalidEncoding);
            }
            Err(e) => {
                return Err(backend_error_from(e));
            }
        };
        let id = gitwrap::oid_hex(oid);
        out.push(Branch { name, branch_type: kind, last_commit: Commit { id, message } });
        i = i + 1;
    }
    Ok(())
}

/// Create a new branch at the commit HEAD points at. Refused when the name
/// HEAD resolves to is not a commit.
pub fn branch_from_head(repo_path: &str, new_branch_name: &str) -> (r: Result<(), BackendError>) {
    let repo = match open_repo(repo_path) {
        Ok(repo) => repo,
        Err(e) => {
            return Err(e);
        }
    };
    let head_name = match head(repo_path) {
        Ok(head_name) => head_name,
        Err(e) => {
            return Err(e);
        }
    };
    let (object, _reference) = match gitwrap::revparse_ext(&repo, head_name.as_str()) {
        Ok(found) => found,
        Err(e) => {
            return Err(backend_error_from(e));
        }
    };
    match gitwrap::object_commit_id(&object) {
        Some(oid) => match gitwrap::create_branch_at(&repo, new_branch_name, &oid, false) {
            Ok(()) => Ok(()),
            Err(e) => Err(backend_error_from(e)),
        },
        None => Err(BackendError::Other(String::from_str("object is not a commit"))),
    }
}

/// Configure the named local branch to track `remote_name/branch_name`,
/// unless it already has an upstream.
pub fn set_upstream_branch(repo_path: &str, remote_name: &str, branch_name: &str) -> (r: Result<
    (),
    BackendError,
>) {
    let repo = match open_repo(repo_path) {
        Ok(repo) => repo,
        Err(e) => {
            return Err(e);
        }
    };
    let has_upstream = match gitwrap::local_branch_has_upstream(&repo, branch_name) {
        Ok(has_upstream) => has_upstream,
        Err(e) => {
            return Err(backend_error_from(e));
        }
    };
    if has_upstream {
        return Ok(());
    }
    let mut upstream = String::from_str(remote_name);
    upstream.append("/");
    upstream.append(branch_name);
    match gitwrap::local_branch_set_upstream(&repo, branch_name, upstream.as_str()) {
        Ok(()) => Ok(()),
        Err(e) => Err(backend_error_from(e)),
    }
}

} // verus!
