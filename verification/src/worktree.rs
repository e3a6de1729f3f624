//! Backend queries and operations on the working tree: the status snapshot,
//! the diff, the commit history, and staging.

use vstd::prelude::*;
use vstd::string::StringExecFns;

use crate::commit::Commit;
use crate::diff::DiffLine;
use crate::errors::BackendError;
use crate::files::{FileStatus, StatusType};
use crate::gitwrap;
use crate::repo::{backend_error_from, open_repo};

verus! {

/// How raw libgit2 status bits map to the dashboard's status kinds: a
/// conflict first, then the staged changes (index bits 1, 2, 4: new,
/// modified, deleted), then the unstaged ones (working-tree bits 128, 256,
/// 512: new, modified, deleted).
pub open spec fn spec_status_of(bits: u32) -> StatusType {
    if bits & 0x8000u32 != 0 {
        StatusType::Conflicted
    } else if bits & 1u32 != 0 {
        StatusType::Added
    } else if bits & 2u32 != 0 {
        StatusType::IndexModified
    } else if bits & 4u32 != 0 {
        StatusType::Deleted
    } else if bits & 128u32 != 0 {
        StatusType::Untracked
    } else if bits & 256u32 != 0 {
        StatusType::Modified
    } else if bits & 512u32 != 0 {
        StatusType::WorktreeDeleted
    } else {
        StatusType::Unmodified
    }
}

/// Classify raw libgit2 status bits.
pub fn status_of_bits(bits: u32) -> (t: StatusType)
    ensures
        t == spec_status_of(bits),
{
    if bits & 0x8000u32 != 0 {
        StatusType::Conflicted
    } else if bits & 1u32 != 0 {
        StatusType::Added
    } else if bits & 2u32 != 0 {
        StatusType::IndexModified
    } else if bits & 4u32 != 0 {
        StatusType::Deleted
    } else if bits & 128u32 != 0 {
        StatusType::Untracked
    } else if bits & 256u32 != 0 {
        StatusType::Modified
    } else if bits & 512u32 != 0 {
        StatusType::WorktreeDeleted
    } else {
        StatusType::Unmodified
    }
}

/// Turn raw status entries into the panel's snapshot: on success exactly one
/// entry per input, in order, carrying the entry's path and its classified
/// status; an entry whose path is not valid UTF-8 refuses the whole batch as
/// an invalid-encoding error.
pub fn statuses_from(entries: &Vec<(Option<String>, u32)>) -> (r: Result<
    Vec<FileStatus>,
    BackendError,
>)
    ensures
        r matches Ok(v) ==> {
            &&& v@.len() == entries@.len()
            &&& forall|j: int|
                0 <= j < entries@.len() ==> {
                    let e = #[trigger] entries@[j];
                    &&& e.0 is Some
                    &&& v@[j].path == e.0->Some_0
                    &&& v@[j].status_type == spec_status_of(e.1)
                }
        },
        r is Err ==> r == Err::<Vec<FileStatus>, BackendError>(BackendError::InvalidEncoding) && (
        exists|j: int| 0 <= j < entries@.len() && (#[trigger] entries@[j]).0 is None),
{
    let mut files: Vec<FileStatus> = Vec::new();
    let mut i: usize = 0;
    while i < entries.len()
        invariant
            i <= entries@.len(),
            files@.len() == i,
            forall|j: int|
                0 <= j < i ==> {
                    let e = #[trigger] entries@[j];
                    &&& e.0 is Some
                    &&& files@[j].path == e.0->Some_0
                    &&& files@[j].status_type == spec_status_of(e.1)
                },
        decreases entries@.len() - i,
    {
        let path = match &entries[i].0 {
            Some(path) => path.clone(),
            None => {
                return Err(BackendError::InvalidEncoding);
            }
        };
        let status_type = status_of_bits(entries[i].1);
        files.push(FileStatus { path, status_type });
        i = i + 1;
    }
    Ok(files)
}

/// The status of every changed or untracked working-tree entry, converted by
/// `statuses_from`. A path that is not valid UTF-8 is reported as an
/// invalid-encoding error.
pub fn get_file_status(repo_path: &str) -> (r: Result<Vec<FileStatus>, BackendError>) {
    let repo = match open_repo(repo_path) {
        Ok(repo) => repo,
        Err(e) => {
            return Err(e);
        }
    };
    let entries = match gitwrap::status_entries(&repo) {
        Ok(entries) => entries,
        Err(e) => {
            return Err(backend_error_from(e));
        }
    };
    statuses_from(&entries)
}

/// The origin marker of one raw diff line.
fn marker_of(line: &(char, String)) -> (c: char)
    ensures
        c == line.0,
{
    line.0
}

/// Turn raw diff lines into the panel's lines: exactly one per input, in
/// order, keeping each line's origin marker and text.
pub fn diff_from(lines: &Vec<(char, String)>) -> (r: Vec<DiffLine>)
    ensures
        r@.len() == lines@.len(),
        forall|j: int|
            0 <= j < lines@.len() ==> {
                let e = #[trigger] lines@[j];
                &&& r@[j].origin == e.0
                &&& r@[j].content == e.1
            },
{
    let mut diffs: Vec<DiffLine> = Vec::new();
    let mut i: usize = 0;
    while i < lines.len()
        invariant
            i <= lines@.len(),
            diffs@.len() == i,
            forall|j: int|
                0 <= j < i ==> {
                    let e = #[trigger] lines@[j];
                    &&& diffs@[j].origin == e.0
                    &&& diffs@[j].content == e.1
                },
        decreases lines@.len() - i,
    {
        let origin = marker_of(&lines[i]);
        let content = lines[i].1.clone();
        diffs.push(DiffLine { content, origin });
        i = i + 1;
    }
    diffs
}

/// The diff between the index and the working tree, line by line, converted
/// by `diff_from`.
pub fn get_diff(repo_path: &str) -> (r: Result<Vec<DiffLine>, BackendError>) {
    let repo = match open_repo(repo_path) {
        Ok(repo) => repo,
        Err(e) => {
            return Err(e);
        }
    };
    let lines = match gitwrap::diff_lines(&repo) {
        Ok(lines) => lines,
        Err(e) => {
            return Err(backend_error_from(e));
        }
    };
    Ok(diff_from(&lines))
}

/// The commit history reachable from HEAD, newest first: one entry per
/// reachable commit, each with a 40-digit id. A message that is not valid
/// UTF-8 is reported as an invalid-encoding error.
pub fn fetch_history(repo_path: &str) -> (r: Result<Vec<Commit>, BackendError>)
    ensures
        r matches Ok(v) ==> forall|j: int|
            0 <= j < v@.len() ==> (#[trigger] v@[j]).id@.len() == 40,
{
    let repo = match open_repo(repo_path) {
        Ok(repo) => repo,
        Err(e) => {
            return Err(e);
        }
    };
    let ids = match gitwrap::revwalk_head_ids(&repo) {
        Ok(ids) => ids,
        Err(e) => {
            return Err(backend_error_from(e));
        }
    };
    let mut history: Vec<Commit> = Vec::new();
    let mut i: usize = 0;
    while i < ids.len()
        invariant
            i <= ids@.len(),
            history@.len() == i,
            forall|j: int| 0 <= j < i ==> (#[trigger] history@[j]).id@.len() == 40,
        decreases ids@.len() - i,
    {
        let message = match gitwrap::commit_message_of(&repo, &ids[i]) {
            Ok(Some(message)) => message,
            Ok(None) => {
                return Err(BackendError::InvalidEncoding);
            }
            Err(e) => {
                return Err(backend_error_from(e));
            }
        };
        let id = gitwrap::oid_hex(&ids[i]);
        history.push(Commit { id, message });
        i = i + 1;
    }
    Ok(history)
}

/// Stage the file at the given repository-relative path.
pub fn stage_file(repo_path: &str, file_path: &str) -> (r: Result<(), BackendError>) {
    let repo = match open_repo(repo_path) {
        Ok(repo) => repo,
        Err(e) => {
            return Err(e);
        }
    };
    let mut index = match gitwrap::repo_index(&repo) {
        Ok(index) => index,
        Err(e) => {
            return Err(backend_error_from(e));
        }
    };
    if let Err(e) = gitwrap::index_add_path(&mut index, file_path) {
        return Err(backend_error_from(e));
    }
    match gitwrap::index_write(&mut index) {
        Ok(()) => Ok(()),
        Err(e) => Err(backend_error_from(e)),
    }
}

/// Stage every change in the working tree.
pub fn stage_all(repo_path: &str) -> (r: Result<(), BackendError>) {
    let repo = match open_repo(repo_path) {
        Ok(repo) => repo,
        Err(e) => {
            return Err(e);
        }
    };
    let mut index = match gitwrap::repo_index(&repo) {
        Ok(index) => index,
        Err(e) => {
            return Err(backend_error_from(e));
        }
    };
    if let Err(e) = gitwrap::index_add_all(&mut index) {
        return Err(backend_error_from(e));
    }
    match gitwrap::index_write(&mut index) {
        Ok(()) => Ok(()),
        Err(e) => Err(backend_error_from(e)),
    }
}

/// Unstage the file at the given repository-relative path: reset its index
/// entry back to HEAD.
pub fn unstage_file(repo_path: &str, file_path: &str) -> (r: Result<(), BackendError>) {
    let repo = match open_repo(repo_path) {
        Ok(repo) => repo,
        Err(e) => {
            return Err(e);
        }
    };
    let mut paths: Vec<String> = Vec::new();
    paths.push(String::from_str(file_path));
    match gitwrap::reset_default_to_head(&repo, &paths) {
        Ok(()) => Ok(()),
        Err(e) => Err(backend_error_from(e)),
    }
}

/// Unstage everything: reset every index entry back to HEAD.
pub fn unstage_all(repo_path: &str) -> (r: Result<(), BackendError>) {
    let repo = match open_repo(repo_path) {
        Ok(repo) => repo,
        Err(e) => {
            return Err(e);
        }
    };
    let mut paths: Vec<String> = Vec::new();
    paths.push(String::from_str("*"));
    match gitwrap::reset_default_to_head(&repo, &paths) {
        Ok(()) => Ok(()),
        Err(e) => Err(backend_error_from(e)),
    }
}

} // verus!
