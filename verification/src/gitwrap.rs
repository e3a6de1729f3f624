//! The trusted layer over the git2 backend: declarations of git2's types and
//! one thin wrapper per git2 function the dashboard calls. Each wrapper's body
//! makes exactly that call and converts values at the boundary; everything
//! the backend decides (what is on disk, what the remote answers) is reported
//! through the result, and the verified code around these wrappers handles
//! every outcome.

use vstd::prelude::*;

verus! {

#[verifier::external_type_specification]
#[verifier::external_body]
pub struct ExRepository(git2::Repository);

#[verifier::external_type_specification]
#[verifier::external_body]
pub struct ExGitError(git2::Error);

#[verifier::external_type_specification]
#[verifier::external_body]
pub struct ExObject<'a>(git2::Object<'a>);

#[verifier::external_type_specification]
#[verifier::external_body]
pub struct ExReference<'a>(git2::Reference<'a>);

#[verifier::external_type_specification]
#[verifier::external_body]
pub struct ExOid(git2::Oid);

#[verifier::external_type_specification]
#[verifier::external_body]
pub struct ExTree<'a>(git2::Tree<'a>);

#[verifier::external_type_specification]
#[verifier::external_body]
pub struct ExIndex(git2::Index);

#[verifier::external_type_specification]
#[verifier::external_body]
pub struct ExConfig(git2::Config);

#[verifier::external_type_specification]
#[verifier::external_body]
pub struct ExSignature<'a>(git2::Signature<'a>);

/// Relies on `git2::Error::raw_code`, `raw_class` and `message`: the error's
/// raw libgit2 code, its raw class, and its message.
#[verifier::external_body]
pub(crate) fn error_details(e: &git2::Error) -> (r: (i32, i32, String)) {
    (e.raw_code() as i32, e.raw_class() as i32, e.message().to_string())
}

/// Relies on `git2::Repository::open`: opens the repository at `path`.
#[verifier::external_body]
pub(crate) fn repo_open(path: &str) -> (r: Result<git2::Repository, git2::Error>) {
    git2::Repository::open(path)
}

/// Relies on `git2::Repository::head`: the reference HEAD points at.
#[verifier::external_body]
pub(crate) fn repo_head<'r>(repo: &'r git2::Repository) -> (r: Result<
    git2::Reference<'r>,
    git2::Error,
>) {
    repo.head()
}

/// Relies on `git2::Reference::shorthand`: the reference's short name, or
/// none where the name is not valid UTF-8.
#[verifier::external_body]
pub(crate) fn reference_shorthand(re: &git2::Reference<'_>) -> (r: Option<String>) {
    re.shorthand().ok().map(|s| s.to_string())
}

/// Relies on `git2::Reference::name`: the reference's full name, or none
/// where the name is not valid UTF-8.
#[verifier::external_body]
pub(crate) fn reference_name(re: &git2::Reference<'_>) -> (r: Option<String>) {
    re.name().ok().map(|s| s.to_string())
}

/// Relies on `git2::Repository::remotes` and `StringArray` iteration: the
/// configured remote names, in order, with none standing for a name that is
/// not valid UTF-8.
#[verifier::external_body]
pub(crate) fn remote_names(repo: &git2::Repository) -> (r: Result<
    Vec<Option<String>>,
    git2::Error,
>) {
    Ok(repo.remotes()?.iter().map(|n| n.ok().flatten().map(|s| s.to_string())).collect())
}

/// Relies on `git2::Repository::remote`: adds a remote under the given name
/// and URL.
#[verifier::external_body]
pub(crate) fn remote_add(repo: &git2::Repository, name: &str, url: &str) -> (r: Result<
    (),
    git2::Error,
>) {
    repo.remote(name, url).map(|_| ())
}

/// Relies on `git2::Repository::revparse_ext`: the object the revspec names,
/// and the reference it went through, if any.
#[verifier::external_body]
pub(crate) fn revparse_ext<'r>(repo: &'r git2::Repository, spec: &str) -> (r: Result<
    (git2::Object<'r>, Option<git2::Reference<'r>>),
    git2::Error,
>) {
    repo.revparse_ext(spec)
}

/// Relies on `git2::Repository::checkout_tree` with default options: makes
/// the working tree match the given tree-ish object.
#[verifier::external_body]
pub(crate) fn checkout_tree_default(repo: &git2::Repository, treeish: &git2::Object<'_>) -> (r:
    Result<(), git2::Error>) {
    repo.checkout_tree(treeish, None)
}

/// Relies on `git2::Repository::set_head`: points HEAD at the named
/// reference.
#[verifier::external_body]
pub(crate) fn set_head(repo: &git2::Repository, refname: &str) -> (r: Result<(), git2::Error>) {
    repo.set_head(refname)
}

/// Relies on `git2::Repository::set_head_detached`: points HEAD directly at
/// the given commit id.
#[verifier::external_body]
pub(crate) fn set_head_detached(repo: &git2::Repository, oid: &git2::Oid) -> (r: Result<
    (),
    git2::Error,
>) {
    repo.set_head_detached(*oid)
}

/// Relies on `git2::Object::id`: the object's id.
#[verifier::external_body]
pub(crate) fn object_id(object: &git2::Object<'_>) -> (r: git2::Oid) {
    object.id()
}

/// Relies on `git2::Object::as_commit` and `git2::Commit::id`: the object's
/// id if the object is a commit, none otherwise.
#[verifier::external_body]
pub(crate) fn object_commit_id(object: &git2::Object<'_>) -> (r: Option<git2::Oid>) {
    object.as_commit().map(|c| c.id())
}

/// Relies on `git2::Oid` displaying as its 40-digit hexadecimal form.
#[verifier::external_body]
pub(crate) fn oid_hex(oid: &git2::Oid) -> (r: String)
    ensures
        r@.len() == 40,
{
    oid.to_string()
}

/// Relies on `git2::Reference::target`: the id the reference points at
/// directly, none for a symbolic reference.
#[verifier::external_body]
pub(crate) fn reference_target(re: &git2::Reference<'_>) -> (r: Option<git2::Oid>) {
    re.target()
}

/// Relies on `git2::Repository::find_branch`: whether the lookup of the
/// named local branch succeeds.
#[verifier::external_body]
pub(crate) fn local_branch_lookup(repo: &git2::Repository, name: &str) -> (r: Result<
    (),
    git2::Error,
>) {
    repo.find_branch(name, git2::BranchType::Local).map(|_| ())
}

/// Relies on `git2::Repository::find_branch` and `git2::Branch::delete`:
/// deletes the named local branch.
#[verifier::external_body]
pub(crate) fn local_branch_delete(repo: &git2::Repository, name: &str) -> (r: Result<
    (),
    git2::Error,
>) {
    repo.find_branch(name, git2::BranchType::Local)?.delete()
}

/// Relies on `git2::Repository::find_commit` and `git2::Repository::branch`:
/// creates a branch of the given name at the given commit; `force` replaces
/// an existing branch of that name.
#[verifier::external_body]
pub(crate) fn create_branch_at(
    repo: &git2::Repository,
    name: &str,
    target: &git2::Oid,
    force: bool,
) -> (r: Result<(), git2::Error>) {
    let commit = repo.find_commit(*target)?;
    repo.branch(name, &commit, force).map(|_| ())
}

/// Relies on `git2::Repository::branches`, `git2::Branch::get`,
/// `git2::Reference::shorthand` and `git2::Reference::target`: for each
/// local (or each remote) branch, its short name (none where not valid
/// UTF-8) and the id it points at (none for a symbolic reference).
#[verifier::external_body]
pub(crate) fn branch_entries(repo: &git2::Repository, local: bool) -> (r: Result<
    Vec<(Option<String>, Option<git2::Oid>)>,
    git2::Error,
>) {
    let kind = if local { git2::BranchType::Local } else { git2::BranchType::Remote };
    repo.branches(Some(kind))?.map(|item| {
        let (branch, _) = item?;
        let reference = branch.get();
        Ok((reference.shorthand().ok().map(|s| s.to_string()), reference.target()))
    }).collect()
}

/// Relies on `git2::Repository::find_branch` and `git2::Branch::upstream`:
/// whether the named local branch has an upstream configured.
#[verifier::external_body]
pub(crate) fn local_branch_has_upstream(repo: &git2::Repository, name: &str) -> (r: Result<
    bool,
    git2::Error,
>) {
    Ok(repo.find_branch(name, git2::BranchType::Local)?.upstream().is_ok())
}

/// Relies on `git2::Repository::find_branch` and
/// `git2::Branch::set_upstream`: configures the named local branch to track
/// the given upstream.
#[verifier::external_body]
pub(crate) fn local_branch_set_upstream(
    repo: &git2::Repository,
    name: &str,
    upstream: &str,
) -> (r: Result<(), git2::Error>) {
    repo.find_branch(name, git2::BranchType::Local)?.set_upstream(Some(upstream))
}

/// Relies on `git2::Repository::find_commit` and `git2::Commit::message`:
/// the message of the commit with the given id, none where the message is
/// not valid UTF-8.
#[verifier::external_body]
pub(crate) fn commit_message_of(repo: &git2::Repository, oid: &git2::Oid) -> (r: Result<
    Option<String>,
    git2::Error,
>) {
    Ok(repo.find_commit(*oid)?.message().ok().map(|s| s.to_string()))
}

/// Relies on `git2::Repository::index`: the repository's index.
#[verifier::external_body]
pub(crate) fn repo_index(repo: &git2::Repository) -> (r: Result<git2::Index, git2::Error>) {
    repo.index()
}

/// Relies on `git2::Index::write_tree`: writes the index as a tree and
/// returns the tree's id.
#[verifier::external_body]
pub(crate) fn index_write_tree(index: &mut git2::Index) -> (r: Result<git2::Oid, git2::Error>) {
    index.write_tree()
}

/// Relies on `git2::Repository::find_tree`: the tree with the given id.
#[verifier::external_body]
pub(crate) fn find_tree<'r>(repo: &'r git2::Repository, oid: &git2::Oid) -> (r: Result<
    git2::Tree<'r>,
    git2::Error,
>) {
    repo.find_tree(*oid)
}

/// Relies on `git2::Config::open_default`: the default configuration.
#[verifier::external_body]
pub(crate) fn config_open_default() -> (r: Result<git2::Config, git2::Error>) {
    git2::Config::open_default()
}

/// Relies on `git2::Config::get_string`: the value of the named entry, as an
/// error where the entry is missing or not valid UTF-8.
#[verifier::external_body]
pub(crate) fn config_string(config: &git2::Config, name: &str) -> (r: Result<
    String,
    git2::Error,
>) {
    config.get_string(name)
}

/// Relies on `git2::Signature::now`: a signature of the given name and email
/// stamped with the current time.
#[verifier::external_body]
pub(crate) fn signature_now(name: &str, email: &str) -> (r: Result<
    git2::Signature<'static>,
    git2::Error,
>) {
    git2::Signature::now(name, email)
}

/// Relies on `git2::Repository::commit` (updating HEAD, the same signature
/// as author and committer) and `git2::Repository::find_commit` for the
/// parent: creates the commit and returns its id.
#[verifier::external_body]
pub(crate) fn commit_on_head(
    repo: &git2::Repository,
    signature: &git2::Signature<'_>,
    message: &str,
    tree: &git2::Tree<'_>,
    parent: &Option<git2::Oid>,
) -> (r: Result<git2::Oid, git2::Error>) {
    match parent {
        Some(oid) => {
            let parent_commit = repo.find_commit(*oid)?;
            repo.commit(Some("HEAD"), signature, signature, message, tree, &[&parent_commit])
        }
        None => repo.commit(Some("HEAD"), signature, signature, message, tree, &[]),
    }
}

/// Relies on `git2::Repository::statuses` with default options,
/// `git2::StatusEntry::path` and `git2::StatusEntry::status`: for each
/// working-tree entry, its path (none where not valid UTF-8) and its raw
/// status bits.
#[verifier::external_body]
pub(crate) fn status_entries(repo: &git2::Repository) -> (r: Result<
    Vec<(Option<String>, u32)>,
    git2::Error,
>) {
    let statuses = repo.statuses(None)?;
    Ok(statuses.iter().map(|e| (e.path().ok().map(|s| s.to_string()), e.status().bits())).collect())
}

/// Relies on `git2::Repository::diff_index_to_workdir` with default options
/// and `git2::Diff::print` in patch format, with `git2::DiffLine::origin`
/// and `content`: the diff's lines in order, each as its origin marker and
/// its text (lossily decoded where not valid UTF-8).
#[verifier::external_body]
pub(crate) fn diff_lines(repo: &git2::Repository) -> (r: Result<Vec<(char, String)>, git2::Error>) {
    let diff = repo.diff_index_to_workdir(None, None)?;
    let mut lines: Vec<(char, String)> = Vec::new();
    diff.print(git2::DiffFormat::Patch, |_delta, _hunk, line| {
        lines.push((line.origin(), String::from_utf8_lossy(line.content()).to_string()));
        true
    })?;
    Ok(lines)
}

/// Relies on `git2::Repository::revwalk` and `git2::Revwalk::push_head`: the
/// ids of the commits reachable from HEAD, newest first.
#[verifier::external_body]
pub(crate) fn revwalk_head_ids(repo: &git2::Repository) -> (r: Result<
    Vec<git2::Oid>,
    git2::Error,
>) {
    let mut walk = repo.revwalk()?;
    walk.push_head()?;
    walk.collect()
}

/// Relies on `git2::Index::add_path`: stages the file at the given
/// repository-relative path.
#[verifier::external_body]
pub(crate) fn index_add_path(index: &mut git2::Index, path: &str) -> (r: Result<(), git2::Error>) {
    index.add_path(std::path::Path::new(path))
}

/// Relies on `git2::Index::add_all` over the pathspec `*` with default
/// options: stages every change in the working tree.
#[verifier::external_body]
pub(crate) fn index_add_all(index: &mut git2::Index) -> (r: Result<(), git2::Error>) {
    index.add_all(["*"].iter(), git2::IndexAddOption::DEFAULT, None)
}

/// Relies on `git2::Index::write`: writes the index back to disk.
#[verifier::external_body]
pub(crate) fn index_write(index: &mut git2::Index) -> (r: Result<(), git2::Error>) {
    index.write()
}

/// Relies on `git2::Repository::revparse_ext` on `HEAD` and
/// `git2::Repository::reset_default`: resets the index entries matching the
/// given pathspecs back to HEAD, unstaging them.
#[verifier::external_body]
pub(crate) fn reset_default_to_head(repo: &git2::Repository, pathspecs: &Vec<String>) -> (r: Result<
    (),
    git2::Error,
>) {
    let (head, _) = repo.revparse_ext("HEAD")?;
    repo.reset_default(Some(&head), pathspecs)
}

} // verus!
