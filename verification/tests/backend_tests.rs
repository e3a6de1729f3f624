//! Tests against a real repository, initialized by the backend itself in a
//! scratch directory.

use gitdash::branch::{branch_from_head, checkout_local_branch, delete_branch, get_branches, head, BranchKind};
use gitdash::commit::{commit, create_initial_commit};
use gitdash::errors::BackendError;
use gitdash::files::FileComponent;
use gitdash::remote::{add_remote, first_remote, get_remotes};
use gitdash::worktree::{fetch_history, get_diff, get_file_status};
use gitdash::app::{App, AppCommand};
use gitdash::events::{Event, KeyCode, KeyEvent, ProgramEvent};
use gitdash::focus::ComponentType;

fn scratch_repo(name: &str) -> String {
    let nanos = std::time::SystemTime::now()
        .duration_since(std::time::UNIX_EPOCH)
        .expect("clock before the epoch")
        .as_nanos();
    let path = format!("/tmp/gitdash_scratch_{}_{}", name, nanos);
    git2::Repository::init(&path).expect("a scratch repository should initialize");
    path
}

/// The backend signs commits from the default configuration; give it an
/// identity where the environment has none.
fn ensure_identity() {
    let config = git2::Config::open_default().expect("default configuration should open");
    if config.get_string("user.name").is_err() {
        let mut config = config;
        config.set_str("user.name", "Scratch Tester").expect("setting user.name should work");
        config.set_str("user.email", "scratch@example.invalid")
            .expect("setting user.email should work");
    }
}

#[test]
fn remotes_round_trip_through_the_backend() {
    let path = scratch_repo("remotes");
    let existing = get_remotes(&path).expect("listing remotes should work");
    if existing.is_empty() {
        assert_eq!(first_remote(&path).expect("first remote should work"), None);
        add_remote(&path, "origin", "https://example.invalid/repo.git")
            .expect("adding a remote should work");
    }
    let names = get_remotes(&path).expect("listing remotes should work");
    assert_eq!(names, vec!["origin".to_string()]);
    assert_eq!(
        first_remote(&path).expect("first remote should work"),
        Some("origin".to_string())
    );
}

#[test]
fn empty_repository_has_clean_status_and_empty_diff() {
    let path = scratch_repo("status");
    let files = get_file_status(&path).expect("status should work");
    assert!(files.is_empty());
    let diff = get_diff(&path).expect("diff should work");
    assert!(diff.is_empty());
    // The files panel shows the clean-tree placeholder for it.
    let mut panel = FileComponent::new(path);
    panel.update().expect("refresh should work");
    assert_eq!(panel.files.len(), 1);
    assert_eq!(panel.files[0].path, "Working tree clean");
}

#[test]
fn unborn_head_reports_not_found() {
    let path = scratch_repo("unborn");
    // An empty repository has no commit yet: HEAD is unborn.
    assert_eq!(head(&path), Err(BackendError::NotFound));
    // Walking the history of an unborn HEAD fails too, though the backend
    // reports it with its generic code, so only the message survives.
    assert!(fetch_history(&path).is_err());
}

#[test]
fn missing_repository_is_an_error() {
    let err = get_file_status("/tmp/gitdash_scratch_does_not_exist")
        .expect_err("a missing repository must not pass");
    assert_eq!(err, BackendError::NotFound);
    let err = checkout_local_branch("/tmp/gitdash_scratch_does_not_exist", "main")
        .expect_err("a missing repository must not pass");
    assert_eq!(err, BackendError::NotFound);
}

#[test]
fn push_request_flow_through_the_dispatcher() {
    let path = scratch_repo("pushflow");
    if get_remotes(&path).expect("listing remotes should work").is_empty() {
        add_remote(&path, "origin", "https://example.invalid/repo.git")
            .expect("adding a remote should work");
    }
    let mut app = App::new(path);
    app.focus(ComponentType::FilesComponent);
    let p = Event::Input(KeyEvent { code: KeyCode::Char('p'), ctrl: false });
    // The first request starts exactly one worker and raises the modal.
    let outcome = app.handle_input(p);
    assert_eq!(outcome.events, vec![ProgramEvent::Focus(ComponentType::PushComponent)]);
    assert_eq!(
        outcome.commands,
        vec![AppCommand::SpawnPush(0, "origin".to_string())]
    );
    // A second request while the push runs is rejected: no state change, no
    // event, no second worker.
    let state_before = app.supervisor.current.clone();
    let outcome = app.handle_input(p);
    assert!(outcome.events.is_empty());
    assert!(outcome.commands.is_empty());
    assert_eq!(app.supervisor.current, state_before);
}

#[test]
fn commit_and_branch_flow_against_a_real_repository() {
    ensure_identity();
    let path = scratch_repo("flow");

    create_initial_commit(&path).expect("the initial commit should work");
    let history = fetch_history(&path).expect("history should work");
    assert_eq!(history.len(), 1);
    assert_eq!(history[0].get_message(), "Initial commit");
    assert_eq!(history[0].get_id().len(), 40);

    commit(&path, "a second commit").expect("committing should work");
    let history = fetch_history(&path).expect("history should work");
    assert_eq!(history.len(), 2);
    // Newest first.
    assert_eq!(history[0].get_message(), "a second commit");

    let trunk = head(&path).expect("head should resolve");
    branch_from_head(&path, "feature").expect("branching from head should work");
    let branches = get_branches(&path).expect("listing branches should work");
    let names: Vec<&str> = branches.iter().map(|b| b.name.as_str()).collect();
    assert!(names.contains(&"feature"));
    assert!(names.contains(&trunk.as_str()));
    assert!(branches.iter().all(|b| b.branch_type == BranchKind::Local));
    assert!(branches.iter().all(|b| b.last_commit.get_id().len() == 40));

    checkout_local_branch(&path, "feature").expect("checking out the branch should work");
    assert_eq!(head(&path).expect("head should resolve"), "feature");

    checkout_local_branch(&path, &trunk).expect("checking out the trunk should work");
    delete_branch(&path, "feature").expect("deleting the branch should work");
    let branches = get_branches(&path).expect("listing branches should work");
    assert!(branches.iter().all(|b| b.name != "feature"));
}
