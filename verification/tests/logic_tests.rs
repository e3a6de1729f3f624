use gitdash::branch::split_remote_branch;
use gitdash::errors::BackendError;
use gitdash::events::{Event, KeyCode, KeyEvent};
use gitdash::init_prompt::{InitChoice, InitPrompt};
use gitdash::remote::{head_refspec, progress_percent};
use gitdash::files::StatusType;
use gitdash::worktree::status_of_bits;

#[test]
fn remote_branch_names_split_at_the_first_slash() {
    assert_eq!(
        split_remote_branch("origin/feature"),
        ("origin".to_string(), "feature".to_string())
    );
    // Further slashes are dropped from the local name, and the remote is
    // only the part before the first one.
    assert_eq!(
        split_remote_branch("origin/feat/one"),
        ("origin".to_string(), "featone".to_string())
    );
    // No slash: the whole input is the remote, the local name is empty.
    assert_eq!(split_remote_branch("main"), ("main".to_string(), "".to_string()));
    assert_eq!(split_remote_branch(""), ("".to_string(), "".to_string()));
}

#[test]
fn progress_is_exact_and_never_over_100() {
    assert_eq!(progress_percent(0, 200), 0);
    assert_eq!(progress_percent(40, 100), 40);
    assert_eq!(progress_percent(1, 3), 33);
    assert_eq!(progress_percent(2, 3), 66);
    assert_eq!(progress_percent(3, 3), 100);
    assert_eq!(progress_percent(7, 3), 100);
    // A zero total counts as done, never a division failure.
    assert_eq!(progress_percent(0, 0), 100);
    assert_eq!(progress_percent(usize::MAX, usize::MAX), 100);
    assert_eq!(progress_percent(usize::MAX - 1, usize::MAX), 99);
}

#[test]
fn refspec_targets_the_head_branch() {
    assert_eq!(head_refspec("main"), "refs/heads/main");
    assert_eq!(head_refspec(""), "refs/heads/");
}

#[test]
fn raw_error_codes_map_to_their_kinds() {
    // libgit2 codes: -16 auth, -11 non-fast-forward, -3 not found, -9 unborn
    // branch, -13 conflict, -22 uncommitted, -24 merge conflict.
    assert_eq!(
        BackendError::classified(-16, 0, "auth".to_string()),
        BackendError::AuthFailure
    );
    assert_eq!(
        BackendError::classified(-11, 0, "nff".to_string()),
        BackendError::RejectedUpdate
    );
    assert_eq!(BackendError::classified(-3, 0, "nf".to_string()), BackendError::NotFound);
    assert_eq!(BackendError::classified(-9, 0, "ub".to_string()), BackendError::NotFound);
    assert_eq!(
        BackendError::classified(-13, 0, "c".to_string()),
        BackendError::DirtyWorkingTree
    );
    assert_eq!(
        BackendError::classified(-22, 0, "u".to_string()),
        BackendError::DirtyWorkingTree
    );
    assert_eq!(
        BackendError::classified(-24, 0, "m".to_string()),
        BackendError::DirtyWorkingTree
    );
    // Classes: 12 net, 16 ssl, 23 ssh, 34 http.
    for class in [12, 16, 23, 34] {
        assert_eq!(
            BackendError::classified(-1, class, "n".to_string()),
            BackendError::NetworkFailure
        );
    }
    // Anything else keeps its message.
    assert_eq!(
        BackendError::classified(-1, 0, "plain failure".to_string()),
        BackendError::Other("plain failure".to_string())
    );
}

#[test]
fn status_bits_map_to_their_kinds() {
    // libgit2 status bits: 1 index-new, 2 index-modified, 4 index-deleted,
    // 128 worktree-new, 256 worktree-modified, 512 worktree-deleted,
    // 0x8000 conflicted.
    assert_eq!(status_of_bits(0), StatusType::Unmodified);
    assert_eq!(status_of_bits(1), StatusType::Added);
    assert_eq!(status_of_bits(2), StatusType::IndexModified);
    assert_eq!(status_of_bits(4), StatusType::Deleted);
    assert_eq!(status_of_bits(128), StatusType::Untracked);
    assert_eq!(status_of_bits(256), StatusType::Modified);
    assert_eq!(status_of_bits(512), StatusType::WorktreeDeleted);
    assert_eq!(status_of_bits(0x8000), StatusType::Conflicted);
    // The staged half wins over the worktree half.
    assert_eq!(status_of_bits(2 | 256), StatusType::IndexModified);
    // A conflict wins over everything.
    assert_eq!(status_of_bits(0x8000 | 2 | 256), StatusType::Conflicted);
    // The staged kinds are exactly what gates the commit prompt.
    assert!(StatusType::Added.staged());
    assert!(StatusType::IndexModified.staged());
    assert!(StatusType::Deleted.staged());
    assert!(!StatusType::Modified.staged());
    assert!(!StatusType::Untracked.staged());
    assert!(!StatusType::Unmodified.staged());
}

#[test]
fn init_prompt_moves_and_decides() {
    let mut prompt = InitPrompt::new();
    assert_eq!(prompt.selection, 0);
    let j = Event::Input(KeyEvent { code: KeyCode::Char('j'), ctrl: false });
    let k = Event::Input(KeyEvent { code: KeyCode::Char('k'), ctrl: false });
    let enter = Event::Input(KeyEvent { code: KeyCode::Enter, ctrl: false });
    assert_eq!(prompt.handle_event(j), None);
    assert_eq!(prompt.selection, 1);
    assert_eq!(prompt.handle_event(Event::Tick), None);
    assert_eq!(prompt.handle_event(enter), Some(InitChoice::Decline));
    assert_eq!(prompt.handle_event(k), None);
    assert_eq!(prompt.selection, 0);
    assert_eq!(prompt.handle_event(enter), Some(InitChoice::Initialize));
}
