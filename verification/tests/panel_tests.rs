use gitdash::diff::{DiffComponent, DiffLine};
use gitdash::events::{KeyCode, KeyEvent, ProgramEvent};
use gitdash::files::{FileComponent, FileRequest, FileStatus, StatusType};
use gitdash::focus::ComponentType;
use gitdash::log::LogComponent;
use gitdash::commit::Commit;
use gitdash::popups::{ErrorComponent, PopupOutcome, PushPopup, TextPrompt};
use gitdash::errors::ErrorType;

fn plain(c: char) -> KeyEvent {
    KeyEvent { code: KeyCode::Char(c), ctrl: false }
}

fn ctrl(c: char) -> KeyEvent {
    KeyEvent { code: KeyCode::Char(c), ctrl: true }
}

fn modified(path: &str) -> FileStatus {
    FileStatus { path: path.to_string(), status_type: StatusType::Modified }
}

fn staged(path: &str) -> FileStatus {
    FileStatus { path: path.to_string(), status_type: StatusType::IndexModified }
}

fn files_panel(entries: Vec<FileStatus>) -> FileComponent {
    let mut panel = FileComponent::new("unused".to_string());
    panel.apply_snapshot(entries);
    panel.focus(true);
    panel
}

#[test]
fn commit_key_emits_nothing_without_staged_entries() {
    // Three modified entries, none staged: pressing c opens no modal.
    let mut panel = files_panel(vec![modified("a"), modified("b"), modified("c")]);
    assert!(!panel.has_files_staged());
    let (events, request) = panel.handle_event(plain('c'));
    assert!(events.is_empty());
    assert_eq!(request, None);
}

#[test]
fn commit_key_emits_exactly_one_focus_event_once_staged() {
    // Stage all three entries (the `a` binding), then press c: exactly one
    // focus event for the commit prompt.
    let mut panel = files_panel(vec![modified("a"), modified("b"), modified("c")]);
    let (events, request) = panel.handle_event(plain('a'));
    assert!(events.is_empty());
    assert_eq!(request, Some(FileRequest::StageAll));
    // The backend staged all three; the next refresh shows them staged.
    panel.apply_snapshot(vec![staged("a"), staged("b"), staged("c")]);
    assert!(panel.has_files_staged());
    let (events, request) = panel.handle_event(plain('c'));
    assert_eq!(events, vec![ProgramEvent::Focus(ComponentType::CommitComponent)]);
    assert_eq!(request, None);
}

#[test]
fn files_keys_map_to_requests() {
    let mut panel = files_panel(vec![modified("first"), modified("second")]);
    assert_eq!(panel.handle_event(plain('A')).1, Some(FileRequest::UnstageAll));
    assert_eq!(
        panel.handle_event(plain('s')).1,
        Some(FileRequest::StageOne("first".to_string()))
    );
    panel.handle_event(plain('j'));
    assert_eq!(
        panel.handle_event(plain('u')).1,
        Some(FileRequest::UnstageOne("second".to_string()))
    );
    assert_eq!(panel.handle_event(plain('p')).1, Some(FileRequest::Push));
    assert_eq!(panel.handle_event(plain('C')).1, Some(FileRequest::OpenEditor));
    assert_eq!(panel.handle_event(plain('x')).1, None);
}

#[test]
fn unfocused_files_panel_ignores_keys() {
    let mut panel = files_panel(vec![modified("a")]);
    panel.focus(false);
    let (events, request) = panel.handle_event(plain('a'));
    assert!(events.is_empty());
    assert_eq!(request, None);
    let before = panel.window;
    panel.handle_event(plain('j'));
    assert_eq!(panel.window, before);
}

#[test]
fn empty_snapshot_shows_clean_tree_placeholder() {
    let mut panel = FileComponent::new("unused".to_string());
    panel.apply_snapshot(Vec::new());
    assert_eq!(panel.files.len(), 1);
    assert_eq!(panel.files[0].path, "Working tree clean");
    assert_eq!(panel.files[0].status_type, StatusType::Unmodified);
    assert!(!panel.has_files_staged());
}

#[test]
fn files_refresh_with_same_snapshot_is_idempotent() {
    let mut panel = files_panel(vec![modified("a"), modified("b"), modified("c")]);
    panel.handle_event(plain('j'));
    panel.handle_event(plain('j'));
    let snapshot = vec![modified("a"), modified("b")];
    panel.apply_snapshot(snapshot.clone());
    let once = (panel.files.clone(), panel.window);
    panel.apply_snapshot(snapshot);
    assert_eq!((panel.files.clone(), panel.window), once);
}

#[test]
fn files_cursor_survives_incremental_refresh() {
    // Clamping policy: the cursor stays where it was after a refresh of a
    // stably ordered list.
    let mut panel = files_panel(vec![modified("a"), modified("b"), modified("c")]);
    panel.handle_event(plain('j'));
    assert_eq!(panel.window.selected, 1);
    panel.apply_snapshot(vec![staged("a"), staged("b"), staged("c")]);
    assert_eq!(panel.window.selected, 1);
}

#[test]
fn diff_refresh_compares_content_not_length() {
    let mut panel = DiffComponent::new("unused".to_string());
    let lines = vec![
        DiffLine { content: "line one".to_string(), origin: '+' },
        DiffLine { content: "line two".to_string(), origin: '-' },
    ];
    panel.apply_snapshot(lines.clone());
    panel.focus(true);
    panel.handle_event(plain('j'));
    assert_eq!(panel.window.selected, 1);
    // The same content again: unchanged, the cursor stays.
    panel.apply_snapshot(lines);
    assert_eq!(panel.window.selected, 1);
    // Same length but different content: the snapshot is replaced and the
    // cursor resets to the top.
    let same_len = vec![
        DiffLine { content: "other".to_string(), origin: ' ' },
        DiffLine { content: "text".to_string(), origin: ' ' },
    ];
    panel.apply_snapshot(same_len);
    assert_eq!(panel.window.selected, 0);
    assert_eq!(panel.diffs[0].content(), "other");
    // Different length: replaced and reset as well.
    let longer = vec![
        DiffLine { content: "a".to_string(), origin: '+' },
        DiffLine { content: "b".to_string(), origin: '+' },
        DiffLine { content: "c".to_string(), origin: '+' },
    ];
    panel.apply_snapshot(longer);
    assert_eq!(panel.window.selected, 0);
    assert_eq!(panel.window.offset, 0);
    assert_eq!(panel.diffs.len(), 3);
    assert_eq!(panel.diffs[0].origin(), '+');
}

#[test]
fn log_refresh_resets_to_top() {
    let mut panel = LogComponent::new("unused".to_string());
    panel.apply_snapshot(vec![
        Commit { id: "1111111".to_string(), message: "first".to_string() },
        Commit { id: "2222222".to_string(), message: "second".to_string() },
        Commit { id: "3333333".to_string(), message: "third".to_string() },
    ]);
    panel.focus(true);
    panel.handle_event(plain('j'));
    panel.handle_event(plain('j'));
    assert_eq!(panel.window.selected, 2);
    assert_eq!(panel.logs[0].get_id(), "1111111");
    assert_eq!(panel.logs[1].get_message(), "second");
    panel.apply_snapshot(vec![
        Commit { id: "4444444".to_string(), message: "fourth".to_string() },
        Commit { id: "1111111".to_string(), message: "first".to_string() },
    ]);
    assert_eq!(panel.window.selected, 0);
}

#[test]
fn half_page_scroll_uses_half_the_viewport_height() {
    let mut panel = files_panel(
        (0..30).map(|i| modified(&format!("file{}", i))).collect(),
    );
    panel.window.resize(10);
    panel.handle_event(ctrl('d'));
    assert_eq!(panel.window.selected, 5);
    panel.handle_event(ctrl('d'));
    assert_eq!(panel.window.selected, 10);
    panel.handle_event(ctrl('u'));
    assert_eq!(panel.window.selected, 5);
}

#[test]
fn text_prompt_collects_edits_and_decides() {
    let mut prompt = TextPrompt::new();
    assert_eq!(prompt.handle_event(plain('h')), PopupOutcome::Stay);
    assert_eq!(prompt.handle_event(plain('i')), PopupOutcome::Stay);
    assert_eq!(prompt.handle_event(plain('!')), PopupOutcome::Stay);
    assert_eq!(
        prompt.handle_event(KeyEvent { code: KeyCode::Backspace, ctrl: false }),
        PopupOutcome::Stay
    );
    assert_eq!(prompt.text(), "hi");
    assert_eq!(
        prompt.handle_event(KeyEvent { code: KeyCode::Enter, ctrl: false }),
        PopupOutcome::Submit
    );
    assert_eq!(prompt.text(), "hi");
    assert_eq!(
        prompt.handle_event(KeyEvent { code: KeyCode::Esc, ctrl: false }),
        PopupOutcome::Cancel
    );
    prompt.clear();
    assert_eq!(prompt.text(), "");
}

#[test]
fn push_popup_display_never_regresses() {
    let mut popup = PushPopup::new();
    popup.set_percent(40);
    assert_eq!(popup.percent, 40);
    popup.set_percent(10);
    assert_eq!(popup.percent, 40);
    popup.set_percent(100);
    assert_eq!(popup.percent, 100);
    popup.set_message("Push successful!");
    assert_eq!(popup.message.as_deref(), Some("Push successful!"));
    popup.reset();
    assert_eq!(popup.percent, 0);
    assert_eq!(popup.message, None);
}

#[test]
fn error_dialog_holds_one_report() {
    let mut dialog = ErrorComponent::new();
    assert_eq!(dialog.error, None);
    dialog.set_message("something odd".to_string());
    assert_eq!(dialog.error, Some(ErrorType::Unknown("something odd".to_string())));
    dialog.clear();
    assert_eq!(dialog.error, None);
}
