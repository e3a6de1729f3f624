use gitdash::app::{App, AppCommand};
use gitdash::errors::{BackendError, ErrorType};
use gitdash::events::{Event, GitEvent, KeyCode, KeyEvent, ProgramEvent};
use gitdash::files::{FileStatus, StatusType};
use gitdash::focus::ComponentType;
use gitdash::supervisor::OperationState;

fn input(c: char) -> Event<KeyEvent> {
    Event::Input(KeyEvent { code: KeyCode::Char(c), ctrl: false })
}

fn ctrl_input(c: char) -> Event<KeyEvent> {
    Event::Input(KeyEvent { code: KeyCode::Char(c), ctrl: true })
}

fn staged(path: &str) -> FileStatus {
    FileStatus { path: path.to_string(), status_type: StatusType::IndexModified }
}

#[test]
fn quit_binding_leaves_the_loop() {
    let mut app = App::new("nowhere".to_string());
    let outcome = app.handle_input(ctrl_input('q'));
    assert!(outcome.quit);
    assert!(outcome.events.is_empty());
    assert!(outcome.commands.is_empty());
    let outcome = app.handle_input(input('q'));
    assert!(!outcome.quit);
    let outcome = app.handle_input(Event::Tick);
    assert!(!outcome.quit);
}

#[test]
fn numeric_bindings_jump_focus() {
    let mut app = App::new("nowhere".to_string());
    app.handle_input(input('1'));
    assert_eq!(app.router.focused, Some(ComponentType::FilesComponent));
    assert!(app.files.focused);
    app.handle_input(input('2'));
    assert_eq!(app.router.focused, Some(ComponentType::BranchComponent));
    assert!(!app.files.focused);
    assert!(app.branches.focused);
    app.handle_input(input('3'));
    assert_eq!(app.router.focused, Some(ComponentType::LogComponent));
    app.handle_input(input('4'));
    assert_eq!(app.router.focused, Some(ComponentType::DiffComponent));
    assert!(!app.is_popup_visible());
}

#[test]
fn commit_prompt_opens_through_the_event_channel() {
    let mut app = App::new("nowhere".to_string());
    app.files.apply_snapshot(vec![staged("a"), staged("b"), staged("c")]);
    app.focus(ComponentType::FilesComponent);
    // Pressing c posts exactly one focus event; the panel calls nothing
    // directly.
    let outcome = app.handle_input(input('c'));
    assert_eq!(
        outcome.events,
        vec![ProgramEvent::Focus(ComponentType::CommitComponent)]
    );
    assert!(!app.is_popup_visible());
    // The loop posts the event back; the prompt becomes the visible modal.
    app.handle_program_event(ProgramEvent::Focus(ComponentType::CommitComponent));
    assert!(app.is_popup_visible());
    assert_eq!(app.router.focused, Some(ComponentType::CommitComponent));
    // While the modal is visible it captures all key input: the quit binding
    // does not fire, panels see nothing.
    let outcome = app.handle_input(ctrl_input('q'));
    assert!(!outcome.quit);
    // Escape dismisses and focus returns to the files panel.
    let outcome = app.handle_input(Event::Input(KeyEvent { code: KeyCode::Esc, ctrl: false }));
    assert!(!outcome.quit);
    assert_eq!(app.router.focused, Some(ComponentType::FilesComponent));
    assert!(!app.is_popup_visible());
}

#[test]
fn commit_prompt_submit_commits_and_returns_to_files() {
    let mut app = App::new("nowhere".to_string());
    app.files.apply_snapshot(vec![staged("a")]);
    app.focus(ComponentType::CommitComponent);
    assert!(app.is_popup_visible());
    // Type a message, then confirm with enter: the prompt clears, focus
    // returns to the files panel, and exactly one event is posted — here an
    // error, since no repository stands at the path.
    app.handle_input(input('h'));
    app.handle_input(input('i'));
    assert_eq!(app.commit_popup.text(), "hi");
    let outcome = app.handle_input(Event::Input(KeyEvent { code: KeyCode::Enter, ctrl: false }));
    assert_eq!(outcome.events.len(), 1);
    assert!(matches!(outcome.events[0], ProgramEvent::Error(_)));
    assert_eq!(app.commit_popup.text(), "");
    assert_eq!(app.router.focused, Some(ComponentType::FilesComponent));
    assert!(!app.is_popup_visible());
}

#[test]
fn error_event_opens_the_dialog_and_stays_interactive() {
    let mut app = App::new("nowhere".to_string());
    app.focus(ComponentType::FilesComponent);
    let error = ErrorType::GitError(BackendError::NetworkFailure);
    app.handle_program_event(ProgramEvent::Error(error.clone()));
    assert!(app.is_popup_visible());
    assert_eq!(app.router.focused, Some(ComponentType::ErrorComponent));
    assert_eq!(app.error_popup.error, Some(error));
    // Enter acknowledges; the application remains interactive afterward.
    app.handle_input(Event::Input(KeyEvent { code: KeyCode::Enter, ctrl: false }));
    assert!(!app.is_popup_visible());
    assert_eq!(app.error_popup.error, None);
    assert_eq!(app.router.focused, Some(ComponentType::FilesComponent));
}

#[test]
fn push_lifecycle_through_the_dispatcher() {
    let mut app = App::new("nowhere".to_string());
    // Pretend a worker is already running.
    let (started, events) = app.supervisor.request_push();
    assert!(started);
    assert_eq!(events, vec![ProgramEvent::Focus(ComponentType::PushComponent)]);
    let id = app.supervisor.current.as_ref().unwrap().id;
    // Progress events raise the modal's display monotonically.
    app.handle_program_event(ProgramEvent::Progress(id, 0));
    app.handle_program_event(ProgramEvent::Progress(id, 40));
    assert_eq!(app.push_popup.percent, 40);
    app.handle_program_event(ProgramEvent::Progress(id, 100));
    assert_eq!(app.push_popup.percent, 100);
    // The worker reports success: the modal shows it, the settle timer is
    // commanded, and no error is posted.
    let (events, commands) = app.handle_program_event(ProgramEvent::Git(GitEvent::PushSuccess));
    assert!(events.is_empty());
    assert_eq!(commands, vec![AppCommand::ScheduleSettle]);
    assert_eq!(
        app.supervisor.current.as_ref().unwrap().state,
        OperationState::Succeeded
    );
    assert_eq!(app.push_popup.message.as_deref(), Some("Push successful!"));
    // After the settle delay focus returns to the files panel and the
    // supervisor is idle.
    let events = app.finish_settle();
    assert_eq!(events, vec![ProgramEvent::Focus(ComponentType::FilesComponent)]);
    assert_eq!(app.supervisor.current, None);
}

#[test]
fn failed_push_surfaces_one_error_event() {
    let mut app = App::new("nowhere".to_string());
    let (started, _) = app.supervisor.request_push();
    assert!(started);
    let id = app.supervisor.current.as_ref().unwrap().id;
    app.handle_program_event(ProgramEvent::Progress(id, 0));
    let (events, commands) = app.handle_program_event(
        ProgramEvent::Git(GitEvent::PushFailed(BackendError::AuthFailure)),
    );
    assert_eq!(
        events,
        vec![ProgramEvent::Error(ErrorType::GitError(BackendError::AuthFailure))]
    );
    assert!(commands.is_empty());
    assert_eq!(
        app.supervisor.current.as_ref().unwrap().state,
        OperationState::Failed(BackendError::AuthFailure)
    );
    // No settle after a failure.
    assert!(app.finish_settle().is_empty());
}
