//! The application state and the event dispatcher: one value owning every
//! panel, every popup, the focus router and the push supervisor. The main
//! loop (outside this crate) refreshes, renders, blocks on the merged event
//! sources, and hands each event to `handle_program_event` or `handle_input`;
//! those return the program events to post and the commands (spawn a push
//! worker, schedule the settle timer, run the external editor) the loop must
//! perform. A backend failure never aborts the loop: it comes back as an
//! `Error` event and surfaces as a dismissible dialog.

use vstd::prelude::*;

use crate::branchlist::{BranchComponent, BranchRequest};
use crate::branch::{checkout_local_branch, checkout_remote_branch};
use crate::commit;
use crate::diff::DiffComponent;
use crate::errors::ErrorType;
use crate::events::{Event, GitEvent, KeyCode, KeyEvent, ProgramEvent};
use crate::files::{FileComponent, FileRequest};
use crate::focus::{ComponentType, FocusRouter};
use crate::log::LogComponent;
use crate::popups::{ErrorComponent, PopupOutcome, PushPopup, TextPrompt};
use crate::remote;
use crate::status::StatusComponent;
use crate::supervisor::{Operation, OperationState, Supervisor};
use crate::worktree;

verus! {

/// What the main loop must perform outside this crate after a dispatch step.
#[derive(Clone, Debug, PartialEq, Eq)]
pub enum AppCommand {
    /// Start exactly one push worker for the operation with the given id,
    /// against the named remote.
    SpawnPush(u64, String),
    /// Wait the short settle delay, then call `finish_settle`.
    ScheduleSettle,
    /// Hand the terminal to the external commit editor.
    RunCommitEditor,
}

/// What one input-event dispatch asks of the main loop.
pub struct InputOutcome {
    /// Leave the main loop and terminate cleanly.
    pub quit: bool,
    /// Program events to post onto the event channel.
    pub events: Vec<ProgramEvent>,
    /// Commands to perform.
    pub commands: Vec<AppCommand>,
}

/// The whole dashboard state.
pub struct App {
    pub repo_path: String,
    pub branches: BranchComponent,
    pub logs: LogComponent,
    pub files: FileComponent,
    pub diff: DiffComponent,
    pub status: StatusComponent,
    pub error_popup: ErrorComponent,
    pub commit_popup: TextPrompt,
    pub remote_popup: TextPrompt,
    pub push_popup: PushPopup,
    pub router: FocusRouter,
    pub supervisor: Supervisor,
}

impl App {
    /// Every panel's focus flag mirrors the router: the router is the single
    /// source of focus truth.
    pub open spec fn focus_synced(self) -> bool {
        &&& self.files.focused == self.router.flag(ComponentType::FilesComponent)
        &&& self.branches.focused == self.router.flag(ComponentType::BranchComponent)
        &&& self.logs.focused == self.router.flag(ComponentType::LogComponent)
        &&& self.diff.focused == self.router.flag(ComponentType::DiffComponent)
    }

    /// The application invariant: the router is exclusive, every panel's
    /// viewport is well-formed, and the focus flags are in sync.
    pub open spec fn wf(self) -> bool {
        &&& self.router.wf()
        &&& self.focus_synced()
        &&& self.branches.wf()
        &&& self.logs.wf()
        &&& self.files.wf()
        &&& self.diff.wf()
    }

    /// The panels' data — snapshots and viewports — agree between `self` and
    /// `other`: only the focus emphasis may differ.
    pub open spec fn panel_data_unchanged(self, other: App) -> bool {
        &&& other.files.files@ == self.files.files@
        &&& other.files.window == self.files.window
        &&& other.branches.branches@ == self.branches.branches@
        &&& other.branches.window == self.branches.window
        &&& other.logs.logs@ == self.logs.logs@
        &&& other.logs.window == self.logs.window
        &&& other.diff.diffs@ == self.diff.diffs@
        &&& other.diff.window == self.diff.window
    }

    /// Whether a modal popup is visible: exactly when the focused target is a
    /// modal, so at most one popup is ever visible.
    pub open spec fn modal_visible(self) -> bool {
        match self.router.focused {
            Some(c) => c.is_modal(),
            None => false,
        }
    }

    /// A fresh dashboard for the working copy at `repo_path`: empty panels,
    /// no popup visible, nothing focused, the supervisor idle.
    pub fn new(repo_path: String) -> (app: App)
        ensures
            app.wf(),
            app.router.focused is None,
            !app.modal_visible(),
            app.supervisor.current is None,
            app.supervisor.next_id == 0,
            app.repo_path == repo_path,
    {
        let app = App {
            branches: BranchComponent::new(repo_path.clone()),
            logs: LogComponent::new(repo_path.clone()),
            files: FileComponent::new(repo_path.clone()),
            diff: DiffComponent::new(repo_path.clone()),
            status: StatusComponent::new(),
            error_popup: ErrorComponent::new(),
            commit_popup: TextPrompt::new(),
            remote_popup: TextPrompt::new(),
            push_popup: PushPopup::new(),
            router: FocusRouter::new(),
            supervisor: Supervisor::new(),
            repo_path,
        };
        app
    }

    /// Whether a modal popup is visible right now.
    pub fn is_popup_visible(&self) -> (r: bool)
        ensures
            r == self.modal_visible(),
    {
        match self.router.focused {
            Some(c) => c.modal(),
            None => false,
        }
    }

    /// Transfer exclusive focus to `component`: the router deactivates the
    /// previous target, activates the new one, and every panel's flag follows.
    /// No panel's data and no popup's content changes.
    pub fn focus(&mut self, component: ComponentType)
        requires
            old(self).wf(),
        ensures
            final(self).wf(),
            final(self).router.focused == Some(component),
            final(self).supervisor == old(self).supervisor,
            old(self).panel_data_unchanged(*final(self)),
            final(self).push_popup == old(self).push_popup,
            final(self).error_popup.error == old(self).error_popup.error,
            final(self).commit_popup.input@ == old(self).commit_popup.input@,
            final(self).remote_popup.input@ == old(self).remote_popup.input@,
            final(self).repo_path == old(self).repo_path,
    {
        self.router.set_focus(Some(component));
        let files_active = self.router.is_active(ComponentType::FilesComponent);
        self.files.focus(files_active);
        let branches_active = self.router.is_active(ComponentType::BranchComponent);
        self.branches.focus(branches_active);
        let logs_active = self.router.is_active(ComponentType::LogComponent);
        self.logs.focus(logs_active);
        let diff_active = self.router.is_active(ComponentType::DiffComponent);
        self.diff.focus(diff_active);
    }

    /// Surface a failure: the error dialog shows it and takes focus, so it is
    /// always acknowledgeable. No panel's data and no other popup's content
    /// changes.
    pub fn display_error(&mut self, error: ErrorType)
        requires
            old(self).wf(),
        ensures
            final(self).wf(),
            final(self).router.focused == Some(ComponentType::ErrorComponent),
            final(self).modal_visible(),
            final(self).error_popup.error == Some(error),
            final(self).supervisor == old(self).supervisor,
            old(self).panel_data_unchanged(*final(self)),
            final(self).push_popup == old(self).push_popup,
            final(self).commit_popup.input@ == old(self).commit_popup.input@,
            final(self).remote_popup.input@ == old(self).remote_popup.input@,
    {
        self.error_popup.set_error(error);
        self.focus(ComponentType::ErrorComponent);
    }

    /// Refresh the branches, files and diff panels from the backend, before a
    /// render; the diff refreshes after the files panel, whose staging state
    /// feeds it. Each of the three panels either reports a failure as one
    /// `Error` event (staying as it was) or takes the fetched snapshot under
    /// its cursor policy; the log panel and the popups are untouched. The
    /// loop never aborts on a backend failure.
    pub fn update(&mut self) -> (events: Vec<ProgramEvent>)
        requires
            old(self).wf(),
        ensures
            final(self).wf(),
            final(self).router == old(self).router,
            final(self).supervisor == old(self).supervisor,
            forall|i: int| 0 <= i < events@.len() ==> (#[trigger] events@[i]) is Error,
            events@.len() <= 3,
            final(self).branches == old(self).branches || final(self).branches.window == old(self).branches.window.clamped_total(final(self).branches.branches@.len() as usize),
            final(self).files == old(self).files || (final(self).files.files@.len() > 0 && final(self).files.window == old(self).files.window.clamped_total(
                final(self).files.files@.len() as usize,
            )),
            final(self).diff == old(self).diff || final(self).diff.window == old(self).diff.window.reset_total(final(self).diff.diffs@.len() as usize),
            final(self).logs == old(self).logs,
            final(self).push_popup == old(self).push_popup,
            final(self).error_popup == old(self).error_popup,
            final(self).commit_popup.input@ == old(self).commit_popup.input@,
            final(self).remote_popup.input@ == old(self).remote_popup.input@,
            final(self).repo_path == old(self).repo_path,
    {
        let mut events: Vec<ProgramEvent> = Vec::new();
        if let Err(e) = self.branches.update() {
            events.push(ProgramEvent::Error(ErrorType::GitError(e)));
        }
        if let Err(e) = self.files.update() {
            events.push(ProgramEvent::Error(ErrorType::GitError(e)));
        }
        if let Err(e) = self.diff.update() {
            events.push(ProgramEvent::Error(ErrorType::GitError(e)));
        }
        events
    }

    /// Refresh every panel, the commit log included: each panel either
    /// reports its failure as one `Error` event (staying as it was) or takes
    /// the fetched snapshot under its cursor policy.
    pub fn hard_refresh(&mut self) -> (events: Vec<ProgramEvent>)
        requires
            old(self).wf(),
        ensures
            final(self).wf(),
            final(self).router == old(self).router,
            final(self).supervisor == old(self).supervisor,
            forall|i: int| 0 <= i < events@.len() ==> (#[trigger] events@[i]) is Error,
            events@.len() <= 4,
            final(self).branches == old(self).branches || final(self).branches.window == old(self).branches.window.clamped_total(final(self).branches.branches@.len() as usize),
            final(self).files == old(self).files || (final(self).files.files@.len() > 0 && final(self).files.window == old(self).files.window.clamped_total(
                final(self).files.files@.len() as usize,
            )),
            final(self).diff == old(self).diff || final(self).diff.window == old(self).diff.window.reset_total(final(self).diff.diffs@.len() as usize),
            final(self).logs == old(self).logs || final(self).logs.window == old(self).logs.window.reset_total(final(self).logs.logs@.len() as usize),
            final(self).repo_path == old(self).repo_path,
    {
        let mut events = self.update();
        if let Err(e) = self.logs.update() {
            events.push(ProgramEvent::Error(ErrorType::GitError(e)));
        }
        events
    }

    /// Handle a backend outcome. A push success shows its message on the
    /// push-progress modal, moves the operation to done, and commands exactly
    /// one settle timer; a push failure surfaces exactly one `Error` event
    /// and leaves the operation's failure on record; a history change
    /// refreshes the log panel and nothing else. The router and the other
    /// panels never change here.
    pub fn handle_git_event(&mut self, ev: GitEvent) -> (r: (Vec<ProgramEvent>, Vec<AppCommand>))
        requires
            old(self).wf(),
        ensures
            final(self).wf(),
            final(self).supervisor.next_id == old(self).supervisor.next_id,
            (ev is PushSuccess || ev is PushFailed) ==> !final(self).supervisor.is_running(),
            ev is RefreshCommitLog ==> final(self).supervisor == old(self).supervisor,
            ev is PushSuccess ==> (r.0@ =~= Seq::<ProgramEvent>::empty()) && (final(self).push_popup.message is Some),
            ev is PushSuccess ==> (r.1@ =~= seq![AppCommand::ScheduleSettle]),
            ev is PushSuccess ==> (old(self).supervisor.is_running()
                ==> final(self).supervisor.current == Some(
                (Operation {
                    id: old(self).supervisor.current->Some_0.id,
                    state: OperationState::Succeeded,
                }),
            )),
            ev matches GitEvent::PushFailed(kind) ==> (old(self).supervisor.is_running() ==> (
            r.0@ =~= seq![ProgramEvent::Error(ErrorType::GitError(kind))]) && final(self).supervisor.current == Some(
                (Operation {
                    id: old(self).supervisor.current->Some_0.id,
                    state: OperationState::Failed(kind),
                }),
            )),
            !(ev is PushSuccess) ==> r.1@ =~= Seq::<AppCommand>::empty(),
            !old(self).supervisor.is_running() ==> final(self).supervisor.current == old(self).supervisor.current,
            final(self).router == old(self).router,
            final(self).files == old(self).files,
            final(self).branches == old(self).branches,
            final(self).diff == old(self).diff,
            (ev is PushSuccess || ev is PushFailed) ==> final(self).logs == old(self).logs,
            ev is RefreshCommitLog ==> (final(self).logs == old(self).logs || final(self).logs.window == old(self).logs.window.reset_total(final(self).logs.logs@.len() as usize)),
            ev is RefreshCommitLog ==> final(self).push_popup == old(self).push_popup && final(self).error_popup == old(self).error_popup,
    {
        match ev {
            GitEvent::PushSuccess => {
                self.push_popup.set_message("Push successful!");
                let events = self.supervisor.on_push_result(Ok(()));
                let mut commands: Vec<AppCommand> = Vec::new();
                commands.push(AppCommand::ScheduleSettle);
                (events, commands)
            }
            GitEvent::PushFailed(kind) => {
                let events = self.supervisor.on_push_result(Err(kind));
                (events, Vec::new())
            }
            GitEvent::RefreshCommitLog => {
                let mut events: Vec<ProgramEvent> = Vec::new();
                if let Err(e) = self.logs.update() {
                    events.push(ProgramEvent::Error(ErrorType::GitError(e)));
                }
                (events, Vec::new())
            }
        }
    }

    /// Called after the settle delay that follows a successful push: the
    /// operation record clears and focus returns to the files panel.
    pub fn finish_settle(&mut self) -> (events: Vec<ProgramEvent>)
        requires
            old(self).wf(),
        ensures
            final(self).wf(),
            final(self).supervisor.next_id == old(self).supervisor.next_id,
            match old(self).supervisor.current {
                Some(op) => if op.state is Succeeded {
                    &&& final(self).supervisor.current is None
                    &&& events@ =~= seq![ProgramEvent::Focus(ComponentType::FilesComponent)]
                } else {
                    &&& final(self).supervisor.current == old(self).supervisor.current
                    &&& events@ =~= Seq::<ProgramEvent>::empty()
                },
                None => {
                    &&& final(self).supervisor.current is None
                    &&& events@ =~= Seq::<ProgramEvent>::empty()
                },
            },
    {
        self.supervisor.settle()
    }

    /// Route one program event: focus transfers go to the router, errors to
    /// the dialog, backend outcomes to `handle_git_event`, progress to the
    /// supervisor and the push-progress modal (whose display never
    /// regresses).
    pub fn handle_program_event(&mut self, ev: ProgramEvent) -> (r: (
        Vec<ProgramEvent>,
        Vec<AppCommand>,
    ))
        requires
            old(self).wf(),
        ensures
            final(self).wf(),
            ev is Progress ==> final(self).push_popup.percent >= old(self).push_popup.percent,
            ev matches ProgramEvent::Focus(c) ==> final(self).router.focused == Some(c),
            ev matches ProgramEvent::Error(e) ==> final(self).router.focused == Some(
                ComponentType::ErrorComponent,
            ) && final(self).error_popup.error == Some(e),
    {
        match ev {
            ProgramEvent::Focus(component) => {
                self.focus(component);
                (Vec::new(), Vec::new())
            }
            ProgramEvent::Error(error) => {
                self.display_error(error);
                (Vec::new(), Vec::new())
            }
            ProgramEvent::Git(git_event) => self.handle_git_event(git_event),
            ProgramEvent::Progress(id, percent) => {
                self.supervisor.on_progress(id, percent);
                self.push_popup.set_percent(percent);
                (Vec::new(), Vec::new())
            }
        }
    }

    /// Ask the supervisor for a push. With no remote configured the remote
    /// prompt opens instead; while a push is running the request is rejected
    /// outright (the state stays, no worker is commanded); otherwise the
    /// push-progress modal resets and exactly one worker is commanded.
    fn start_push(&mut self) -> (r: (Vec<ProgramEvent>, Vec<AppCommand>))
        requires
            old(self).wf(),
            old(self).supervisor.next_id < u64::MAX,
        ensures
            final(self).wf(),
            final(self).router == old(self).router,
            final(self).supervisor.next_id >= old(self).supervisor.next_id,
            old(self).supervisor.is_running() ==> final(self).supervisor == old(self).supervisor
                && r.1@ =~= Seq::<AppCommand>::empty(),
    {
        let remote_name = match remote::first_remote(self.repo_path.as_str()) {
            Ok(Some(name)) => name,
            Ok(None) => {
                let mut events: Vec<ProgramEvent> = Vec::new();
                events.push(ProgramEvent::Focus(ComponentType::RemotePopupComponent));
                return (events, Vec::new());
            }
            Err(e) => {
                let mut events: Vec<ProgramEvent> = Vec::new();
                events.push(ProgramEvent::Error(ErrorType::GitError(e)));
                return (events, Vec::new());
            }
        };
        let op_id = self.supervisor.next_id;
        let (started, events) = self.supervisor.request_push();
        let mut commands: Vec<AppCommand> = Vec::new();
        if started {
            self.push_popup.reset();
            commands.push(AppCommand::SpawnPush(op_id, remote_name));
        }
        proof {
            if old(self).supervisor.is_running() {
                assert(self.supervisor.current == old(self).supervisor.current);
                assert(self.supervisor.next_id == old(self).supervisor.next_id);
            }
        }
        (events, commands)
    }

    /// Perform the backend request a files-panel key asked for.
    fn perform_file_request(&mut self, request: FileRequest) -> (r: (
        Vec<ProgramEvent>,
        Vec<AppCommand>,
    ))
        requires
            old(self).wf(),
            old(self).supervisor.next_id < u64::MAX,
        ensures
            final(self).wf(),
            final(self).router == old(self).router,
            final(self).supervisor.next_id >= old(self).supervisor.next_id,
            old(self).supervisor.is_running() ==> final(self).supervisor == old(self).supervisor
                && (forall|i: int|
                0 <= i < r.1@.len() ==> !((#[trigger] r.1@[i]) is SpawnPush)),
    {
        let mut events: Vec<ProgramEvent> = Vec::new();
        let mut commands: Vec<AppCommand> = Vec::new();
        match request {
            FileRequest::StageAll => {
                if let Err(e) = worktree::stage_all(self.repo_path.as_str()) {
                    events.push(ProgramEvent::Error(ErrorType::GitError(e)));
                }
            }
            FileRequest::StageOne(path) => {
                if let Err(e) = worktree::stage_file(self.repo_path.as_str(), path.as_str()) {
                    events.push(ProgramEvent::Error(ErrorType::GitError(e)));
                }
            }
            FileRequest::UnstageAll => {
                if let Err(e) = worktree::unstage_all(self.repo_path.as_str()) {
                    events.push(ProgramEvent::Error(ErrorType::GitError(e)));
                }
            }
            FileRequest::UnstageOne(path) => {
                if let Err(e) = worktree::unstage_file(self.repo_path.as_str(), path.as_str()) {
                    events.push(ProgramEvent::Error(ErrorType::GitError(e)));
                }
            }
            FileRequest::OpenEditor => {
                commands.push(AppCommand::RunCommitEditor);
            }
            FileRequest::Push => {
                return self.start_push();
            }
        }
        (events, commands)
    }

    /// Route a key to the visible popup: the error dialog dismisses on enter
    /// or escape; the commit prompt commits on enter; the remote prompt adds
    /// the remote under the name `origin`; the push-progress modal dismisses
    /// once the operation is no longer running. Dismissal returns focus to
    /// the files panel.
    pub fn handle_popup_event(&mut self, ev: Event<KeyEvent>) -> (r: InputOutcome)
        requires
            old(self).wf(),
        ensures
            final(self).wf(),
            !r.quit,
            r.commands@ =~= Seq::<AppCommand>::empty(),
            final(self).supervisor.next_id == old(self).supervisor.next_id,
            old(self).supervisor.is_running() ==> final(self).supervisor == old(self).supervisor,
            ev is Tick ==> *final(self) == *old(self),
            old(self).panel_data_unchanged(*final(self)),
            (ev matches Event::Input(k) && old(self).router.focused == Some(
                ComponentType::ErrorComponent,
            ) && (k.code == KeyCode::Enter || k.code == KeyCode::Esc)) ==> (final(self).router.focused
                == Some(ComponentType::FilesComponent)) && (final(self).error_popup.error is None),
            (ev matches Event::Input(k) && !k.ctrl && k.code == KeyCode::Enter && old(self).router.focused == Some(ComponentType::CommitComponent)) ==> (final(self).commit_popup.input@.len() == 0) && (final(self).router.focused == Some(
                ComponentType::FilesComponent,
            )) && (r.events@.len() == 1),
            (ev matches Event::Input(k) && !k.ctrl && k.code == KeyCode::Esc && old(self).router.focused == Some(ComponentType::CommitComponent)) ==> (final(self).commit_popup.input@.len() == 0) && (final(self).router.focused == Some(
                ComponentType::FilesComponent,
            )) && (r.events@.len() == 0),
            (ev matches Event::Input(k) && !k.ctrl && k.code == KeyCode::Enter && old(self).router.focused == Some(ComponentType::RemotePopupComponent)) ==> (final(self).remote_popup.input@.len() == 0) && (final(self).router.focused == Some(
                ComponentType::FilesComponent,
            )) && (r.events@.len() <= 1),
            (ev matches Event::Input(k) && !k.ctrl && k.code == KeyCode::Esc && old(self).router.focused == Some(ComponentType::RemotePopupComponent)) ==> (final(self).remote_popup.input@.len() == 0) && (final(self).router.focused == Some(
                ComponentType::FilesComponent,
            )),
            (ev matches Event::Input(k) && (k.code == KeyCode::Enter || k.code == KeyCode::Esc)
                && old(self).router.focused == Some(ComponentType::PushComponent) && !old(self).supervisor.is_running()) ==> (final(self).router.focused == Some(
                ComponentType::FilesComponent,
            )) && (!final(self).supervisor.is_running()),
    {
        let key = match ev {
            Event::Input(key) => key,
            Event::Tick => {
                return InputOutcome { quit: false, events: Vec::new(), commands: Vec::new() };
            }
        };
        let mut events: Vec<ProgramEvent> = Vec::new();
        match self.router.focused {
            Some(ComponentType::ErrorComponent) => {
                match key.code {
                    KeyCode::Enter | KeyCode::Esc => {
                        self.error_popup.clear();
                        self.focus(ComponentType::FilesComponent);
                    }
                    _ => {}
                }
            }
            Some(ComponentType::CommitComponent) => {
                match self.commit_popup.handle_event(key) {
                    PopupOutcome::Submit => {
                        let message = self.commit_popup.text();
                        match commit::commit(self.repo_path.as_str(), message.as_str()) {
                            Ok(()) => {
                                events.push(ProgramEvent::Git(GitEvent::RefreshCommitLog));
                            }
                            Err(e) => {
                                events.push(ProgramEvent::Error(ErrorType::GitError(e)));
                            }
                        }
                        self.commit_popup.clear();
                        self.focus(ComponentType::FilesComponent);
                    }
                    PopupOutcome::Cancel => {
                        self.commit_popup.clear();
                        self.focus(ComponentType::FilesComponent);
                    }
                    PopupOutcome::Stay => {}
                }
            }
            Some(ComponentType::RemotePopupComponent) => {
                match self.remote_popup.handle_event(key) {
                    PopupOutcome::Submit => {
                        let url = self.remote_popup.text();
                        if let Err(e) = remote::add_remote(
                            self.repo_path.as_str(),
                            "origin",
                            url.as_str(),
                        ) {
                            events.push(ProgramEvent::Error(ErrorType::GitError(e)));
                        }
                        self.remote_popup.clear();
                        self.focus(ComponentType::FilesComponent);
                    }
                    PopupOutcome::Cancel => {
                        self.remote_popup.clear();
                        self.focus(ComponentType::FilesComponent);
                    }
                    PopupOutcome::Stay => {}
                }
            }
            Some(ComponentType::PushComponent) => {
                match key.code {
                    KeyCode::Enter | KeyCode::Esc => {
                        if !self.supervisor_running() {
                            let mut settled = self.supervisor.settle();
                            events.append(&mut settled);
                            self.focus(ComponentType::FilesComponent);
                        }
                    }
                    _ => {}
                }
            }
            _ => {}
        }
        InputOutcome { quit: false, events, commands: Vec::new() }
    }

    fn supervisor_running(&self) -> (r: bool)
        ensures
            r == self.supervisor.is_running(),
    {
        match &self.supervisor.current {
            Some(op) => match op.state {
                crate::supervisor::OperationState::Running(_) => true,
                _ => false,
            },
            None => false,
        }
    }

    /// Route one input event. While a popup is visible it captures all key
    /// input. Otherwise the global bindings run first: control-`q` quits,
    /// `1` to `4` jump focus to the files, branches, log and diff panels;
    /// anything else goes to the focused panel, whose requests (staging,
    /// checkout, push, editor) are performed here.
    pub fn handle_input(&mut self, ev: Event<KeyEvent>) -> (r: InputOutcome)
        requires
            old(self).wf(),
            old(self).supervisor.next_id < u64::MAX,
        ensures
            final(self).wf(),
            r.quit == (ev matches Event::Input(k) && k.ctrl && k.code == KeyCode::Char('q')
                && !old(self).modal_visible()),
            ev is Tick ==> *final(self) == *old(self) && r.events@ =~= Seq::<
                ProgramEvent,
            >::empty() && r.commands@ =~= Seq::<AppCommand>::empty(),
            old(self).modal_visible() ==> old(self).panel_data_unchanged(*final(self)) && (
            r.commands@ =~= Seq::<AppCommand>::empty()),
            final(self).supervisor.next_id >= old(self).supervisor.next_id,
            old(self).supervisor.is_running() ==> final(self).supervisor == old(self).supervisor
                && (forall|i: int|
                0 <= i < r.commands@.len() ==> !((#[trigger] r.commands@[i]) is SpawnPush)),
            (ev matches Event::Input(k) && !k.ctrl && k.code == KeyCode::Char('1') && !old(self).modal_visible()) ==> final(self).router.focused == Some(
                ComponentType::FilesComponent,
            ),
            (ev matches Event::Input(k) && !k.ctrl && k.code == KeyCode::Char('2') && !old(self).modal_visible()) ==> final(self).router.focused == Some(
                ComponentType::BranchComponent,
            ),
            (ev matches Event::Input(k) && !k.ctrl && k.code == KeyCode::Char('3') && !old(self).modal_visible()) ==> final(self).router.focused == Some(ComponentType::LogComponent),
            (ev matches Event::Input(k) && !k.ctrl && k.code == KeyCode::Char('4') && !old(self).modal_visible()) ==> final(self).router.focused == Some(ComponentType::DiffComponent),
    {
        let key = match ev {
            Event::Input(key) => key,
            Event::Tick => {
                return InputOutcome { quit: false, events: Vec::new(), commands: Vec::new() };
            }
        };
        if self.is_popup_visible() {
            return self.handle_popup_event(Event::Input(key));
        }
        if key.ctrl {
            match key.code {
                KeyCode::Char(c) => {
                    if c == 'q' {
                        return InputOutcome {
                            quit: true,
                            events: Vec::new(),
                            commands: Vec::new(),
                        };
                    }
                }
                _ => {}
            }
        } else {
            match key.code {
                KeyCode::Char(c) => {
                    if c == '1' {
                        self.focus(ComponentType::FilesComponent);
                        return InputOutcome {
                            quit: false,
                            events: Vec::new(),
                            commands: Vec::new(),
                        };
                    } else if c == '2' {
                        self.focus(ComponentType::BranchComponent);
                        return InputOutcome {
                            quit: false,
                            events: Vec::new(),
                            commands: Vec::new(),
                        };
                    } else if c == '3' {
                        self.focus(ComponentType::LogComponent);
                        return InputOutcome {
                            quit: false,
                            events: Vec::new(),
                            commands: Vec::new(),
                        };
                    } else if c == '4' {
                        self.focus(ComponentType::DiffComponent);
                        return InputOutcome {
                            quit: false,
                            events: Vec::new(),
                            commands: Vec::new(),
                        };
                    }
                }
                _ => {}
            }
        }
        self.forward_to_panel(key)
    }

    /// Hand a key to the focused panel and perform what it asks.
    fn forward_to_panel(&mut self, key: KeyEvent) -> (r: InputOutcome)
        requires
            old(self).wf(),
            old(self).supervisor.next_id < u64::MAX,
        ensures
            final(self).wf(),
            !r.quit,
            final(self).supervisor.next_id >= old(self).supervisor.next_id,
            old(self).supervisor.is_running() ==> final(self).supervisor == old(self).supervisor
                && (forall|i: int|
                0 <= i < r.commands@.len() ==> !((#[trigger] r.commands@[i]) is SpawnPush)),
            final(self).router == old(self).router,
    {
        match self.router.focused {
            Some(ComponentType::FilesComponent) => {
                let (mut events, request) = self.files.handle_event(key);
                match request {
                    Some(request) => {
                        let (mut more, commands) = self.perform_file_request(request);
                        events.append(&mut more);
                        InputOutcome { quit: false, events, commands }
                    }
                    None => InputOutcome { quit: false, events, commands: Vec::new() },
                }
            }
            Some(ComponentType::BranchComponent) => {
                let request = self.branches.handle_event(key);
                let mut events: Vec<ProgramEvent> = Vec::new();
                match request {
                    Some(BranchRequest::CheckoutLocal(name)) => {
                        if let Err(e) = checkout_local_branch(
                            self.repo_path.as_str(),
                            name.as_str(),
                        ) {
                            events.push(ProgramEvent::Error(ErrorType::GitError(e)));
                        }
                    }
                    Some(BranchRequest::CheckoutRemote(name)) => {
                        if let Err(e) = checkout_remote_branch(
                            self.repo_path.as_str(),
                            name.as_str(),
                        ) {
                            events.push(ProgramEvent::Error(ErrorType::GitError(e)));
                        }
                    }
                    None => {}
                }
                InputOutcome { quit: false, events, commands: Vec::new() }
            }
            Some(ComponentType::LogComponent) => {
                self.logs.handle_event(key);
                InputOutcome { quit: false, events: Vec::new(), commands: Vec::new() }
            }
            Some(ComponentType::DiffComponent) => {
                self.diff.handle_event(key);
                InputOutcome { quit: false, events: Vec::new(), commands: Vec::new() }
            }
            _ => InputOutcome { quit: false, events: Vec::new(), commands: Vec::new() },
        }
    }
}

} // verus!
