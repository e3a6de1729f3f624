//! The files panel: the working-tree status snapshot, its cursor, and the
//! staging / commit / push key bindings.
//!
//! On refresh this panel keeps its cursor (clamping policy), because the file
//! list is a stably ordered list updated incrementally, e.g. after staging
//! one entry.

use vstd::prelude::*;
use vstd::string::StringExecFns;

use crate::errors::BackendError;
use crate::events::{KeyCode, KeyEvent, ProgramEvent};
use crate::focus::ComponentType;
use crate::panel::{key_scrolled, scroll_for_key, scroll_key};
use crate::viewport::ViewportWindow;
use crate::worktree;

verus! {

/// The state of one working-tree entry, as the dashboard distinguishes it.
#[derive(Clone, Copy, Debug, PartialEq, Eq, Structural)]
pub enum StatusType {
    /// No change.
    Unmodified,
    /// Modified in the working tree, not staged.
    Modified,
    /// Modified and staged.
    IndexModified,
    /// New and staged.
    Added,
    /// Deleted and the deletion staged.
    Deleted,
    /// New and untracked.
    Untracked,
    /// Deleted in the working tree, the deletion not staged.
    WorktreeDeleted,
    /// In conflict.
    Conflicted,
}

impl StatusType {
    /// Whether an entry of this status counts as staged: its change is in
    /// the index, so there is something to commit.
    pub open spec fn is_staged(self) -> bool {
        self is IndexModified || self is Added || self is Deleted
    }

    pub fn staged(self) -> (r: bool)
        ensures
            r == self.is_staged(),
    {
        match self {
            StatusType::IndexModified => true,
            StatusType::Added => true,
            StatusType::Deleted => true,
            _ => false,
        }
    }
}

/// One entry of the status snapshot: a path and its status.
#[derive(Clone, Debug, PartialEq, Eq)]
pub struct FileStatus {
    pub path: String,
    pub status_type: StatusType,
}

/// Whether the snapshot holds at least one staged entry.
pub open spec fn staged_in(files: Seq<FileStatus>) -> bool {
    exists|i: int| 0 <= i < files.len() && (#[trigger] files[i].status_type).is_staged()
}

/// What a key pressed in the files panel asks the dashboard to do beyond the
/// panel's own state: a backend staging call, the external commit editor, or
/// a push request.
#[derive(Clone, Debug, PartialEq, Eq)]
pub enum FileRequest {
    /// Stage every entry.
    StageAll,
    /// Stage the entry at the given path.
    StageOne(String),
    /// Unstage every entry.
    UnstageAll,
    /// Unstage the entry at the given path.
    UnstageOne(String),
    /// Hand the terminal to the external commit editor.
    OpenEditor,
    /// Request a background push.
    Push,
}

/// The files panel.
pub struct FileComponent {
    /// The status snapshot last pulled from the backend.
    pub files: Vec<FileStatus>,
    /// Whether this panel holds focus.
    pub focused: bool,
    /// Cursor and visible slice over `files`.
    pub window: ViewportWindow,
    /// The working copy this panel reports on.
    pub repo_path: String,
}

impl FileComponent {
    /// The panel invariant: the viewport ranges over exactly the snapshot.
    pub open spec fn wf(self) -> bool {
        &&& self.window.wf()
        &&& self.window.size == self.files@.len()
    }

    /// An empty files panel for the given working copy.
    pub fn new(repo_path: String) -> (c: FileComponent)
        ensures
            c.wf(),
            c.files@.len() == 0,
            !c.focused,
            c.repo_path == repo_path,
    {
        FileComponent {
            files: Vec::new(),
            focused: false,
            window: ViewportWindow::new(0, 1),
            repo_path,
        }
    }

    /// Toggle the panel's visual focus emphasis; the data is untouched.
    pub fn focus(&mut self, focus: bool)
        ensures
            *final(self) == (FileComponent { focused: focus, ..*old(self) }),
    {
        self.focused = focus;
    }

    /// Whether at least one entry is staged, i.e. the commit prompt may open.
    pub fn has_files_staged(&self) -> (r: bool)
        ensures
            r == staged_in(self.files@),
    {
        let mut i: usize = 0;
        while i < self.files.len()
            invariant
                i <= self.files@.len(),
                forall|j: int| 0 <= j < i ==> !(#[trigger] self.files@[j].status_type).is_staged(),
            decreases self.files@.len() - i,
        {
            if self.files[i].status_type.staged() {
                return true;
            }
            i = i + 1;
        }
        false
    }

    /// Replace the snapshot with a fresh one from the backend. An empty
    /// snapshot is shown as a single clean-tree placeholder entry. The cursor
    /// is preserved (clamped if the list shrank below it); the window is
    /// re-derived.
    pub fn apply_snapshot(&mut self, files: Vec<FileStatus>)
        requires
            old(self).wf(),
        ensures
            final(self).wf(),
            final(self).focused == old(self).focused,
            final(self).repo_path == old(self).repo_path,
            files@.len() > 0 ==> final(self).files@ == files@,
            files@.len() == 0 ==> {
                &&& final(self).files@.len() == 1
                &&& final(self).files@[0].status_type is Unmodified
                &&& final(self).files@[0].path@ == "Working tree clean"@
            },
            final(self).window == old(self).window.clamped_total(final(self).files@.len() as usize),
    {
        self.files = files;
        if self.files.len() == 0 {
            self.files.push(
                FileStatus {
                    path: String::from_str("Working tree clean"),
                    status_type: StatusType::Unmodified,
                },
            );
        }
        let n = self.files.len();
        self.window.resize_total_clamp(n);
    }

    /// Re-query the backend for the working-tree status and replace the
    /// snapshot as `apply_snapshot` does. A backend failure is returned
    /// unchanged and leaves the panel as it was.
    pub fn update(&mut self) -> (r: Result<(), BackendError>)
        requires
            old(self).wf(),
        ensures
            final(self).wf(),
            final(self).focused == old(self).focused,
            final(self).repo_path == old(self).repo_path,
            r is Err ==> *final(self) == *old(self),
            r is Ok ==> final(self).files@.len() > 0,
            r is Ok ==> final(self).window == old(self).window.clamped_total(
                final(self).files@.len() as usize,
            ),
    {
        match worktree::get_file_status(self.repo_path.as_str()) {
            Ok(files) => {
                self.apply_snapshot(files);
                Ok(())
            }
            Err(e) => Err(e),
        }
    }

    /// The events a key press posts: pressing `c` opens the commit prompt by
    /// posting exactly one focus event, and only when at least one entry is
    /// staged; no other key posts an event.
    pub open spec fn events_for_key(self, ev: KeyEvent) -> Seq<ProgramEvent> {
        if !self.focused {
            Seq::empty()
        } else if ev.code == KeyCode::Char('c') && !ev.ctrl && staged_in(self.files@) {
            seq![ProgramEvent::Focus(ComponentType::CommitComponent)]
        } else {
            Seq::empty()
        }
    }

    /// The request a key press hands to the dashboard.
    pub open spec fn request_for_key(self, ev: KeyEvent) -> Option<FileRequest> {
        if !self.focused || ev.ctrl {
            None
        } else if ev.code == KeyCode::Char('a') {
            Some(FileRequest::StageAll)
        } else if ev.code == KeyCode::Char('A') {
            Some(FileRequest::UnstageAll)
        } else if ev.code == KeyCode::Char('s') {
            if self.files@.len() > 0 {
                Some(FileRequest::StageOne(self.files@[self.window.selected as int].path))
            } else {
                None
            }
        } else if ev.code == KeyCode::Char('u') {
            if self.files@.len() > 0 {
                Some(FileRequest::UnstageOne(self.files@[self.window.selected as int].path))
            } else {
                None
            }
        } else if ev.code == KeyCode::Char('C') {
            Some(FileRequest::OpenEditor)
        } else if ev.code == KeyCode::Char('p') {
            Some(FileRequest::Push)
        } else {
            None
        }
    }

    /// Handle a key press. A no-op unless the panel holds focus. `j`/`k` and
    /// control-`d`/`u` move the cursor; `a`/`A` stage/unstage everything,
    /// `s`/`u` stage/unstage the entry under the cursor, `C` asks for the
    /// external editor, `p` asks for a push — all handed back as requests;
    /// `c` posts a focus event for the commit prompt, only if at least one
    /// entry is staged. The snapshot itself never changes here.
    pub fn handle_event(&mut self, ev: KeyEvent) -> (r: (Vec<ProgramEvent>, Option<FileRequest>))
        requires
            old(self).wf(),
        ensures
            final(self).wf(),
            final(self).files@ == old(self).files@,
            final(self).focused == old(self).focused,
            final(self).repo_path == old(self).repo_path,
            final(self).window == if old(self).focused {
                key_scrolled(old(self).window, ev)
            } else {
                old(self).window
            },
            r.0@ == old(self).events_for_key(ev),
            r.1 == old(self).request_for_key(ev),
    {
        if !self.focused {
            return (Vec::new(), None);
        }
        if scroll_key(ev) {
            scroll_for_key(&mut self.window, ev);
            return (Vec::new(), None);
        }
        let mut events: Vec<ProgramEvent> = Vec::new();
        let mut request: Option<FileRequest> = None;
        if !ev.ctrl {
            match ev.code {
                KeyCode::Char(c) => {
                    if c == 'c' {
                        if self.has_files_staged() {
                            events.push(ProgramEvent::Focus(ComponentType::CommitComponent));
                        }
                    } else if c == 'a' {
                        request = Some(FileRequest::StageAll);
                    } else if c == 'A' {
                        request = Some(FileRequest::UnstageAll);
                    } else if c == 's' {
                        request = self.selected_path_request(true);
                    } else if c == 'u' {
                        request = self.selected_path_request(false);
                    } else if c == 'C' {
                        request = Some(FileRequest::OpenEditor);
                    } else if c == 'p' {
                        request = Some(FileRequest::Push);
                    }
                }
                _ => {}
            }
        }
        (events, request)
    }

    /// The staging request for the entry under the cursor, if there is one.
    fn selected_path_request(&self, stage: bool) -> (r: Option<FileRequest>)
        requires
            self.wf(),
        ensures
            self.files@.len() == 0 ==> r is None,
            self.files@.len() > 0 && stage ==> r == Some(
                FileRequest::StageOne(self.files@[self.window.selected as int].path),
            ),
            self.files@.len() > 0 && !stage ==> r == Some(
                FileRequest::UnstageOne(self.files@[self.window.selected as int].path),
            ),
    {
        if self.files.len() == 0 {
            return None;
        }
        let path = self.files[self.window.selected].path.clone();
        if stage {
            Some(FileRequest::StageOne(path))
        } else {
            Some(FileRequest::UnstageOne(path))
        }
    }
}

} // verus!
