//! The log panel: the commit history snapshot and its viewport.
//!
//! On refresh this panel resets its cursor to the top (reset policy), because
//! a re-read history is a wholesale rebuild: new commits shift every row.

use vstd::prelude::*;

use crate::commit::Commit;
use crate::errors::BackendError;
use crate::events::KeyEvent;
use crate::panel::{key_scrolled, scroll_for_key};
use crate::viewport::ViewportWindow;
use crate::worktree;

verus! {

/// The log panel.
pub struct LogComponent {
    /// The history snapshot last pulled from the backend, newest first.
    pub logs: Vec<Commit>,
    /// Whether this panel holds focus.
    pub focused: bool,
    /// Cursor and visible slice over `logs`.
    pub window: ViewportWindow,
    /// The working copy this panel reports on.
    pub repo_path: String,
}

impl LogComponent {
    /// The panel invariant: the viewport ranges over exactly the history.
    pub open spec fn wf(self) -> bool {
        &&& self.window.wf()
        &&& self.window.size == self.logs@.len()
    }

    /// An empty log panel for the given working copy.
    pub fn new(repo_path: String) -> (c: LogComponent)
        ensures
            c.wf(),
            c.logs@.len() == 0,
            !c.focused,
            c.repo_path == repo_path,
    {
        LogComponent {
            logs: Vec::new(),
            focused: false,
            window: ViewportWindow::new(0, 1),
            repo_path,
        }
    }

    /// Toggle the panel's visual focus emphasis; the data is untouched.
    pub fn focus(&mut self, focus: bool)
        ensures
            *final(self) == (LogComponent { focused: focus, ..*old(self) }),
    {
        self.focused = focus;
    }

    /// Replace the history with a fresh snapshot from the backend; the cursor
    /// returns to the top.
    pub fn apply_snapshot(&mut self, commits: Vec<Commit>)
        requires
            old(self).wf(),
        ensures
            final(self).wf(),
            final(self).focused == old(self).focused,
            final(self).repo_path == old(self).repo_path,
            final(self).logs@ == commits@,
            final(self).window == old(self).window.reset_total(commits@.len() as usize),
    {
        let n = commits.len();
        self.logs = commits;
        self.window.resize_total_reset(n);
    }

    /// Re-query the backend for the history and replace the snapshot as
    /// `apply_snapshot` does. A backend failure is returned unchanged and
    /// leaves the panel as it was.
    pub fn update(&mut self) -> (r: Result<(), BackendError>)
        requires
            old(self).wf(),
        ensures
            final(self).wf(),
            final(self).focused == old(self).focused,
            final(self).repo_path == old(self).repo_path,
            r is Err ==> *final(self) == *old(self),
            r is Ok ==> final(self).window == old(self).window.reset_total(
                final(self).logs@.len() as usize,
            ),
    {
        match worktree::fetch_history(self.repo_path.as_str()) {
            Ok(commits) => {
                self.apply_snapshot(commits);
                Ok(())
            }
            Err(e) => Err(e),
        }
    }

    /// Handle a key press: the shared cursor bindings, nothing else. A no-op
    /// unless the panel holds focus.
    pub fn handle_event(&mut self, ev: KeyEvent)
        requires
            old(self).wf(),
        ensures
            final(self).wf(),
            final(self).logs@ == old(self).logs@,
            final(self).focused == old(self).focused,
            final(self).repo_path == old(self).repo_path,
            final(self).window == if old(self).focused {
                key_scrolled(old(self).window, ev)
            } else {
                old(self).window
            },
    {
        if !self.focused {
            return;
        }
        scroll_for_key(&mut self.window, ev);
    }
}

} // verus!
