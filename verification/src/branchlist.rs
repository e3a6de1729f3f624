//! The branches panel: the branch snapshot, its viewport, and checkout
//! requests.
//!
//! On refresh this panel keeps its cursor (clamping policy): the branch list
//! is stably ordered and updated incrementally.

use vstd::prelude::*;

use crate::branch::{get_branches, Branch, BranchKind};
use crate::errors::BackendError;
use crate::events::{KeyCode, KeyEvent};
use crate::panel::{key_scrolled, scroll_for_key};
use crate::viewport::ViewportWindow;

verus! {

/// What a key pressed in the branches panel asks the dashboard to do.
#[derive(Clone, Debug, PartialEq, Eq)]
pub enum BranchRequest {
    /// Check out the local branch with the given name.
    CheckoutLocal(String),
    /// Check out the remote branch with the given qualified name.
    CheckoutRemote(String),
}

/// The branches panel.
pub struct BranchComponent {
    /// The branch snapshot last pulled from the backend.
    pub branches: Vec<Branch>,
    /// Whether this panel holds focus.
    pub focused: bool,
    /// Cursor and visible slice over `branches`.
    pub window: ViewportWindow,
    /// The working copy this panel reports on.
    pub repo_path: String,
}

impl BranchComponent {
    /// The panel invariant: the viewport ranges over exactly the snapshot.
    pub open spec fn wf(self) -> bool {
        &&& self.window.wf()
        &&& self.window.size == self.branches@.len()
    }

    /// An empty branches panel for the given working copy.
    pub fn new(repo_path: String) -> (c: BranchComponent)
        ensures
            c.wf(),
            c.branches@.len() == 0,
            !c.focused,
            c.repo_path == repo_path,
    {
        BranchComponent {
            branches: Vec::new(),
            focused: false,
            window: ViewportWindow::new(0, 1),
            repo_path,
        }
    }

    /// Toggle the panel's visual focus emphasis; the data is untouched.
    pub fn focus(&mut self, focus: bool)
        ensures
            *final(self) == (BranchComponent { focused: focus, ..*old(self) }),
    {
        self.focused = focus;
    }

    /// Replace the snapshot with a fresh one from the backend; the cursor is
    /// preserved (clamped if the list shrank below it).
    pub fn apply_snapshot(&mut self, branches: Vec<Branch>)
        requires
            old(self).wf(),
        ensures
            final(self).wf(),
            final(self).focused == old(self).focused,
            final(self).repo_path == old(self).repo_path,
            final(self).branches@ == branches@,
            final(self).window == old(self).window.clamped_total(branches@.len() as usize),
    {
        let n = branches.len();
        self.branches = branches;
        self.window.resize_total_clamp(n);
    }

    /// Re-query the backend for the branches and replace the snapshot as
    /// `apply_snapshot` does. A backend failure is returned unchanged and
    /// leaves the panel as it was.
    pub fn update(&mut self) -> (r: Result<(), BackendError>)
        requires
            old(self).wf(),
        ensures
            final(self).wf(),
            final(self).focused == old(self).focused,
            final(self).repo_path == old(self).repo_path,
            r is Err ==> *final(self) == *old(self),
            r is Ok ==> final(self).window == old(self).window.clamped_total(
                final(self).branches@.len() as usize,
            ),
    {
        match get_branches(self.repo_path.as_str()) {
            Ok(branches) => {
                self.apply_snapshot(branches);
                Ok(())
            }
            Err(e) => Err(e),
        }
    }

    /// The request a key press hands to the dashboard: enter asks to check
    /// out the branch under the cursor.
    pub open spec fn request_for_key(self, ev: KeyEvent) -> Option<BranchRequest> {
        if !self.focused || ev.ctrl || !(ev.code == KeyCode::Enter) || self.branches@.len() == 0 {
            None
        } else {
            let b = self.branches@[self.window.selected as int];
            if b.branch_type is Local {
                Some(BranchRequest::CheckoutLocal(b.name))
            } else {
                Some(BranchRequest::CheckoutRemote(b.name))
            }
        }
    }

    /// Handle a key press: the shared cursor bindings, and enter to request a
    /// checkout of the branch under the cursor. A no-op unless the panel
    /// holds focus.
    pub fn handle_event(&mut self, ev: KeyEvent) -> (r: Option<BranchRequest>)
        requires
            old(self).wf(),
        ensures
            final(self).wf(),
            final(self).branches@ == old(self).branches@,
            final(self).focused == old(self).focused,
            final(self).repo_path == old(self).repo_path,
            final(self).window == if old(self).focused {
                key_scrolled(old(self).window, ev)
            } else {
                old(self).window
            },
            r == old(self).request_for_key(ev),
    {
        if !self.focused {
            return None;
        }
        scroll_for_key(&mut self.window, ev);
        if ev.ctrl || self.branches.len() == 0 {
            return None;
        }
        match ev.code {
            KeyCode::Enter => {
                let b = &self.branches[self.window.selected];
                let name = b.name.clone();
                match b.branch_type {
                    BranchKind::Local => Some(BranchRequest::CheckoutLocal(name)),
                    BranchKind::Remote => Some(BranchRequest::CheckoutRemote(name)),
                }
            }
            _ => None,
        }
    }
}

} // verus!
