//! The diff panel: the current diff as a list of lines, and its viewport.
//!
//! On refresh this panel resets its cursor to the top (reset policy), because
//! a regenerated diff changes shape wholesale; a preserved cursor position
//! would point at an unrelated line.

use vstd::prelude::*;

use crate::errors::BackendError;
use crate::events::KeyEvent;
use crate::panel::{key_scrolled, scroll_for_key};
use crate::viewport::ViewportWindow;
use crate::worktree;

verus! {

/// One line of a diff: its text and its origin marker
/// (`+` addition, `-` deletion, otherwise context).
#[derive(Clone, Debug, PartialEq, Eq)]
pub struct DiffLine {
    pub content: String,
    pub origin: char,
}

impl DiffLine {
    pub fn origin(&self) -> (c: char)
        ensures
            c == self.origin,
    {
        self.origin
    }

    pub fn content(&self) -> (s: &String)
        ensures
            *s == self.content,
    {
        &self.content
    }
}

/// Whether two diffs hold the same lines: equal length, and line by line the
/// same origin marker and the same text.
pub open spec fn same_lines(a: Seq<DiffLine>, b: Seq<DiffLine>) -> bool {
    &&& a.len() == b.len()
    &&& forall|i: int|
        0 <= i < a.len() ==> (#[trigger] a[i]).origin == b[i].origin && a[i].content@
            == b[i].content@
}

/// Compare two diffs line by line.
fn lines_match(a: &Vec<DiffLine>, b: &Vec<DiffLine>) -> (r: bool)
    ensures
        r == same_lines(a@, b@),
{
    if a.len() != b.len() {
        return false;
    }
    let mut i: usize = 0;
    while i < a.len()
        invariant
            a@.len() == b@.len(),
            i <= a@.len(),
            forall|j: int|
                0 <= j < i ==> (#[trigger] a@[j]).origin == b@[j].origin && a@[j].content@
                    == b@[j].content@,
        decreases a@.len() - i,
    {
        if a[i].origin != b[i].origin || !(a[i].content == b[i].content) {
            return false;
        }
        i = i + 1;
    }
    true
}

/// The diff panel.
pub struct DiffComponent {
    /// The diff lines last pulled from the backend.
    pub diffs: Vec<DiffLine>,
    /// Whether this panel holds focus.
    pub focused: bool,
    /// Cursor and visible slice over `diffs`.
    pub window: ViewportWindow,
    /// The working copy this panel reports on.
    pub repo_path: String,
}

impl DiffComponent {
    /// The panel invariant: the viewport ranges over exactly the diff lines.
    pub open spec fn wf(self) -> bool {
        &&& self.window.wf()
        &&& self.window.size == self.diffs@.len()
    }

    /// An empty diff panel for the given working copy.
    pub fn new(repo_path: String) -> (c: DiffComponent)
        ensures
            c.wf(),
            c.diffs@.len() == 0,
            !c.focused,
            c.repo_path == repo_path,
    {
        DiffComponent {
            diffs: Vec::new(),
            focused: false,
            window: ViewportWindow::new(0, 1),
            repo_path,
        }
    }

    /// Toggle the panel's visual focus emphasis; the data is untouched.
    pub fn focus(&mut self, focus: bool)
        ensures
            *final(self) == (DiffComponent { focused: focus, ..*old(self) }),
    {
        self.focused = focus;
    }

    /// Replace the diff with a fresh one from the backend. A diff whose every
    /// line matches the current one is left alone, so the cursor survives the
    /// every-frame refresh; any change replaces the lines and returns the
    /// cursor to the top. Either way the panel then shows exactly the
    /// fetched diff.
    pub fn apply_snapshot(&mut self, lines: Vec<DiffLine>)
        requires
            old(self).wf(),
        ensures
            final(self).wf(),
            final(self).focused == old(self).focused,
            final(self).repo_path == old(self).repo_path,
            same_lines(lines@, old(self).diffs@) ==> *final(self) == *old(self),
            !same_lines(lines@, old(self).diffs@) ==> {
                &&& final(self).diffs@ == lines@
                &&& final(self).window == old(self).window.reset_total(lines@.len() as usize)
            },
            same_lines(lines@, final(self).diffs@),
    {
        if !lines_match(&lines, &self.diffs) {
            let n = lines.len();
            self.diffs = lines;
            self.window.resize_total_reset(n);
        }
    }

    /// Re-query the backend for the diff and replace the lines as
    /// `apply_snapshot` does. A backend failure is returned unchanged and
    /// leaves the panel as it was.
    pub fn update(&mut self) -> (r: Result<(), BackendError>)
        requires
            old(self).wf(),
        ensures
            final(self).wf(),
            final(self).focused == old(self).focused,
            final(self).repo_path == old(self).repo_path,
            r is Err ==> *final(self) == *old(self),
            r is Ok ==> *final(self) == *old(self) || final(self).window == old(
                self,
            ).window.reset_total(final(self).diffs@.len() as usize),
    {
        match worktree::get_diff(self.repo_path.as_str()) {
            Ok(lines) => {
                self.apply_snapshot(lines);
                Ok(())
            }
            Err(e) => Err(e),
        }
    }

    /// Handle a key press: the shared cursor bindings, nothing else. A no-op
    /// unless the panel holds focus.
    pub fn handle_event(&mut self, ev: KeyEvent)
        requires
            old(self).wf(),
        ensures
            final(self).wf(),
            final(self).diffs@ == old(self).diffs@,
            final(self).focused == old(self).focused,
            final(self).repo_path == old(self).repo_path,
            final(self).window == if old(self).focused {
                key_scrolled(old(self).window, ev)
            } else {
                old(self).window
            },
    {
        if !self.focused {
            return;
        }
        scroll_for_key(&mut self.window, ev);
    }
}

} // verus!
