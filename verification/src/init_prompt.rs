//! The prompt shown when the working directory is not a repository yet: a
//! two-entry choice (initialize here, or decline), driven by the same keys as
//! the panels. Declining is the explicit no of the error taxonomy, not a
//! failure of the backend.

use vstd::prelude::*;

use crate::events::{Event, KeyCode, KeyEvent};

verus! {

/// What the user decided.
#[derive(Clone, Copy, Debug, PartialEq, Eq, Structural)]
pub enum InitChoice {
    /// Initialize a new repository in the working directory.
    Initialize,
    /// Decline; the program ends without touching the directory.
    Decline,
}

/// The prompt's state: which of the two entries is selected
/// (0 initialize, 1 decline).
pub struct InitPrompt {
    pub selection: usize,
}

impl InitPrompt {
    /// The prompt invariant: the selection is one of the two entries.
    pub open spec fn wf(self) -> bool {
        self.selection == 0 || self.selection == 1
    }

    /// A fresh prompt with `Initialize` selected.
    pub fn new() -> (p: InitPrompt)
        ensures
            p.wf(),
            p.selection == 0,
    {
        InitPrompt { selection: 0 }
    }

    /// The selection after a key press: `j` moves down to decline, `k` moves
    /// up to initialize; nothing else moves it.
    pub open spec fn moved_selection(self, ev: Event<KeyEvent>) -> usize {
        match ev {
            Event::Input(key) => if !key.ctrl && key.code == KeyCode::Char('j') {
                1usize
            } else if !key.ctrl && key.code == KeyCode::Char('k') {
                0usize
            } else {
                self.selection
            },
            Event::Tick => self.selection,
        }
    }

    /// Handle one event: `j`/`k` move the selection, enter decides; a tick or
    /// any other key decides nothing. The invariant holds after every call.
    pub fn handle_event(&mut self, ev: Event<KeyEvent>) -> (r: Option<InitChoice>)
        requires
            old(self).wf(),
        ensures
            final(self).wf(),
            final(self).selection == old(self).moved_selection(ev),
            r == (match ev {
                Event::Input(key) => if key.code == KeyCode::Enter {
                    if old(self).selection == 0 {
                        Some(InitChoice::Initialize)
                    } else {
                        Some(InitChoice::Decline)
                    }
                } else {
                    None::<InitChoice>
                },
                Event::Tick => None::<InitChoice>,
            }),
    {
        let key = match ev {
            Event::Input(key) => key,
            Event::Tick => {
                return None;
            }
        };
        match key.code {
            KeyCode::Char(c) => {
                if !key.ctrl && c == 'j' {
                    self.selection = 1;
                } else if !key.ctrl && c == 'k' {
                    self.selection = 0;
                }
                None
            }
            KeyCode::Enter => {
                if self.selection == 0 {
                    Some(InitChoice::Initialize)
                } else {
                    Some(InitChoice::Decline)
                }
            }
            _ => None,
        }
    }
}

} // verus!
