//! The two event streams the main loop merges: input events from the
//! terminal, and program events posted by components and worker threads.

use vstd::prelude::*;

use crate::errors::{BackendError, ErrorType};
use crate::focus::ComponentType;

verus! {

/// What the input source delivers on each wake-up: a key, or a tick when no
/// key arrived within the tick period.
#[derive(Clone, Copy, Debug, PartialEq, Eq)]
pub enum Event<I> {
    Input(I),
    Tick,
}

/// A key, reduced to what the dashboard's bindings distinguish.
#[derive(Clone, Copy, Debug, PartialEq, Eq, Structural)]
pub enum KeyCode {
    Char(char),
    Enter,
    Esc,
    Backspace,
    Other,
}

/// A key press: the key and whether the control modifier was held.
#[derive(Clone, Copy, Debug, PartialEq, Eq, Structural)]
pub struct KeyEvent {
    pub code: KeyCode,
    pub ctrl: bool,
}

/// An outcome the backend reported for a background operation, or a request
/// for a targeted refresh.
#[derive(Clone, Debug, PartialEq, Eq)]
pub enum GitEvent {
    /// The push completed cleanly.
    PushSuccess,
    /// The push failed with the given kind.
    PushFailed(BackendError),
    /// The commit history changed; the log panel should refresh.
    RefreshCommitLog,
}

/// An event posted (from any thread) onto the single program-event channel.
#[derive(Clone, Debug, PartialEq, Eq)]
pub enum ProgramEvent {
    /// A backend outcome.
    Git(GitEvent),
    /// A request for exclusive focus transfer.
    Focus(ComponentType),
    /// A failure to surface as a user-visible dialog.
    Error(ErrorType),
    /// Progress of the background operation with the given id, in percent.
    Progress(u64, u8),
}

} // verus!
