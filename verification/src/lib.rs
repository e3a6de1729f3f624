//! Orchestration core of a keyboard-driven terminal dashboard for a
//! version-control working copy: scrollable viewports, exclusive focus
//! routing, a background-push supervisor, panel state, and the event
//! dispatcher. Backend calls go through a thin trusted layer over git2;
//! rendering and raw terminal handling live outside this crate.

pub mod app;
pub mod branch;
pub mod branchlist;
pub mod commit;
pub mod diff;
pub mod errors;
pub mod events;
pub mod files;
pub mod focus;
pub mod gitwrap;
pub mod init_prompt;
pub mod log;
pub mod panel;
pub mod popups;
pub mod remote;
pub mod repo;
pub mod status;
pub mod supervisor;
pub mod text;
pub mod viewport;
pub mod worktree;

pub use app::{App, AppCommand, InputOutcome};
pub use errors::{BackendError, ErrorType};
pub use events::{Event, GitEvent, KeyCode, KeyEvent, ProgramEvent};
pub use focus::{ComponentType, FocusRouter};
pub use supervisor::{Operation, OperationState, Supervisor};
pub use viewport::{ScrollDirection, ViewportWindow};
