//! The modal popups: a text prompt (commit message, remote URL), the push
//! progress display, and the error dialog. A popup captures all key input
//! while it is the focused target; at most one is ever visible because
//! visibility is derived from the single focus.

use vstd::prelude::*;
use vstd::string::StringExecFns;

use crate::errors::{BackendError, ErrorType};
use crate::events::{KeyCode, KeyEvent};
use crate::text::string_of_chars;

verus! {

/// How a popup answered a key press.
#[derive(Clone, Copy, Debug, PartialEq, Eq, Structural)]
pub enum PopupOutcome {
    /// The popup stays open.
    Stay,
    /// The user confirmed; the popup's content is to be acted on.
    Submit,
    /// The user dismissed the popup.
    Cancel,
}

/// A one-line text prompt: printable keys append, backspace deletes, enter
/// submits, escape cancels.
pub struct TextPrompt {
    /// The text entered so far.
    pub input: Vec<char>,
}

impl TextPrompt {
    /// An empty prompt.
    pub fn new() -> (p: TextPrompt)
        ensures
            p.input@.len() == 0,
    {
        TextPrompt { input: Vec::new() }
    }

    /// Handle a key press: a printable key is appended, backspace removes the
    /// last character, enter submits, escape cancels; anything else is
    /// ignored.
    pub fn handle_event(&mut self, ev: KeyEvent) -> (r: PopupOutcome)
        ensures
            ev.ctrl ==> *final(self) == *old(self) && r is Stay,
            !ev.ctrl ==> match ev.code {
                KeyCode::Char(c) => final(self).input@ == old(self).input@.push(c) && r is Stay,
                KeyCode::Backspace => final(self).input@ == (if old(self).input@.len() > 0 {
                    old(self).input@.drop_last()
                } else {
                    old(self).input@
                }) && r is Stay,
                KeyCode::Enter => *final(self) == *old(self) && r is Submit,
                KeyCode::Esc => *final(self) == *old(self) && r is Cancel,
                KeyCode::Other => *final(self) == *old(self) && r is Stay,
            },
    {
        if ev.ctrl {
            return PopupOutcome::Stay;
        }
        match ev.code {
            KeyCode::Char(c) => {
                self.input.push(c);
                PopupOutcome::Stay
            }
            KeyCode::Backspace => {
                if self.input.len() > 0 {
                    self.input.pop();
                }
                PopupOutcome::Stay
            }
            KeyCode::Enter => PopupOutcome::Submit,
            KeyCode::Esc => PopupOutcome::Cancel,
            KeyCode::Other => PopupOutcome::Stay,
        }
    }

    /// The entered text as a string.
    pub fn text(&self) -> (s: String)
        ensures
            s@ == self.input@,
    {
        string_of_chars(&self.input)
    }

    /// Empty the prompt.
    pub fn clear(&mut self)
        ensures
            final(self).input@.len() == 0,
    {
        self.input = Vec::new();
    }
}

/// The push-progress modal: the displayed percentage and an optional final
/// message.
pub struct PushPopup {
    /// The displayed progress percentage.
    pub percent: u8,
    /// The final message, once the push finished.
    pub message: Option<String>,
}

impl PushPopup {
    /// A fresh push modal at zero progress with no message.
    pub fn new() -> (p: PushPopup)
        ensures
            p.percent == 0,
            p.message is None,
    {
        PushPopup { percent: 0, message: None }
    }

    /// Show a received progress value. The displayed percentage only ever
    /// rises: a report below the current display never makes it regress.
    pub fn set_percent(&mut self, percent: u8)
        ensures
            final(self).percent == if percent > old(self).percent {
                percent
            } else {
                old(self).percent
            },
            final(self).percent >= old(self).percent,
            final(self).message == old(self).message,
    {
        if percent > self.percent {
            self.percent = percent;
        }
    }

    /// Show a final message.
    pub fn set_message(&mut self, message: &str)
        ensures
            final(self).percent == old(self).percent,
            match final(self).message {
                Some(m) => m@ == message@,
                None => false,
            },
    {
        self.message = Some(String::from_str(message));
    }

    /// Return to zero progress and no message, for the next push.
    pub fn reset(&mut self)
        ensures
            final(self).percent == 0,
            final(self).message is None,
    {
        self.percent = 0;
        self.message = None;
    }
}

/// The error dialog: the failure it currently reports, if any.
pub struct ErrorComponent {
    /// The failure on display.
    pub error: Option<ErrorType>,
}

impl ErrorComponent {
    /// A dialog with nothing to report.
    pub fn new() -> (c: ErrorComponent)
        ensures
            c.error is None,
    {
        ErrorComponent { error: None }
    }

    /// Report a failure.
    pub fn set_error(&mut self, error: ErrorType)
        ensures
            final(self).error == Some(error),
    {
        self.error = Some(error);
    }

    /// Report a backend failure.
    pub fn set_git_error(&mut self, error: BackendError)
        ensures
            final(self).error == Some(ErrorType::GitError(error)),
    {
        self.error = Some(ErrorType::GitError(error));
    }

    /// Report a failure with only a message.
    pub fn set_message(&mut self, message: String)
        ensures
            final(self).error == Some(ErrorType::Unknown(message)),
    {
        self.error = Some(ErrorType::Unknown(message));
    }

    /// Drop the report when the dialog is dismissed.
    pub fn clear(&mut self)
        ensures
            final(self).error is None,
    {
        self.error = None;
    }
}

} // verus!
