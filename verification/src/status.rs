//! The status panel: a one-line summary of the working copy.

use vstd::prelude::*;

verus! {

/// The status panel's display fields.
pub struct StatusComponent {
    pub branch_name: String,
    pub files_changed: String,
    pub insertions: String,
    pub deletions: String,
}

impl StatusComponent {
    /// A status panel with empty display fields.
    pub fn new() -> (c: StatusComponent)
        ensures
            c.branch_name@.len() == 0,
            c.files_changed@.len() == 0,
            c.insertions@.len() == 0,
            c.deletions@.len() == 0,
    {
        StatusComponent {
            branch_name: String::new(),
            files_changed: String::new(),
            insertions: String::new(),
            deletions: String::new(),
        }
    }
}

} // verus!
