//! Exclusive focus routing. The router owns the single focused target and an
//! activity flag per component; transferring focus deactivates the previous
//! target before activating the new one, so at most one component ever
//! reports itself active.

use vstd::prelude::*;

verus! {

/// Every focusable component: the panels, and the modal popups
/// (commit prompt, push progress, error dialog, remote prompt).
#[derive(Clone, Copy, Debug, PartialEq, Eq, Structural)]
pub enum ComponentType {
    FilesComponent,
    BranchComponent,
    LogComponent,
    DiffComponent,
    ErrorComponent,
    CommitComponent,
    PushComponent,
    RemotePopupComponent,
}

impl ComponentType {
    /// The modal popups: transient overlays that capture all key input
    /// while visible.
    pub open spec fn is_modal(self) -> bool {
        match self {
            ComponentType::ErrorComponent => true,
            ComponentType::CommitComponent => true,
            ComponentType::PushComponent => true,
            ComponentType::RemotePopupComponent => true,
            _ => false,
        }
    }

    pub fn modal(self) -> (r: bool)
        ensures
            r == self.is_modal(),
    {
        match self {
            ComponentType::ErrorComponent => true,
            ComponentType::CommitComponent => true,
            ComponentType::PushComponent => true,
            ComponentType::RemotePopupComponent => true,
            _ => false,
        }
    }
}

/// The focus state: one stored target (or none, at startup), and the
/// per-component activity flags that the components display.
pub struct FocusRouter {
    /// The single currently focused target.
    pub focused: Option<ComponentType>,
    pub files_active: bool,
    pub branches_active: bool,
    pub log_active: bool,
    pub diff_active: bool,
    pub error_active: bool,
    pub commit_active: bool,
    pub push_active: bool,
    pub remote_active: bool,
}

impl FocusRouter {
    /// Whether component `c` reports itself active.
    pub open spec fn flag(self, c: ComponentType) -> bool {
        match c {
            ComponentType::FilesComponent => self.files_active,
            ComponentType::BranchComponent => self.branches_active,
            ComponentType::LogComponent => self.log_active,
            ComponentType::DiffComponent => self.diff_active,
            ComponentType::ErrorComponent => self.error_active,
            ComponentType::CommitComponent => self.commit_active,
            ComponentType::PushComponent => self.push_active,
            ComponentType::RemotePopupComponent => self.remote_active,
        }
    }

    /// A component reports active exactly when it is the stored target:
    /// exactly one target (or none) is ever active.
    pub open spec fn wf(self) -> bool {
        forall|c: ComponentType| #[trigger] self.flag(c) <==> self.focused == Some(c)
    }

    /// A router with nothing focused, as at startup.
    pub fn new() -> (r: FocusRouter)
        ensures
            r.wf(),
            r.focused is None,
    {
        let r = FocusRouter {
            focused: None,
            files_active: false,
            branches_active: false,
            log_active: false,
            diff_active: false,
            error_active: false,
            commit_active: false,
            push_active: false,
            remote_active: false,
        };
        proof {
            assert forall|c: ComponentType| #[trigger] r.flag(c) <==> r.focused == Some(c) by {
                assert(!r.flag(c));
            }
        }
        r
    }

    fn set_flag(&mut self, c: ComponentType, v: bool)
        ensures
            final(self).focused == old(self).focused,
            final(self).flag(c) == v,
            forall|d: ComponentType| d != c ==> #[trigger] final(self).flag(d) == old(self).flag(d),
    {
        match c {
            ComponentType::FilesComponent => self.files_active = v,
            ComponentType::BranchComponent => self.branches_active = v,
            ComponentType::LogComponent => self.log_active = v,
            ComponentType::DiffComponent => self.diff_active = v,
            ComponentType::ErrorComponent => self.error_active = v,
            ComponentType::CommitComponent => self.commit_active = v,
            ComponentType::PushComponent => self.push_active = v,
            ComponentType::RemotePopupComponent => self.remote_active = v,
        }
    }

    /// Transfer focus: deactivate the previous target (a no-op if none),
    /// activate the new one (none activates nothing), store the new target.
    /// Total over every target value, and it keeps the router well-formed.
    pub fn set_focus(&mut self, target: Option<ComponentType>)
        requires
            old(self).wf(),
        ensures
            final(self).wf(),
            final(self).focused == target,
    {
        let ghost entry = *self;
        match self.focused {
            Some(c) => self.set_flag(c, false),
            None => {}
        }
        let ghost cleared = *self;
        match target {
            Some(c) => self.set_flag(c, true),
            None => {}
        }
        let ghost activated = *self;
        self.focused = target;
        proof {
            assert forall|c: ComponentType| #[trigger] self.flag(c) <==> self.focused == Some(c) by {
                assert(entry.flag(c) <==> entry.focused == Some(c));
                assert(!cleared.flag(c));
                assert(self.flag(c) == activated.flag(c));
            }
        }
    }

    /// Whether component `c` currently reports itself active.
    pub fn is_active(&self, c: ComponentType) -> (r: bool)
        ensures
            r == self.flag(c),
    {
        match c {
            ComponentType::FilesComponent => self.files_active,
            ComponentType::BranchComponent => self.branches_active,
            ComponentType::LogComponent => self.log_active,
            ComponentType::DiffComponent => self.diff_active,
            ComponentType::ErrorComponent => self.error_active,
            ComponentType::CommitComponent => self.commit_active,
            ComponentType::PushComponent => self.push_active,
            ComponentType::RemotePopupComponent => self.remote_active,
        }
    }
}

/// After any sequence of `set_focus` calls the router is well-formed, and a
/// well-formed router has at most one active target: two components that both
/// report active are the same component, and it is the stored focus.
pub proof fn lemma_focus_exclusive(r: FocusRouter, a: ComponentType, b: ComponentType)
    requires
        r.wf(),
        r.flag(a),
        r.flag(b),
    ensures
        a == b,
        r.focused == Some(a),
{
}

} // verus!
