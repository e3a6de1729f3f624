//! The background-operation supervisor. It owns the single push operation
//! record and is the only writer of its state; the worker thread reports
//! back by posting program events, never by sharing memory.
//!
//! States: idle, then `Running` after an accepted request, then `Succeeded`
//! or `Failed`, then idle again once the success has settled. A push
//! requested while one is running is rejected outright, not queued.

use vstd::prelude::*;

use crate::errors::{BackendError, ErrorType};
use crate::events::ProgramEvent;
use crate::focus::ComponentType;

verus! {

/// The state of one tracked unit of background work.
#[derive(Clone, Debug, PartialEq, Eq)]
pub enum OperationState {
    /// Created, worker not yet running.
    Pending,
    /// The worker runs; the payload is the last progress percentage relayed.
    Running(u8),
    /// The backend call returned cleanly.
    Succeeded,
    /// The backend call failed with the given kind.
    Failed(BackendError),
}

/// One tracked unit of background work (currently: a push).
#[derive(Clone, Debug, PartialEq, Eq)]
pub struct Operation {
    pub id: u64,
    pub state: OperationState,
}

/// The supervisor: the current operation, if any, and the id the next one
/// will get.
pub struct Supervisor {
    pub current: Option<Operation>,
    pub next_id: u64,
}

impl Supervisor {
    /// Whether a push operation is running right now.
    pub open spec fn is_running(self) -> bool {
        match self.current {
            Some(op) => op.state is Running,
            None => false,
        }
    }

    /// The progress percentage of the running operation.
    pub open spec fn running_percent(self) -> u8
        recommends
            self.is_running(),
    {
        match self.current {
            Some(op) => match op.state {
                OperationState::Running(p) => p,
                _ => 0,
            },
            None => 0,
        }
    }

    /// An idle supervisor, with no operation on record.
    pub fn new() -> (s: Supervisor)
        ensures
            s.current is None,
            !s.is_running(),
            s.next_id == 0,
    {
        Supervisor { current: None, next_id: 0 }
    }

    fn running_now(&self) -> (r: bool)
        ensures
            r == self.is_running(),
    {
        match &self.current {
            Some(op) => match op.state {
                OperationState::Running(_) => true,
                _ => false,
            },
            None => false,
        }
    }

    /// Handle a push request. While an operation is running the request is
    /// rejected: the state is unchanged, no event is posted, and no second
    /// worker is to be spawned. Otherwise a fresh operation starts running at
    /// progress 0, and `Focus` moves to the push-progress modal before any
    /// work starts; the caller must then start exactly one worker.
    ///
    /// Returns whether a worker must be started, and the events to post.
    pub fn request_push(&mut self) -> (r: (bool, Vec<ProgramEvent>))
        requires
            old(self).next_id < u64::MAX,
        ensures
            old(self).is_running() ==> {
                &&& !r.0
                &&& r.1@ =~= Seq::<ProgramEvent>::empty()
                &&& final(self).current == old(self).current
                &&& final(self).next_id == old(self).next_id
            },
            !old(self).is_running() ==> {
                &&& r.0
                &&& r.1@ =~= seq![ProgramEvent::Focus(ComponentType::PushComponent)]
                &&& final(self).current == Some(
                    Operation { id: old(self).next_id, state: OperationState::Running(0u8) },
                )
                &&& final(self).next_id == old(self).next_id + 1
            },
            final(self).is_running(),
    {
        if self.running_now() {
            return (false, Vec::new());
        }
        let op = Operation { id: self.next_id, state: OperationState::Running(0) };
        self.next_id = self.next_id + 1;
        self.current = Some(op);
        let mut events: Vec<ProgramEvent> = Vec::new();
        events.push(ProgramEvent::Focus(ComponentType::PushComponent));
        (true, events)
    }

    /// The supervisor after a progress report: a report for the running
    /// operation raises its percentage to the maximum of the old and the new
    /// value, so the displayed progress never regresses; anything else (a
    /// stray id, no running operation) changes nothing.
    pub open spec fn after_progress(self, id: u64, percent: u8) -> Supervisor {
        match self.current {
            Some(op) => match op.state {
                OperationState::Running(p) => if op.id == id {
                    let shown: u8 = if percent > p { percent } else { p };
                    Supervisor {
                        current: Some(Operation { id: op.id, state: OperationState::Running(shown) }),
                        next_id: self.next_id,
                    }
                } else {
                    self
                },
                _ => self,
            },
            None => self,
        }
    }

    /// Relay a progress report from the worker of operation `id`.
    pub fn on_progress(&mut self, id: u64, percent: u8)
        ensures
            *final(self) == old(self).after_progress(id, percent),
            final(self).is_running() == old(self).is_running(),
            old(self).is_running() ==> final(self).running_percent() >= old(self).running_percent(),
    {
        match &self.current {
            Some(op) => match op.state {
                OperationState::Running(p) => {
                    if op.id == id {
                        let shown = if percent > p { percent } else { p };
                        self.current = Some(
                            Operation { id: op.id, state: OperationState::Running(shown) },
                        );
                    }
                }
                _ => {}
            },
            None => {}
        }
    }

    /// Record the worker's terminal outcome. On a clean completion the
    /// operation moves to `Succeeded` and no event is posted here (the
    /// worker already posted the outcome event). On a failure the operation
    /// moves to `Failed` and exactly one `Error` event is posted, carrying
    /// the failure kind; no retry is scheduled. A stray outcome with no
    /// running operation changes nothing.
    pub fn on_push_result(&mut self, outcome: Result<(), BackendError>) -> (events: Vec<
        ProgramEvent,
    >)
        ensures
            !old(self).is_running() ==> {
                &&& final(self).current == old(self).current
                &&& events@ =~= Seq::<ProgramEvent>::empty()
            },
            old(self).is_running() && outcome is Ok ==> {
                &&& final(self).current == Some(
                    Operation { id: old(self).current->Some_0.id, state: OperationState::Succeeded },
                )
                &&& events@ =~= Seq::<ProgramEvent>::empty()
            },
            old(self).is_running() && outcome is Err ==> {
                &&& final(self).current == Some(
                    Operation {
                        id: old(self).current->Some_0.id,
                        state: OperationState::Failed(outcome->Err_0),
                    },
                )
                &&& events@ =~= seq![
                    ProgramEvent::Error(ErrorType::GitError(outcome->Err_0)),
                ]
            },
            final(self).next_id == old(self).next_id,
            !final(self).is_running(),
    {
        if !self.running_now() {
            return Vec::new();
        }
        let id = match &self.current {
            Some(op) => op.id,
            None => 0,
        };
        match outcome {
            Ok(()) => {
                self.current = Some(Operation { id, state: OperationState::Succeeded });
                Vec::new()
            }
            Err(kind) => {
                self.current = Some(
                    Operation { id, state: OperationState::Failed(kind.duplicate()) },
                );
                let mut events: Vec<ProgramEvent> = Vec::new();
                events.push(ProgramEvent::Error(ErrorType::GitError(kind)));
                events
            }
        }
    }

    /// After the short settle delay that follows a successful push: clear the
    /// operation record (the request surface is open again) and return focus
    /// to the files panel. In any other state this changes nothing.
    pub fn settle(&mut self) -> (events: Vec<ProgramEvent>)
        ensures
            match old(self).current {
                Some(op) => if op.state is Succeeded {
                    &&& final(self).current is None
                    &&& events@ =~= seq![ProgramEvent::Focus(ComponentType::FilesComponent)]
                } else {
                    &&& final(self).current == old(self).current
                    &&& events@ =~= Seq::<ProgramEvent>::empty()
                },
                None => {
                    &&& final(self).current is None
                    &&& events@ =~= Seq::<ProgramEvent>::empty()
                },
            },
            final(self).next_id == old(self).next_id,
    {
        let settled = match &self.current {
            Some(op) => match op.state {
                OperationState::Succeeded => true,
                _ => false,
            },
            None => false,
        };
        if settled {
            self.current = None;
            let mut events: Vec<ProgramEvent> = Vec::new();
            events.push(ProgramEvent::Focus(ComponentType::FilesComponent));
            events
        } else {
            Vec::new()
        }
    }
}

} // verus!
