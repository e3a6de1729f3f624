use gitdash::errors::{BackendError, ErrorType};
use gitdash::events::ProgramEvent;
use gitdash::focus::ComponentType;
use gitdash::supervisor::{OperationState, Supervisor};

#[test]
fn push_request_while_running_is_rejected() {
    let mut sup = Supervisor::new();
    let (started, events) = sup.request_push();
    assert!(started);
    assert_eq!(events, vec![ProgramEvent::Focus(ComponentType::PushComponent)]);
    let id = sup.current.as_ref().unwrap().id;
    let state_before = sup.current.clone();
    // A second request while the first runs: rejected, state unchanged, no
    // event posted, no second worker to spawn.
    let (started_again, events_again) = sup.request_push();
    assert!(!started_again);
    assert!(events_again.is_empty());
    assert_eq!(sup.current, state_before);
    assert_eq!(sup.current.as_ref().unwrap().id, id);
}

#[test]
fn progress_relays_monotonically() {
    let mut sup = Supervisor::new();
    let (started, _) = sup.request_push();
    assert!(started);
    let id = sup.current.as_ref().unwrap().id;
    sup.on_progress(id, 40);
    assert_eq!(sup.current.as_ref().unwrap().state, OperationState::Running(40));
    // A lower report never makes the display regress.
    sup.on_progress(id, 10);
    assert_eq!(sup.current.as_ref().unwrap().state, OperationState::Running(40));
    sup.on_progress(id, 100);
    assert_eq!(sup.current.as_ref().unwrap().state, OperationState::Running(100));
    // A stray id changes nothing.
    sup.on_progress(id + 1, 7);
    assert_eq!(sup.current.as_ref().unwrap().state, OperationState::Running(100));
}

#[test]
fn clean_push_settles_back_to_idle() {
    // Progress 0, 40, 100, then success, then (after the settle delay) focus
    // returns to the files panel and the supervisor is idle again.
    let mut sup = Supervisor::new();
    let (started, events) = sup.request_push();
    assert!(started);
    assert_eq!(events, vec![ProgramEvent::Focus(ComponentType::PushComponent)]);
    let id = sup.current.as_ref().unwrap().id;
    let mut seen = Vec::new();
    for percent in [0u8, 40, 100] {
        sup.on_progress(id, percent);
        match sup.current.as_ref().unwrap().state {
            OperationState::Running(p) => seen.push(p),
            _ => panic!("operation left the running state during progress"),
        }
    }
    assert_eq!(seen, vec![0, 40, 100]);
    let outcome_events = sup.on_push_result(Ok(()));
    assert!(outcome_events.is_empty());
    assert_eq!(sup.current.as_ref().unwrap().state, OperationState::Succeeded);
    let settle_events = sup.settle();
    assert_eq!(settle_events, vec![ProgramEvent::Focus(ComponentType::FilesComponent)]);
    assert_eq!(sup.current, None);
    // The request surface is open again.
    let (reopened, _) = sup.request_push();
    assert!(reopened);
}

#[test]
fn failed_push_posts_exactly_one_error_and_ends_failed() {
    let mut sup = Supervisor::new();
    let (started, _) = sup.request_push();
    assert!(started);
    let id = sup.current.as_ref().unwrap().id;
    sup.on_progress(id, 0);
    let events = sup.on_push_result(Err(BackendError::AuthFailure));
    assert_eq!(
        events,
        vec![ProgramEvent::Error(ErrorType::GitError(BackendError::AuthFailure))]
    );
    assert_eq!(
        sup.current.as_ref().unwrap().state,
        OperationState::Failed(BackendError::AuthFailure)
    );
    // No settling after a failure: the record stays, nothing is posted.
    let settle_events = sup.settle();
    assert!(settle_events.is_empty());
    assert_eq!(
        sup.current.as_ref().unwrap().state,
        OperationState::Failed(BackendError::AuthFailure)
    );
}
