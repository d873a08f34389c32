use pymodule::lifecycle::{handle_step, may_submit, HandleEvent, HandlePhase};

#[test]
fn the_handle_walks_its_phases() {
    let p = HandlePhase::Initializing;
    let p = handle_step(p, HandleEvent::InitSucceeded);
    assert_eq!(p, HandlePhase::Ready);
    let p = handle_step(p, HandleEvent::CallSettled);
    assert_eq!(p, HandlePhase::Ready);
    let p = handle_step(p, HandleEvent::Dropped);
    assert_eq!(p, HandlePhase::ShuttingDown);
    let p = handle_step(p, HandleEvent::WorkerGone);
    assert_eq!(p, HandlePhase::Terminated);
}

#[test]
fn a_failed_initialization_is_terminal() {
    let p = handle_step(HandlePhase::Initializing, HandleEvent::InitFailed);
    assert_eq!(p, HandlePhase::Failed);
    assert_eq!(handle_step(p, HandleEvent::InitSucceeded), HandlePhase::Failed);
    assert_eq!(handle_step(p, HandleEvent::CallSettled), HandlePhase::Failed);
    assert_eq!(handle_step(p, HandleEvent::Dropped), HandlePhase::Failed);
    assert_eq!(handle_step(p, HandleEvent::WorkerGone), HandlePhase::Failed);
}

#[test]
fn only_a_ready_handle_accepts_submissions() {
    assert!(may_submit(HandlePhase::Ready));
    assert!(!may_submit(HandlePhase::Initializing));
    assert!(!may_submit(HandlePhase::Failed));
    assert!(!may_submit(HandlePhase::ShuttingDown));
    assert!(!may_submit(HandlePhase::Terminated));
}

#[test]
fn a_terminated_handle_never_moves() {
    let p = HandlePhase::Terminated;
    assert_eq!(handle_step(p, HandleEvent::InitSucceeded), p);
    assert_eq!(handle_step(p, HandleEvent::Dropped), p);
    assert_eq!(handle_step(p, HandleEvent::WorkerGone), p);
}
