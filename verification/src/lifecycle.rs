//! The handle's lifecycle: the phases a loaded unit passes through and the
//! transitions between them.

use vstd::prelude::*;

verus! {

/// The phase a handle is in.
#[derive(Clone, Copy, Debug, PartialEq, Eq, Structural)]
pub enum HandlePhase {
    /// The constructor is blocked on the worker's initialization report.
    Initializing,
    /// The worker serves tasks; calls are accepted.
    Ready,
    /// Initialization failed; no worker is running. Terminal.
    Failed,
    /// The teardown has sent the shutdown sentinel; no further task can be
    /// submitted through this handle.
    ShuttingDown,
    /// The worker has left its loop and released the runtime. Terminal.
    Terminated,
}

/// An observation that moves a handle from one phase to another.
#[derive(Clone, Copy, Debug, PartialEq, Eq, Structural)]
pub enum HandleEvent {
    /// The worker reported that the execution context loaded.
    InitSucceeded,
    /// The worker reported that loading failed.
    InitFailed,
    /// One call completed (with a value or an error); the handle stays usable.
    CallSettled,
    /// The handle was dropped: the shutdown sentinel goes out, exactly once.
    Dropped,
    /// The worker observed the sentinel (or the channel's closure) and exited.
    WorkerGone,
}

/// The transition table. An event that has no meaning in a phase leaves
/// the phase unchanged; in particular the two terminal phases never move.
pub open spec fn step_spec(p: HandlePhase, e: HandleEvent) -> HandlePhase {
    match (p, e) {
        (HandlePhase::Initializing, HandleEvent::InitSucceeded) => HandlePhase::Ready,
        (HandlePhase::Initializing, HandleEvent::InitFailed) => HandlePhase::Failed,
        (HandlePhase::Ready, HandleEvent::CallSettled) => HandlePhase::Ready,
        (HandlePhase::Ready, HandleEvent::Dropped) => HandlePhase::ShuttingDown,
        (HandlePhase::ShuttingDown, HandleEvent::WorkerGone) => HandlePhase::Terminated,
        _ => p,
    }
}

/// One lifecycle transition.
pub fn handle_step(p: HandlePhase, e: HandleEvent) -> (q: HandlePhase)
    ensures
        q == step_spec(p, e),
{
    match (p, e) {
        (HandlePhase::Initializing, HandleEvent::InitSucceeded) => HandlePhase::Ready,
        (HandlePhase::Initializing, HandleEvent::InitFailed) => HandlePhase::Failed,
        (HandlePhase::Ready, HandleEvent::CallSettled) => HandlePhase::Ready,
        (HandlePhase::Ready, HandleEvent::Dropped) => HandlePhase::ShuttingDown,
        (HandlePhase::ShuttingDown, HandleEvent::WorkerGone) => HandlePhase::Terminated,
        (q, _) => q,
    }
}

/// Whether a handle in this phase accepts a new task submission.
pub open spec fn accepts_calls(p: HandlePhase) -> bool {
    p is Ready
}

/// The submission gate the call path consults.
pub fn may_submit(p: HandlePhase) -> (r: bool)
    ensures
        r == accepts_calls(p),
{
    match p {
        HandlePhase::Ready => true,
        _ => false,
    }
}

/// Failure is a construction-time state: no transition reaches Failed
/// except from Initializing (or from Failed itself, which never moves).
pub proof fn lemma_failed_only_at_construction(p: HandlePhase, e: HandleEvent)
    ensures
        step_spec(p, e) is Failed ==> p is Initializing || p is Failed,
{
}

/// The terminal phases are terminal: no event moves Failed or Terminated.
pub proof fn lemma_terminal_phases(p: HandlePhase, e: HandleEvent)
    ensures
        p is Failed ==> step_spec(p, e) == p,
        p is Terminated ==> step_spec(p, e) == p,
{
}

/// Once the handle has begun shutting down, no phase it can ever reach
/// accepts a task again.
pub proof fn lemma_no_calls_after_drop(p: HandlePhase, e: HandleEvent)
    ensures
        (p is ShuttingDown || p is Terminated || p is Failed) ==> !accepts_calls(
            step_spec(p, e),
        ),
{
}

/// The phase a handle ends in after observing a sequence of events.
pub open spec fn run_spec(p: HandlePhase, events: Seq<HandleEvent>) -> HandlePhase
    decreases events.len(),
{
    if events.len() == 0 {
        p
    } else {
        run_spec(step_spec(p, events[0]), events.drop_first())
    }
}

/// A handle whose initialization failed stays in Failed under every later
/// sequence of events: nothing it could ever observe makes it serve a task.
pub proof fn lemma_failed_stays_failed(events: Seq<HandleEvent>)
    ensures
        run_spec(HandlePhase::Failed, events) == HandlePhase::Failed,
    decreases events.len(),
{
    if events.len() > 0 {
        lemma_failed_stays_failed(events.drop_first());
    }
}

} // verus!
