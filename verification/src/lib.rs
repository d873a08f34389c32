//! A concurrency-safe façade over an embedded single-threaded runtime.
//!
//! Many caller threads submit units of work; exactly one worker thread per
//! loaded unit drives the runtime. This crate holds the verified protocol:
//! the load/initialization handshake, the task-dispatch loop's decisions,
//! the per-call rendezvous settlement, the handle lifecycle, and the path
//! computations. The unverified shell (threads, channels, the runtime
//! bindings) lives outside and consults these functions for every decision.

pub mod call;
pub mod dispatch;
pub mod errors;
pub mod lifecycle;
pub mod load;
pub mod paths;

use vstd::prelude::*;

verus! {

use crate::call::{call_spec, SendOutcome, SlotOutcome};
use crate::errors::CallError;
use crate::lifecycle::{step_spec, accepts_calls, HandlePhase, HandleEvent};

/// A successful initialization makes the handle Ready, and a call on the
/// live worker whose task runs and delivers its value returns exactly that
/// value to its caller.
pub proof fn lemma_load_then_call(v: u64)
    ensures
        step_spec(HandlePhase::Initializing, HandleEvent::InitSucceeded) is Ready,
        call_spec(false, SendOutcome::Accepted, SlotOutcome::Delivered(v)) == Ok::<
            u64,
            CallError,
        >(v),
{
}

/// A failed initialization is terminal: the handle moves to Failed, and no
/// phase reachable from there ever accepts a task, so nothing is left that
/// could serve one.
pub proof fn lemma_failed_load_accepts_nothing(e: HandleEvent)
    ensures
        step_spec(HandlePhase::Initializing, HandleEvent::InitFailed) is Failed,
        !accepts_calls(step_spec(step_spec(HandlePhase::Initializing, HandleEvent::InitFailed), e)),
{
}

} // verus!
