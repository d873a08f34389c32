//! The synchronous call path: the liveness probe, the send, and the
//! blocking receive on the caller's private rendezvous slot, each settled
//! into the caller-visible result.

use vstd::prelude::*;
use crate::errors::CallError;

verus! {

/// What the attempt to place a task on the task channel came back with.
#[derive(Clone, Copy, Debug, PartialEq, Eq, Structural)]
pub enum SendOutcome {
    /// The channel accepted the task.
    Accepted,
    /// The consumer was gone: the worker had exited between the liveness
    /// probe and the send.
    Closed,
}

/// What the blocking receive on the rendezvous slot came back with.
#[derive(Clone, Copy, Debug, PartialEq, Eq, Structural)]
pub enum SlotOutcome {
    /// The task ran and placed its one value into the slot.
    Delivered(u64),
    /// The slot's sender was dropped without a reply: the worker exited
    /// before consuming the task, or crashed mid-task.
    SenderDropped,
}

/// The result of a whole call, given the liveness probe's verdict and the
/// outcomes the two following steps had (or would have had, were they
/// reached): a probe that finds the worker gone refuses at once; a closed
/// channel fails the send; otherwise the delivered value, or the
/// disconnection, is the caller's result.
pub open spec fn call_spec(
    worker_finished: bool,
    send: SendOutcome,
    slot: SlotOutcome,
) -> Result<u64, CallError> {
    if worker_finished {
        Err(CallError::WorkerExited)
    } else if send is Closed {
        Err(CallError::SendFailed)
    } else {
        match slot {
            SlotOutcome::Delivered(v) => Ok(v),
            SlotOutcome::SenderDropped => Err(CallError::ReceiveDisconnected),
        }
    }
}

/// The best-effort liveness probe: a call on a handle whose worker has
/// already terminated is refused before anything is sent.
pub fn probe_gate(worker_finished: bool) -> (r: Option<CallError>)
    ensures
        worker_finished ==> r == Some(CallError::WorkerExited),
        !worker_finished ==> r is None,
{
    if worker_finished {
        Some(CallError::WorkerExited)
    } else {
        None
    }
}

/// Settles the send: a channel whose consumer is gone turns into the
/// send-failed error rather than a panic.
pub fn settle_send(send: SendOutcome) -> (r: Option<CallError>)
    ensures
        send is Closed ==> r == Some(CallError::SendFailed),
        send is Accepted ==> r is None,
{
    match send {
        SendOutcome::Closed => Some(CallError::SendFailed),
        SendOutcome::Accepted => None,
    }
}

/// Settles the blocking receive: the delivered value is the call's result;
/// a dropped sender is the disconnection error.
pub fn settle_reply(slot: SlotOutcome) -> (r: Result<u64, CallError>)
    ensures
        slot matches SlotOutcome::Delivered(v) ==> r == Ok::<u64, CallError>(v),
        slot is SenderDropped ==> r == Err::<u64, CallError>(CallError::ReceiveDisconnected),
{
    match slot {
        SlotOutcome::Delivered(v) => Ok(v),
        SlotOutcome::SenderDropped => Err(CallError::ReceiveDisconnected),
    }
}

/// The whole call path, the three stages composed in order: probe first,
/// send only past the probe, receive only past the send.
pub fn call_result(worker_finished: bool, send: SendOutcome, slot: SlotOutcome) -> (r: Result<
    u64,
    CallError,
>)
    ensures
        r == call_spec(worker_finished, send, slot),
{
    if let Some(e) = probe_gate(worker_finished) {
        return Err(e);
    }
    if let Some(e) = settle_send(send) {
        return Err(e);
    }
    settle_reply(slot)
}

/// A call made after the worker has already shut down settles at once in
/// the worker-exited error, whatever the later stages would have yielded:
/// it never reaches the channel, so it cannot block.
pub proof fn lemma_call_after_shutdown(send: SendOutcome, slot: SlotOutcome)
    ensures
        call_spec(true, send, slot) == Err::<u64, CallError>(CallError::WorkerExited),
{
}

/// A caller whose task never delivered a value — because the probe found
/// the worker gone, the send found the channel closed, or the slot's
/// sender was dropped — observes a typed error, never a stray value. The
/// racy probe and the failed send land in the same error class, so callers
/// need not tell them apart.
pub proof fn lemma_no_reply_is_error(worker_finished: bool, send: SendOutcome, slot: SlotOutcome)
    requires
        worker_finished || send is Closed || slot is SenderDropped,
    ensures
        call_spec(worker_finished, send, slot) is Err,
{
}

/// On a live worker, a call whose task runs and replies returns exactly
/// the value that task delivered.
pub proof fn lemma_ready_call_succeeds(v: u64)
    ensures
        call_spec(false, SendOutcome::Accepted, SlotOutcome::Delivered(v)) == Ok::<
            u64,
            CallError,
        >(v),
{
}

} // verus!
