use pymodule::call::{call_result, probe_gate, settle_reply, settle_send, SendOutcome, SlotOutcome};
use pymodule::errors::CallError;

#[test]
fn a_call_on_a_live_worker_returns_the_delivered_value() {
    // The scenario of an addition task on 1 and 2: the worker runs it and
    // delivers 3 to the caller's own slot.
    let r = call_result(false, SendOutcome::Accepted, SlotOutcome::Delivered(3));
    assert_eq!(r, Ok(3));
}

#[test]
fn a_call_after_shutdown_fails_synchronously() {
    let r = call_result(true, SendOutcome::Accepted, SlotOutcome::Delivered(3));
    assert_eq!(r, Err(CallError::WorkerExited));
}

#[test]
fn a_closed_channel_fails_the_send() {
    let r = call_result(false, SendOutcome::Closed, SlotOutcome::SenderDropped);
    assert_eq!(r, Err(CallError::SendFailed));
}

#[test]
fn a_dropped_reply_sender_is_a_disconnection() {
    let r = call_result(false, SendOutcome::Accepted, SlotOutcome::SenderDropped);
    assert_eq!(r, Err(CallError::ReceiveDisconnected));
}

#[test]
fn the_probe_refuses_a_finished_worker_before_anything_is_sent() {
    assert_eq!(probe_gate(true), Some(CallError::WorkerExited));
    assert_eq!(probe_gate(false), None);
}

#[test]
fn the_stages_settle_each_outcome() {
    assert_eq!(settle_send(SendOutcome::Closed), Some(CallError::SendFailed));
    assert_eq!(settle_send(SendOutcome::Accepted), None);
    assert_eq!(settle_reply(SlotOutcome::Delivered(42)), Ok(42));
    assert_eq!(
        settle_reply(SlotOutcome::SenderDropped),
        Err(CallError::ReceiveDisconnected)
    );
}

#[test]
fn call_errors_carry_their_descriptions() {
    assert_eq!(CallError::WorkerExited.message(), "Python thread has exited");
    assert_eq!(CallError::SendFailed.message(), "Task send failed");
    assert_eq!(
        CallError::ReceiveDisconnected.message(),
        "Reply channel disconnected"
    );
}
