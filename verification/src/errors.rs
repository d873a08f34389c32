//! The error taxonomy of the façade.

use vstd::prelude::*;
use vstd::string::*;

verus! {

/// Why a call through a handle failed before its task produced a value.
///
/// A task's own failure is not a `CallError`: it travels back through the
/// rendezvous slot inside the reply, like a success value.
#[derive(Clone, Copy, Debug, PartialEq, Eq, Structural)]
pub enum CallError {
    /// The liveness probe found the worker thread already terminated.
    WorkerExited,
    /// The task channel's consumer was gone when the task was sent.
    SendFailed,
    /// The rendezvous slot's sender was dropped without a reply.
    ReceiveDisconnected,
}

impl CallError {
    /// A human-readable description of the failure.
    pub fn message(&self) -> (r: String)
        ensures
            *self is WorkerExited ==> r@ == "Python thread has exited"@,
            *self is SendFailed ==> r@ == "Task send failed"@,
            *self is ReceiveDisconnected ==> r@ == "Reply channel disconnected"@,
    {
        match self {
            CallError::WorkerExited => String::from_str("Python thread has exited"),
            CallError::SendFailed => String::from_str("Task send failed"),
            CallError::ReceiveDisconnected => String::from_str("Reply channel disconnected"),
        }
    }
}

/// Why loading an execution context failed. No worker thread is left
/// running when a load ends in this error.
pub struct LoadError {
    /// What the loader or the file check reported.
    pub message: String,
}

impl LoadError {
    /// The error for an entry file that is not a regular file:
    /// `No <path> found`.
    pub fn missing_file(path: &str) -> (r: LoadError)
        ensures
            r.message@ == "No "@ + path@ + " found"@,
    {
        let mut s = String::from_str("No ");
        s.append(path);
        s.append(" found");
        LoadError { message: s }
    }

    /// The error for a loader that itself failed while importing.
    pub fn import_failed(detail: String) -> (r: LoadError)
        ensures
            r.message@ == detail@,
    {
        LoadError { message: detail }
    }
}

} // verus!
