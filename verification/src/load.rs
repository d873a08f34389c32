//! Decisions of the load path: the entry-file check, the fresh module name,
//! the worker's startup handshake, and how the caller settles it.

use vstd::prelude::*;
use crate::errors::LoadError;

verus! {

/// Length, in characters, of the name a loaded execution context is
/// registered under inside the runtime.
pub const MODULE_NAME_LEN: usize = 16;

/// Relies on nanoid::format with the URL-safe alphabet and its default
/// random source: it returns a fresh identifier of exactly `size`
/// characters, one character pushed per random byte.
#[verifier::external_body]
fn random_name(size: usize) -> (r: String)
    ensures
        r@.len() == size,
{
    nanoid::format(nanoid::rngs::default, &nanoid::alphabet::SAFE, size)
}

/// What the caller decides before spawning a worker: given the entry file
/// and whether it is a regular file, either refuse with the missing-file
/// error or pick the fresh name the context will be registered under.
///
/// Success is owed exactly when the entry file exists: no worker is spawned
/// otherwise.
pub fn plan_load(init_file: &str, is_file: bool) -> (r: Result<String, LoadError>)
    ensures
        is_file ==> (r matches Ok(name) && name@.len() == MODULE_NAME_LEN),
        !is_file ==> (r matches Err(e) && e.message@ == "No "@ + init_file@ + " found"@),
{
    if !is_file {
        Err(LoadError::missing_file(init_file))
    } else {
        Ok(random_name(MODULE_NAME_LEN))
    }
}

/// The action the worker takes right after trying to load the execution
/// context, before any task is consumed.
#[derive(Clone, Copy, Debug, PartialEq, Eq, Structural)]
pub enum StartAction {
    /// Report success on the initialization channel, then enter the task loop.
    ReportSuccessAndServe,
    /// Report the failure on the initialization channel and terminate the
    /// thread without entering the task loop.
    ReportFailureAndExit,
}

/// The worker's startup handshake: it serves tasks if and only if the
/// execution context loaded; on failure it exits at once, so a failed load
/// leaves no worker running.
pub fn worker_start_step(load_succeeded: bool) -> (a: StartAction)
    ensures
        a is ReportSuccessAndServe <==> load_succeeded,
{
    if load_succeeded {
        StartAction::ReportSuccessAndServe
    } else {
        StartAction::ReportFailureAndExit
    }
}

/// How the caller settles the initialization report it blocked on: success
/// yields a ready handle, a failure detail becomes the load error handed
/// back, and the caller returns it with the worker already gone.
pub fn load_outcome(init: Result<(), String>) -> (r: Result<(), LoadError>)
    ensures
        init is Ok <==> r is Ok,
        init matches Err(m) ==> (r matches Err(e) && e.message@ == m@),
{
    match init {
        Ok(()) => Ok(()),
        Err(m) => Err(LoadError::import_failed(m)),
    }
}

} // verus!
