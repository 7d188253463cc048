use vstd::prelude::*;

use crate::call::{popped_at_end, push_ops_of, push_values, CallEnd};
use crate::error::Error;
use crate::marshal::PushOp;
use crate::protect::{is_success, STATUS_OK, STATUS_YIELD};
use crate::value::{all_belong_to, MultiValue};

verus! {

/// Status of a thread (coroutine).
#[derive(Clone, Copy, Debug, PartialEq, Eq, Structural)]
pub enum ThreadStatus {
    /// Just created, or suspended in a yield: it can be resumed.
    Resumable,
    /// It has finished, or it is the one running now.
    Unresumable,
    /// It stopped on an error.
    Error,
}

pub open spec fn thread_status_of(status: i32, top: i32) -> ThreadStatus {
    if !is_success(status) {
        ThreadStatus::Error
    } else if status == STATUS_YIELD || top > 0 {
        ThreadStatus::Resumable
    } else {
        ThreadStatus::Unresumable
    }
}

/// The status of a thread whose engine status code is `status` and whose
/// own stack holds `top` values: a thread that has not started holds its
/// function, a finished one holds nothing.
pub fn thread_status(status: i32, top: i32) -> (r: ThreadStatus)
    ensures
        r == thread_status_of(status, top),
{
    if status != STATUS_OK && status != STATUS_YIELD {
        ThreadStatus::Error
    } else if status == STATUS_YIELD || top > 0 {
        ThreadStatus::Resumable
    } else {
        ThreadStatus::Unresumable
    }
}

/// Starts resuming a thread in the context `context` with `args`. A thread
/// that is not resumable, because it finished or stopped on an error, is
/// not run: the result is `CoroutineInactive`. Otherwise the pushes onto the
/// thread's own stack, first argument first.
pub fn begin_resume(context: u64, status: i32, top: i32, args: &MultiValue) -> (r: Result<
    Vec<PushOp>,
    Error,
>)
    requires
        all_belong_to(args@, context),
    ensures
        thread_status_of(status, top) == ThreadStatus::Resumable ==> (r matches Ok(ops) && ops@
            == push_ops_of(args@)),
        thread_status_of(status, top) != ThreadStatus::Resumable ==> r == Err::<
            Vec<PushOp>,
            Error,
        >(Error::CoroutineInactive),
{
    if thread_status(status, top) != ThreadStatus::Resumable {
        return Err(Error::CoroutineInactive);
    }
    Ok(push_values(context, args))
}

pub open spec fn resume_end_of(status: i32, top: i32) -> CallEnd {
    if is_success(status) {
        if top >= 0 {
            CallEnd::PopResults(top)
        } else {
            CallEnd::Broken
        }
    } else if top >= 1 {
        CallEnd::PopError
    } else {
        CallEnd::Broken
    }
}

/// What to take off the thread's stack once the engine's resume returned:
/// after a yield or a return the thread's stack holds exactly the values
/// yielded or returned; after a failure the error value is on top.
pub fn end_resume(status: i32, top: i32) -> (r: CallEnd)
    ensures
        r == resume_end_of(status, top),
{
    if status == STATUS_OK || status == STATUS_YIELD {
        if top >= 0 {
            CallEnd::PopResults(top)
        } else {
            CallEnd::Broken
        }
    } else if top >= 1 {
        CallEnd::PopError
    } else {
        CallEnd::Broken
    }
}

/// A thread that stopped on a script error reports `Error` whatever its
/// stack still holds, so every later resume is `CoroutineInactive`.
pub proof fn lemma_failed_thread_is_inactive(status: i32, top: i32)
    requires
        !is_success(status),
    ensures
        thread_status_of(status, top) == ThreadStatus::Error,
        thread_status_of(status, top) != ThreadStatus::Resumable,
{
}

/// A resume takes back exactly what the thread handed over: after a yield
/// or a return every value on the thread's stack is a result and all are
/// popped, after a failure the one error value is.
pub proof fn lemma_resume_balanced(status: i32, top: i32)
    requires
        resume_end_of(status, top) != CallEnd::Broken,
    ensures
        is_success(status) ==> top - popped_at_end(resume_end_of(status, top)) == 0,
        !is_success(status) ==> top - popped_at_end(resume_end_of(status, top)) == top - 1,
{
}

} // verus!
