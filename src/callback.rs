use vstd::prelude::*;

use crate::call::{push_ops_of, push_values};
use crate::error::Error;
use crate::marshal::PushOp;
use crate::protect::ErrorValue;
use crate::value::{all_belong_to, MultiValue};

verus! {

/// The error a closure gets when it is called again while it runs.
pub open spec fn is_reentry_error(e: Error) -> bool {
    e matches Error::CallbackError { cause, .. } && *cause matches Error::RuntimeError(m)
        && m@ == "recursive callback function call would mutably borrow function twice"@
}

fn reentry_error() -> (r: Error)
    ensures
        is_reentry_error(r),
{
    let m = "recursive callback function call would mutably borrow function twice".to_string();
    Error::CallbackError { traceback: String::new(), cause: Box::new(Error::RuntimeError(m)) }
}

/// The exclusive-access flag of a registered host closure: set while the
/// closure runs, so that a call that reaches it again fails instead of
/// aliasing its captured state.
#[derive(Debug, PartialEq, Eq, Structural)]
pub struct CallbackGuard {
    running: bool,
}

pub open spec fn after_enter(g: CallbackGuard) -> CallbackGuard {
    if g.running() {
        g
    } else {
        CallbackGuard::running_guard()
    }
}

impl CallbackGuard {
    pub closed spec fn running(self) -> bool {
        self.running
    }

    pub closed spec fn running_guard() -> CallbackGuard {
        CallbackGuard { running: true }
    }

    pub closed spec fn idle_guard() -> CallbackGuard {
        CallbackGuard { running: false }
    }

    pub proof fn lemma_states()
        ensures
            Self::running_guard().running(),
            !Self::idle_guard().running(),
            forall|g: CallbackGuard| g.running() ==> g == Self::running_guard(),
            forall|g: CallbackGuard| !g.running() ==> g == Self::idle_guard(),
    {
    }

    /// A guard for a closure that is not running.
    pub fn new() -> (r: CallbackGuard)
        ensures
            r == Self::idle_guard(),
            !r.running(),
    {
        CallbackGuard { running: false }
    }

    pub fn is_running(&self) -> (r: bool)
        ensures
            r == self.running(),
    {
        self.running
    }

    /// Takes exclusive access to the closure for one call; fails with a
    /// callback error, changing nothing, when the closure is running already.
    pub fn enter(&mut self) -> (r: Result<(), Error>)
        ensures
            *final(self) == after_enter(*old(self)),
            final(self).running(),
            old(self).running() ==> (r matches Err(e) && is_reentry_error(e)),
            !old(self).running() ==> r is Ok,
    {
        if self.running {
            Err(reentry_error())
        } else {
            self.running = true;
            Ok(())
        }
    }

    /// Gives exclusive access back.
    pub fn leave(&mut self)
        ensures
            *final(self) == Self::idle_guard(),
            !final(self).running(),
    {
        self.running = false;
    }
}

/// A closure cannot be entered while it runs: from rest, the first entry
/// succeeds, an entry that reaches it during that call fails with a
/// callback error and leaves it running, and once the first call has left,
/// the closure can be entered again.
pub proof fn lemma_no_reentry(g: CallbackGuard)
    requires
        !g.running(),
    ensures
        after_enter(g).running(),
        after_enter(after_enter(g)) == after_enter(g),
        after_enter(CallbackGuard::idle_guard()).running(),
{
    CallbackGuard::lemma_states();
}

/// What a host closure did.
#[derive(Debug, PartialEq)]
pub enum CallbackOutcome {
    Returned(MultiValue),
    Failed(Error),
    /// The closure panicked; the payload stays with the embedding layer.
    Panicked,
}

/// How the trampoline leaves the engine.
#[derive(Debug, PartialEq)]
pub enum CallbackExit {
    /// Push these results and return their number to the engine.
    Return(Vec<PushOp>),
    /// Raise this error as a script error.
    Raise(Error),
    /// Raise the caught panic as a wrapped-panic script error.
    RaisePanic,
    /// The closure returned a value pinned in another context: a
    /// programming error that cannot be carried on from.
    ForeignValue,
}

pub open spec fn exit_matches(r: CallbackExit, context: u64, outcome: CallbackOutcome) -> bool {
    match outcome {
        CallbackOutcome::Returned(vs) => if all_belong_to(vs@, context) {
            r matches CallbackExit::Return(ops) && ops@ == push_ops_of(vs@)
        } else {
            r == CallbackExit::ForeignValue
        },
        CallbackOutcome::Failed(e) => r == CallbackExit::Raise(e),
        CallbackOutcome::Panicked => r == CallbackExit::RaisePanic,
    }
}

/// Ends a call of a host closure in the context `context`, whatever the
/// closure did: exclusive access is given back, and its results are pushed
/// in order, or its failure is raised.
pub fn finish_callback(guard: &mut CallbackGuard, context: u64, outcome: CallbackOutcome) -> (r:
    CallbackExit)
    ensures
        *final(guard) == CallbackGuard::idle_guard(),
        !final(guard).running(),
        exit_matches(r, context, outcome),
{
    guard.leave();
    match outcome {
        CallbackOutcome::Returned(vs) => {
            if vs.all_belong_to(context) {
                CallbackExit::Return(push_values(context, &vs))
            } else {
                CallbackExit::ForeignValue
            }
        },
        CallbackOutcome::Failed(e) => CallbackExit::Raise(e),
        CallbackOutcome::Panicked => CallbackExit::RaisePanic,
    }
}

/// What the protected-call message handler does with the value raised.
#[derive(Debug, PartialEq)]
pub enum HandlerStep {
    /// Replace it with this wrapped error, which records where the host
    /// error was raised.
    Wrap(Error),
    /// Leave the wrapped panic as it is, so it reaches the host untouched.
    KeepPanic,
    /// Replace it with its text followed by the engine's traceback.
    AppendTraceback,
}

pub open spec fn handler_step_of(r: HandlerStep, raised: ErrorValue, traceback: String) -> bool {
    match raised {
        ErrorValue::Wrapped(e) => r matches HandlerStep::Wrap(w) && w matches Error::CallbackError {
            traceback: t,
            cause,
        } && t == traceback && *cause == e,
        ErrorValue::Panic => r == HandlerStep::KeepPanic,
        _ => r == HandlerStep::AppendTraceback,
    }
}

/// The message handler of protected calls, given the value raised and the
/// traceback at the point of failure.
pub fn handler_step(raised: ErrorValue, traceback: String) -> (r: HandlerStep)
    ensures
        handler_step_of(r, raised, traceback),
{
    match raised {
        ErrorValue::Wrapped(e) => HandlerStep::Wrap(
            Error::CallbackError { traceback, cause: Box::new(e) },
        ),
        ErrorValue::Panic => HandlerStep::KeepPanic,
        _ => HandlerStep::AppendTraceback,
    }
}

} // verus!
