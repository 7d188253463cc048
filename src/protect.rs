use vstd::prelude::*;

use crate::callback::{handler_step_of, HandlerStep};
use crate::error::Error;
use crate::marshal::{push_op_of, push_value, PushOp, RefKind};
use crate::value::{all_belong_to, Function, MultiValue, Value};

verus! {

/// Status codes returned by the engine's protected call and resume.
pub const STATUS_OK: i32 = 0;
pub const STATUS_YIELD: i32 = 1;
pub const STATUS_ERR_RUN: i32 = 2;
pub const STATUS_ERR_SYNTAX: i32 = 3;
pub const STATUS_ERR_MEM: i32 = 4;
pub const STATUS_ERR_GC: i32 = 5;
pub const STATUS_ERR_HANDLER: i32 = 6;

pub open spec fn is_success(status: i32) -> bool {
    status == STATUS_OK || status == STATUS_YIELD
}

/// Whether a status code reports that the call ran to completion or yielded.
pub fn succeeded(status: i32) -> (r: bool)
    ensures
        r == is_success(status),
{
    status == STATUS_OK || status == STATUS_YIELD
}

/// The value a failed protected call leaves on top of the stack, as read by
/// the embedding layer.
#[derive(Debug, PartialEq)]
pub enum ErrorValue {
    /// A wrapped host error.
    Wrapped(Error),
    /// A wrapped host panic; its payload stays with the embedding layer.
    Panic,
    /// Any other value, converted to text by the engine.
    Text(String),
    /// A value the engine cannot convert to text.
    Unprintable,
}

/// How a failed protected call ends for the host.
#[derive(Debug, PartialEq)]
pub enum Failure {
    /// An ordinary error result.
    Error(Error),
    /// A host panic was absorbed in a callback below: raise it again, with
    /// its original payload, at this boundary.
    ResumePanic,
    /// The engine reported a status code it does not define.
    UnknownStatus(i32),
}

pub open spec fn unprintable_text() -> Seq<char> {
    "<unprintable error>"@
}

/// A syntax error message that ends at the end of the input, as the engine
/// words it: the source stopped in the middle of a statement.
pub open spec fn is_incomplete_message(m: Seq<char>) -> bool {
    &&& m.len() >= 5
    &&& m[m.len() - 5] == '<'
    &&& m[m.len() - 4] == 'e'
    &&& m[m.len() - 3] == 'o'
    &&& m[m.len() - 2] == 'f'
    &&& m[m.len() - 1] == '>'
}

/// Whether a syntax error message says the input ended too early.
pub fn incomplete_message(m: &str) -> (r: bool)
    ensures
        r == is_incomplete_message(m@),
{
    let n = m.unicode_len();
    if n < 5 {
        return false;
    }
    m.get_char(n - 5) == '<' && m.get_char(n - 4) == 'e' && m.get_char(n - 3) == 'o'
        && m.get_char(n - 2) == 'f' && m.get_char(n - 1) == '>'
}

/// `e` is the error that a failure with status `status` and error text
/// `text` becomes; `false` for every `e` when the status names no failure.
pub open spec fn error_for_status(e: Error, status: i32, text: Seq<char>) -> bool {
    if status == STATUS_ERR_RUN || status == STATUS_ERR_HANDLER {
        e matches Error::RuntimeError(m) && m@ == text
    } else if status == STATUS_ERR_SYNTAX {
        e matches Error::SyntaxError { message, incomplete_input } && message@ == text
            && incomplete_input == is_incomplete_message(text)
    } else if status == STATUS_ERR_MEM {
        e matches Error::MemoryError(m) && m@ == text
    } else if status == STATUS_ERR_GC {
        e matches Error::GarbageCollectorError(m) && m@ == text
    } else {
        false
    }
}

pub open spec fn is_failure_status(status: i32) -> bool {
    status == STATUS_ERR_RUN || status == STATUS_ERR_HANDLER || status == STATUS_ERR_SYNTAX
        || status == STATUS_ERR_MEM || status == STATUS_ERR_GC
}

/// `r` is how a failure with status `status` and error text `text` ends.
pub open spec fn text_failure(r: Failure, status: i32, text: Seq<char>) -> bool {
    if is_failure_status(status) {
        r matches Failure::Error(e) && error_for_status(e, status, text)
    } else {
        r == Failure::UnknownStatus(status)
    }
}

/// `r` is how a protected call that failed with status `status`, leaving
/// the error value `ev`, ends for the host.
pub open spec fn failure_of(r: Failure, status: i32, ev: ErrorValue) -> bool {
    match ev {
        ErrorValue::Wrapped(e) => r == Failure::Error(e),
        ErrorValue::Panic => r == Failure::ResumePanic,
        ErrorValue::Text(t) => text_failure(r, status, t@),
        ErrorValue::Unprintable => text_failure(r, status, unprintable_text()),
    }
}

fn error_from_text(status: i32, text: String) -> (r: Option<Error>)
    ensures
        match r {
            Some(e) => is_failure_status(status) && error_for_status(e, status, text@),
            None => !is_failure_status(status),
        },
{
    if status == STATUS_ERR_RUN || status == STATUS_ERR_HANDLER {
        Some(Error::RuntimeError(text))
    } else if status == STATUS_ERR_SYNTAX {
        let incomplete = incomplete_message(text.as_str());
        Some(Error::SyntaxError { message: text, incomplete_input: incomplete })
    } else if status == STATUS_ERR_MEM {
        Some(Error::MemoryError(text))
    } else if status == STATUS_ERR_GC {
        Some(Error::GarbageCollectorError(text))
    } else {
        None
    }
}

/// Turns the error value left by a failed protected call into the host's
/// result: a wrapped host error comes back as itself, a wrapped panic is to
/// be raised again, and anything else becomes the error kind the status
/// code names, with the value's text (or a placeholder when it has none).
pub fn classify_failure(status: i32, ev: ErrorValue) -> (r: Failure)
    requires
        !is_success(status),
    ensures
        failure_of(r, status, ev),
{
    let text = match ev {
        ErrorValue::Wrapped(e) => {
            return Failure::Error(e);
        },
        ErrorValue::Panic => {
            return Failure::ResumePanic;
        },
        ErrorValue::Text(t) => t,
        ErrorValue::Unprintable => {
            let t = "<unprintable error>".to_string();
            proof {
                reveal_strlit("<unprintable error>");
            }
            t
        },
    };
    match error_from_text(status, text) {
        Some(e) => Failure::Error(e),
        None => Failure::UnknownStatus(status),
    }
}

/// What the hardened script-side protected call does once the call it
/// protects has returned.
#[derive(Clone, Copy, Debug, PartialEq, Eq, Structural)]
pub enum ScriptCatch {
    /// Return `true` followed by the call's results.
    ReturnResults,
    /// Return `false` followed by the error value.
    ReturnError,
    /// Raise the error value again: it is a host panic, which no script may
    /// catch.
    Reraise,
}

pub open spec fn script_catch_of(status: i32, caught_panic: bool) -> ScriptCatch {
    if is_success(status) {
        ScriptCatch::ReturnResults
    } else if caught_panic {
        ScriptCatch::Reraise
    } else {
        ScriptCatch::ReturnError
    }
}

/// The hardened `pcall` and `xpcall` of scripts: like the engine's own,
/// but a wrapped host panic passes through them.
pub fn script_catch(status: i32, caught_panic: bool) -> (r: ScriptCatch)
    ensures
        r == script_catch_of(status, caught_panic),
{
    if succeeded(status) {
        ScriptCatch::ReturnResults
    } else if caught_panic {
        ScriptCatch::Reraise
    } else {
        ScriptCatch::ReturnError
    }
}

/// What the message handler installed by the hardened `xpcall` does with
/// the value raised.
#[derive(Clone, Copy, Debug, PartialEq, Eq, Structural)]
pub enum ScriptHandlerStep {
    /// Hand the wrapped panic on untouched: the script's handler never sees
    /// a host panic.
    PassPanic,
    /// Call the script's own handler with the value.
    CallHandler,
}

/// The message handler of the hardened `xpcall`.
pub fn script_handler_step(raised_panic: bool) -> (r: ScriptHandlerStep)
    ensures
        raised_panic <==> r == ScriptHandlerStep::PassPanic,
        !raised_panic <==> r == ScriptHandlerStep::CallHandler,
{
    if raised_panic {
        ScriptHandlerStep::PassPanic
    } else {
        ScriptHandlerStep::CallHandler
    }
}

/// Why the hardened `setmetatable` of scripts refuses a call.
#[derive(Clone, Copy, Debug, PartialEq, Eq, Structural)]
pub enum MetatableRefusal {
    NotEnoughArguments,
    /// Scripts may not install finalizers: a finalizer runs during
    /// collection, where the bridge cannot guard the stack.
    SetsFinalizer,
}

impl MetatableRefusal {
    /// The message the script sees.
    pub fn message(&self) -> (r: &'static str)
        ensures
            *self == MetatableRefusal::NotEnoughArguments ==> r@
                == "not enough arguments to setmetatable"@,
            *self == MetatableRefusal::SetsFinalizer ==> r@ == "cannot set __gc from lua"@,
    {
        match self {
            MetatableRefusal::NotEnoughArguments => "not enough arguments to setmetatable",
            MetatableRefusal::SetsFinalizer => "cannot set __gc from lua",
        }
    }
}

/// The check of the hardened `setmetatable`, called with `nargs` arguments
/// whose second one, when it is a table, does or does not hold `__gc`.
pub fn check_setmetatable(nargs: i32, defines_finalizer: bool) -> (r: Result<
    (),
    MetatableRefusal,
>)
    ensures
        nargs < 2 ==> r == Err::<(), MetatableRefusal>(MetatableRefusal::NotEnoughArguments),
        nargs >= 2 && defines_finalizer ==> r == Err::<(), MetatableRefusal>(
            MetatableRefusal::SetsFinalizer,
        ),
        nargs >= 2 && !defines_finalizer ==> r is Ok,
{
    if nargs < 2 {
        Err(MetatableRefusal::NotEnoughArguments)
    } else if defines_finalizer {
        Err(MetatableRefusal::SetsFinalizer)
    } else {
        Ok(())
    }
}

/// A host panic absorbed in a callback keeps its identity all the way up:
/// the message handler leaves the wrapped panic as it is, no script-side
/// protected call can catch it, and the host-side protected call that it
/// reaches raises it again, whatever the status, instead of turning it into
/// an error of any kind.
pub proof fn lemma_panic_reaches_host(
    status: i32,
    r: Failure,
    handled: HandlerStep,
    traceback: String,
)
    requires
        !is_success(status),
        handler_step_of(handled, ErrorValue::Panic, traceback),
        failure_of(r, status, ErrorValue::Panic),
    ensures
        handled == HandlerStep::KeepPanic,
        r == Failure::ResumePanic,
        !(r is Error),
        script_catch_of(status, true) == ScriptCatch::Reraise,
{
}

} // verus!
