use vstd::prelude::*;

verus! {

/// Every failure the bridge reports to its caller.
#[allow(inconsistent_fields)]
#[derive(Debug, PartialEq)]
pub enum Error {
    /// A chunk failed to compile; `incomplete_input` is set when the source
    /// ended in the middle of a statement.
    SyntaxError { message: String, incomplete_input: bool },
    /// A script raised or propagated a runtime fault. The message carries
    /// the traceback added by the protected-call handler, when there was one.
    RuntimeError(String),
    /// The engine's allocator reported that memory ran out.
    MemoryError(String),
    /// A finalizer failed while the engine was collecting garbage.
    GarbageCollectorError(String),
    /// A thread that has finished or failed was resumed.
    CoroutineInactive,
    /// A host error that crossed the script boundary and came back.
    ExternalError(String),
    /// A host callback failed; `cause` is what it failed with.
    CallbackError { traceback: String, cause: Box<Error> },
    /// A host value could not be turned into an engine value.
    ToLuaConversionError { from: &'static str, to: &'static str, message: Option<String> },
    /// An engine value could not be turned into the requested host value.
    FromLuaConversionError { from: &'static str, to: &'static str, message: Option<String> },
}

fn duplicate_message(m: &Option<String>) -> (r: Option<String>)
    ensures
        r == *m,
{
    match m {
        Some(t) => Some(t.clone()),
        None => None,
    }
}

impl Error {
    /// A copy of this error.
    pub fn duplicate(&self) -> (r: Error)
        ensures
            r == *self,
        decreases self,
    {
        match self {
            Error::SyntaxError { message, incomplete_input } => Error::SyntaxError {
                message: message.clone(),
                incomplete_input: *incomplete_input,
            },
            Error::RuntimeError(m) => Error::RuntimeError(m.clone()),
            Error::MemoryError(m) => Error::MemoryError(m.clone()),
            Error::GarbageCollectorError(m) => Error::GarbageCollectorError(m.clone()),
            Error::CoroutineInactive => Error::CoroutineInactive,
            Error::ExternalError(m) => Error::ExternalError(m.clone()),
            Error::CallbackError { traceback, cause } => {
                let inner = (**cause).duplicate();
                Error::CallbackError { traceback: traceback.clone(), cause: Box::new(inner) }
            },
            Error::ToLuaConversionError { from, to, message } => Error::ToLuaConversionError {
                from: *from,
                to: *to,
                message: duplicate_message(message),
            },
            Error::FromLuaConversionError { from, to, message } => Error::FromLuaConversionError {
                from: *from,
                to: *to,
                message: duplicate_message(message),
            },
        }
    }
}

} // verus!
