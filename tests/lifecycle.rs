use rlua::callback::{finish_callback, handler_step, CallbackExit, CallbackGuard, CallbackOutcome, HandlerStep};
use rlua::call::{values_from_popped, CallEnd};
use rlua::coroutine::{begin_resume, end_resume, thread_status, ThreadStatus};
use rlua::error::Error;
use rlua::marshal::PushOp;
use rlua::protect::ErrorValue;
use rlua::value::{Handle, MultiValue, Table, Value};

const CTX: u64 = 11;

fn is_reentry(e: &Error) -> bool {
    match e {
        Error::CallbackError { cause, .. } => {
            **cause
                == Error::RuntimeError(
                    "recursive callback function call would mutably borrow function twice"
                        .to_string(),
                )
        }
        _ => false,
    }
}

#[test]
fn reentrant_call_fails_with_callback_error() {
    let mut g = CallbackGuard::new();
    assert!(!g.is_running());
    assert_eq!(g.enter(), Ok(()));
    assert!(g.is_running());
    let again = g.enter();
    assert!(is_reentry(&again.unwrap_err()));
    assert!(g.is_running());
    g.leave();
    assert!(!g.is_running());
    assert_eq!(g.enter(), Ok(()));
}

#[test]
fn callback_exit_releases_on_every_path() {
    let mut g = CallbackGuard::new();
    g.enter().unwrap();
    let exit = finish_callback(
        &mut g,
        CTX,
        CallbackOutcome::Returned(MultiValue::from_vec(vec![Value::Integer(1), Value::Nil])),
    );
    assert_eq!(exit, CallbackExit::Return(vec![PushOp::Integer(1), PushOp::Nil]));
    assert!(!g.is_running());

    g.enter().unwrap();
    let exit = finish_callback(&mut g, CTX, CallbackOutcome::Failed(Error::CoroutineInactive));
    assert_eq!(exit, CallbackExit::Raise(Error::CoroutineInactive));
    assert!(!g.is_running());

    g.enter().unwrap();
    assert_eq!(finish_callback(&mut g, CTX, CallbackOutcome::Panicked), CallbackExit::RaisePanic);
    assert!(!g.is_running());
}

#[test]
fn callback_returning_foreign_value() {
    let mut g = CallbackGuard::new();
    g.enter().unwrap();
    let foreign = Value::Table(Table(Handle { context: CTX + 1, id: 2 }));
    let exit = finish_callback(
        &mut g,
        CTX,
        CallbackOutcome::Returned(MultiValue::from_vec(vec![foreign])),
    );
    assert_eq!(exit, CallbackExit::ForeignValue);
    assert!(!g.is_running());
}

#[test]
fn handler_wraps_host_errors_and_keeps_panics() {
    let tb = "stack traceback:\n\t[C]: in ?".to_string();
    assert_eq!(
        handler_step(ErrorValue::Wrapped(Error::ExternalError("e".to_string())), tb.clone()),
        HandlerStep::Wrap(Error::CallbackError {
            traceback: tb.clone(),
            cause: Box::new(Error::ExternalError("e".to_string()))
        })
    );
    assert_eq!(handler_step(ErrorValue::Panic, tb.clone()), HandlerStep::KeepPanic);
    assert_eq!(
        handler_step(ErrorValue::Text("x".to_string()), tb.clone()),
        HandlerStep::AppendTraceback
    );
    assert_eq!(handler_step(ErrorValue::Unprintable, tb), HandlerStep::AppendTraceback);
}

#[test]
fn thread_status_rules() {
    assert_eq!(thread_status(0, 1), ThreadStatus::Resumable);
    assert_eq!(thread_status(1, 0), ThreadStatus::Resumable);
    assert_eq!(thread_status(0, 0), ThreadStatus::Unresumable);
    assert_eq!(thread_status(2, 3), ThreadStatus::Error);
}

// A coroutine that asserts its argument is 42, yields 123, asserts the
// resumed value is 43 and returns 987, as the engine would report it.
#[test]
fn coroutine_lifecycle() {
    // Fresh: status OK, its function on its stack.
    let (status, top) = (0, 1);
    assert_eq!(thread_status(status, top), ThreadStatus::Resumable);
    let ops = begin_resume(CTX, status, top, &MultiValue::from_vec(vec![Value::Integer(42)]));
    assert_eq!(ops, Ok(vec![PushOp::Integer(42)]));
    // It yields 123.
    let (status, top) = (1, 1);
    assert_eq!(end_resume(status, top), CallEnd::PopResults(1));
    let results = values_from_popped(vec![Value::Integer(123)]);
    assert_eq!(results.into_vec(), vec![Value::Integer(123)]);
    let top = 0;
    assert_eq!(thread_status(status, top), ThreadStatus::Resumable);
    let ops = begin_resume(CTX, status, top, &MultiValue::from_vec(vec![Value::Integer(43)]));
    assert_eq!(ops, Ok(vec![PushOp::Integer(43)]));
    // It returns 987.
    let (status, top) = (0, 1);
    assert_eq!(end_resume(status, top), CallEnd::PopResults(1));
    let results = values_from_popped(vec![Value::Integer(987)]);
    assert_eq!(results.into_vec(), vec![Value::Integer(987)]);
    let top = 0;
    assert_eq!(thread_status(status, top), ThreadStatus::Unresumable);
    // A third resume fails.
    assert_eq!(begin_resume(CTX, status, top, &MultiValue::new()), Err(Error::CoroutineInactive));
}

#[test]
fn failed_resume_pops_the_error() {
    assert_eq!(end_resume(2, 1), CallEnd::PopError);
    assert_eq!(end_resume(2, 0), CallEnd::Broken);
    assert_eq!(end_resume(0, -1), CallEnd::Broken);
}

#[test]
fn errored_thread_with_values_left_is_inactive() {
    // The engine keeps the failed thread's stack; its status is a run error.
    assert_eq!(thread_status(2, 1), ThreadStatus::Error);
    assert_eq!(
        begin_resume(CTX, 2, 1, &MultiValue::from_vec(vec![Value::Integer(1)])),
        Err(Error::CoroutineInactive)
    );
    assert_eq!(begin_resume(CTX, 2, 0, &MultiValue::new()), Err(Error::CoroutineInactive));
    assert_eq!(begin_resume(CTX, 3, 5, &MultiValue::new()), Err(Error::CoroutineInactive));
}

#[test]
fn script_error_in_coroutine_then_inactive() {
    // Fresh thread, resumed; its body raises an error.
    assert_eq!(begin_resume(CTX, 0, 1, &MultiValue::new()), Ok(vec![]));
    let (status, top) = (2, 2);
    assert_eq!(end_resume(status, top), CallEnd::PopError);
    let top = 1;
    assert_eq!(thread_status(status, top), ThreadStatus::Error);
    assert_eq!(begin_resume(CTX, status, top, &MultiValue::new()), Err(Error::CoroutineInactive));
}
