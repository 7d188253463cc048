use rlua::bind::{begin_bind, bound_call_layout, ShuffleOp};
use rlua::call::{begin_call, end_call, values_from_popped, CallEnd};
use rlua::error::Error;
use rlua::guard::{GuardCheck, StackGuard};
use rlua::marshal::{PushOp, RefKind};
use rlua::protect::{
    check_setmetatable, classify_failure, incomplete_message, script_catch, succeeded,
    ErrorValue, Failure, MetatableRefusal, ScriptCatch,
};
use rlua::value::{Function, Handle, MultiValue, Table, Value};

const CTX: u64 = 3;

fn f(id: i32) -> Function {
    Function(Handle { context: CTX, id })
}

#[test]
fn guard_balanced_and_violated() {
    let g = StackGuard::open(4, 0).unwrap();
    assert_eq!(g.expected(), 4);
    assert_eq!(g.close(4), GuardCheck::Balanced);
    assert_eq!(g.close(5), GuardCheck::Violated);
    assert_eq!(g.close(3), GuardCheck::Violated);
}

#[test]
fn guard_with_declared_change() {
    let g = StackGuard::open(2, 1).unwrap();
    assert_eq!(g.close(3), GuardCheck::Balanced);
    assert_eq!(g.close(2), GuardCheck::Violated);
}

#[test]
fn guard_refuses_popping_below_empty() {
    assert_eq!(StackGuard::open(1, -2), None);
    assert!(StackGuard::open(2, -2).is_some());
    assert_eq!(StackGuard::open(i32::MAX, 1), None);
}

#[test]
fn guard_trims_after_failure() {
    let g = StackGuard::open(5, 0).unwrap();
    assert_eq!(g.close_fallible(5, true), GuardCheck::Balanced);
    assert_eq!(g.close_fallible(8, true), GuardCheck::TrimTo(5));
    assert_eq!(g.close_fallible(4, true), GuardCheck::Violated);
    assert_eq!(g.close_fallible(8, false), GuardCheck::Violated);
    assert_eq!(g.close_fallible(5, false), GuardCheck::Balanced);
}

#[test]
fn status_codes_that_succeed() {
    assert!(succeeded(0));
    assert!(succeeded(1));
    assert!(!succeeded(2));
    assert!(!succeeded(6));
}

#[test]
fn runtime_error_keeps_text() {
    let r = classify_failure(2, ErrorValue::Text("oops\nstack traceback:".to_string()));
    assert_eq!(r, Failure::Error(Error::RuntimeError("oops\nstack traceback:".to_string())));
}

#[test]
fn handler_failure_is_runtime_error() {
    let r = classify_failure(6, ErrorValue::Text("bad handler".to_string()));
    assert_eq!(r, Failure::Error(Error::RuntimeError("bad handler".to_string())));
}

#[test]
fn syntax_error_complete_and_incomplete() {
    let r = classify_failure(3, ErrorValue::Text("[string \"x\"]:1: unexpected symbol".to_string()));
    assert_eq!(
        r,
        Failure::Error(Error::SyntaxError {
            message: "[string \"x\"]:1: unexpected symbol".to_string(),
            incomplete_input: false
        })
    );
    let r = classify_failure(3, ErrorValue::Text("[string \"x\"]:1: 'end' expected near <eof>".to_string()));
    assert_eq!(
        r,
        Failure::Error(Error::SyntaxError {
            message: "[string \"x\"]:1: 'end' expected near <eof>".to_string(),
            incomplete_input: true
        })
    );
}

#[test]
fn incomplete_detection() {
    assert!(incomplete_message("near <eof>"));
    assert!(incomplete_message("<eof>"));
    assert!(!incomplete_message("eof>"));
    assert!(!incomplete_message("<eof> here"));
    assert!(!incomplete_message(""));
}

#[test]
fn memory_and_gc_errors() {
    assert_eq!(
        classify_failure(4, ErrorValue::Text("not enough memory".to_string())),
        Failure::Error(Error::MemoryError("not enough memory".to_string()))
    );
    assert_eq!(
        classify_failure(5, ErrorValue::Text("in __gc".to_string())),
        Failure::Error(Error::GarbageCollectorError("in __gc".to_string()))
    );
}

#[test]
fn unprintable_error_gets_placeholder() {
    assert_eq!(
        classify_failure(2, ErrorValue::Unprintable),
        Failure::Error(Error::RuntimeError("<unprintable error>".to_string()))
    );
}

#[test]
fn unknown_status_is_reported() {
    assert_eq!(classify_failure(42, ErrorValue::Text("x".to_string())), Failure::UnknownStatus(42));
}

#[test]
fn wrapped_error_round_trips() {
    let e = Error::ExternalError("host failure".to_string());
    assert_eq!(classify_failure(2, ErrorValue::Wrapped(e.duplicate())), Failure::Error(e));
}

#[test]
fn panic_is_never_an_error() {
    for status in [2, 3, 4, 5, 6, 77] {
        assert_eq!(classify_failure(status, ErrorValue::Panic), Failure::ResumePanic);
    }
}

#[test]
fn scripts_cannot_catch_panics() {
    assert_eq!(script_catch(0, false), ScriptCatch::ReturnResults);
    assert_eq!(script_catch(2, false), ScriptCatch::ReturnError);
    assert_eq!(script_catch(2, true), ScriptCatch::Reraise);
}

#[test]
fn setmetatable_hardening() {
    assert_eq!(check_setmetatable(1, false), Err(MetatableRefusal::NotEnoughArguments));
    assert_eq!(check_setmetatable(2, true), Err(MetatableRefusal::SetsFinalizer));
    assert_eq!(check_setmetatable(2, false), Ok(()));
    assert_eq!(MetatableRefusal::SetsFinalizer.message(), "cannot set __gc from lua");
    assert_eq!(
        MetatableRefusal::NotEnoughArguments.message(),
        "not enough arguments to setmetatable"
    );
}

#[test]
fn call_pushes_function_then_arguments() {
    let args = MultiValue::from_vec(vec![
        Value::Integer(1),
        Value::Table(Table(Handle { context: CTX, id: 8 })),
    ]);
    let (frame, ops) = begin_call(CTX, 10, f(4), &args);
    assert_eq!(frame.base(), 10);
    assert_eq!(frame.nargs(), 2);
    assert_eq!(frame.headroom(), 5);
    assert_eq!(
        ops,
        vec![
            PushOp::Pinned(RefKind::Function, 4),
            PushOp::Integer(1),
            PushOp::Pinned(RefKind::Table, 8)
        ]
    );
}

#[test]
fn call_end_counts_results_or_error() {
    let (frame, _) = begin_call(CTX, 10, f(4), &MultiValue::new());
    assert_eq!(end_call(&frame, 0, 13), CallEnd::PopResults(3));
    assert_eq!(end_call(&frame, 0, 10), CallEnd::PopResults(0));
    assert_eq!(end_call(&frame, 0, 9), CallEnd::Broken);
    assert_eq!(end_call(&frame, 2, 11), CallEnd::PopError);
    assert_eq!(end_call(&frame, 2, 12), CallEnd::Broken);
}

// Depth bookkeeping of one protected call, success or failure.
fn depth_after_call(base: i32, nargs: usize, status: i32, produced: i32) -> i32 {
    let args = MultiValue::from_vec((0..nargs).map(|i| Value::Integer(i as i64)).collect());
    let (frame, ops) = begin_call(CTX, base, f(1), &args);
    let mut depth = base + ops.len() as i32;
    depth -= frame.nargs() + 1;
    depth += produced;
    let popped = match end_call(&frame, status, depth) {
        CallEnd::PopResults(n) => n,
        CallEnd::PopError => 1,
        CallEnd::Broken => panic!("broken"),
    };
    depth - popped
}

#[test]
fn stack_is_balanced_after_calls() {
    assert_eq!(depth_after_call(0, 0, 0, 0), 0);
    assert_eq!(depth_after_call(3, 2, 0, 4), 3);
    assert_eq!(depth_after_call(3, 5, 2, 1), 3);
    assert_eq!(depth_after_call(7, 1, 3, 1), 7);
}

#[test]
fn popped_values_come_back_in_stack_order() {
    let popped = vec![Value::Integer(3), Value::Integer(2), Value::Integer(1)];
    assert_eq!(
        values_from_popped(popped).into_vec(),
        vec![Value::Integer(1), Value::Integer(2), Value::Integer(3)]
    );
    assert_eq!(values_from_popped(Vec::new()).len(), 0);
}

// Runs the trampoline layout on a stack of labels.
fn run_layout(nargs: i32, nbinds: i32) -> (Vec<String>, i32) {
    let mut stack: Vec<String> = (0..nargs).map(|i| format!("a{}", i)).collect();
    let mut called = -1;
    for op in bound_call_layout(nargs, nbinds) {
        match op {
            ShuffleOp::PushUpvalue(i) => stack.push(format!("u{}", i)),
            ShuffleOp::InsertAt(p) => {
                let top = stack.pop().unwrap();
                stack.insert(p as usize - 1, top);
            }
            ShuffleOp::Call(n) => called = n,
        }
    }
    (stack, called)
}

#[test]
fn bound_function_prepends_its_arguments() {
    let (stack, called) = run_layout(2, 3);
    assert_eq!(stack, vec!["u1", "u3", "u4", "u5", "a0", "a1"]);
    assert_eq!(called, 5);
    let (stack, called) = run_layout(0, 0);
    assert_eq!(stack, vec!["u1"]);
    assert_eq!(called, 0);
    let (stack, called) = run_layout(1, 0);
    assert_eq!(stack, vec!["u1", "a0"]);
    assert_eq!(called, 1);
}

#[test]
fn bind_lays_out_upvalues() {
    let args = MultiValue::from_vec(vec![Value::Integer(13), Value::Integer(57)]);
    let (ops, n) = begin_bind(CTX, f(2), &args);
    assert_eq!(n, 4);
    assert_eq!(
        ops,
        vec![
            PushOp::Pinned(RefKind::Function, 2),
            PushOp::Integer(2),
            PushOp::Integer(13),
            PushOp::Integer(57)
        ]
    );
}
