use rlua::error::Error;
use rlua::marshal::{
    pop_value, push_value, read_step, tag_from_code, PushOp, ReadStep, RefKind, Slot, TypeTag,
};
use rlua::value::{
    AnyUserData, Function, Handle, LightUserData, LuaString, MultiValue, Table, Thread, Value,
};

const CTX: u64 = 7;

fn h(id: i32) -> Handle {
    Handle { context: CTX, id }
}

fn every_value() -> Vec<Value> {
    vec![
        Value::Nil,
        Value::Boolean(true),
        Value::LightUserData(LightUserData(0xdead_beef)),
        Value::Integer(3),
        Value::Number(3.0f64.to_bits()),
        Value::String(LuaString(h(10))),
        Value::Table(Table(h(11))),
        Value::Function(Function(h(12))),
        Value::Thread(Thread(h(13))),
        Value::UserData(AnyUserData(h(14))),
        Value::Error(Error::ExternalError("boom".to_string())),
    ]
}

#[test]
fn type_names_of_every_variant() {
    let names: Vec<&str> = every_value().iter().map(|v| v.lua_type_name()).collect();
    assert_eq!(
        names,
        vec![
            "nil",
            "boolean",
            "light userdata",
            "integer",
            "number",
            "string",
            "table",
            "function",
            "thread",
            "userdata",
            "userdata"
        ]
    );
}

#[test]
fn handles_and_contexts() {
    let t = Value::Table(Table(h(11)));
    assert_eq!(t.handle(), Some(h(11)));
    assert!(t.belongs_to(CTX));
    assert!(!t.belongs_to(CTX + 1));
    assert_eq!(Value::Integer(1).handle(), None);
    assert!(Value::Integer(1).belongs_to(CTX + 1));
}

#[test]
fn duplicate_copies_nested_errors() {
    let e = Error::CallbackError {
        traceback: "stack traceback:".to_string(),
        cause: Box::new(Error::RuntimeError("inner".to_string())),
    };
    let v = Value::Error(e);
    assert_eq!(v.duplicate(), v);
}

#[test]
fn multivalue_keeps_order() {
    let mut m = MultiValue::new();
    assert_eq!(m.len(), 0);
    assert_eq!(m.pop_front(), None);
    m.push_back(Value::Integer(2));
    m.push_front(Value::Integer(1));
    m.push_back(Value::Integer(3));
    assert_eq!(m.len(), 3);
    assert_eq!(m.get(1), &Value::Integer(2));
    assert_eq!(m.pop_front(), Some(Value::Integer(1)));
    assert_eq!(m.into_vec(), vec![Value::Integer(2), Value::Integer(3)]);
}

#[test]
fn multivalue_context_check() {
    let ok = MultiValue::from_vec(vec![Value::Nil, Value::Table(Table(h(1)))]);
    assert!(ok.all_belong_to(CTX));
    let foreign = MultiValue::from_vec(vec![
        Value::Nil,
        Value::Table(Table(Handle { context: 99, id: 1 })),
    ]);
    assert!(!foreign.all_belong_to(CTX));
}

#[test]
fn type_codes_decode() {
    assert_eq!(tag_from_code(-1), None);
    assert_eq!(tag_from_code(0), Some(TypeTag::Nil));
    assert_eq!(tag_from_code(1), Some(TypeTag::Boolean));
    assert_eq!(tag_from_code(2), Some(TypeTag::LightUserData));
    assert_eq!(tag_from_code(3), Some(TypeTag::Number));
    assert_eq!(tag_from_code(4), Some(TypeTag::String));
    assert_eq!(tag_from_code(5), Some(TypeTag::Table));
    assert_eq!(tag_from_code(6), Some(TypeTag::Function));
    assert_eq!(tag_from_code(7), Some(TypeTag::UserData));
    assert_eq!(tag_from_code(8), Some(TypeTag::Thread));
    assert_eq!(tag_from_code(9), None);
}

#[test]
fn read_steps_by_tag() {
    assert_eq!(read_step(TypeTag::Nil), ReadStep::Discard);
    assert_eq!(read_step(TypeTag::Boolean), ReadStep::ReadBoolean);
    assert_eq!(read_step(TypeTag::LightUserData), ReadStep::ReadAddress);
    assert_eq!(read_step(TypeTag::Number), ReadStep::ReadNumber);
    assert_eq!(read_step(TypeTag::String), ReadStep::Pin(RefKind::String));
    assert_eq!(read_step(TypeTag::Table), ReadStep::Pin(RefKind::Table));
    assert_eq!(read_step(TypeTag::Function), ReadStep::Pin(RefKind::Function));
    assert_eq!(read_step(TypeTag::Thread), ReadStep::Pin(RefKind::Thread));
    assert_eq!(read_step(TypeTag::UserData), ReadStep::CheckMarkers);
}

#[test]
fn push_ops_per_variant() {
    assert_eq!(push_value(CTX, Value::Nil), PushOp::Nil);
    assert_eq!(push_value(CTX, Value::Boolean(false)), PushOp::Boolean(false));
    assert_eq!(push_value(CTX, Value::Integer(-4)), PushOp::Integer(-4));
    assert_eq!(
        push_value(CTX, Value::Number(2.5f64.to_bits())),
        PushOp::Number(2.5f64.to_bits())
    );
    assert_eq!(
        push_value(CTX, Value::LightUserData(LightUserData(16))),
        PushOp::LightUserData(16)
    );
    assert_eq!(
        push_value(CTX, Value::Function(Function(h(5)))),
        PushOp::Pinned(RefKind::Function, 5)
    );
    assert_eq!(
        push_value(CTX, Value::Error(Error::CoroutineInactive)),
        PushOp::WrappedError(Error::CoroutineInactive)
    );
}

#[test]
fn integer_and_float_stay_apart() {
    assert_eq!(pop_value(CTX, Slot::Integer(3)), Value::Integer(3));
    assert_eq!(
        pop_value(CTX, Slot::Number(3.0f64.to_bits())),
        Value::Number(3.0f64.to_bits())
    );
}

#[test]
fn wrapped_error_slot_is_error_value() {
    let v = pop_value(CTX, Slot::WrappedError(Error::ExternalError("x".to_string())));
    assert_eq!(v, Value::Error(Error::ExternalError("x".to_string())));
    assert_eq!(v.lua_type_name(), "userdata");
}

// What the engine shows when the slot written by `op` is read back, the
// object being pinned anew under `pin`.
fn reread(op: PushOp, pin: i32) -> Slot {
    match op {
        PushOp::Nil => Slot::Nil,
        PushOp::Boolean(b) => Slot::Boolean(b),
        PushOp::LightUserData(p) => Slot::LightUserData(p),
        PushOp::Integer(i) => Slot::Integer(i),
        PushOp::Number(n) => Slot::Number(n),
        PushOp::Pinned(k, _) => Slot::Pinned(k, pin),
        PushOp::WrappedError(e) => Slot::WrappedError(e),
    }
}

#[test]
fn push_then_pop_gives_the_same_value() {
    for v in every_value() {
        let back = pop_value(CTX, reread(push_value(CTX, v.duplicate()), 40));
        match v.handle() {
            None => assert_eq!(back, v),
            Some(old) => {
                assert_eq!(back.lua_type_name(), v.lua_type_name());
                assert_eq!(back.handle(), Some(Handle { context: old.context, id: 40 }));
            }
        }
    }
}

#[test]
fn nested_table_round_trips_as_table() {
    let outer = Value::Table(Table(h(3)));
    let back = pop_value(CTX, reread(push_value(CTX, outer), 9));
    assert_eq!(back, Value::Table(Table(h(9))));
}

#[test]
fn missing_values_read_as_nil() {
    let m = MultiValue::from_vec(vec![Value::Integer(1), Value::Boolean(false)]);
    assert_eq!(m.value_or_nil(0), Value::Integer(1));
    assert_eq!(m.value_or_nil(1), Value::Boolean(false));
    assert_eq!(m.value_or_nil(2), Value::Nil);
    assert_eq!(MultiValue::new().value_or_nil(0), Value::Nil);
}
