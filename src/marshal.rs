use vstd::prelude::*;

use crate::error::Error;
use crate::value::{
    belongs_to, handle_of, type_name_of, AnyUserData, Function, Handle, LightUserData, LuaString, Table, Thread,
    Value,
};

verus! {

/// The engine's type codes, as `lua_type` reports them.
pub const TYPE_NIL: i32 = 0;
pub const TYPE_BOOLEAN: i32 = 1;
pub const TYPE_LIGHT_USERDATA: i32 = 2;
pub const TYPE_NUMBER: i32 = 3;
pub const TYPE_STRING: i32 = 4;
pub const TYPE_TABLE: i32 = 5;
pub const TYPE_FUNCTION: i32 = 6;
pub const TYPE_USERDATA: i32 = 7;
pub const TYPE_THREAD: i32 = 8;

/// The runtime type of an occupied stack slot.
#[derive(Clone, Copy, Debug, PartialEq, Eq, Structural)]
pub enum TypeTag {
    Nil,
    Boolean,
    LightUserData,
    Number,
    String,
    Table,
    Function,
    UserData,
    Thread,
}

pub open spec fn tag_code(t: TypeTag) -> i32 {
    match t {
        TypeTag::Nil => TYPE_NIL,
        TypeTag::Boolean => TYPE_BOOLEAN,
        TypeTag::LightUserData => TYPE_LIGHT_USERDATA,
        TypeTag::Number => TYPE_NUMBER,
        TypeTag::String => TYPE_STRING,
        TypeTag::Table => TYPE_TABLE,
        TypeTag::Function => TYPE_FUNCTION,
        TypeTag::UserData => TYPE_USERDATA,
        TypeTag::Thread => TYPE_THREAD,
    }
}

/// Decodes a type code; `None` for an empty slot or a code the engine does
/// not define.
pub fn tag_from_code(code: i32) -> (r: Option<TypeTag>)
    ensures
        match r {
            Some(t) => tag_code(t) == code,
            None => code < TYPE_NIL || code > TYPE_THREAD,
        },
{
    if code == TYPE_NIL {
        Some(TypeTag::Nil)
    } else if code == TYPE_BOOLEAN {
        Some(TypeTag::Boolean)
    } else if code == TYPE_LIGHT_USERDATA {
        Some(TypeTag::LightUserData)
    } else if code == TYPE_NUMBER {
        Some(TypeTag::Number)
    } else if code == TYPE_STRING {
        Some(TypeTag::String)
    } else if code == TYPE_TABLE {
        Some(TypeTag::Table)
    } else if code == TYPE_FUNCTION {
        Some(TypeTag::Function)
    } else if code == TYPE_USERDATA {
        Some(TypeTag::UserData)
    } else if code == TYPE_THREAD {
        Some(TypeTag::Thread)
    } else {
        None
    }
}

/// The kinds of engine object that are held through a registry pin.
#[derive(Clone, Copy, Debug, PartialEq, Eq, Structural)]
pub enum RefKind {
    String,
    Table,
    Function,
    Thread,
    UserData,
}

/// What to read from the top slot, given its type, before removing it.
#[derive(Clone, Copy, Debug, PartialEq, Eq, Structural)]
pub enum ReadStep {
    /// Nothing to read: the slot is `nil`.
    Discard,
    /// Read the truth value.
    ReadBoolean,
    /// Read the foreign address.
    ReadAddress,
    /// Ask the engine whether the number is an exact integer, then read it
    /// as an integer or as a float accordingly.
    ReadNumber,
    /// Pin the object in the registry.
    Pin(RefKind),
    /// Look for the wrapped-error and wrapped-panic markers; pin the object
    /// as host data when neither is there.
    CheckMarkers,
}

pub open spec fn read_step_of(t: TypeTag) -> ReadStep {
    match t {
        TypeTag::Nil => ReadStep::Discard,
        TypeTag::Boolean => ReadStep::ReadBoolean,
        TypeTag::LightUserData => ReadStep::ReadAddress,
        TypeTag::Number => ReadStep::ReadNumber,
        TypeTag::String => ReadStep::Pin(RefKind::String),
        TypeTag::Table => ReadStep::Pin(RefKind::Table),
        TypeTag::Function => ReadStep::Pin(RefKind::Function),
        TypeTag::Thread => ReadStep::Pin(RefKind::Thread),
        TypeTag::UserData => ReadStep::CheckMarkers,
    }
}

/// How the top slot of the given type is read.
pub fn read_step(t: TypeTag) -> (r: ReadStep)
    ensures
        r == read_step_of(t),
{
    match t {
        TypeTag::Nil => ReadStep::Discard,
        TypeTag::Boolean => ReadStep::ReadBoolean,
        TypeTag::LightUserData => ReadStep::ReadAddress,
        TypeTag::Number => ReadStep::ReadNumber,
        TypeTag::String => ReadStep::Pin(RefKind::String),
        TypeTag::Table => ReadStep::Pin(RefKind::Table),
        TypeTag::Function => ReadStep::Pin(RefKind::Function),
        TypeTag::Thread => ReadStep::Pin(RefKind::Thread),
        TypeTag::UserData => ReadStep::CheckMarkers,
    }
}

/// One push onto the engine stack: exactly one slot each.
#[derive(Debug, PartialEq)]
pub enum PushOp {
    Nil,
    Boolean(bool),
    LightUserData(u64),
    Integer(i64),
    Number(u64),
    /// Push the object pinned under a registry slot; the kind is the type
    /// the object has.
    Pinned(RefKind, i32),
    /// Push a new wrapped-error object holding the error.
    WrappedError(Error),
}

pub open spec fn push_op_of(v: Value) -> PushOp {
    match v {
        Value::Nil => PushOp::Nil,
        Value::Boolean(b) => PushOp::Boolean(b),
        Value::LightUserData(p) => PushOp::LightUserData(p.0),
        Value::Integer(i) => PushOp::Integer(i),
        Value::Number(n) => PushOp::Number(n),
        Value::String(s) => PushOp::Pinned(RefKind::String, s.0.id),
        Value::Table(t) => PushOp::Pinned(RefKind::Table, t.0.id),
        Value::Function(f) => PushOp::Pinned(RefKind::Function, f.0.id),
        Value::Thread(t) => PushOp::Pinned(RefKind::Thread, t.0.id),
        Value::UserData(u) => PushOp::Pinned(RefKind::UserData, u.0.id),
        Value::Error(e) => PushOp::WrappedError(e),
    }
}

/// How `v` is written to one stack slot of the context `context`.
///
/// A pinned object can only be pushed in the context that pinned it:
/// registry slots mean nothing elsewhere.
pub fn push_value(context: u64, v: Value) -> (r: PushOp)
    requires
        belongs_to(v, context),
    ensures
        r == push_op_of(v),
{
    match v {
        Value::Nil => PushOp::Nil,
        Value::Boolean(b) => PushOp::Boolean(b),
        Value::LightUserData(p) => PushOp::LightUserData(p.0),
        Value::Integer(i) => PushOp::Integer(i),
        Value::Number(n) => PushOp::Number(n),
        Value::String(s) => PushOp::Pinned(RefKind::String, s.0.id),
        Value::Table(t) => PushOp::Pinned(RefKind::Table, t.0.id),
        Value::Function(f) => PushOp::Pinned(RefKind::Function, f.0.id),
        Value::Thread(t) => PushOp::Pinned(RefKind::Thread, t.0.id),
        Value::UserData(u) => PushOp::Pinned(RefKind::UserData, u.0.id),
        Value::Error(e) => PushOp::WrappedError(e),
    }
}

/// What was read from the top slot, after its read step: scalars as read,
/// objects with the registry slot they were pinned under, and the markers.
#[derive(Debug, PartialEq)]
pub enum Slot {
    Nil,
    Boolean(bool),
    LightUserData(u64),
    Integer(i64),
    Number(u64),
    Pinned(RefKind, i32),
    WrappedError(Error),
    WrappedPanic,
}

pub open spec fn value_of_slot(context: u64, s: Slot) -> Value
    recommends
        !(s is WrappedPanic),
{
    match s {
        Slot::Nil => Value::Nil,
        Slot::Boolean(b) => Value::Boolean(b),
        Slot::LightUserData(p) => Value::LightUserData(LightUserData(p)),
        Slot::Integer(i) => Value::Integer(i),
        Slot::Number(n) => Value::Number(n),
        Slot::Pinned(k, id) => pinned_value(k, Handle { context, id }),
        Slot::WrappedError(e) => Value::Error(e),
        Slot::WrappedPanic => Value::Nil,
    }
}

pub open spec fn pinned_value(k: RefKind, h: Handle) -> Value {
    match k {
        RefKind::String => Value::String(LuaString(h)),
        RefKind::Table => Value::Table(Table(h)),
        RefKind::Function => Value::Function(Function(h)),
        RefKind::Thread => Value::Thread(Thread(h)),
        RefKind::UserData => Value::UserData(AnyUserData(h)),
    }
}

/// The value read from the top slot of the context `context`.
///
/// A wrapped panic is never a value: it only travels up to the protected
/// call that re-raises it, and meeting it here is a logic error.
pub fn pop_value(context: u64, s: Slot) -> (r: Value)
    requires
        !(s is WrappedPanic),
    ensures
        r == value_of_slot(context, s),
        belongs_to(r, context),
{
    match s {
        Slot::Nil => Value::Nil,
        Slot::Boolean(b) => Value::Boolean(b),
        Slot::LightUserData(p) => Value::LightUserData(LightUserData(p)),
        Slot::Integer(i) => Value::Integer(i),
        Slot::Number(n) => Value::Number(n),
        Slot::Pinned(k, id) => {
            let h = Handle { context, id };
            match k {
                RefKind::String => Value::String(LuaString(h)),
                RefKind::Table => Value::Table(Table(h)),
                RefKind::Function => Value::Function(Function(h)),
                RefKind::Thread => Value::Thread(Thread(h)),
                RefKind::UserData => Value::UserData(AnyUserData(h)),
            }
        },
        Slot::WrappedError(e) => Value::Error(e),
        Slot::WrappedPanic => Value::Nil,
    }
}

/// What the engine shows when the slot written by `op` is read back, the
/// object (if any) being pinned anew under `pin`: numbers keep their
/// integer or float form, objects keep their type.
pub open spec fn slot_after_push(op: PushOp, pin: i32) -> Slot {
    match op {
        PushOp::Nil => Slot::Nil,
        PushOp::Boolean(b) => Slot::Boolean(b),
        PushOp::LightUserData(p) => Slot::LightUserData(p),
        PushOp::Integer(i) => Slot::Integer(i),
        PushOp::Number(n) => Slot::Number(n),
        PushOp::Pinned(k, _) => Slot::Pinned(k, pin),
        PushOp::WrappedError(e) => Slot::WrappedError(e),
    }
}

/// `v` with its pin, if it has one, replaced by the registry slot `pin`.
pub open spec fn repinned(v: Value, pin: i32) -> Value {
    match handle_of(v) {
        Some(h) => match v {
            Value::String(_) => Value::String(LuaString(Handle { id: pin, ..h })),
            Value::Table(_) => Value::Table(Table(Handle { id: pin, ..h })),
            Value::Function(_) => Value::Function(Function(Handle { id: pin, ..h })),
            Value::Thread(_) => Value::Thread(Thread(Handle { id: pin, ..h })),
            _ => Value::UserData(AnyUserData(Handle { id: pin, ..h })),
        },
        None => v,
    }
}

/// Pushing a value and popping it straight back gives the same value: the
/// same scalar, the same error, or a new pin on the same object in the same
/// context. Every read pins anew, so the registry slot is the one the
/// engine handed out for the new pin.
pub proof fn lemma_push_pop_round_trip(context: u64, v: Value, pin: i32)
    requires
        belongs_to(v, context),
    ensures
        !(slot_after_push(push_op_of(v), pin) is WrappedPanic),
        value_of_slot(context, slot_after_push(push_op_of(v), pin)) == repinned(v, pin),
        handle_of(v) is None ==> value_of_slot(context, slot_after_push(push_op_of(v), pin)) == v,
        type_name_of(value_of_slot(context, slot_after_push(push_op_of(v), pin))) == type_name_of(
            v,
        ),
{
}

/// The stack after `op`: one slot on top, those below untouched.
pub open spec fn stack_after_push(stack: Seq<Slot>, op: PushOp, pin: i32) -> Seq<Slot> {
    stack.push(slot_after_push(op, pin))
}

/// Pushing a value takes exactly one slot and leaves the slots below as
/// they were; popping it takes exactly that slot back, so the stack is as
/// it was before, and the value read is the one pushed.
pub proof fn lemma_push_pop_balanced(stack: Seq<Slot>, context: u64, v: Value, pin: i32)
    requires
        belongs_to(v, context),
    ensures
        stack_after_push(stack, push_op_of(v), pin).len() == stack.len() + 1,
        stack_after_push(stack, push_op_of(v), pin).drop_last() == stack,
        forall|i: int|
            0 <= i < stack.len() ==> #[trigger] stack_after_push(stack, push_op_of(v), pin)[i]
                == stack[i],
        value_of_slot(context, stack_after_push(stack, push_op_of(v), pin).last()) == repinned(
            v,
            pin,
        ),
{
    assert(stack_after_push(stack, push_op_of(v), pin).drop_last() =~= stack);
    lemma_push_pop_round_trip(context, v, pin);
}

} // verus!
