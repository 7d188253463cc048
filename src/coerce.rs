use vstd::prelude::*;

use crate::error::Error;
use crate::marshal::{push_op_of, push_value, PushOp};
use crate::value::{belongs_to, type_name_of, Handle, Integer, LuaString, Number, Value};

verus! {

/// How a coercion proceeds: the value already has the requested form, or
/// it is pushed so that the engine can convert it by its own rules.
#[derive(Debug, PartialEq)]
pub enum CoercePlan<T> {
    Ready(T),
    Convert(PushOp),
}

pub open spec fn is_conversion_error(
    e: Error,
    v: Value,
    to: Seq<char>,
    message: Option<Seq<char>>,
) -> bool {
    e matches Error::FromLuaConversionError { from, to: t, message: m } && from@ == type_name_of(v)
        && t@ == to && match (m, message) {
        (Some(x), Some(y)) => x@ == y,
        (None, None) => true,
        _ => false,
    }
}

/// Coercing `v` to a string: a string is taken as it is, anything else is
/// handed to the engine.
pub fn plan_string(context: u64, v: Value) -> (r: CoercePlan<LuaString>)
    requires
        belongs_to(v, context),
    ensures
        v matches Value::String(s) ==> r == CoercePlan::Ready(s),
        !(v is String) ==> r == CoercePlan::<LuaString>::Convert(push_op_of(v)),
{
    match v {
        Value::String(s) => CoercePlan::Ready(s),
        other => CoercePlan::Convert(push_value(context, other)),
    }
}

/// The end of a string coercion of `v`, given the string the engine made of
/// it, pinned under a registry slot, or `None` when the engine converts only
/// numbers and strings and `v` is neither.
pub fn string_result(context: u64, v: &Value, converted: Option<i32>) -> (r: Result<
    LuaString,
    Error,
>)
    ensures
        converted matches Some(id) ==> r == Ok::<LuaString, Error>(
            LuaString(Handle { context, id }),
        ),
        converted is None ==> (r matches Err(e) && is_conversion_error(
            e,
            *v,
            "String"@,
            Some("expected string or number"@),
        )),
{
    match converted {
        Some(id) => Ok(LuaString(Handle { context, id })),
        None => {
            let m = "expected string or number".to_string();
            Err(
                Error::FromLuaConversionError {
                    from: v.lua_type_name(),
                    to: "String",
                    message: Some(m),
                },
            )
        },
    }
}

/// Coercing `v` to an integer: an integer is taken as it is, anything else
/// is handed to the engine.
pub fn plan_integer(context: u64, v: Value) -> (r: CoercePlan<Integer>)
    requires
        belongs_to(v, context),
    ensures
        v matches Value::Integer(i) ==> r == CoercePlan::Ready(i),
        !(v is Integer) ==> r == CoercePlan::<Integer>::Convert(push_op_of(v)),
{
    match v {
        Value::Integer(i) => CoercePlan::Ready(i),
        other => CoercePlan::Convert(push_value(context, other)),
    }
}

/// The end of an integer coercion of `v`, given the engine's conversion:
/// `None` when `v` is not a number or string with an exact integer value.
pub fn integer_result(v: &Value, converted: Option<Integer>) -> (r: Result<Integer, Error>)
    ensures
        converted matches Some(i) ==> r == Ok::<Integer, Error>(i),
        converted is None ==> (r matches Err(e) && is_conversion_error(e, *v, "integer"@, None)),
{
    match converted {
        Some(i) => Ok(i),
        None => Err(
            Error::FromLuaConversionError { from: v.lua_type_name(), to: "integer", message: None },
        ),
    }
}

/// Coercing `v` to a float: a float is taken as it is, anything else is
/// handed to the engine.
pub fn plan_number(context: u64, v: Value) -> (r: CoercePlan<Number>)
    requires
        belongs_to(v, context),
    ensures
        v matches Value::Number(n) ==> r == CoercePlan::Ready(n),
        !(v is Number) ==> r == CoercePlan::<Number>::Convert(push_op_of(v)),
{
    match v {
        Value::Number(n) => CoercePlan::Ready(n),
        other => CoercePlan::Convert(push_value(context, other)),
    }
}

/// The end of a float coercion of `v`, given the engine's conversion:
/// `None` when `v` is not a number or a string that reads as one.
pub fn number_result(v: &Value, converted: Option<Number>) -> (r: Result<Number, Error>)
    ensures
        converted matches Some(n) ==> r == Ok::<Number, Error>(n),
        converted is None ==> (r matches Err(e) && is_conversion_error(
            e,
            *v,
            "number"@,
            Some("number or string coercible to number"@),
        )),
{
    match converted {
        Some(n) => Ok(n),
        None => {
            let m = "number or string coercible to number".to_string();
            Err(
                Error::FromLuaConversionError {
                    from: v.lua_type_name(),
                    to: "number",
                    message: Some(m),
                },
            )
        },
    }
}

} // verus!
