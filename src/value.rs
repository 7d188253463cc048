use vstd::prelude::*;

use crate::error::Error;

verus! {

/// Identity of a pinned engine object: the embedding context that minted the
/// pin, and the registry slot it occupies there.
#[derive(Clone, Copy, Debug, PartialEq, Eq, Structural)]
pub struct Handle {
    pub context: u64,
    pub id: i32,
}

/// An opaque foreign address, carried through the engine untouched.
#[derive(Clone, Copy, Debug, PartialEq, Eq, Structural)]
pub struct LightUserData(pub u64);

/// An interned engine string.
#[derive(Clone, Copy, Debug, PartialEq, Eq, Structural)]
pub struct LuaString(pub Handle);

/// An engine table.
#[derive(Clone, Copy, Debug, PartialEq, Eq, Structural)]
pub struct Table(pub Handle);

/// An engine function or closure.
#[derive(Clone, Copy, Debug, PartialEq, Eq, Structural)]
pub struct Function(pub Handle);

/// An engine thread (coroutine).
#[derive(Clone, Copy, Debug, PartialEq, Eq, Structural)]
pub struct Thread(pub Handle);

/// An engine object that wraps a host value.
#[derive(Clone, Copy, Debug, PartialEq, Eq, Structural)]
pub struct AnyUserData(pub Handle);

/// The engine's integer type.
pub type Integer = i64;

/// The engine's float type, carried as its IEEE-754 bit pattern: the bridge
/// moves floats between host and engine and never computes with them.
pub type Number = u64;

/// A dynamically typed engine value.
#[derive(Debug, PartialEq)]
pub enum Value {
    Nil,
    Boolean(bool),
    LightUserData(LightUserData),
    Integer(Integer),
    Number(Number),
    String(LuaString),
    Table(Table),
    Function(Function),
    Thread(Thread),
    UserData(AnyUserData),
    /// A host error travelling through the engine as a value.
    Error(Error),
}

pub open spec fn type_name_of(v: Value) -> Seq<char> {
    match v {
        Value::Nil => "nil"@,
        Value::Boolean(_) => "boolean"@,
        Value::LightUserData(_) => "light userdata"@,
        Value::Integer(_) => "integer"@,
        Value::Number(_) => "number"@,
        Value::String(_) => "string"@,
        Value::Table(_) => "table"@,
        Value::Function(_) => "function"@,
        Value::Thread(_) => "thread"@,
        Value::UserData(_) => "userdata"@,
        Value::Error(_) => "userdata"@,
    }
}

/// The pinned object a value refers to, if it is of a reference type.
pub open spec fn handle_of(v: Value) -> Option<Handle> {
    match v {
        Value::String(s) => Some(s.0),
        Value::Table(t) => Some(t.0),
        Value::Function(f) => Some(f.0),
        Value::Thread(t) => Some(t.0),
        Value::UserData(u) => Some(u.0),
        _ => None,
    }
}

/// A value may be handed to the context `context`: it holds no pin, or a pin
/// minted there.
pub open spec fn belongs_to(v: Value, context: u64) -> bool {
    match handle_of(v) {
        Some(h) => h.context == context,
        None => true,
    }
}

pub open spec fn all_belong_to(vs: Seq<Value>, context: u64) -> bool {
    forall|i: int| 0 <= i < vs.len() ==> belongs_to(#[trigger] vs[i], context)
}

impl Value {
    /// The engine's name for the type of this value.
    pub fn lua_type_name(&self) -> (r: &'static str)
        ensures
            r@ == type_name_of(*self),
    {
        match self {
            Value::Nil => "nil",
            Value::Boolean(_) => "boolean",
            Value::LightUserData(_) => "light userdata",
            Value::Integer(_) => "integer",
            Value::Number(_) => "number",
            Value::String(_) => "string",
            Value::Table(_) => "table",
            Value::Function(_) => "function",
            Value::Thread(_) => "thread",
            Value::UserData(_) | Value::Error(_) => "userdata",
        }
    }

    /// A copy of this value; a copied object shares the original's pin.
    pub fn duplicate(&self) -> (r: Value)
        ensures
            r == *self,
    {
        match self {
            Value::Nil => Value::Nil,
            Value::Boolean(b) => Value::Boolean(*b),
            Value::LightUserData(p) => Value::LightUserData(*p),
            Value::Integer(i) => Value::Integer(*i),
            Value::Number(n) => Value::Number(*n),
            Value::String(s) => Value::String(*s),
            Value::Table(t) => Value::Table(*t),
            Value::Function(f) => Value::Function(*f),
            Value::Thread(t) => Value::Thread(*t),
            Value::UserData(u) => Value::UserData(*u),
            Value::Error(e) => Value::Error(e.duplicate()),
        }
    }

    /// The pinned object this value refers to, if any.
    pub fn handle(&self) -> (r: Option<Handle>)
        ensures
            r == handle_of(*self),
    {
        match self {
            Value::String(s) => Some(s.0),
            Value::Table(t) => Some(t.0),
            Value::Function(f) => Some(f.0),
            Value::Thread(t) => Some(t.0),
            Value::UserData(u) => Some(u.0),
            _ => None,
        }
    }

    /// Whether this value may be handed to the context `context`.
    pub fn belongs_to(&self, context: u64) -> (r: bool)
        ensures
            r == belongs_to(*self, context),
    {
        match self.handle() {
            Some(h) => h.context == context,
            None => true,
        }
    }
}

/// An ordered list of values: the arguments or the results of a call.
#[derive(Debug, PartialEq)]
pub struct MultiValue {
    values: Vec<Value>,
}

impl View for MultiValue {
    type V = Seq<Value>;

    closed spec fn view(&self) -> Seq<Value> {
        self.values@
    }
}

impl MultiValue {
    /// Creates an empty `MultiValue` containing no values.
    pub fn new() -> (r: MultiValue)
        ensures
            r@ == Seq::<Value>::empty(),
    {
        MultiValue { values: Vec::new() }
    }

    pub fn from_vec(values: Vec<Value>) -> (r: MultiValue)
        ensures
            r@ == values@,
    {
        MultiValue { values }
    }

    pub fn into_vec(self) -> (r: Vec<Value>)
        ensures
            r@ == self@,
    {
        self.values
    }

    pub fn len(&self) -> (r: usize)
        ensures
            r == self@.len(),
    {
        self.values.len()
    }

    pub fn get(&self, i: usize) -> (r: &Value)
        requires
            i < self@.len(),
        ensures
            *r == self@[i as int],
    {
        &self.values[i]
    }

    /// The value at position `i`, or nil past the end: a consumer of a
    /// list of values ignores surplus values and reads missing ones as nil.
    pub fn value_or_nil(&self, i: usize) -> (r: Value)
        ensures
            i < self@.len() ==> r == self@[i as int],
            i >= self@.len() ==> r == Value::Nil,
    {
        if i < self.values.len() {
            self.values[i].duplicate()
        } else {
            Value::Nil
        }
    }

    pub fn push_back(&mut self, v: Value)
        ensures
            final(self)@ == old(self)@.push(v),
    {
        self.values.push(v);
    }

    pub fn push_front(&mut self, v: Value)
        ensures
            final(self)@ == seq![v] + old(self)@,
    {
        self.values.insert(0, v);
        assert(self.values@ =~= seq![v] + old(self)@);
    }

    /// Removes and returns the first value, if there is one.
    pub fn pop_front(&mut self) -> (r: Option<Value>)
        ensures
            old(self)@.len() == 0 ==> r is None && final(self)@ == old(self)@,
            old(self)@.len() > 0 ==> r == Some(old(self)@[0]) && final(self)@ == old(self)@.drop_first(),
    {
        if self.values.len() == 0 {
            None
        } else {
            let v = self.values.remove(0);
            assert(self.values@ =~= old(self)@.drop_first());
            Some(v)
        }
    }

    /// Whether every value may be handed to the context `context`.
    pub fn all_belong_to(&self, context: u64) -> (r: bool)
        ensures
            r == all_belong_to(self@, context),
    {
        let mut i: usize = 0;
        while i < self.values.len()
            invariant
                i <= self.values@.len(),
                forall|j: int| 0 <= j < i ==> belongs_to(#[trigger] self.values@[j], context),
            decreases self.values@.len() - i,
        {
            if !self.values[i].belongs_to(context) {
                return false;
            }
            i = i + 1;
        }
        true
    }
}

} // verus!
