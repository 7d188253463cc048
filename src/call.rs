use vstd::prelude::*;

use crate::marshal::{push_op_of, push_value, PushOp, RefKind};
use crate::protect::is_success;
use crate::value::{all_belong_to, belongs_to, Function, MultiValue, Value};

verus! {

pub open spec fn push_ops_of(vs: Seq<Value>) -> Seq<PushOp> {
    vs.map_values(|v: Value| push_op_of(v))
}

/// The pushes that write `vs` to the stack, first value first.
pub fn push_values(context: u64, vs: &MultiValue) -> (r: Vec<PushOp>)
    requires
        all_belong_to(vs@, context),
    ensures
        r@ == push_ops_of(vs@),
{
    let mut r: Vec<PushOp> = Vec::new();
    let mut i: usize = 0;
    while i < vs.len()
        invariant
            i <= vs@.len(),
            all_belong_to(vs@, context),
            r@ == push_ops_of(vs@.take(i as int)),
        decreases vs@.len() - i,
    {
        let v = vs.get(i).duplicate();
        assert(belongs_to(vs@[i as int], context));
        r.push(push_value(context, v));
        assert(vs@.take(i + 1) =~= vs@.take(i as int).push(vs@[i as int]));
        i = i + 1;
    }
    assert(vs@.take(i as int) =~= vs@);
    r
}

/// The values popped off the stack, top first, put back in stack order.
pub fn values_from_popped(popped: Vec<Value>) -> (r: MultiValue)
    ensures
        r@ == popped@.reverse(),
{
    let mut rest = popped;
    let mut r = MultiValue::new();
    let ghost all = rest@;
    while rest.len() > 0
        invariant
            all.len() == rest@.len() + r@.len(),
            rest@ == all.take(rest@.len() as int),
            r@ == all.skip(rest@.len() as int).reverse(),
        decreases rest@.len(),
    {
        let ghost before = rest@.len() as int;
        let v = rest.pop().unwrap();
        r.push_back(v);
        proof {
            let s = all.skip(before);
            let t = all.skip(before - 1);
            assert(t =~= seq![all[before - 1]] + s);
            assert(t.reverse() =~= s.reverse().push(all[before - 1]));
            assert(rest@ =~= all.take(before - 1));
        }
    }
    assert(all.skip(0) =~= all);
    r
}

/// A protected call in progress: the depth it started at and the number of
/// arguments it passes.
#[derive(Clone, Copy, Debug, PartialEq, Eq, Structural)]
pub struct CallFrame {
    base: i32,
    nargs: i32,
}

impl CallFrame {
    /// The frame starts at a real depth and passes a real argument count.
    pub closed spec fn wf(self) -> bool {
        self.base >= 0 && self.nargs >= 0
    }

    pub closed spec fn base_depth(self) -> int {
        self.base as int
    }

    pub closed spec fn arg_count(self) -> int {
        self.nargs as int
    }

    pub fn base(&self) -> (r: i32)
        ensures
            r == self.base_depth(),
    {
        self.base
    }

    pub fn nargs(&self) -> (r: i32)
        ensures
            r == self.arg_count(),
    {
        self.nargs
    }

    /// The free slots to reserve before pushing: the function, its
    /// arguments, and room for the traceback handler.
    pub fn headroom(&self) -> (r: i32)
        requires
            self.arg_count() + 3 <= i32::MAX,
        ensures
            r == self.arg_count() + 3,
    {
        self.nargs + 3
    }
}

/// Starts a protected call of `f` with `args` on a stack `base` deep: the
/// pushes to make, the function first and then each argument in order,
/// after which the engine's protected call takes the arguments and the
/// function off the stack.
pub fn begin_call(context: u64, base: i32, f: Function, args: &MultiValue) -> (r: (
    CallFrame,
    Vec<PushOp>,
))
    requires
        f.0.context == context,
        all_belong_to(args@, context),
        0 <= base,
        base + args@.len() + 3 <= i32::MAX,
    ensures
        r.0.wf(),
        r.0.base_depth() == base,
        r.0.arg_count() == args@.len(),
        r.1@ == seq![PushOp::Pinned(RefKind::Function, f.0.id)] + push_ops_of(args@),
{
    let mut ops = vec![PushOp::Pinned(RefKind::Function, f.0.id)];
    let mut rest = push_values(context, args);
    let ghost pushed = rest@;
    ops.append(&mut rest);
    assert(ops@ =~= seq![PushOp::Pinned(RefKind::Function, f.0.id)] + pushed);
    (CallFrame { base, nargs: args.len() as i32 }, ops)
}

/// What to take off the stack once the engine's protected call returned.
#[derive(Clone, Copy, Debug, PartialEq, Eq, Structural)]
pub enum CallEnd {
    /// Pop this many results.
    PopResults(i32),
    /// Pop the one error value and classify it.
    PopError,
    /// The depth the engine reports does not fit the call: the bookkeeping
    /// is broken.
    Broken,
}

pub open spec fn call_end_of(base: int, status: i32, top: i32) -> CallEnd {
    if is_success(status) {
        if top >= base {
            CallEnd::PopResults((top - base) as i32)
        } else {
            CallEnd::Broken
        }
    } else if top == base + 1 {
        CallEnd::PopError
    } else {
        CallEnd::Broken
    }
}

/// Reads the end of a protected call from its status and the depth after it.
pub fn end_call(frame: &CallFrame, status: i32, top: i32) -> (r: CallEnd)
    requires
        frame.wf(),
    ensures
        r == call_end_of(frame.base_depth(), status, top),
{
    if status == crate::protect::STATUS_OK || status == crate::protect::STATUS_YIELD {
        if top >= frame.base {
            CallEnd::PopResults(top - frame.base)
        } else {
            CallEnd::Broken
        }
    } else if frame.base < i32::MAX && top == frame.base + 1 {
        CallEnd::PopError
    } else {
        CallEnd::Broken
    }
}

pub open spec fn popped_at_end(e: CallEnd) -> int {
    match e {
        CallEnd::PopResults(n) => n as int,
        CallEnd::PopError => 1,
        CallEnd::Broken => 0,
    }
}

/// A protected call leaves the stack as it found it, whether it succeeds or
/// fails: the pushes put the function and its arguments on top of the base,
/// the engine's call replaces them with its results or with one error
/// value, and the end of the call pops exactly those.
pub proof fn lemma_call_balanced(frame: CallFrame, ops: Seq<PushOp>, status: i32, top: i32)
    requires
        ops.len() == frame.arg_count() + 1,
        0 <= frame.base_depth(),
        top >= 0,
    ensures
        frame.base_depth() + ops.len() - (frame.arg_count() + 1) == frame.base_depth(),
        call_end_of(frame.base_depth(), status, top) != CallEnd::Broken ==> top - popped_at_end(
            call_end_of(frame.base_depth(), status, top),
        ) == frame.base_depth(),
        !is_success(status) ==> (call_end_of(frame.base_depth(), status, top) != CallEnd::Broken
            <==> top == frame.base_depth() + 1),
{
}

} // verus!
