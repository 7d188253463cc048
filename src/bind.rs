use vstd::prelude::*;

use crate::call::{push_ops_of, push_values};
use crate::marshal::{PushOp, RefKind};
use crate::value::{all_belong_to, Function, MultiValue};

verus! {

/// The upvalue of a bound function that holds the function itself.
pub const UPVALUE_FUNCTION: i32 = 1;
/// The upvalue that holds the number of bound arguments.
pub const UPVALUE_COUNT: i32 = 2;
/// The upvalue of the first bound argument; the others follow it.
pub const UPVALUE_FIRST_ARG: i32 = 3;

/// One step of the bound-function trampoline on its own stack.
#[derive(Clone, Copy, Debug, PartialEq, Eq, Structural)]
pub enum ShuffleOp {
    /// Push a copy of an upvalue.
    PushUpvalue(i32),
    /// Move the top value down to this position (1 is the bottom), shifting
    /// the values above it up.
    InsertAt(i32),
    /// Call the bottom value with every value above it as its arguments.
    Call(i32),
}

/// What a position of the trampoline's stack holds: one of the caller's
/// arguments, or a copy of an upvalue.
pub ghost enum Entry {
    Arg(int),
    Upvalue(int),
}

pub open spec fn apply_shuffle(s: Seq<Entry>, op: ShuffleOp) -> Seq<Entry> {
    match op {
        ShuffleOp::PushUpvalue(i) => s.push(Entry::Upvalue(i as int)),
        ShuffleOp::InsertAt(p) => s.take(p - 1) + seq![s.last()] + s.subrange(p - 1, s.len() - 1),
        ShuffleOp::Call(_) => s,
    }
}

pub open spec fn apply_shuffles(s: Seq<Entry>, ops: Seq<ShuffleOp>) -> Seq<Entry>
    decreases ops.len(),
{
    if ops.len() == 0 {
        s
    } else {
        apply_shuffle(apply_shuffles(s, ops.drop_last()), ops.last())
    }
}

/// The stack the trampoline is entered with: the caller's arguments.
pub open spec fn caller_args(nargs: int) -> Seq<Entry> {
    Seq::new(nargs as nat, |i: int| Entry::Arg(i))
}

/// The bound arguments from the `from`-th on, as upvalue copies.
pub open spec fn bound_args_from(from: int, nbinds: int) -> Seq<Entry> {
    Seq::new((nbinds - from) as nat, |i: int| Entry::Upvalue(from + i + UPVALUE_FIRST_ARG))
}

/// The stack just before the call: the function, the bound arguments, then
/// the caller's arguments.
pub open spec fn arranged(nargs: int, nbinds: int) -> Seq<Entry> {
    seq![Entry::Upvalue(UPVALUE_FUNCTION as int)] + bound_args_from(0, nbinds) + caller_args(nargs)
}

/// The trampoline of a function bound to `nbinds` arguments, entered with
/// `nargs` arguments: steps that put the function and the bound arguments
/// below the caller's arguments, then the call with all the arguments.
pub fn bound_call_layout(nargs: i32, nbinds: i32) -> (r: Vec<ShuffleOp>)
    requires
        0 <= nargs,
        0 <= nbinds,
        nargs + nbinds + UPVALUE_FIRST_ARG <= i32::MAX,
    ensures
        r@.len() > 0,
        r@.last() == ShuffleOp::Call((nargs + nbinds) as i32),
        apply_shuffles(caller_args(nargs as int), r@.drop_last()) == arranged(
            nargs as int,
            nbinds as int,
        ),
{
    let mut r: Vec<ShuffleOp> = Vec::new();
    let mut k: i32 = nbinds;
    while k > 0
        invariant
            0 <= k <= nbinds,
            0 <= nargs,
            nargs + nbinds + UPVALUE_FIRST_ARG <= i32::MAX,
            apply_shuffles(caller_args(nargs as int), r@) == bound_args_from(k as int, nbinds as int)
                + caller_args(nargs as int),
        decreases k,
    {
        let ghost before = apply_shuffles(caller_args(nargs as int), r@);
        let ghost r0 = r@;
        r.push(ShuffleOp::PushUpvalue(k - 1 + UPVALUE_FIRST_ARG));
        proof {
            assert(r@.drop_last() =~= r0);
        }
        let ghost r1 = r@;
        r.push(ShuffleOp::InsertAt(1));
        proof {
            assert(r@.drop_last() =~= r1);
            let pushed = before.push(Entry::Upvalue(k - 1 + UPVALUE_FIRST_ARG));
            assert(apply_shuffles(caller_args(nargs as int), r1) == pushed);
            assert(pushed.take(0) + seq![pushed.last()] + pushed.subrange(0, pushed.len() - 1)
                =~= bound_args_from(k - 1, nbinds as int) + caller_args(nargs as int));
        }
        k = k - 1;
    }
    let ghost before = apply_shuffles(caller_args(nargs as int), r@);
    let ghost r0 = r@;
    r.push(ShuffleOp::PushUpvalue(UPVALUE_FUNCTION));
    proof {
        assert(r@.drop_last() =~= r0);
    }
    let ghost r1 = r@;
    r.push(ShuffleOp::InsertAt(1));
    proof {
        assert(r@.drop_last() =~= r1);
        let pushed = before.push(Entry::Upvalue(UPVALUE_FUNCTION as int));
        assert(apply_shuffles(caller_args(nargs as int), r1) == pushed);
        assert(apply_shuffles(caller_args(nargs as int), r@) == apply_shuffle(pushed, ShuffleOp::InsertAt(1)));
        assert(pushed.take(0) + seq![pushed.last()] + pushed.subrange(0, pushed.len() - 1)
            =~= arranged(nargs as int, nbinds as int));
    }
    let ghost r2 = r@;
    r.push(ShuffleOp::Call(nargs + nbinds));
    assert(r@.drop_last() =~= r2);
    r
}

/// Binding `args` to `f`: the pushes that lay out the upvalues of the new
/// function (the function, the number of bound arguments, then each bound
/// argument in order), and how many upvalues that makes.
pub fn begin_bind(context: u64, f: Function, args: &MultiValue) -> (r: (Vec<PushOp>, i32))
    requires
        f.0.context == context,
        all_belong_to(args@, context),
        args@.len() + UPVALUE_FIRST_ARG <= i32::MAX,
    ensures
        r.0@ == seq![
            PushOp::Pinned(RefKind::Function, f.0.id),
            PushOp::Integer(args@.len() as i64),
        ] + push_ops_of(args@),
        r.1 == args@.len() + 2,
        r.1 == r.0@.len(),
{
    let n = args.len();
    let mut ops = vec![PushOp::Pinned(RefKind::Function, f.0.id), PushOp::Integer(n as i64)];
    let mut rest = push_values(context, args);
    let ghost pushed = rest@;
    ops.append(&mut rest);
    assert(ops@ =~= seq![
        PushOp::Pinned(RefKind::Function, f.0.id),
        PushOp::Integer(n as i64),
    ] + pushed);
    (ops, n as i32 + 2)
}

} // verus!
