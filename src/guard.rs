use vstd::prelude::*;

verus! {

/// What to do with the stack once guarded work is over.
#[derive(Clone, Copy, Debug, PartialEq, Eq, Structural)]
pub enum GuardCheck {
    /// The depth is the expected one.
    Balanced,
    /// The work failed and left values behind: cut the stack back to this
    /// depth.
    TrimTo(i32),
    /// The depth is wrong: the bridge's own bookkeeping is broken and the
    /// process cannot go on safely.
    Violated,
}

/// Records the depth a unit of work must leave the stack at.
#[derive(Clone, Copy, Debug, PartialEq, Eq, Structural)]
pub struct StackGuard {
    base: i32,
    expected: i32,
}

impl StackGuard {
    pub closed spec fn base_depth(self) -> int {
        self.base as int
    }

    pub closed spec fn expected_depth(self) -> int {
        self.expected as int
    }

    /// Opens a guard at depth `top` for work that changes the depth by
    /// `change`; `None` when the work would pop more than the stack holds.
    pub fn open(top: i32, change: i32) -> (r: Option<StackGuard>)
        requires
            top >= 0,
        ensures
            match r {
                Some(g) => g.base_depth() == top && g.expected_depth() == top + change,
                None => top + change < 0 || top + change > i32::MAX,
            },
    {
        if change < 0 {
            if top + change < 0 {
                return None;
            }
        } else if top > i32::MAX - change {
            return None;
        }
        Some(StackGuard { base: top, expected: top + change })
    }

    pub fn expected(&self) -> (r: i32)
        ensures
            r == self.expected_depth(),
    {
        self.expected
    }

    /// The check for work that cannot fail, the stack now being `top` deep.
    pub fn close(&self, top: i32) -> (r: GuardCheck)
        ensures
            r == (if top == self.expected_depth() {
                GuardCheck::Balanced
            } else {
                GuardCheck::Violated
            }),
    {
        if top == self.expected {
            GuardCheck::Balanced
        } else {
            GuardCheck::Violated
        }
    }

    /// The check for work that may fail. Success must leave exactly the
    /// expected depth; a failure may leave extra values, which are cut off,
    /// but never fewer.
    pub fn close_fallible(&self, top: i32, failed: bool) -> (r: GuardCheck)
        ensures
            r == guard_check_of(self.expected_depth(), top as int, failed),
    {
        if top == self.expected {
            GuardCheck::Balanced
        } else if failed && top > self.expected {
            GuardCheck::TrimTo(self.expected)
        } else {
            GuardCheck::Violated
        }
    }
}

pub open spec fn guard_check_of(expected: int, top: int, failed: bool) -> GuardCheck {
    if top == expected {
        GuardCheck::Balanced
    } else if failed && top > expected {
        GuardCheck::TrimTo(expected as i32)
    } else {
        GuardCheck::Violated
    }
}

/// The depth once the check's action has been carried out.
pub open spec fn depth_after_check(top: int, c: GuardCheck) -> int {
    match c {
        GuardCheck::TrimTo(d) => d as int,
        _ => top,
    }
}

/// Whatever guarded work did, success or failure, once its check has been
/// acted on the stack is as deep as it was plus the declared change, unless
/// the check reports the bookkeeping broken.
pub proof fn lemma_guard_restores_depth(g: StackGuard, top: i32, failed: bool)
    requires
        top >= 0,
        0 <= g.expected_depth() <= i32::MAX,
    ensures
        g.close_fallible_spec(top, failed) != GuardCheck::Violated ==> depth_after_check(
            top as int,
            g.close_fallible_spec(top, failed),
        ) == g.expected_depth(),
        !failed ==> (g.close_fallible_spec(top, failed) != GuardCheck::Violated <==> top
            == g.expected_depth()),
        failed ==> (g.close_fallible_spec(top, failed) != GuardCheck::Violated <==> top
            >= g.expected_depth()),
{
}

impl StackGuard {
    pub open spec fn close_fallible_spec(self, top: i32, failed: bool) -> GuardCheck {
        guard_check_of(self.expected_depth(), top as int, failed)
    }
}

} // verus!
