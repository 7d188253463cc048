use vstd::prelude::*;

use std::collections::HashSet;

use crate::value::Handle;

verus! {

broadcast use vstd::std_specs::hash::group_hash_axioms;

/// The registry pins held by the host in one embedding context. Every
/// value read off the stack is pinned anew, even when the object is pinned
/// already; copies of a handle share its pin, which is released once.
pub struct Registry {
    context: u64,
    live: HashSet<i32>,
}

impl View for Registry {
    type V = Set<i32>;

    closed spec fn view(&self) -> Set<i32> {
        self.live@
    }
}

impl Registry {
    pub closed spec fn context(&self) -> u64 {
        self.context
    }

    /// The registry of the context with identity `context`, with no pins.
    pub fn new(context: u64) -> (r: Registry)
        ensures
            r.context() == context,
            r@ == Set::<i32>::empty(),
    {
        Registry { context, live: HashSet::new() }
    }

    pub fn context_id(&self) -> (r: u64)
        ensures
            r == self.context(),
    {
        self.context
    }

    /// Records the pin the engine made under `id`, and returns its handle;
    /// `None` when that slot is pinned already, which means the engine's
    /// registry and this record disagree.
    pub fn pin(&mut self, id: i32) -> (r: Option<Handle>)
        ensures
            final(self).context() == old(self).context(),
            old(self)@.contains(id) ==> r is None && final(self)@ == old(self)@,
            !old(self)@.contains(id) ==> r == Some(Handle { context: old(self).context(), id })
                && final(self)@ == old(self)@.insert(id),
    {
        if self.live.contains(&id) {
            None
        } else {
            self.live.insert(id);
            Some(Handle { context: self.context, id })
        }
    }

    /// Whether `h` can be pushed in this context: it was pinned here and is
    /// still pinned.
    pub fn can_push(&self, h: Handle) -> (r: bool)
        ensures
            r == (h.context == self.context() && self@.contains(h.id)),
    {
        h.context == self.context && self.live.contains(&h.id)
    }

    /// Ends the pin of `h`; `true` when the engine's registry slot is to be
    /// freed, `false` when `h` belongs to another context or was released
    /// already, and nothing changes.
    pub fn release(&mut self, h: Handle) -> (r: bool)
        ensures
            final(self).context() == old(self).context(),
            r == (h.context == old(self).context() && old(self)@.contains(h.id)),
            r ==> final(self)@ == old(self)@.remove(h.id),
            !r ==> final(self)@ == old(self)@,
    {
        if h.context != self.context {
            return false;
        }
        let was = self.live.remove(&h.id);
        proof {
            if !was {
                assert(self.live@ =~= old(self)@);
            } else {
                assert(self.live@ =~= old(self)@.remove(h.id));
            }
        }
        was
    }
}

/// A pin stays valid until it is released itself: pinning or releasing any
/// other slot leaves it pushable, and once released it no longer is.
pub proof fn lemma_pin_lifetime(live: Set<i32>, id: i32, other: i32)
    requires
        live.contains(id),
        other != id,
    ensures
        live.insert(other).contains(id),
        live.remove(other).contains(id),
        !live.remove(id).contains(id),
{
}

} // verus!
