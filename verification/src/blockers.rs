//! The fibers that wait in `block` for an `unblock`, each with the handle
//! that wakes it.
use crate::fiber::{Fiber, Suspended};
use std::collections::HashMap;
use vstd::prelude::*;

verus! {

broadcast use vstd::std_specs::hash::group_hash_axioms;

/// The handle registered for fiber `f` in `m`, if any.
pub open spec fn waker_of<W>(m: Map<usize, W>, f: usize) -> Option<W> {
    if m.contains_key(f) {
        Some(m[f])
    } else {
        None
    }
}

/// Blocked fibers, keyed by their object reference, with the handle that
/// wakes each of them.
#[derive(Debug)]
pub struct Blockers<W> {
    waiting: HashMap<usize, W>,
}

impl<W> View for Blockers<W> {
    type V = Map<usize, W>;

    closed spec fn view(&self) -> Map<usize, W> {
        self.waiting@
    }
}

impl<W> Default for Blockers<W> {
    /// No fiber is blocked.
    fn default() -> (b: Self)
        ensures
            b@ == Map::<usize, W>::empty(),
    {
        Blockers::new()
    }
}

impl<W> Blockers<W> {
    /// No fiber is blocked.
    pub fn new() -> (b: Self)
        ensures
            b@ == Map::<usize, W>::empty(),
    {
        Blockers { waiting: HashMap::new() }
    }

    /// Registers `fiber` as blocked, woken through `waker`; a handle that was
    /// registered for the same fiber before is handed back.
    pub fn block(&mut self, fiber: &Fiber<Suspended>, waker: W) -> (displaced: Option<W>)
        ensures
            final(self)@ == old(self)@.insert(fiber.id(), waker),
            displaced == waker_of(old(self)@, fiber.id()),
    {
        proof {
            assert(vstd::std_specs::hash::obeys_key_model::<usize>());
        }
        self.waiting.insert(fiber.as_raw(), waker)
    }

    /// Takes `fiber` out of the blocked fibers and hands back the handle that
    /// wakes it, if it was blocked.
    pub fn unblock(&mut self, fiber: &Fiber<Suspended>) -> (waker: Option<W>)
        ensures
            final(self)@ == old(self)@.remove(fiber.id()),
            waker == waker_of(old(self)@, fiber.id()),
    {
        proof {
            assert(vstd::std_specs::hash::obeys_key_model::<usize>());
        }
        let id = fiber.as_raw();
        self.waiting.remove(&id)
    }

    /// Whether `fiber` is blocked.
    pub fn is_blocked(&self, fiber: &Fiber<Suspended>) -> (b: bool)
        ensures
            b == self@.contains_key(fiber.id()),
    {
        proof {
            assert(vstd::std_specs::hash::obeys_key_model::<usize>());
        }
        let id = fiber.as_raw();
        self.waiting.contains_key(&id)
    }

    /// The blocked fibers, each once, in no particular order.
    pub fn blocked_fibers(&self) -> (fibers: Vec<Fiber<Suspended>>)
        ensures
            fibers@.len() == self@.dom().len(),
            forall|i: int| 0 <= i < fibers@.len() ==> self@.contains_key(#[trigger] fibers@[i].id()),
            forall|f: usize| self@.contains_key(f) ==> exists|i: int| 0 <= i < fibers@.len() && #[trigger] fibers@[i].id() == f,
            forall|i: int, j: int| 0 <= i < j < fibers@.len() ==> fibers@[i].id() != fibers@[j].id(),
    {
        proof {
            assert(vstd::std_specs::hash::obeys_key_model::<usize>());
        }
        let mut fibers: Vec<Fiber<Suspended>> = Vec::new();
        let ghost keys: Seq<usize> = vstd::std_specs::iter::IteratorSpec::remaining(&vstd::std_specs::hash::spec_keys_iter(&self.waiting)).unref();
        for k in it: self.waiting.keys()
            invariant
                it.seq().unref() == keys,
                it.seq().unref().to_set() == self@.dom(),
                it.seq().no_duplicates(),
                it.seq().len() == self@.dom().len(),
                fibers@.len() == it.index(),
                forall|i: int| 0 <= i < it.index() ==> #[trigger] fibers@[i].id() == *it.seq()[i],
        {
            fibers.push(Fiber::from_raw(*k));
        }
        proof {
            assert forall|i: int| 0 <= i < fibers@.len() implies self@.contains_key(#[trigger] fibers@[i].id()) by {
                assert(keys[i] == fibers@[i].id());
                assert(keys.to_set().contains(keys[i]));
            }
            assert forall|f: usize| self@.contains_key(f) implies exists|i: int| 0 <= i < fibers@.len() && #[trigger] fibers@[i].id() == f by {
                assert(keys.to_set().contains(f));
                let i = choose|i: int| 0 <= i < keys.len() && keys[i] == f;
                assert(fibers@[i].id() == f);
            }
        }
        fibers
    }

    /// The number of blocked fibers.
    pub fn len(&self) -> (n: usize)
        ensures
            n == self@.len(),
    {
        proof {
            assert(vstd::std_specs::hash::obeys_key_model::<usize>());
        }
        self.waiting.len()
    }
}

} // verus!
