//! The state the scheduler keeps between Ruby's calls into it: the root
//! fiber, the blocked fibers, the queue of pending work and the runtime
//! that drives it, and what `block`, `unblock` and the garbage collector
//! do to that state.
use crate::blockers::{waker_of, Blockers};
use crate::fiber::{Fiber, FiberError, Running, Suspended, Unknown};
use crate::gc_cell::GcCell;
use vstd::pervasive::unreached;
use vstd::prelude::*;

verus! {

/// How a fiber's wait in `block` ended.
#[derive(Debug, Clone, Copy, PartialEq, Eq, Structural)]
pub enum WaitEnd {
    /// `unblock` woke the fiber.
    Woken,
    /// The timeout ran out first.
    TimedOut,
    /// The handle that would have woken the fiber was dropped unused (a
    /// later `block` of the same fiber displaced it).
    Abandoned,
}

/// Why `block` failed ("could not unblock fiber").
#[derive(Debug, Clone, Copy, PartialEq, Eq, Structural)]
pub enum BlockError {
    Abandoned,
}

/// Why the scheduler could not use its runtime.
#[derive(Debug, Clone, Copy, PartialEq, Eq, Structural)]
pub enum SchedulerError {
    /// `close` has shut the runtime down ("runtime is closed").
    RuntimeClosed,
    /// The hook is not implemented (Ruby `NotImplementedError`,
    /// "TokioScheduler#io_pread" or "TokioScheduler#io_pwrite").
    NotImplemented(Hook),
}

/// The scheduler hooks that are not implemented.
#[derive(Debug, Clone, Copy, PartialEq, Eq, Structural)]
pub enum Hook {
    IoPread,
    IoPwrite,
}

/// What `block` does to the blocked fibers `waiting`: registers `fiber`
/// with `waker` and hands back the handle this displaces.
pub open spec fn block_outcome<W>(waiting: Map<usize, W>, fiber: usize, waker: W) -> (Map<usize, W>, Option<W>) {
    (waiting.insert(fiber, waker), waker_of(waiting, fiber))
}

/// What waking `fiber` does to the blocked fibers: takes it out and hands
/// back its handle, if it was blocked.
pub open spec fn wake_outcome<W>(waiting: Map<usize, W>, fiber: usize) -> (Map<usize, W>, Option<W>) {
    (waiting.remove(fiber), waker_of(waiting, fiber))
}

/// What `unblock` does: the value must be a fiber (`is_fiber`), alive
/// (`alive`) and not the running one (`current`); then the fiber is woken.
pub open spec fn unblock_outcome<W>(waiting: Map<usize, W>, fiber: usize, is_fiber: bool, alive: bool, current: bool) -> Result<(Map<usize, W>, Option<W>), FiberError> {
    if !is_fiber {
        Err(FiberError::NotAFiber)
    } else if !alive {
        Err(FiberError::NotAlive)
    } else if current {
        Err(FiberError::Active)
    } else {
        Ok(wake_outcome(waiting, fiber))
    }
}

/// What `block` answers when the wait ended with `end`: `true` when the
/// fiber was woken, `false` when the timeout ran out, an error when the
/// handle was dropped unused.
pub open spec fn block_answer(end: WaitEnd) -> Result<bool, BlockError> {
    match end {
        WaitEnd::Woken => Ok(true),
        WaitEnd::TimedOut => Ok(false),
        WaitEnd::Abandoned => Err(BlockError::Abandoned),
    }
}

/// `unblock` of a fiber that `block` registered hands back exactly the
/// handle `block` registered, and leaves the blocked fibers as they were
/// before `block`, less that fiber.
pub proof fn law_unblock_returns_what_block_registered<W>(waiting: Map<usize, W>, fiber: usize, waker: W)
    ensures
        unblock_outcome(block_outcome(waiting, fiber, waker).0, fiber, true, true, false) == Ok::<
            (Map<usize, W>, Option<W>),
            FiberError,
        >((waiting.remove(fiber), Some(waker))),
{
    assert(waiting.insert(fiber, waker).remove(fiber) =~= waiting.remove(fiber));
}

/// Blocking one fiber does not change what unblocking another one gives.
pub proof fn law_block_leaves_other_fibers<W>(waiting: Map<usize, W>, fiber: usize, waker: W, other: usize, is_fiber: bool, alive: bool, current: bool)
    requires
        other != fiber,
    ensures
        match (
            unblock_outcome(block_outcome(waiting, fiber, waker).0, other, is_fiber, alive, current),
            unblock_outcome(waiting, other, is_fiber, alive, current),
        ) {
            (Ok((m1, w1)), Ok((m2, w2))) => w1 == w2 && m1 == m2.insert(fiber, waker),
            (Err(e1), Err(e2)) => e1 == e2,
            _ => false,
        },
{
    assert(waiting.insert(fiber, waker).remove(other) =~= waiting.remove(other).insert(fiber, waker));
}

/// Once a fiber is unblocked, unblocking it again finds nothing to wake
/// and changes nothing.
pub proof fn law_unblock_wakes_once<W>(waiting: Map<usize, W>, fiber: usize)
    ensures
        unblock_outcome(waiting, fiber, true, true, false) matches Ok((m, _)) && unblock_outcome(
            m,
            fiber,
            true,
            true,
            false,
        ) == Ok::<(Map<usize, W>, Option<W>), FiberError>((m, None)),
{
    assert(waiting.remove(fiber).remove(fiber) =~= waiting.remove(fiber));
}

/// `unblock` refuses a value that is not a fiber, a dead fiber and the
/// running fiber, whatever is blocked; it refuses nothing else.
pub proof fn law_unblock_refusals<W>(waiting: Map<usize, W>, fiber: usize, is_fiber: bool, alive: bool, current: bool)
    ensures
        unblock_outcome(waiting, fiber, is_fiber, alive, current) is Err <==> !is_fiber || !alive || current,
        !is_fiber ==> unblock_outcome(waiting, fiber, is_fiber, alive, current) == Err::<(Map<usize, W>, Option<W>), FiberError>(FiberError::NotAFiber),
        is_fiber && !alive ==> unblock_outcome(waiting, fiber, is_fiber, alive, current) == Err::<(Map<usize, W>, Option<W>), FiberError>(FiberError::NotAlive),
        is_fiber && alive && current ==> unblock_outcome(waiting, fiber, is_fiber, alive, current) == Err::<(Map<usize, W>, Option<W>), FiberError>(FiberError::Active),
{
}

/// A fiber that blocks and is then unblocked answers `true` from `block`,
/// and ends up no longer blocked; the blocked fibers are those from before,
/// less that fiber.
pub proof fn law_unblocked_block_answers_true<W>(waiting: Map<usize, W>, fiber: usize, waker: W)
    ensures
        unblock_outcome(block_outcome(waiting, fiber, waker).0, fiber, true, true, false) matches Ok((m, w)) && w
            == Some(waker) && wake_outcome(m, fiber).0 == waiting.remove(fiber) && !wake_outcome(
            m,
            fiber,
        ).0.contains_key(fiber) && block_answer(WaitEnd::Woken) == Ok::<bool, BlockError>(true),
{
    assert(waiting.insert(fiber, waker).remove(fiber) =~= waiting.remove(fiber));
    assert(waiting.remove(fiber).remove(fiber) =~= waiting.remove(fiber));
}

/// A fiber whose block times out answers `false` and is no longer blocked;
/// the blocked fibers are those from before, less that fiber.
pub proof fn law_timed_out_block_answers_false<W>(waiting: Map<usize, W>, fiber: usize, waker: W)
    ensures
        wake_outcome(block_outcome(waiting, fiber, waker).0, fiber) == (waiting.remove(fiber), Some(waker)),
        block_answer(WaitEnd::TimedOut) == Ok::<bool, BlockError>(false),
{
    assert(waiting.insert(fiber, waker).remove(fiber) =~= waiting.remove(fiber));
}

/// The blocked fibers, in a cell that is never left borrowed between calls.
struct BlockedFibers<W> {
    cell: GcCell<Blockers<W>>,
}

impl<W> BlockedFibers<W> {
    #[verifier::type_invariant]
    spec fn unborrowed_between_calls(&self) -> bool {
        self.cell.counts() == crate::gc_cell::unborrowed()
    }

    spec fn waiting(&self) -> Map<usize, W> {
        self.cell.contents()@
    }

    fn new() -> (b: Self)
        ensures
            b.waiting() == Map::<usize, W>::empty(),
    {
        BlockedFibers { cell: GcCell::new(Blockers::new()) }
    }

    fn register(&mut self, fiber: &Fiber<Suspended>, waker: W) -> (displaced: Option<W>)
        ensures
            (final(self).waiting(), displaced) == block_outcome(old(self).waiting(), fiber.id(), waker),
    {
        proof {
            use_type_invariant(&*self);
        }
        let mut cell = GcCell::new(Blockers::new());
        std::mem::swap(&mut cell, &mut self.cell);
        let token = match cell.try_borrow_mut() {
            Ok(t) => t,
            Err(_) => unreached(),
        };
        let displaced = token.deref_mut(&mut cell).block(fiber, waker);
        token.release(&mut cell);
        self.cell = cell;
        displaced
    }

    fn take(&mut self, fiber: &Fiber<Suspended>) -> (waker: Option<W>)
        ensures
            (final(self).waiting(), waker) == wake_outcome(old(self).waiting(), fiber.id()),
    {
        proof {
            use_type_invariant(&*self);
        }
        let mut cell = GcCell::new(Blockers::new());
        std::mem::swap(&mut cell, &mut self.cell);
        let token = match cell.try_borrow_mut() {
            Ok(t) => t,
            Err(_) => unreached(),
        };
        let waker = token.deref_mut(&mut cell).unblock(fiber);
        token.release(&mut cell);
        self.cell = cell;
        waker
    }

    fn blocked_fibers(&self, during_gc: bool) -> (fibers: Vec<Fiber<Suspended>>)
        requires
            during_gc,
        ensures
            fibers@.len() == self.waiting().dom().len(),
            forall|i: int| 0 <= i < fibers@.len() ==> self.waiting().contains_key(#[trigger] fibers@[i].id()),
            forall|f: usize| self.waiting().contains_key(f) ==> exists|i: int| 0 <= i < fibers@.len() && #[trigger] fibers@[i].id() == f,
    {
        self.cell.borrow_for_gc(during_gc).blocked_fibers()
    }
}

/// The scheduler's own state. `W` is the handle that wakes a blocked fiber,
/// `F` the set of pending tasks, `R` the runtime that drives them.
pub struct TokioScheduler<W, F, R> {
    root_fiber: Fiber<Unknown>,
    futures_to_run: GcCell<F>,
    runtime: Option<R>,
    blockers: BlockedFibers<W>,
}

impl<W, F, R> TokioScheduler<W, F, R> {
    /// The fiber that created the scheduler and runs its event loop.
    pub closed spec fn root(&self) -> usize {
        self.root_fiber.id()
    }

    /// The blocked fibers with their handles.
    pub closed spec fn waiting(&self) -> Map<usize, W> {
        self.blockers.waiting()
    }

    /// The cell of pending tasks.
    pub closed spec fn futures(&self) -> GcCell<F> {
        self.futures_to_run
    }

    /// The runtime, until `close` takes it.
    pub closed spec fn runtime_slot(&self) -> Option<R> {
        self.runtime
    }

    /// A scheduler whose root is `root_fiber` (the fiber that creates it),
    /// with no pending task beside `futures_to_run`, no blocked fiber, and
    /// the runtime `runtime`.
    pub fn new(root_fiber: Fiber<Unknown>, futures_to_run: F, runtime: R) -> (s: Self)
        ensures
            s.root() == root_fiber.id(),
            s.waiting() == Map::<usize, W>::empty(),
            s.futures().contents() == futures_to_run,
            s.futures().counts() == crate::gc_cell::unborrowed(),
            s.runtime_slot() == Some(runtime),
    {
        TokioScheduler {
            root_fiber,
            futures_to_run: GcCell::new(futures_to_run),
            runtime: Some(runtime),
            blockers: BlockedFibers::new(),
        }
    }

    /// The root fiber.
    pub fn root_fiber(&self) -> (f: Fiber<Unknown>)
        ensures
            f.id() == self.root(),
    {
        self.root_fiber
    }

    /// The runtime, or an error once `close` has taken it.
    pub fn runtime(&self) -> (r: Result<&R, SchedulerError>)
        ensures
            match self.runtime_slot() {
                Some(rt) => r matches Ok(x) && *x == rt,
                None => r == Err::<&R, SchedulerError>(SchedulerError::RuntimeClosed),
            },
    {
        match &self.runtime {
            Some(rt) => Ok(rt),
            None => Err(SchedulerError::RuntimeClosed),
        }
    }

    /// Takes the runtime out, for `close` to shut it down; nothing else
    /// changes.
    pub fn take_runtime(&mut self) -> (r: Option<R>)
        ensures
            r == old(self).runtime_slot(),
            final(self).runtime_slot() == None::<R>,
            final(self).root() == old(self).root(),
            final(self).waiting() == old(self).waiting(),
            final(self).futures() == old(self).futures(),
    {
        self.runtime.take()
    }

    /// The cell of pending tasks, for spawning into it.
    pub fn futures_to_run(&mut self) -> (c: &mut GcCell<F>)
        ensures
            *c == old(self).futures(),
            final(self).futures() == *final(c),
            final(self).root() == old(self).root(),
            final(self).waiting() == old(self).waiting(),
            final(self).runtime_slot() == old(self).runtime_slot(),
    {
        &mut self.futures_to_run
    }

    /// Whether the fiber that runs now is the root fiber.
    pub fn is_current_fiber_root(&self, current: &Fiber<Running>) -> (b: bool)
        ensures
            b == (self.root() == current.id()),
    {
        self.root_fiber.as_raw() == current.as_raw()
    }

    /// Registers the running fiber `current` as blocked until `waker` is
    /// used; hands back the handle this displaces.
    pub fn block(&mut self, current: &Fiber<Running>, waker: W) -> (displaced: Option<W>)
        ensures
            final(self).root() == old(self).root(),
            final(self).futures() == old(self).futures(),
            final(self).runtime_slot() == old(self).runtime_slot(),
            (final(self).waiting(), displaced) == block_outcome(old(self).waiting(), current.id(), waker),
    {
        let fiber = current.as_suspended();
        self.blockers.register(&fiber, waker)
    }

    /// Takes `fiber` out of the blocked fibers; hands back its handle if it
    /// was still registered.
    pub fn wake(&mut self, fiber: &Fiber<Suspended>) -> (waker: Option<W>)
        ensures
            final(self).root() == old(self).root(),
            final(self).futures() == old(self).futures(),
            final(self).runtime_slot() == old(self).runtime_slot(),
            (final(self).waiting(), waker) == wake_outcome(old(self).waiting(), fiber.id()),
    {
        self.blockers.take(fiber)
    }

    /// Ends the `block` of `blocked`, whose wait ended with `end`: the fiber
    /// is no longer blocked, and `block` answers whether it was woken.
    pub fn finish_block(&mut self, blocked: &Fiber<Suspended>, end: WaitEnd) -> (answer: Result<bool, BlockError>)
        ensures
            final(self).root() == old(self).root(),
            final(self).futures() == old(self).futures(),
            final(self).runtime_slot() == old(self).runtime_slot(),
            final(self).waiting() == old(self).waiting().remove(blocked.id()),
            answer == block_answer(end),
    {
        let _stale = self.blockers.take(blocked);
        match end {
            WaitEnd::Woken => Ok(true),
            WaitEnd::TimedOut => Ok(false),
            WaitEnd::Abandoned => Err(BlockError::Abandoned),
        }
    }

    /// Wakes the fiber `fiber_to_wake`: the value must be a fiber
    /// (`is_fiber`), alive (`alive`) and not the running one (`current`).
    /// Hands back the handle through which the woken fiber is resumed, if
    /// it was blocked; a refusal changes nothing.
    pub fn unblock(&mut self, fiber_to_wake: usize, is_fiber: bool, alive: bool, current: bool) -> (r: Result<Option<W>, FiberError>)
        ensures
            final(self).root() == old(self).root(),
            final(self).futures() == old(self).futures(),
            final(self).runtime_slot() == old(self).runtime_slot(),
            match unblock_outcome(old(self).waiting(), fiber_to_wake, is_fiber, alive, current) {
                Ok((m, w)) => r == Ok::<Option<W>, FiberError>(w) && final(self).waiting() == m,
                Err(e) => r == Err::<Option<W>, FiberError>(e) && final(self).waiting() == old(self).waiting(),
            },
    {
        let unknown = Fiber::<Unknown>::from_value(fiber_to_wake, is_fiber)?;
        let fiber = unknown.check_suspended(alive, current)?;
        Ok(self.wake(&fiber))
    }

    /// Reading at an offset is not implemented: always refused, and the
    /// buffer is left as it is.
    pub fn io_pread(&self, io: i32, buffer: &mut [u8], from: usize, length: usize, offset: u64) -> (r: Result<usize, SchedulerError>)
        ensures
            r == Err::<usize, SchedulerError>(SchedulerError::NotImplemented(Hook::IoPread)),
            final(buffer)@ == old(buffer)@,
    {
        Err(SchedulerError::NotImplemented(Hook::IoPread))
    }

    /// Writing at an offset is not implemented: always refused.
    pub fn io_pwrite(&self, io: i32, buffer: &[u8], from: usize, length: usize, offset: u64) -> (r: Result<usize, SchedulerError>)
        ensures
            r == Err::<usize, SchedulerError>(SchedulerError::NotImplemented(Hook::IoPwrite)),
    {
        Err(SchedulerError::NotImplemented(Hook::IoPwrite))
    }

    /// The fibers the garbage collector must keep: the root fiber, then
    /// every blocked fiber. Only legal while the collector runs.
    pub fn fibers_to_mark(&self, during_gc: bool) -> (fibers: Vec<Fiber<Unknown>>)
        requires
            during_gc,
        ensures
            fibers@.len() == self.waiting().dom().len() + 1,
            fibers@[0].id() == self.root(),
            forall|i: int| 1 <= i < fibers@.len() ==> self.waiting().contains_key(#[trigger] fibers@[i].id()),
            forall|f: usize| self.waiting().contains_key(f) ==> exists|i: int| 1 <= i < fibers@.len() && #[trigger] fibers@[i].id() == f,
    {
        let blocked = self.blockers.blocked_fibers(during_gc);
        let mut fibers: Vec<Fiber<Unknown>> = Vec::new();
        fibers.push(self.root_fiber);
        let n = blocked.len();
        for i in 0..n
            invariant
                n == blocked@.len(),
                fibers@.len() == i + 1,
                fibers@[0].id() == self.root(),
                forall|j: int| 0 <= j < i ==> #[trigger] fibers@[j + 1].id() == blocked@[j].id(),
        {
            fibers.push(blocked[i].as_unknown());
        }
        proof {
            assert forall|k: int| 1 <= k < fibers@.len() implies self.waiting().contains_key(#[trigger] fibers@[k].id()) by {
                assert(fibers@[(k - 1) + 1].id() == blocked@[k - 1].id());
            }
            assert forall|f: usize| self.waiting().contains_key(f) implies exists|k: int| 1 <= k < fibers@.len() && #[trigger] fibers@[k].id() == f by {
                let j = choose|j: int| 0 <= j < blocked@.len() && #[trigger] blocked@[j].id() == f;
                assert(fibers@[j + 1].id() == blocked@[j].id());
            }
        }
        fibers
    }
}

} // verus!
