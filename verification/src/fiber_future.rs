//! What happens to a fiber once the work it waited for is done, and the
//! decisions of the scheduler's event loop.
use crate::fiber::{Fiber, FiberError, Suspended, Unknown};
use vstd::prelude::*;

verus! {

/// A fiber together with the outcome of the work it waited for.
#[derive(Debug)]
pub struct ResumableFiber<V, E> {
    fiber: Fiber<Unknown>,
    value: Result<V, E>,
}

/// How a waiting fiber is resumed.
#[derive(Debug)]
pub enum ResumeStep<V, E> {
    /// The fiber has died meanwhile: nothing to resume.
    Dead,
    /// Transfer control to the fiber, handing it the value.
    Transfer(Fiber<Suspended>, V),
    /// Raise the error inside the fiber.
    Raise(Fiber<Suspended>, E),
}

impl<V, E> ResumableFiber<V, E> {
    /// The fiber to resume.
    pub closed spec fn fiber(&self) -> usize {
        self.fiber.id()
    }

    /// The outcome it is resumed with.
    pub closed spec fn value(&self) -> Result<V, E> {
        self.value
    }

    /// Pairs `fiber` with the outcome `value` of its work.
    pub fn new(fiber: Fiber<Unknown>, value: Result<V, E>) -> (r: Self)
        ensures
            r.fiber() == fiber.id(),
            r.value() == value,
    {
        ResumableFiber { fiber, value }
    }

    /// The fiber to resume.
    pub fn fiber_to_resume(&self) -> (f: Fiber<Unknown>)
        ensures
            f.id() == self.fiber(),
    {
        self.fiber
    }

    /// How to resume the fiber: not at all if it has died (`alive` false);
    /// refused if it is the running fiber (`current`); otherwise the value
    /// is transferred to it, or the error raised in it.
    pub fn resume_if_alive(self, alive: bool, current: bool) -> (r: Result<ResumeStep<V, E>, FiberError>)
        ensures
            !alive ==> r matches Ok(ResumeStep::Dead),
            alive && current ==> r == Err::<ResumeStep<V, E>, FiberError>(FiberError::Active),
            alive && !current ==> match self.value() {
                Ok(v) => r matches Ok(ResumeStep::Transfer(f, x)) && f.id() == self.fiber() && x == v,
                Err(e) => r matches Ok(ResumeStep::Raise(f, x)) && f.id() == self.fiber() && x == e,
            },
    {
        if !alive {
            return Ok(ResumeStep::Dead);
        }
        match self.value {
            Ok(value) => match self.fiber.check_suspended(alive, current) {
                Ok(f) => Ok(ResumeStep::Transfer(f, value)),
                Err(e) => Err(e),
            },
            Err(error) => match self.fiber.check_suspended(alive, current) {
                Ok(f) => Ok(ResumeStep::Raise(f, error)),
                Err(e) => Err(e),
            },
        }
    }
}

/// What the event loop saw when it next woke up.
#[derive(Debug)]
pub enum LoopEvent<T, J, E> {
    /// A task finished, with its fiber to resume.
    Joined(T),
    /// A task could not be joined (it panicked or was aborted).
    JoinFailed(J),
    /// No task is left.
    Drained,
    /// Ruby interrupted the thread with this error.
    Interrupted(E),
}

/// What the event loop does next.
#[derive(Debug)]
pub enum LoopAction<T, E> {
    /// Resume the fiber of the finished task, then go on.
    Resume(T),
    /// Go on waiting.
    Continue,
    /// Stop: every task is done.
    Finish,
    /// Abort every pending task and stop with this error.
    AbortAll(E),
}

/// The event loop's answer to `event`.
pub fn next_action<T, J, E>(event: LoopEvent<T, J, E>) -> (a: LoopAction<T, E>)
    ensures
        match event {
            LoopEvent::Joined(t) => a matches LoopAction::Resume(x) && x == t,
            LoopEvent::JoinFailed(_) => a matches LoopAction::Continue,
            LoopEvent::Drained => a matches LoopAction::Finish,
            LoopEvent::Interrupted(e) => a matches LoopAction::AbortAll(x) && x == e,
        },
{
    match event {
        LoopEvent::Joined(t) => LoopAction::Resume(t),
        LoopEvent::JoinFailed(_) => LoopAction::Continue,
        LoopEvent::Drained => LoopAction::Finish,
        LoopEvent::Interrupted(e) => LoopAction::AbortAll(e),
    }
}

/// Whether the event loop stops after resuming a fiber: it stops, with the
/// error, when resuming failed; it goes on when the fiber ran (whatever it
/// returned) or was already dead.
pub fn after_resume<V, E>(outcome: Result<Option<V>, E>) -> (stop: Option<E>)
    ensures
        match outcome {
            Ok(_) => stop is None,
            Err(e) => stop == Some(e),
        },
{
    match outcome {
        Ok(_) => None,
        Err(e) => Some(e),
    }
}

/// Which of `IO.select`'s three waits finished first.
#[derive(Debug)]
pub enum SelectWinner<A> {
    Exceptable(A),
    Readable(A),
    Writable(A),
    TimedOut,
}

/// `IO.select`'s answer: the ready objects of the wait that finished, the
/// other two lists empty (`None`); nothing at all on a timeout.
#[derive(Debug)]
pub struct SelectReply<A> {
    pub readable: Option<A>,
    pub writable: Option<A>,
    pub exceptable: Option<A>,
}

/// `IO.select`'s answer when `winner` finished first.
pub fn select_reply<A>(winner: SelectWinner<A>) -> (r: Option<SelectReply<A>>)
    ensures
        match winner {
            SelectWinner::Readable(a) => r matches Some(x) && x.readable == Some(a) && x.writable is None && x.exceptable is None,
            SelectWinner::Writable(a) => r matches Some(x) && x.readable is None && x.writable == Some(a) && x.exceptable is None,
            SelectWinner::Exceptable(a) => r matches Some(x) && x.readable is None && x.writable is None && x.exceptable == Some(a),
            SelectWinner::TimedOut => r is None,
        },
{
    match winner {
        SelectWinner::Readable(a) => Some(SelectReply { readable: Some(a), writable: None, exceptable: None }),
        SelectWinner::Writable(a) => Some(SelectReply { readable: None, writable: Some(a), exceptable: None }),
        SelectWinner::Exceptable(a) => Some(SelectReply { readable: None, writable: None, exceptable: Some(a) }),
        SelectWinner::TimedOut => None,
    }
}

} // verus!
