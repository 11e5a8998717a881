//! Ruby fibers as handles, with the state a handle is known to be in
//! carried in its type.
use core::marker::PhantomData;
use vstd::prelude::*;

verus! {

/// Marker trait for the different states of a fiber.
pub trait State {}

/// The fiber is running.
#[derive(Clone, Copy, Debug, PartialEq, Eq, PartialOrd, Ord, Hash)]
pub struct Running;

impl State for Running {}

/// The fiber is suspended.
#[derive(Clone, Copy, Debug, PartialEq, Eq, PartialOrd, Ord, Hash)]
pub struct Suspended;

impl State for Suspended {}

/// The fiber is terminated.
#[derive(Clone, Copy, Debug, PartialEq, Eq, PartialOrd, Ord, Hash)]
pub struct Terminated;

impl State for Terminated {}

/// Fiber in unknown state.
#[derive(Clone, Copy, Debug, PartialEq, Eq, PartialOrd, Ord, Hash)]
pub struct Unknown;

impl State for Unknown {}

/// Why a value could not be used as a fiber in the state asked for.
#[derive(Debug, Clone, Copy, PartialEq, Eq, Structural)]
pub enum FiberError {
    /// The value is not a `Fiber` object (Ruby `TypeError`).
    NotAFiber,
    /// The fiber has finished running (Ruby `RuntimeError`, "fiber not alive").
    NotAlive,
    /// The fiber is the one currently running (Ruby `RuntimeError`, "fiber active").
    Active,
}

/// A Ruby fiber, identified by its object reference (the raw `VALUE`), in
/// the state `S`.
#[derive(Debug, Hash, PartialOrd, Ord)]
pub struct Fiber<S: State> {
    value: usize,
    state: PhantomData<S>,
}

impl<S: State> Fiber<S> {
    /// The raw object reference of the fiber.
    pub closed spec fn id(&self) -> usize {
        self.value
    }

    /// A handle on the fiber `value` in the state `S`; the caller vouches for
    /// the state.
    pub fn from_raw(value: usize) -> (f: Fiber<S>)
        ensures
            f.id() == value,
    {
        Fiber { value, state: PhantomData }
    }

    /// Checks a Ruby value before it is used as a fiber: `is_fiber` says
    /// whether the object is a `Fiber`.
    pub fn from_value(value: usize, is_fiber: bool) -> (r: Result<Fiber<Unknown>, FiberError>)
        ensures
            is_fiber ==> (r matches Ok(f) && f.id() == value),
            !is_fiber ==> r == Err::<Fiber<Unknown>, FiberError>(FiberError::NotAFiber),
    {
        if !is_fiber {
            return Err(FiberError::NotAFiber);
        }
        Ok(Fiber { value, state: PhantomData })
    }

    /// The raw object reference of the fiber.
    pub fn as_raw(&self) -> (v: usize)
        ensures
            v == self.id(),
    {
        self.value
    }

    /// The same fiber, to be handled as if it were suspended.
    pub fn as_suspended(&self) -> (f: Fiber<Suspended>)
        ensures
            f.id() == self.id(),
    {
        Fiber { value: self.value, state: PhantomData }
    }

    /// The same fiber, in a state that is not presumed.
    pub fn as_unchecked(&self) -> (f: Fiber<Unknown>)
        ensures
            f.id() == self.id(),
    {
        Fiber { value: self.value, state: PhantomData }
    }

    /// The same fiber, in a state that is not presumed.
    pub fn as_unknown(&self) -> (f: Fiber<Unknown>)
        ensures
            f.id() == self.id(),
    {
        self.as_unchecked()
    }

    /// Whether this is the fiber that runs now.
    pub fn is_current(&self, current: &Fiber<Running>) -> (b: bool)
        ensures
            b == (self.id() == current.id()),
    {
        self.value == current.value
    }
}

impl Fiber<Unknown> {
    /// The fiber as a suspended one, if it can be resumed: it must be alive
    /// (`alive`) and must not be the fiber that runs now (`current`).
    pub fn check_suspended(&self, alive: bool, current: bool) -> (r: Result<Fiber<Suspended>, FiberError>)
        ensures
            !alive ==> r == Err::<Fiber<Suspended>, FiberError>(FiberError::NotAlive),
            alive && current ==> r == Err::<Fiber<Suspended>, FiberError>(FiberError::Active),
            alive && !current ==> (r matches Ok(f) && f.id() == self.id()),
    {
        if !alive {
            return Err(FiberError::NotAlive);
        }
        if current {
            return Err(FiberError::Active);
        }
        Ok(Fiber { value: self.value, state: PhantomData })
    }
}

impl<S: State> PartialEq for Fiber<S> {
    fn eq(&self, other: &Self) -> (r: bool) {
        self.value == other.value
    }
}

impl<S: State> vstd::std_specs::cmp::PartialEqSpecImpl for Fiber<S> {
    open spec fn obeys_eq_spec() -> bool {
        true
    }

    open spec fn eq_spec(&self, other: &Self) -> bool {
        self.id() == other.id()
    }
}

impl<S: State> Eq for Fiber<S> {}

impl<S: State> Clone for Fiber<S> {
    fn clone(&self) -> (f: Self)
        ensures
            f.id() == self.id(),
    {
        Fiber { value: self.value, state: PhantomData }
    }
}

impl<S: State> Copy for Fiber<S> {}

} // verus!
