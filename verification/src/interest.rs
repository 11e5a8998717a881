//! The I/O events Ruby asks about, and the readiness the scheduler waits
//! for or reports.
use vstd::prelude::*;

verus! {

/// Why a set of I/O events was refused.
#[derive(Debug, Clone, Copy, PartialEq, Eq, Structural)]
pub enum InterestError {
    /// Bits outside `Readable | Writable` (Ruby `RuntimeError`, "Invalid IO interests").
    InvalidIoInterests(u32),
    /// Bits outside `IO::READABLE | IO::PRIORITY | IO::WRITABLE` (scheduler
    /// error, "Invalid IO interests").
    InvalidIoEvents(u32),
    /// `IO::PRIORITY` cannot be waited for.
    PriorityNotSupported,
    /// A readiness check that asks for neither reading nor writing.
    NothingToWaitFor,
}

/// What an I/O wait is for: reading, writing, or both.
#[derive(Debug, Clone, Copy, PartialEq, Eq, Structural)]
pub struct Interest {
    pub readable: bool,
    pub writable: bool,
}

impl Interest {
    /// Waiting to read.
    pub fn readable() -> (i: Interest)
        ensures
            i == (Interest { readable: true, writable: false }),
    {
        Interest { readable: true, writable: false }
    }

    /// Waiting to write.
    pub fn writable() -> (i: Interest)
        ensures
            i == (Interest { readable: false, writable: true }),
    {
        Interest { readable: false, writable: true }
    }

    /// Waiting for either of two interests.
    pub fn add(self, other: Interest) -> (i: Interest)
        ensures
            i == (Interest { readable: self.readable || other.readable, writable: self.writable || other.writable }),
    {
        Interest { readable: self.readable || other.readable, writable: self.writable || other.writable }
    }
}

/// The readiness an I/O object reports.
#[derive(Debug, Clone, Copy, PartialEq, Eq, Structural)]
pub struct Ready {
    pub readable: bool,
    pub writable: bool,
}

/// The readiness a regular file reports for `interest`: files are always
/// ready, for what was asked; asking for nothing is an error.
pub fn file_ready(interest: Interest) -> (r: Result<Ready, InterestError>)
    ensures
        (interest.readable || interest.writable) ==> r == Ok::<Ready, InterestError>(
            Ready { readable: interest.readable, writable: interest.writable },
        ),
        !(interest.readable || interest.writable) ==> r == Err::<Ready, InterestError>(
            InterestError::NothingToWaitFor,
        ),
{
    if interest.readable && interest.writable {
        Ok(Ready { readable: true, writable: true })
    } else if interest.readable {
        Ok(Ready { readable: true, writable: false })
    } else if interest.writable {
        Ok(Ready { readable: false, writable: true })
    } else {
        Err(InterestError::NothingToWaitFor)
    }
}

/// The interests a scheduler hook is called with: bit 0 readable, bit 1
/// writable.
#[derive(Debug, Clone, Copy, PartialEq, Eq, Structural)]
pub struct IoInterests {
    bits: u32,
}

/// The interests that `IoInterests` knows.
pub open spec fn io_interests_known(bits: u32) -> bool {
    bits <= 3
}

/// The interest an `IoInterests` with `bits` stands for: writing when the
/// writable bit is set, reading when the readable bit is set or when no bit
/// is set.
pub open spec fn interest_of_bits(bits: u32) -> Interest {
    Interest { readable: bits & 1 != 0 || bits & 2 == 0, writable: bits & 2 != 0 }
}

/// Every interest a scheduler hook converts asks for reading or writing,
/// so a regular file always reports a readiness for it.
pub proof fn law_converted_interests_want_something(bits: u32)
    ensures
        interest_of_bits(bits).readable || interest_of_bits(bits).writable,
        interest_of_events(bits) matches Ok(i) ==> (i.readable || i.writable),
{
}

impl IoInterests {
    /// Only known bits are ever held.
    #[verifier::type_invariant]
    spec fn holds_known_bits(&self) -> bool {
        io_interests_known(self.bits)
    }

    /// The bits of the interests.
    pub closed spec fn spec_bits(&self) -> u32 {
        self.bits
    }

    /// Reading.
    pub fn readable() -> (i: Self)
        ensures
            i.spec_bits() == 1,
    {
        IoInterests { bits: 1 }
    }

    /// Writing.
    pub fn writable() -> (i: Self)
        ensures
            i.spec_bits() == 2,
    {
        IoInterests { bits: 2 }
    }

    /// Reading and writing.
    pub fn readable_writable() -> (i: Self)
        ensures
            i.spec_bits() == 3,
    {
        IoInterests { bits: 3 }
    }

    /// The bits of the interests; only known bits.
    pub fn bits(&self) -> (b: u32)
        ensures
            b == self.spec_bits(),
            io_interests_known(b),
    {
        proof {
            use_type_invariant(self);
        }
        self.bits
    }

    /// The interests with exactly `bits`, if every bit is known.
    pub fn from_bits(bits: u32) -> (r: Option<Self>)
        ensures
            io_interests_known(bits) ==> (r matches Some(i) && i.spec_bits() == bits),
            !io_interests_known(bits) ==> r is None,
    {
        let unknown = bits & !3u32;
        assert(unknown == 0 <==> bits <= 3) by (bit_vector)
            requires
                unknown == bits & !3u32,
        ;
        if unknown == 0 {
            Some(IoInterests { bits })
        } else {
            None
        }
    }

    /// Whether every interest of `other` is among these.
    pub fn contains(&self, other: IoInterests) -> (b: bool)
        ensures
            b == (self.spec_bits() & other.spec_bits() == other.spec_bits()),
    {
        self.bits & other.bits == other.bits
    }

    /// Converts the integer Ruby passed: refused when it has unknown bits.
    pub fn try_convert(value: u32) -> (r: Result<Self, InterestError>)
        ensures
            io_interests_known(value) ==> (r matches Ok(i) && i.spec_bits() == value),
            !io_interests_known(value) ==> r == Err::<Self, InterestError>(InterestError::InvalidIoInterests(value)),
    {
        match IoInterests::from_bits(value) {
            Some(i) => Ok(i),
            None => Err(InterestError::InvalidIoInterests(value)),
        }
    }

    /// The interest to wait for: both when both bits are set, else the one
    /// that is set, and reading when none is.
    pub fn to_interest(self) -> (i: Interest)
        ensures
            i == interest_of_bits(self.spec_bits()),
    {
        let b = self.bits;
        let r = if self.contains(IoInterests::readable_writable()) {
            Interest::readable().add(Interest::writable())
        } else if self.contains(IoInterests::readable()) {
            Interest::readable()
        } else if self.contains(IoInterests::writable()) {
            Interest::writable()
        } else {
            Interest::readable()
        };
        assert(r == interest_of_bits(b)) by {
            assert((b & 3 == 3) == (b & 1 != 0 && b & 2 != 0)) by (bit_vector);
            assert((b & 1 == 1) == (b & 1 != 0)) by (bit_vector);
            assert((b & 2 == 2) == (b & 2 != 0)) by (bit_vector);
        }
        r
    }
}

/// Ruby's `IO::READABLE`.
pub const RUBY_IO_READABLE: u32 = 1;

/// Ruby's `IO::PRIORITY`.
pub const RUBY_IO_PRIORITY: u32 = 2;

/// Ruby's `IO::WRITABLE`.
pub const RUBY_IO_WRITABLE: u32 = 4;

/// The events of `IO#wait`: `IO::READABLE`, `IO::PRIORITY`, `IO::WRITABLE`.
#[derive(Debug, Clone, Copy, PartialEq, Eq, Structural)]
pub struct RubyIoEvent {
    bits: u32,
}

/// The events that `RubyIoEvent` knows.
pub open spec fn io_events_known(bits: u32) -> bool {
    bits <= 7
}

/// The interest a wait on the events `bits` is for: refused when
/// `IO::PRIORITY` is among them; otherwise reading when `IO::READABLE` is
/// among them, and writing when it is not (whether or not `IO::WRITABLE`
/// is).
pub open spec fn interest_of_events(bits: u32) -> Result<Interest, InterestError> {
    if bits & 2 != 0 {
        Err(InterestError::PriorityNotSupported)
    } else if bits & 1 != 0 {
        Ok(Interest { readable: true, writable: false })
    } else {
        Ok(Interest { readable: false, writable: true })
    }
}

/// The events of `requested` that `ready` shows ready: `IO::READABLE` if
/// it was asked for and reading is ready, `IO::WRITABLE` if it was asked
/// for and writing is ready; `IO::PRIORITY` is never reported.
pub open spec fn ready_subset(requested: u32, ready: Ready) -> u32 {
    (if ready.readable && requested & 1 != 0 { 1u32 } else { 0u32 }) | (if ready.writable && requested & 4 != 0 {
        4u32
    } else {
        0u32
    })
}

/// `io_wait` reports only events that were asked for.
pub proof fn law_ready_events_were_requested(requested: u32, ready: Ready)
    ensures
        ready_subset(requested, ready) & requested == ready_subset(requested, ready),
        ready_subset(requested, ready) & 2 == 0,
{
    let r = ready_subset(requested, ready);
    let a: u32 = if ready.readable && requested & 1 != 0 { 1 } else { 0 };
    let b: u32 = if ready.writable && requested & 4 != 0 { 4 } else { 0 };
    assert(r == a | b);
    assert((a | b) & requested == a | b && (a | b) & 2 == 0) by (bit_vector)
        requires
            a == 0 || (a == 1 && requested & 1 != 0),
            b == 0 || (b == 4 && requested & 4 != 0),
    ;
}

/// `io_wait` reports each requested event exactly when the readiness shows
/// it, independently of the other: `IO::READABLE` when readable and asked
/// for, `IO::WRITABLE` when writable and asked for, and nothing else.
pub proof fn law_ready_events_report_each_ready_event(requested: u32, ready: Ready)
    ensures
        (ready_subset(requested, ready) & 1 == 1) <==> (ready.readable && requested & 1 != 0),
        (ready_subset(requested, ready) & 4 == 4) <==> (ready.writable && requested & 4 != 0),
        ready_subset(requested, ready) & !5u32 == 0,
{
    let r = ready_subset(requested, ready);
    let rd: u32 = if requested & 1 != 0 && ready.readable { 1 } else { 0 };
    let wr: u32 = if requested & 4 != 0 && ready.writable { 4 } else { 0 };
    assert(r == rd | wr);
    assert(((rd | wr) & 1 == 1) == (rd == 1) && ((rd | wr) & 4 == 4) == (wr == 4) && (rd | wr) & !5u32 == 0)
        by (bit_vector)
        requires
            rd == 0 || rd == 1,
            wr == 0 || wr == 4,
    ;
}

impl RubyIoEvent {
    /// Only known bits are ever held.
    #[verifier::type_invariant]
    spec fn holds_known_bits(&self) -> bool {
        io_events_known(self.bits)
    }

    /// The bits of the events.
    pub closed spec fn spec_bits(&self) -> u32 {
        self.bits
    }

    /// `IO::READABLE`.
    pub fn readable() -> (e: Self)
        ensures
            e.spec_bits() == RUBY_IO_READABLE,
    {
        RubyIoEvent { bits: RUBY_IO_READABLE }
    }

    /// `IO::PRIORITY`.
    pub fn priority() -> (e: Self)
        ensures
            e.spec_bits() == RUBY_IO_PRIORITY,
    {
        RubyIoEvent { bits: RUBY_IO_PRIORITY }
    }

    /// `IO::WRITABLE`.
    pub fn writable() -> (e: Self)
        ensures
            e.spec_bits() == RUBY_IO_WRITABLE,
    {
        RubyIoEvent { bits: RUBY_IO_WRITABLE }
    }

    /// The bits of the events, as Ruby receives them; only known bits.
    pub fn bits(&self) -> (b: u32)
        ensures
            b == self.spec_bits(),
            io_events_known(b),
    {
        proof {
            use_type_invariant(self);
        }
        self.bits
    }

    /// The events with exactly `bits`, if every bit is known.
    pub fn from_bits(bits: u32) -> (r: Option<Self>)
        ensures
            io_events_known(bits) ==> (r matches Some(e) && e.spec_bits() == bits),
            !io_events_known(bits) ==> r is None,
    {
        let unknown = bits & !7u32;
        assert(unknown == 0 <==> bits <= 7) by (bit_vector)
            requires
                unknown == bits & !7u32,
        ;
        if unknown == 0 {
            Some(RubyIoEvent { bits })
        } else {
            None
        }
    }

    /// Whether every event of `other` is among these.
    pub fn contains(&self, other: RubyIoEvent) -> (b: bool)
        ensures
            b == (self.spec_bits() & other.spec_bits() == other.spec_bits()),
    {
        self.bits & other.bits == other.bits
    }

    /// Converts the integer Ruby passed: refused when it has unknown bits.
    pub fn try_convert(value: u32) -> (r: Result<Self, InterestError>)
        ensures
            io_events_known(value) ==> (r matches Ok(e) && e.spec_bits() == value),
            !io_events_known(value) ==> r == Err::<Self, InterestError>(InterestError::InvalidIoEvents(value)),
    {
        match RubyIoEvent::from_bits(value) {
            Some(e) => Ok(e),
            None => Err(InterestError::InvalidIoEvents(value)),
        }
    }

    /// The reply of `io_wait`: the events among these that `ready` shows
    /// ready.
    pub fn ready_events(&self, ready: Ready) -> (e: RubyIoEvent)
        ensures
            e.spec_bits() == ready_subset(self.spec_bits(), ready),
            (e.spec_bits() & 1 == 1) <==> (ready.readable && self.spec_bits() & 1 != 0),
            (e.spec_bits() & 4 == 4) <==> (ready.writable && self.spec_bits() & 4 != 0),
    {
        let readable: u32 = if ready.readable && self.contains(RubyIoEvent::readable()) {
            RUBY_IO_READABLE
        } else {
            0
        };
        let writable: u32 = if ready.writable && self.contains(RubyIoEvent::writable()) {
            RUBY_IO_WRITABLE
        } else {
            0
        };
        let b = self.bits;
        assert((b & 1 == 1) == (b & 1 != 0)) by (bit_vector);
        assert((b & 4 == 4) == (b & 4 != 0)) by (bit_vector);
        let bits = readable | writable;
        assert(bits <= 7) by (bit_vector)
            requires
                readable == 0 || readable == 1,
                writable == 0 || writable == 4,
                bits == readable | writable,
        ;
        proof {
            law_ready_events_report_each_ready_event(b, ready);
        }
        RubyIoEvent { bits }
    }

    /// The interest to wait for on these events.
    pub fn to_interest(self) -> (r: Result<Interest, InterestError>)
        ensures
            r == interest_of_events(self.spec_bits()),
    {
        let b = self.bits;
        let result = if self.contains(RubyIoEvent::readable()) {
            Interest::readable()
        } else {
            Interest::writable()
        };
        assert((b & 1 == 1) == (b & 1 != 0)) by (bit_vector);
        assert((b & 2 == 2) == (b & 2 != 0)) by (bit_vector);
        if self.contains(RubyIoEvent::priority()) {
            return Err(InterestError::PriorityNotSupported);
        }
        Ok(result)
    }
}

} // verus!
