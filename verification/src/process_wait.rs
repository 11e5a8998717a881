//! The decisions of `Process.wait` under the scheduler: which children a
//! wait targets, how a wait's outcome becomes a `Process::Status`, and when
//! the waiting task gives up the processor.
use vstd::prelude::*;

verus! {

/// `rustix::process::Pid::from_raw`: a process id exists exactly for a
/// positive raw value, and keeps that value. The id is handed back as its
/// raw value.
#[verifier::external_body]
fn pid_from_raw(raw: i32) -> (pid: Option<i32>)
    ensures
        pid == (if raw > 0 { Some(raw) } else { None::<i32> }),
{
    rustix::process::Pid::from_raw(raw).map(|p| p.as_raw_nonzero().get())
}

/// `rustix::process::WaitOptions::from_bits`: rustix declares every bit of
/// these options as known, so every `flags` value is accepted unchanged.
/// The options are handed back as their bits.
#[verifier::external_body]
fn wait_options_from_bits(flags: u32) -> (options: Option<u32>)
    ensures
        options == Some(flags),
{
    rustix::process::WaitOptions::from_bits(flags).map(|o| o.bits())
}

/// Why a wait could not be started.
#[derive(Debug, Clone, Copy, PartialEq, Eq, Structural)]
pub enum ProcessWaitError {
    /// The wait options are not valid ("invalid process wait flags").
    InvalidFlags(u32),
    /// The pid names no children that can be waited for ("Invalid PID for
    /// process").
    InvalidPid(i32),
}

/// Which children a wait is for.
#[derive(Debug, Clone, Copy, PartialEq, Eq, Structural)]
pub enum WaitTarget {
    /// Any child in the caller's process group (pid `0`).
    OwnGroup,
    /// Any child (pid `-1`).
    AnyChild,
    /// The child with this (positive) pid.
    Child(i32),
    /// Any child in the process group with this (positive) id (pid `-pgid`).
    Group(i32),
}

/// What a wait asks: which children, and the options' bits.
#[derive(Debug, Clone, Copy, PartialEq, Eq, Structural)]
pub struct WaitRequest {
    pub target: WaitTarget,
    pub options: u32,
}

/// The target of a wait on `pid`, as `waitpid` reads it: a positive pid is
/// that child, `0` any child in the caller's process group, `-1` any child,
/// a pid below `-1` any child in the process group `-pid`. `i32::MIN`,
/// whose group id does not fit, is refused (`None`).
pub open spec fn wait_target(pid: i32) -> Option<WaitTarget> {
    if pid > 0 {
        Some(WaitTarget::Child(pid))
    } else if pid == 0 {
        Some(WaitTarget::OwnGroup)
    } else if pid == -1 {
        Some(WaitTarget::AnyChild)
    } else if pid > i32::MIN {
        Some(WaitTarget::Group(-pid as i32))
    } else {
        None
    }
}

/// Every wait names positive ids only, follows `waitpid`'s table, and only
/// `i32::MIN` is refused.
pub proof fn law_wait_targets(pid: i32)
    ensures
        wait_target(pid) is None <==> pid == i32::MIN,
        pid > 0 ==> wait_target(pid) == Some(WaitTarget::Child(pid)),
        pid == 0 ==> wait_target(pid) == Some(WaitTarget::OwnGroup),
        pid == -1 ==> wait_target(pid) == Some(WaitTarget::AnyChild),
        i32::MIN < pid < -1 ==> (wait_target(pid) matches Some(WaitTarget::Group(g)) && g == -pid && g > 1),
        wait_target(pid) matches Some(WaitTarget::Child(p)) ==> p > 0,
        wait_target(pid) matches Some(WaitTarget::Group(g)) ==> g > 0,
{
}

/// The `Process::Status` fields the scheduler builds.
#[derive(Debug, Clone, Copy, PartialEq, Eq, Structural)]
pub struct ProcessStatusData {
    pub pid: i32,
    pub status: i32,
    pub error: i32,
}

/// What one `waitpid` call gave.
#[derive(Debug, Clone, Copy, PartialEq, Eq, Structural)]
pub enum WaitOutcome {
    /// No child has changed state yet.
    StillRunning,
    /// The call failed with this OS error number.
    Failed(i32),
    /// The child changed state; its raw wait status.
    Changed(u32),
}

/// The status a wait on `raw_pid` reports for `outcome`: nothing while the
/// child runs; for a failed call pid `-1`, status `0` and the error number
/// (as Ruby does); otherwise the pid asked for and the raw status.
pub open spec fn status_after(raw_pid: i32, outcome: WaitOutcome) -> Option<ProcessStatusData> {
    match outcome {
        WaitOutcome::StillRunning => None,
        WaitOutcome::Failed(errno) => Some(ProcessStatusData { pid: -1i32, status: 0i32, error: errno }),
        WaitOutcome::Changed(raw) => Some(ProcessStatusData { pid: raw_pid, status: raw as i32, error: 0 }),
    }
}

/// What the waiting task does after one attempt.
#[derive(Debug, PartialEq, Eq, Structural)]
pub enum PollStep<T> {
    /// The wait is over with this status.
    Ready(T),
    /// Give up the processor until the next child signal.
    Pending,
    /// A child signal came in meanwhile: try again at once.
    Retry,
}

/// Checks the options and the pid of a wait, in that order, and builds the
/// request.
pub fn wait_request(pid: i32, flags: u32) -> (r: Result<WaitRequest, ProcessWaitError>)
    ensures
        match wait_target(pid) {
            Some(target) => r == Ok::<WaitRequest, ProcessWaitError>(WaitRequest { target, options: flags }),
            None => r == Err::<WaitRequest, ProcessWaitError>(ProcessWaitError::InvalidPid(pid)),
        },
{
    let options = match wait_options_from_bits(flags) {
        Some(o) => o,
        None => return Err(ProcessWaitError::InvalidFlags(flags)),
    };
    let target = if pid > 0 {
        match pid_from_raw(pid) {
            Some(p) => WaitTarget::Child(p),
            None => return Err(ProcessWaitError::InvalidPid(pid)),
        }
    } else if pid == 0 {
        WaitTarget::OwnGroup
    } else if pid == -1 {
        WaitTarget::AnyChild
    } else if pid > i32::MIN {
        match pid_from_raw(-pid) {
            Some(g) => WaitTarget::Group(g),
            None => return Err(ProcessWaitError::InvalidPid(pid)),
        }
    } else {
        return Err(ProcessWaitError::InvalidPid(pid));
    };
    Ok(WaitRequest { target, options })
}

/// The status a wait on `raw_pid` reports after one `waitpid` call.
pub fn status_after_wait(raw_pid: i32, outcome: WaitOutcome) -> (r: Option<ProcessStatusData>)
    ensures
        r == status_after(raw_pid, outcome),
        outcome matches WaitOutcome::Changed(raw) ==> (r matches Some(d) && d.pid == raw_pid && d.error == 0
            && d.status as u32 == raw),
{
    proof {
        if let WaitOutcome::Changed(raw) = outcome {
            law_wait_status_passes_through(raw_pid, raw, 0);
        }
    }
    match outcome {
        WaitOutcome::StillRunning => None,
        WaitOutcome::Failed(errno) => Some(ProcessStatusData { pid: -1, status: 0, error: errno }),
        WaitOutcome::Changed(raw) => Some(ProcessStatusData { pid: raw_pid, status: raw as i32, error: 0 }),
    }
}

/// One step of the waiting task: done once an attempt found a status;
/// otherwise wait for the next child signal if the signal stream had none
/// ready (`signal_pending`), or try again at once if one came in. A failed
/// attempt counts as no status.
pub fn poll_step<T, E>(signal_pending: bool, attempt: Result<Option<T>, E>) -> (step: PollStep<T>)
    ensures
        match attempt {
            Ok(Some(s)) => step == PollStep::Ready(s),
            _ => step == (if signal_pending { PollStep::<T>::Pending } else { PollStep::<T>::Retry }),
        },
{
    match attempt {
        Ok(Some(status)) => PollStep::Ready(status),
        _ => {
            if signal_pending {
                PollStep::Pending
            } else {
                PollStep::Retry
            }
        },
    }
}

/// A wait for a child process: its pid and options, and `G`, the stream of
/// child signals that wakes it.
pub struct PidWaiter<G> {
    pid: i32,
    flags: u32,
    signal: G,
}

impl<G> PidWaiter<G> {
    /// The pid waited for.
    pub closed spec fn pid(&self) -> i32 {
        self.pid
    }

    /// The wait options.
    pub closed spec fn flags(&self) -> u32 {
        self.flags
    }

    /// The stream of child signals.
    pub closed spec fn signal_stream(&self) -> G {
        self.signal
    }

    /// A wait for `pid` with `flags`, woken by `signal`.
    pub fn new(pid: i32, flags: u32, signal: G) -> (w: Self)
        ensures
            w.pid() == pid,
            w.flags() == flags,
            w.signal_stream() == signal,
    {
        PidWaiter { pid, flags, signal }
    }

    /// The `waitpid` request of one attempt.
    pub fn request(&self) -> (r: Result<WaitRequest, ProcessWaitError>)
        ensures
            match wait_target(self.pid()) {
                Some(target) => r == Ok::<WaitRequest, ProcessWaitError>(WaitRequest { target, options: self.flags() }),
                None => r == Err::<WaitRequest, ProcessWaitError>(ProcessWaitError::InvalidPid(self.pid())),
            },
    {
        wait_request(self.pid, self.flags)
    }

    /// The status this wait reports after one `waitpid` call.
    pub fn status(&self, outcome: WaitOutcome) -> (r: Option<ProcessStatusData>)
        ensures
            r == status_after(self.pid(), outcome),
    {
        status_after_wait(self.pid, outcome)
    }

    /// The stream of child signals, to poll it.
    pub fn signal(&mut self) -> (s: &mut G)
        ensures
            *s == old(self).signal_stream(),
            final(self).signal_stream() == *final(s),
            final(self).pid() == old(self).pid(),
            final(self).flags() == old(self).flags(),
    {
        &mut self.signal
    }
}

/// A child that changed state is reported under the pid that was waited
/// for, with no error, and with its raw wait status unchanged: reading the
/// reported status back as the OS's unsigned word gives the word the OS
/// returned, for every word. A child that is still running reports nothing,
/// and a failed call reports its error number under pid `-1`.
pub proof fn law_wait_status_passes_through(raw_pid: i32, raw: u32, errno: i32)
    ensures
        status_after(raw_pid, WaitOutcome::Changed(raw)) matches Some(d) && d.pid == raw_pid && d.error == 0
            && d.status as u32 == raw,
        status_after(raw_pid, WaitOutcome::StillRunning) is None,
        status_after(raw_pid, WaitOutcome::Failed(errno)) matches Some(d) && d.pid == -1 && d.error == errno,
{
    assert((raw as i32) as u32 == raw) by (bit_vector);
}

} // verus!
