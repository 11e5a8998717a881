//! The durations the scheduler's hooks receive and what it does when they
//! run out.
use vstd::prelude::*;

verus! {

/// The timeout that stands for "never": thirty years of 365 days, in seconds.
pub const FAR_FUTURE_SECS: u64 = 86400 * 365 * 30;

/// The whole seconds a timeout given as `nil` (`None`) or as an Integer
/// number of seconds lasts.
pub fn whole_seconds_until(value: Option<u64>) -> (secs: u64)
    ensures
        secs == match value {
            None => FAR_FUTURE_SECS,
            Some(n) => n,
        },
{
    match value {
        None => FAR_FUTURE_SECS,
        Some(n) => n,
    }
}

/// What `kernel_sleep` does for a duration.
#[derive(Debug, Clone, Copy, PartialEq, Eq, Structural)]
pub enum SleepPlan {
    /// Answer at once with `0`.
    ReplyNow,
    /// Sleep the duration, then answer with its whole seconds.
    SleepThenReply(u64),
}

/// The plan of `kernel_sleep` for a duration of `secs` seconds and `nanos`
/// nanoseconds.
pub fn sleep_plan(secs: u64, nanos: u32) -> (p: SleepPlan)
    ensures
        p == (if secs == 0 && nanos == 0 { SleepPlan::ReplyNow } else { SleepPlan::SleepThenReply(secs) }),
{
    if secs == 0 && nanos == 0 {
        SleepPlan::ReplyNow
    } else {
        SleepPlan::SleepThenReply(secs)
    }
}

/// How a piece of work that ran under a timeout ends.
#[derive(Debug)]
pub enum Settled<V, E> {
    /// The work finished with this value.
    Value(V),
    /// The work failed with this error.
    Error(E),
    /// The timeout ran out and a timeout error is raised.
    TimedOut,
    /// The timeout ran out and the answer is `nil`.
    Nil,
}

/// How work under a timeout ends: with its own outcome if it finished
/// (`Some`); when the timeout ran out (`None`), with a timeout error if
/// `raise_on_timeout`, else with `nil`.
pub fn settle<V, E>(raise_on_timeout: bool, outcome: Option<Result<V, E>>) -> (s: Settled<V, E>)
    ensures
        match outcome {
            Some(Ok(v)) => s matches Settled::Value(x) && x == v,
            Some(Err(e)) => s matches Settled::Error(x) && x == e,
            None => if raise_on_timeout { s matches Settled::TimedOut } else { s matches Settled::Nil },
        },
{
    match outcome {
        Some(Ok(v)) => Settled::Value(v),
        Some(Err(e)) => Settled::Error(e),
        None => {
            if raise_on_timeout {
                Settled::TimedOut
            } else {
                Settled::Nil
            }
        },
    }
}

} // verus!
