//! The arithmetic around `io_read` and `io_write`: how much to transfer,
//! when a request is refused, and the integer Ruby receives back.
use vstd::prelude::*;

verus! {

/// `nix::errno::Errno::UnknownErrno`, the error number used when the OS
/// gave none; nix defines it as `0`.
#[verifier::external_body]
fn unknown_errno() -> (e: i32)
    ensures
        e == 0,
{
    nix::errno::Errno::UnknownErrno as i32
}

/// Why a transfer was refused before it started.
#[derive(Debug, Clone, Copy, PartialEq, Eq, Structural)]
pub enum IoLengthError {
    /// "Cannot read more than the buffer size: {requested} > {available}".
    ReadTooLong { requested: usize, available: usize },
    /// "Cannot write more than the buffer size: {requested} > {available}".
    WriteTooLong { requested: usize, available: usize },
}

/// What a finished transfer gave: a byte count, or an error with the OS
/// error number if there was one.
#[derive(Debug, Clone, Copy, PartialEq, Eq, Structural)]
pub enum IoOutcome {
    Transferred(u64),
    Failed(Option<i32>),
}

/// The bytes a transfer works on: the first `window` bytes of the buffer,
/// at least `minimum` of them (with `0`, one attempt and whatever it
/// moves).
#[derive(Debug, Clone, Copy, PartialEq, Eq, Structural)]
pub struct TransferPlan {
    pub window: usize,
    pub minimum: usize,
}

/// The plan of a transfer of at least `minimum` bytes with a buffer of
/// `buffer_len` bytes: up to the whole buffer, at least the minimum;
/// `None` when the minimum does not fit in the buffer.
pub open spec fn transfer_plan(minimum: usize, buffer_len: usize) -> Option<TransferPlan> {
    if minimum > buffer_len {
        None
    } else {
        Some(TransferPlan { window: buffer_len, minimum })
    }
}

/// A transfer that is not refused is planned on the whole buffer, for at
/// least the minimum asked for.
pub proof fn law_transfer_fits_buffer(minimum: usize, buffer_len: usize)
    ensures
        transfer_plan(minimum, buffer_len) is Some <==> minimum <= buffer_len,
        transfer_plan(minimum, buffer_len) matches Some(p) ==> p.minimum <= p.window && p.window == buffer_len
            && p.minimum == minimum,
{
}

/// The integer a transfer reports to Ruby: the byte count, or the negated
/// OS error number (`0` when there was none).
pub open spec fn transfer_code(outcome: IoOutcome) -> int {
    match outcome {
        IoOutcome::Transferred(n) => n as int,
        IoOutcome::Failed(Some(errno)) => -errno,
        IoOutcome::Failed(None) => 0,
    }
}

/// A finished transfer reports exactly the bytes it moved, so its code is
/// never negative; a failed one reports the negated error number, never a
/// positive count.
pub proof fn law_transfer_code_counts_bytes(n: u64, errno: i32)
    ensures
        transfer_code(IoOutcome::Transferred(n)) == n,
        transfer_code(IoOutcome::Transferred(n)) >= 0,
        transfer_code(IoOutcome::Failed(Some(errno))) == -errno,
        errno >= 0 ==> transfer_code(IoOutcome::Failed(Some(errno))) <= 0,
        transfer_code(IoOutcome::Failed(None)) == 0,
{
}

/// The plan of `io_read` into a buffer of `buffer_len` bytes when asked
/// for at least `minimum_length_to_read` bytes.
pub fn read_plan(minimum_length_to_read: usize, buffer_len: usize) -> (r: Result<TransferPlan, IoLengthError>)
    ensures
        match transfer_plan(minimum_length_to_read, buffer_len) {
            Some(p) => r == Ok::<TransferPlan, IoLengthError>(p),
            None => r == Err::<TransferPlan, IoLengthError>(
                IoLengthError::ReadTooLong { requested: minimum_length_to_read, available: buffer_len },
            ),
        },
{
    if minimum_length_to_read > buffer_len {
        return Err(IoLengthError::ReadTooLong { requested: minimum_length_to_read, available: buffer_len });
    }
    Ok(TransferPlan { window: buffer_len, minimum: minimum_length_to_read })
}

/// The plan of `io_write` from a buffer of `buffer_len` bytes when asked
/// for at least `minimum_length_to_be_written` bytes.
pub fn write_plan(minimum_length_to_be_written: usize, buffer_len: usize) -> (r: Result<TransferPlan, IoLengthError>)
    ensures
        match transfer_plan(minimum_length_to_be_written, buffer_len) {
            Some(p) => r == Ok::<TransferPlan, IoLengthError>(p),
            None => r == Err::<TransferPlan, IoLengthError>(
                IoLengthError::WriteTooLong { requested: minimum_length_to_be_written, available: buffer_len },
            ),
        },
{
    if minimum_length_to_be_written > buffer_len {
        return Err(IoLengthError::WriteTooLong { requested: minimum_length_to_be_written, available: buffer_len });
    }
    Ok(TransferPlan { window: buffer_len, minimum: minimum_length_to_be_written })
}

/// Whether a transfer that has moved `done` bytes, the last attempt
/// moving `last`, goes on: while fewer than the minimum are done and the
/// last attempt moved something.
pub fn transfer_continues(plan: TransferPlan, done: usize, last: usize) -> (more: bool)
    ensures
        more == (done < plan.minimum && last > 0 && done < plan.window),
{
    done < plan.minimum && last > 0 && done < plan.window
}

/// The integer a finished transfer reports to Ruby.
pub fn transfer_result(outcome: IoOutcome) -> (code: isize)
    requires
        outcome matches IoOutcome::Transferred(n) ==> n <= isize::MAX,
        outcome matches IoOutcome::Failed(Some(errno)) ==> errno > i32::MIN,
    ensures
        code == transfer_code(outcome),
        outcome matches IoOutcome::Transferred(n) ==> code == n,
        outcome matches IoOutcome::Failed(Some(errno)) ==> code == -errno,
        outcome == IoOutcome::Failed(None) ==> code == 0,
{
    match outcome {
        IoOutcome::Transferred(n) => n as isize,
        IoOutcome::Failed(os_error) => {
            let errno = match os_error {
                Some(e) => e,
                None => unknown_errno(),
            };
            -(errno as isize)
        },
    }
}

/// The timeout of a transfer: none when Ruby passed a zero timeout.
pub fn timeout_unless_zero<T>(timeout: T, is_zero: bool) -> (r: Option<T>)
    ensures
        r == (if is_zero { None } else { Some(timeout) }),
{
    if is_zero {
        None
    } else {
        Some(timeout)
    }
}

} // verus!
