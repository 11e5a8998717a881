use shreduler::address_resolve::{lookup_reply, resolve_host};
use shreduler::interest::{file_ready, Interest, InterestError, IoInterests, Ready, RubyIoEvent};
use shreduler::io_plan::{
    read_plan, timeout_unless_zero, transfer_continues, transfer_result, write_plan, IoLengthError, IoOutcome,
    TransferPlan,
};
use shreduler::nilable::Nilable;
use shreduler::process_wait::{
    poll_step, status_after_wait, wait_request, PidWaiter, PollStep, ProcessStatusData, ProcessWaitError,
    WaitOutcome, WaitRequest, WaitTarget,
};
use shreduler::ruby_io::{BackingIo, BackingIoError, NonBlockGuard};
use shreduler::timeout_duration::{settle, sleep_plan, whole_seconds_until, Settled, SleepPlan, FAR_FUTURE_SECS};

const R: Interest = Interest { readable: true, writable: false };
const W: Interest = Interest { readable: false, writable: true };
const RW: Interest = Interest { readable: true, writable: true };

#[test]
fn test_conversions_from_ruby_io_interests() {
    let readable = RubyIoEvent::try_convert(1).unwrap();
    assert_eq!(Ok(R), readable.to_interest());
    let writable = RubyIoEvent::try_convert(4).unwrap();
    assert_eq!(Ok(W), writable.to_interest());
}

#[test]
fn ruby_io_events() {
    assert_eq!(RubyIoEvent::try_convert(8).unwrap_err(), InterestError::InvalidIoEvents(8));
    assert_eq!(RubyIoEvent::try_convert(2).unwrap().to_interest(), Err(InterestError::PriorityNotSupported));
    assert_eq!(RubyIoEvent::try_convert(7).unwrap().to_interest(), Err(InterestError::PriorityNotSupported));
    // both reading and writing asked: the wait is for reading
    assert_eq!(RubyIoEvent::try_convert(5).unwrap().to_interest(), Ok(R));
    assert_eq!(RubyIoEvent::try_convert(0).unwrap().to_interest(), Ok(W));
    assert_eq!(RubyIoEvent::readable().bits(), 1);
    assert!(RubyIoEvent::try_convert(5).unwrap().contains(RubyIoEvent::writable()));
    assert!(!RubyIoEvent::try_convert(5).unwrap().contains(RubyIoEvent::priority()));
}

#[test]
fn io_interests() {
    assert_eq!(IoInterests::try_convert(4).unwrap_err(), InterestError::InvalidIoInterests(4));
    assert_eq!(IoInterests::try_convert(0).unwrap().to_interest(), R);
    assert_eq!(IoInterests::try_convert(1).unwrap().to_interest(), R);
    assert_eq!(IoInterests::try_convert(2).unwrap().to_interest(), W);
    assert_eq!(IoInterests::try_convert(3).unwrap().to_interest(), RW);
    assert_eq!(IoInterests::from_bits(3).unwrap().bits(), 3);
    assert!(IoInterests::from_bits(u32::MAX).is_none());
    assert!(IoInterests::readable_writable().contains(IoInterests::writable()));
    assert!(!IoInterests::readable().contains(IoInterests::writable()));
    assert_eq!(Interest::readable().add(Interest::writable()), RW);
}

#[test]
fn files_are_always_ready() {
    assert_eq!(file_ready(RW), Ok(Ready { readable: true, writable: true }));
    assert_eq!(file_ready(R), Ok(Ready { readable: true, writable: false }));
    assert_eq!(file_ready(W), Ok(Ready { readable: false, writable: true }));
    assert_eq!(file_ready(Interest { readable: false, writable: false }), Err(InterestError::NothingToWaitFor));
}

#[test]
fn transfer_plans() {
    assert_eq!(read_plan(0, 10), Ok(TransferPlan { window: 10, minimum: 0 }));
    assert_eq!(read_plan(4, 10), Ok(TransferPlan { window: 10, minimum: 4 }));
    assert_eq!(read_plan(10, 10), Ok(TransferPlan { window: 10, minimum: 10 }));
    assert_eq!(read_plan(11, 10), Err(IoLengthError::ReadTooLong { requested: 11, available: 10 }));
    assert_eq!(write_plan(0, 0), Ok(TransferPlan { window: 0, minimum: 0 }));
    assert_eq!(write_plan(3, 2), Err(IoLengthError::WriteTooLong { requested: 3, available: 2 }));
}

#[test]
fn transfers_go_on_until_the_minimum() {
    let plan = TransferPlan { window: 8, minimum: 4 };
    assert!(transfer_continues(plan, 2, 2));
    assert!(!transfer_continues(plan, 4, 2));
    assert!(!transfer_continues(plan, 2, 0));
    let once = TransferPlan { window: 8, minimum: 0 };
    assert!(!transfer_continues(once, 3, 3));
}

#[test]
fn transfer_results() {
    assert_eq!(transfer_result(IoOutcome::Transferred(17)), 17);
    assert_eq!(transfer_result(IoOutcome::Failed(Some(11))), -11);
    assert_eq!(transfer_result(IoOutcome::Failed(None)), 0);
    assert_eq!(timeout_unless_zero(5, true), None);
    assert_eq!(timeout_unless_zero(5, false), Some(5));
}

#[test]
fn hosts_to_resolve() {
    assert_eq!(resolve_host("example.com"), Some(String::from("example.com")));
    assert_eq!(resolve_host("fe80::1%eth0"), None);
    assert_eq!(resolve_host("localhost:80"), None);
    assert_eq!(resolve_host("host%zone"), Some(String::from("host")));
    assert_eq!(resolve_host("host%zone:1"), Some(String::from("host")));
    assert_eq!(resolve_host(""), Some(String::new()));
    assert_eq!(resolve_host("h\u{e9}te"), Some(String::from("h\u{e9}te")));
}

#[test]
fn lookup_replies() {
    assert_eq!(lookup_reply::<Vec<u8>, ()>(Ok(vec![1])), Some(vec![1]));
    assert_eq!(lookup_reply::<Vec<u8>, &str>(Err("nxdomain")), None);
}

#[test]
fn io_wait_reports_the_ready_subset() {
    let both = RubyIoEvent::try_convert(5).unwrap();
    let all = Ready { readable: true, writable: true };
    assert_eq!(both.ready_events(all).bits(), 5);
    assert_eq!(both.ready_events(Ready { readable: true, writable: false }).bits(), 1);
    assert_eq!(both.ready_events(Ready { readable: false, writable: true }).bits(), 4);
    assert_eq!(RubyIoEvent::try_convert(1).unwrap().ready_events(all).bits(), 1);
    assert_eq!(RubyIoEvent::try_convert(6).unwrap().ready_events(all).bits(), 4);
    assert_eq!(RubyIoEvent::try_convert(4).unwrap().ready_events(Ready { readable: true, writable: false }).bits(), 0);
}

#[test]
fn backing_io_for_classes() {
    assert_eq!(BackingIo::from_classname("UNIXSocket"), Ok(BackingIo::UnixSocket));
    assert_eq!(BackingIo::from_classname("IO"), Ok(BackingIo::File));
    assert_eq!(BackingIo::from_classname("File"), Ok(BackingIo::File));
    assert_eq!(BackingIo::from_classname("UDPSocket"), Ok(BackingIo::UdpSocket));
    assert_eq!(BackingIo::from_classname("Socket"), Ok(BackingIo::TcpSocket));
    assert_eq!(BackingIo::from_classname("TCPSocket"), Err(BackingIoError::UnsupportedClass));
    assert_eq!(BackingIo::TcpSocket.name(), "TCPSocket");
    assert_eq!(BackingIo::UnixSocket.name(), "UNIXSocket");
    assert!(!BackingIo::UdpSocket.supports_streams());
    assert!(BackingIo::File.supports_streams());
    assert!(!BackingIo::File.polls_readiness());
}

#[test]
fn nonblock_guard_keeps_old_flags() {
    let (guard, new_flags) = NonBlockGuard::new(3, 2);
    assert_eq!(guard.raw_fd(), 3);
    assert_eq!(guard.old_flags(), 2);
    assert_eq!(new_flags, 2 | nix::fcntl::OFlag::O_NONBLOCK.bits());
    assert_eq!(guard.nonblock_bits(), nix::fcntl::OFlag::O_NONBLOCK.bits());
    assert_eq!(new_flags & guard.nonblock_bits(), guard.nonblock_bits());
}

#[test]
fn wait_requests() {
    assert_eq!(wait_request(0, 1), Ok(WaitRequest { target: WaitTarget::OwnGroup, options: 1 }));
    assert_eq!(wait_request(-1, 0), Ok(WaitRequest { target: WaitTarget::AnyChild, options: 0 }));
    assert_eq!(wait_request(77, 3), Ok(WaitRequest { target: WaitTarget::Child(77), options: 3 }));
    assert_eq!(wait_request(-5, 0), Ok(WaitRequest { target: WaitTarget::Group(5), options: 0 }));
    assert_eq!(wait_request(-2, 0), Ok(WaitRequest { target: WaitTarget::Group(2), options: 0 }));
    assert_eq!(
        wait_request(i32::MIN + 1, 0),
        Ok(WaitRequest { target: WaitTarget::Group(i32::MAX), options: 0 })
    );
    assert_eq!(wait_request(i32::MIN, 0), Err(ProcessWaitError::InvalidPid(i32::MIN)));
    assert_eq!(wait_request(3, u32::MAX), Ok(WaitRequest { target: WaitTarget::Child(3), options: u32::MAX }));
    let w = PidWaiter::new(9, 1, ());
    assert_eq!(w.request(), Ok(WaitRequest { target: WaitTarget::Child(9), options: 1 }));
}

#[test]
fn statuses_after_wait() {
    assert_eq!(status_after_wait(5, WaitOutcome::StillRunning), None);
    assert_eq!(
        status_after_wait(5, WaitOutcome::Failed(10)),
        Some(ProcessStatusData { pid: -1, status: 0, error: 10 })
    );
    assert_eq!(
        status_after_wait(5, WaitOutcome::Changed(256)),
        Some(ProcessStatusData { pid: 5, status: 256, error: 0 })
    );
    assert_eq!(
        status_after_wait(5, WaitOutcome::Changed(u32::MAX)),
        Some(ProcessStatusData { pid: 5, status: -1, error: 0 })
    );
    let w = PidWaiter::new(6, 0, ());
    assert_eq!(w.status(WaitOutcome::Changed(0)), Some(ProcessStatusData { pid: 6, status: 0, error: 0 }));
}

#[test]
fn poll_steps() {
    assert_eq!(poll_step::<u8, ()>(true, Ok(Some(1))), PollStep::Ready(1));
    assert_eq!(poll_step::<u8, ()>(true, Ok(None)), PollStep::Pending);
    assert_eq!(poll_step::<u8, ()>(false, Ok(None)), PollStep::Retry);
    assert_eq!(poll_step::<u8, ()>(false, Err(())), PollStep::Retry);
    assert_eq!(poll_step::<u8, ()>(true, Err(())), PollStep::Pending);
}

#[test]
fn timeouts() {
    assert_eq!(FAR_FUTURE_SECS, 946_080_000);
    assert_eq!(whole_seconds_until(None), FAR_FUTURE_SECS);
    assert_eq!(whole_seconds_until(Some(3)), 3);
    assert_eq!(sleep_plan(0, 0), SleepPlan::ReplyNow);
    assert_eq!(sleep_plan(0, 5), SleepPlan::SleepThenReply(0));
    assert_eq!(sleep_plan(2, 0), SleepPlan::SleepThenReply(2));
    assert!(matches!(settle::<u8, ()>(true, Some(Ok(1))), Settled::Value(1)));
    assert!(matches!(settle::<u8, &str>(false, Some(Err("e"))), Settled::Error("e")));
    assert!(matches!(settle::<u8, ()>(true, None), Settled::TimedOut));
    assert!(matches!(settle::<u8, ()>(false, None), Settled::Nil));
}

#[test]
fn nilable_values() {
    let v: Nilable<u8> = Nilable::Value(3);
    assert!(v.is_some() && !v.is_none() && !v.is_nil());
    assert_eq!(v.into_option(), Some(3));
    let n: Nilable<u8> = Nilable::Nil;
    assert!(!n.is_some() && n.is_none() && n.is_nil());
    assert_eq!(n.into_option(), None);
}
