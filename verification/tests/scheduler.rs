use shreduler::fiber::{Fiber, FiberError, Running, Suspended, Unknown};
use shreduler::gc_cell::BorrowError;
use shreduler::scheduler::{BlockError, Hook, SchedulerError, TokioScheduler, WaitEnd};

fn scheduler() -> TokioScheduler<&'static str, Vec<u32>, u8> {
    TokioScheduler::new(Fiber::<Unknown>::from_raw(1), Vec::new(), 9)
}

#[test]
fn unblock_hands_back_what_block_registered() {
    let mut s = scheduler();
    let f = Fiber::<Running>::from_raw(42);
    assert_eq!(s.block(&f, "waker-42"), None);
    assert_eq!(s.unblock(42, true, true, false), Ok(Some("waker-42")));
    assert_eq!(s.unblock(42, true, true, false), Ok(None));
}

#[test]
fn block_twice_displaces_the_first_handle() {
    let mut s = scheduler();
    let f = Fiber::<Running>::from_raw(5);
    assert_eq!(s.block(&f, "first"), None);
    assert_eq!(s.block(&f, "second"), Some("first"));
    assert_eq!(s.unblock(5, true, true, false), Ok(Some("second")));
}

#[test]
fn blocking_one_fiber_leaves_another() {
    let mut s = scheduler();
    s.block(&Fiber::<Running>::from_raw(5), "five");
    s.block(&Fiber::<Running>::from_raw(6), "six");
    assert_eq!(s.unblock(6, true, true, false), Ok(Some("six")));
    assert_eq!(s.unblock(5, true, true, false), Ok(Some("five")));
}

#[test]
fn unblock_checks_the_fiber_first() {
    let mut s = scheduler();
    s.block(&Fiber::<Running>::from_raw(7), "seven");
    assert_eq!(s.unblock(7, false, true, false), Err(FiberError::NotAFiber));
    assert_eq!(s.unblock(7, true, false, false), Err(FiberError::NotAlive));
    assert_eq!(s.unblock(7, true, true, true), Err(FiberError::Active));
    assert_eq!(s.unblock(7, true, true, false), Ok(Some("seven")));
}

#[test]
fn wake_after_a_finished_block() {
    let mut s = scheduler();
    s.block(&Fiber::<Running>::from_raw(3), "three");
    assert_eq!(s.wake(&Fiber::<Suspended>::from_raw(3)), Some("three"));
    assert_eq!(s.wake(&Fiber::<Suspended>::from_raw(3)), None);
}

#[test]
fn woken_block_answers_true() {
    let mut s = scheduler();
    let f = Fiber::<Running>::from_raw(8);
    s.block(&f, "eight");
    assert_eq!(s.unblock(8, true, true, false), Ok(Some("eight")));
    assert_eq!(s.finish_block(&f.as_suspended(), WaitEnd::Woken), Ok(true));
    assert_eq!(s.unblock(8, true, true, false), Ok(None));
}

#[test]
fn timed_out_block_answers_false_and_deregisters() {
    let mut s = scheduler();
    let f = Fiber::<Running>::from_raw(9);
    s.block(&f, "nine");
    assert_eq!(s.finish_block(&f.as_suspended(), WaitEnd::TimedOut), Ok(false));
    assert_eq!(s.unblock(9, true, true, false), Ok(None));
}

#[test]
fn abandoned_block_fails() {
    let mut s = scheduler();
    let f = Fiber::<Running>::from_raw(10);
    s.block(&f, "ten");
    assert_eq!(s.finish_block(&f.as_suspended(), WaitEnd::Abandoned), Err(BlockError::Abandoned));
    assert_eq!(s.unblock(10, true, true, false), Ok(None));
}

#[test]
fn root_fiber_and_runtime() {
    let mut s = scheduler();
    assert!(s.is_current_fiber_root(&Fiber::<Running>::from_raw(1)));
    assert!(!s.is_current_fiber_root(&Fiber::<Running>::from_raw(2)));
    assert_eq!(s.root_fiber().as_raw(), 1);
    assert_eq!(s.runtime().map(|r| *r), Ok(9));
    assert_eq!(s.take_runtime(), Some(9));
    assert_eq!(s.runtime().map(|r| *r), Err(SchedulerError::RuntimeClosed));
    assert_eq!(s.take_runtime(), None);
}

#[test]
fn pending_tasks_cell_refuses_a_second_borrow() {
    let mut s = scheduler();
    let token = s.futures_to_run().try_borrow_mut().unwrap();
    token.deref_mut(s.futures_to_run()).push(4);
    assert_eq!(s.futures_to_run().try_borrow_mut().err(), Some(BorrowError::AlreadyBorrowed));
    token.release(s.futures_to_run());
    let token = s.futures_to_run().try_borrow().unwrap();
    assert_eq!(token.deref(s.futures_to_run()), &vec![4]);
}

#[test]
fn gc_marks_root_and_blocked_fibers() {
    let mut s = scheduler();
    s.block(&Fiber::<Running>::from_raw(10), "a");
    s.block(&Fiber::<Running>::from_raw(11), "b");
    let marked: Vec<usize> = s.fibers_to_mark(true).iter().map(|f| f.as_raw()).collect();
    assert_eq!(marked.len(), 3);
    assert_eq!(marked[0], 1);
    let mut rest = marked[1..].to_vec();
    rest.sort();
    assert_eq!(rest, vec![10, 11]);
}

#[test]
fn positional_io_is_not_implemented() {
    let s = scheduler();
    let mut buf = [1u8, 2, 3];
    assert_eq!(s.io_pread(3, &mut buf, 0, 3, 0), Err(SchedulerError::NotImplemented(Hook::IoPread)));
    assert_eq!(buf, [1, 2, 3]);
    assert_eq!(s.io_pwrite(3, &buf, 0, 3, 0), Err(SchedulerError::NotImplemented(Hook::IoPwrite)));
}
