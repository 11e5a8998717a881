use shreduler::blockers::Blockers;
use shreduler::fiber::{Fiber, FiberError, Running, Suspended, Terminated, Unknown};
use shreduler::fiber_future::{
    after_resume, next_action, select_reply, LoopAction, LoopEvent, ResumableFiber, ResumeStep,
    SelectWinner,
};

#[test]
fn from_value_accepts_only_fibers() {
    assert_eq!(Fiber::<Suspended>::from_value(8, false).unwrap_err(), FiberError::NotAFiber);
    assert_eq!(Fiber::<Terminated>::from_value(8, true).unwrap().as_raw(), 8);
}

#[test]
fn check_suspended_requires_a_live_other_fiber() {
    let f = Fiber::<Unknown>::from_raw(12);
    assert_eq!(f.check_suspended(false, false).unwrap_err(), FiberError::NotAlive);
    assert_eq!(f.check_suspended(false, true).unwrap_err(), FiberError::NotAlive);
    assert_eq!(f.check_suspended(true, true).unwrap_err(), FiberError::Active);
    assert_eq!(f.check_suspended(true, false).unwrap().as_raw(), 12);
}

#[test]
fn fibers_compare_by_object() {
    let a = Fiber::<Suspended>::from_raw(3);
    let b = Fiber::<Running>::from_raw(3).as_suspended();
    assert!(a == b);
    assert!(a != Fiber::<Suspended>::from_raw(4));
    assert!(a.as_unchecked().is_current(&Fiber::<Running>::from_raw(3)));
    assert!(!a.as_unknown().is_current(&Fiber::<Running>::from_raw(5)));
}

#[test]
fn resume_if_alive_steps() {
    let f = Fiber::<Unknown>::from_raw(20);
    let dead: ResumableFiber<i32, &str> = ResumableFiber::new(f, Ok(1));
    assert!(matches!(dead.resume_if_alive(false, false), Ok(ResumeStep::Dead)));
    let active: ResumableFiber<i32, &str> = ResumableFiber::new(f, Ok(1));
    assert!(matches!(active.resume_if_alive(true, true), Err(FiberError::Active)));
    let ok: ResumableFiber<i32, &str> = ResumableFiber::new(f, Ok(5));
    match ok.resume_if_alive(true, false) {
        Ok(ResumeStep::Transfer(g, v)) => {
            assert_eq!(g.as_raw(), 20);
            assert_eq!(v, 5);
        }
        _ => panic!("expected a transfer"),
    }
    let err: ResumableFiber<i32, &str> = ResumableFiber::new(f, Err("boom"));
    match err.resume_if_alive(true, false) {
        Ok(ResumeStep::Raise(g, e)) => {
            assert_eq!(g.as_raw(), 20);
            assert_eq!(e, "boom");
        }
        _ => panic!("expected a raise"),
    }
}

#[test]
fn event_loop_actions() {
    let a: LoopAction<u8, &str> = next_action(LoopEvent::<u8, (), &str>::Joined(4));
    assert!(matches!(a, LoopAction::Resume(4)));
    let a: LoopAction<u8, &str> = next_action(LoopEvent::<u8, (), &str>::JoinFailed(()));
    assert!(matches!(a, LoopAction::Continue));
    let a: LoopAction<u8, &str> = next_action(LoopEvent::<u8, (), &str>::Drained);
    assert!(matches!(a, LoopAction::Finish));
    let a: LoopAction<u8, &str> = next_action(LoopEvent::<u8, (), &str>::Interrupted("int"));
    assert!(matches!(a, LoopAction::AbortAll("int")));
    assert_eq!(after_resume::<u8, &str>(Ok(Some(1))), None);
    assert_eq!(after_resume::<u8, &str>(Ok(None)), None);
    assert_eq!(after_resume::<u8, &str>(Err("bad")), Some("bad"));
}

#[test]
fn select_reply_places_the_winner() {
    let r = select_reply(SelectWinner::Writable(vec![3])).unwrap();
    assert_eq!(r.readable, None);
    assert_eq!(r.writable, Some(vec![3]));
    assert_eq!(r.exceptable, None);
    let r = select_reply(SelectWinner::Exceptable(1)).unwrap();
    assert_eq!((r.readable, r.writable, r.exceptable), (None, None, Some(1)));
    let r = select_reply(SelectWinner::Readable(2)).unwrap();
    assert_eq!((r.readable, r.writable, r.exceptable), (Some(2), None, None));
    assert!(select_reply::<u8>(SelectWinner::TimedOut).is_none());
}

#[test]
fn blockers_registry() {
    let mut b: Blockers<u32> = Blockers::new();
    let f = Fiber::<Suspended>::from_raw(9);
    assert!(!b.is_blocked(&f));
    assert_eq!(b.block(&f, 1), None);
    assert!(b.is_blocked(&f));
    assert_eq!(b.len(), 1);
    assert_eq!(b.block(&f, 2), Some(1));
    assert_eq!(b.len(), 1);
    assert_eq!(b.blocked_fibers().len(), 1);
    assert_eq!(b.unblock(&f), Some(2));
    assert_eq!(b.unblock(&f), None);
    assert_eq!(b.len(), 0);
}

#[test]
fn fibers_order_and_hash_by_object() {
    let mut v = vec![
        Fiber::<Suspended>::from_raw(9),
        Fiber::<Suspended>::from_raw(2),
        Fiber::<Suspended>::from_raw(5),
    ];
    v.sort();
    let raws: Vec<usize> = v.iter().map(|f| f.as_raw()).collect();
    assert_eq!(raws, vec![2, 5, 9]);
    let set: std::collections::HashSet<Fiber<Suspended>> =
        [Fiber::from_raw(1), Fiber::from_raw(1), Fiber::from_raw(3)].into_iter().collect();
    assert_eq!(set.len(), 2);
}
