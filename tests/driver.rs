use future_bridge::binding::{PendingPromiseBinding, SettleAck};
use future_bridge::driver::{PollRefusal, PollResult, TaskDriver, TaskState};

#[test]
fn task_runs_suspends_and_completes() {
    let mut d = TaskDriver::new();
    assert_eq!(d.begin_poll(), Ok(()));
    assert_eq!(d.begin_poll(), Err(PollRefusal::Reentrant));
    d.end_poll(PollResult::Pending);
    assert_eq!(d.current(), TaskState::Suspended { woken: false });
    assert_eq!(d.begin_poll(), Err(PollRefusal::NotWoken));
    assert!(d.wake());
    assert!(!d.wake());
    assert_eq!(d.begin_poll(), Ok(()));
    d.end_poll(PollResult::Ready);
    assert_eq!(d.current(), TaskState::Completed);
    assert_eq!(d.begin_poll(), Err(PollRefusal::Finished));
    assert!(!d.wake());
    assert_eq!(d.current(), TaskState::Completed);
}

#[test]
fn wake_during_poll_is_kept() {
    let mut d = TaskDriver::new();
    d.begin_poll().unwrap();
    assert!(!d.wake());
    d.end_poll(PollResult::Pending);
    assert_eq!(d.current(), TaskState::Suspended { woken: true });
}

#[test]
fn panicked_task_is_not_polled_again() {
    let mut d = TaskDriver::new();
    d.begin_poll().unwrap();
    d.end_poll(PollResult::Panic);
    assert_eq!(d.current(), TaskState::Panicked);
    assert_eq!(d.begin_poll(), Err(PollRefusal::Finished));
}

#[test]
fn binding_hands_value_over_once() {
    let mut b: PendingPromiseBinding<i32> = PendingPromiseBinding::new();
    assert_eq!(b.take(), None);
    assert_eq!(b.settle(Ok(5)), SettleAck::Wake);
    assert_eq!(b.settle(Err("late".to_string())), SettleAck::AlreadySettled);
    assert_eq!(b.take(), Some(Ok(5)));
    assert_eq!(b.take(), None);
}

#[test]
fn settle_after_drop_is_ignored() {
    let mut b: PendingPromiseBinding<i32> = PendingPromiseBinding::new();
    b.abandon();
    assert_eq!(b.settle(Ok(1)), SettleAck::Abandoned);
    assert_eq!(b.take(), None);
}
