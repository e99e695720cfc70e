use ptp_driver::action::TimerId;
use ptp_driver::timer::{Timer, TimerPoll};
use ptp_driver::timers::PortTimers;

#[test]
fn new_timer_never_fires() {
    let mut timer = Timer::new();
    assert!(!timer.needs_poll());
    assert_eq!(timer.poll(TimerPoll::Ready), TimerPoll::Pending);
    assert_eq!(timer.poll(TimerPoll::Pending), TimerPoll::Pending);
    assert!(!timer.needs_poll());
}

#[test]
fn timer_fires_once_per_reset() {
    let mut timer = Timer::new();
    timer.reset(10, 5);
    assert!(timer.needs_poll());
    assert_eq!(timer.poll(TimerPoll::Pending), TimerPoll::Pending);
    assert!(timer.needs_poll());
    assert_eq!(timer.poll(TimerPoll::Ready), TimerPoll::Ready);
    assert!(!timer.needs_poll());
    assert_eq!(timer.poll(TimerPoll::Ready), TimerPoll::Pending);
    timer.reset(10, 5);
    assert_eq!(timer.poll(TimerPoll::Ready), TimerPoll::Ready);
}

#[test]
fn timer_that_is_set_twice_fires_once() {
    let mut timer = Timer::new();
    timer.reset(10, 5);
    timer.reset(10, 5);
    assert_eq!(timer.poll(TimerPoll::Ready), TimerPoll::Ready);
    assert_eq!(timer.poll(TimerPoll::Ready), TimerPoll::Pending);
}

#[test]
fn set_timer_waits_for_its_sleep() {
    let mut timer = Timer::new();
    timer.reset(10, 5);
    for _ in 0..5 {
        assert_eq!(timer.poll(TimerPoll::Pending), TimerPoll::Pending);
    }
    assert_eq!(timer.poll(TimerPoll::Ready), TimerPoll::Ready);
}

#[test]
fn last_setting_decides_the_deadline() {
    let mut timer = Timer::new();
    assert_eq!(timer.reset(100, 50), 150);
    assert_eq!(timer.reset(110, 5), 115);
    let mut other = Timer::new();
    other.reset(110, 5);
    assert_eq!(timer, other);
    assert_eq!(timer.poll(TimerPoll::Ready), TimerPoll::Ready);
    assert_eq!(timer.reset(200, 0), 200);
    assert!(timer.needs_poll());
}

#[test]
fn timer_does_not_fire_before_its_deadline() {
    let mut timer = Timer::new();
    let deadline = timer.reset(7, 20);
    let mut fired = None;
    for now in 7..40u128 {
        let sleep = if now >= deadline { TimerPoll::Ready } else { TimerPoll::Pending };
        if timer.poll(sleep) == TimerPoll::Ready {
            assert_eq!(fired, None);
            fired = Some(now);
        }
    }
    assert_eq!(fired, Some(27));
}

#[test]
fn timers_of_a_port_are_set_and_fire_one_by_one() {
    let ids = [TimerId::PortAnnounceTimeout, TimerId::DelayRequest, TimerId::FilterUpdate];
    for id in ids {
        let mut timers = PortTimers::new();
        assert_eq!(timers.apply(id, 40, 2), 42);
        for other in ids {
            assert_eq!(timers.needs_poll(other), other == id);
        }
        for other in ids {
            let expected = if other == id { TimerPoll::Ready } else { TimerPoll::Pending };
            assert_eq!(timers.poll(other, TimerPoll::Ready), expected);
        }
        assert!(!timers.needs_poll(id));
    }
}

#[test]
fn setting_one_timer_of_a_port_keeps_the_others() {
    let mut timers = PortTimers::new();
    timers.apply(TimerId::PortAnnounceTimeout, 0, 9);
    timers.apply(TimerId::FilterUpdate, 1, 7);
    timers.apply(TimerId::DelayRequest, 2, 5);
    timers.apply(TimerId::DelayRequest, 3, 5);
    let mut expected = PortTimers::new();
    expected.apply(TimerId::DelayRequest, 3, 5);
    expected.apply(TimerId::FilterUpdate, 1, 7);
    expected.apply(TimerId::PortAnnounceTimeout, 0, 9);
    assert_eq!(timers, expected);
    assert_eq!(timers.poll(TimerId::FilterUpdate, TimerPoll::Ready), TimerPoll::Ready);
    assert!(timers.needs_poll(TimerId::DelayRequest));
    assert!(timers.needs_poll(TimerId::PortAnnounceTimeout));
}
