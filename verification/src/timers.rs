//! The timers of a port task.

use crate::action::TimerId;
use crate::timer::{Timer, TimerPoll};
use vstd::prelude::*;

verus! {

/// The three timers of a port task.
#[derive(Debug, PartialEq, Eq)]
pub struct PortTimers {
    port_announce_timeout: Timer,
    delay_request: Timer,
    filter_update: Timer,
}

/// The state of the three timers.
pub ghost struct TimersState {
    pub port_announce_timeout: crate::timer::TimerState,
    pub delay_request: crate::timer::TimerState,
    pub filter_update: crate::timer::TimerState,
}

impl TimersState {
    /// The state of timers that have not been set.
    pub open spec fn start() -> TimersState {
        TimersState {
            port_announce_timeout: crate::timer::TimerState::start(),
            delay_request: crate::timer::TimerState::start(),
            filter_update: crate::timer::TimerState::start(),
        }
    }

    /// The state of one timer.
    pub open spec fn get(self, timer: TimerId) -> crate::timer::TimerState {
        match timer {
            TimerId::PortAnnounceTimeout => self.port_announce_timeout,
            TimerId::DelayRequest => self.delay_request,
            TimerId::FilterUpdate => self.filter_update,
        }
    }

    /// The state with `state` for one timer and the other two as they are.
    pub open spec fn with(self, timer: TimerId, state: crate::timer::TimerState) -> TimersState {
        match timer {
            TimerId::PortAnnounceTimeout => TimersState { port_announce_timeout: state, ..self },
            TimerId::DelayRequest => TimersState { delay_request: state, ..self },
            TimerId::FilterUpdate => TimersState { filter_update: state, ..self },
        }
    }

    /// The state after one timer is set at `now` to fire after `duration`.
    pub open spec fn set(self, timer: TimerId, now: int, duration: int) -> TimersState {
        self.with(timer, self.get(timer).set(now, duration))
    }

    /// The state after one timer is polled while its sleep gives `sleep`.
    pub open spec fn polled(self, timer: TimerId, sleep: TimerPoll) -> TimersState {
        self.with(timer, self.get(timer).polled(sleep))
    }
}

impl View for PortTimers {
    type V = TimersState;

    closed spec fn view(&self) -> TimersState {
        TimersState {
            port_announce_timeout: self.port_announce_timeout@,
            delay_request: self.delay_request@,
            filter_update: self.filter_update@,
        }
    }
}

impl PortTimers {
    /// Timers that have not been set.
    pub fn new() -> (timers: PortTimers)
        ensures
            timers@ == TimersState::start(),
    {
        PortTimers {
            port_announce_timeout: Timer::new(),
            delay_request: Timer::new(),
            filter_update: Timer::new(),
        }
    }

    /// Sets one timer at `now` to fire after `duration`, and gives the deadline
    /// that its sleep is to have. The other two stay as they are.
    pub fn apply(&mut self, timer: TimerId, now: u128, duration: u128) -> (deadline: u128)
        requires
            now + duration <= u128::MAX,
        ensures
            final(self)@ == old(self)@.set(timer, now as int, duration as int),
            final(self)@.get(timer) == old(self)@.get(timer).set(now as int, duration as int),
            forall|other: TimerId|
                other != timer ==> (#[trigger] final(self)@.get(other)) == old(self)@.get(other),
            deadline == now + duration,
    {
        match timer {
            TimerId::PortAnnounceTimeout => self.port_announce_timeout.reset(now, duration),
            TimerId::DelayRequest => self.delay_request.reset(now, duration),
            TimerId::FilterUpdate => self.filter_update.reset(now, duration),
        }
    }

    /// Whether the sleep of one timer is to be polled at all.
    pub fn needs_poll(&self, timer: TimerId) -> (needed: bool)
        ensures
            needed == self@.get(timer).running,
    {
        match timer {
            TimerId::PortAnnounceTimeout => self.port_announce_timeout.needs_poll(),
            TimerId::DelayRequest => self.delay_request.needs_poll(),
            TimerId::FilterUpdate => self.filter_update.needs_poll(),
        }
    }

    /// Polls one timer, whose sleep gave `sleep`. The other two stay as they are.
    pub fn poll(&mut self, timer: TimerId, sleep: TimerPoll) -> (result: TimerPoll)
        ensures
            result is Ready <==> old(self)@.get(timer).fires(sleep),
            final(self)@ == old(self)@.polled(timer, sleep),
            final(self)@.get(timer) == old(self)@.get(timer).polled(sleep),
            forall|other: TimerId|
                other != timer ==> (#[trigger] final(self)@.get(other)) == old(self)@.get(other),
    {
        match timer {
            TimerId::PortAnnounceTimeout => self.port_announce_timeout.poll(sleep),
            TimerId::DelayRequest => self.delay_request.poll(sleep),
            TimerId::FilterUpdate => self.filter_update.poll(sleep),
        }
    }
}

/// New timers do not run. Each says that its sleep is to be polled exactly while
/// it runs.
pub proof fn law_new_timers_do_not_run(
    fresh: PortTimers,
    timers: PortTimers,
    timer: TimerId,
    needed: bool,
)
    requires
        call_ensures(PortTimers::new, (), fresh),
        call_ensures(PortTimers::needs_poll, (&timers, timer), needed),
    ensures
        !fresh@.get(timer).running,
        needed == timers@.get(timer).running,
{
}

/// Setting a timer makes it run with the deadline that it is given, whatever it
/// was, and keeps every other one.
pub proof fn law_setting_concerns_one_timer(
    timers: &mut PortTimers,
    timer: TimerId,
    other: TimerId,
    now: u128,
    duration: u128,
    deadline: u128,
)
    requires
        call_ensures(PortTimers::apply, (timers, timer, now, duration), deadline),
        other != timer,
    ensures
        final(timers)@.get(timer).running,
        final(timers)@.get(timer).deadline == now + duration,
        deadline == now + duration,
        final(timers)@.get(other) == old(timers)@.get(other),
{
}

/// A poll is ready exactly if the timer runs and its sleep has elapsed. A poll
/// that is ready stops the timer, and nothing else changes.
pub proof fn law_poll_concerns_one_timer(
    timers: &mut PortTimers,
    timer: TimerId,
    other: TimerId,
    sleep: TimerPoll,
    result: TimerPoll,
)
    requires
        call_ensures(PortTimers::poll, (timers, timer, sleep), result),
        other != timer,
    ensures
        result is Ready <==> old(timers)@.get(timer).running && sleep is Ready,
        result is Ready ==> !final(timers)@.get(timer).running,
        result is Pending ==> final(timers)@.get(timer) == old(timers)@.get(timer),
        final(timers)@.get(timer).deadline == old(timers)@.get(timer).deadline,
        final(timers)@.get(other) == old(timers)@.get(other),
{
}

} // verus!
