//! A timer that fires once for each time it is set.
//!
//! Times are in nanoseconds from an origin that the program around the timer
//! chooses.

use vstd::prelude::*;

verus! {

/// What polling a timer gives.
#[derive(Clone, Copy, Debug, PartialEq, Eq, Structural)]
pub enum TimerPoll {
    Ready,
    Pending,
}

/// A timer over a sleep that the program around it keeps. A timer that is not
/// running never fires, whether or not the sleep has elapsed.
#[derive(Debug, PartialEq, Eq)]
pub struct Timer {
    running: bool,
    deadline: u128,
}

/// The state of a timer.
pub ghost struct TimerState {
    /// Whether the timer has been set and has not fired since.
    pub running: bool,
    /// When the sleep of the timer is to elapse.
    pub deadline: int,
}

impl TimerState {
    /// The state of a timer that has not been set.
    pub open spec fn start() -> TimerState {
        TimerState { running: false, deadline: 0 }
    }

    /// The state after the timer is set at `now` to fire after `duration`.
    pub open spec fn set(self, now: int, duration: int) -> TimerState {
        TimerState { running: true, deadline: now + duration }
    }

    /// Whether the timer fires when it is polled while its sleep gives `sleep`.
    pub open spec fn fires(self, sleep: TimerPoll) -> bool {
        self.running && sleep is Ready
    }

    /// The state after the timer is polled while its sleep gives `sleep`: a timer
    /// that fires stops.
    pub open spec fn polled(self, sleep: TimerPoll) -> TimerState {
        TimerState { running: self.running && !self.fires(sleep), deadline: self.deadline }
    }
}

impl View for Timer {
    type V = TimerState;

    closed spec fn view(&self) -> TimerState {
        TimerState { running: self.running, deadline: self.deadline as int }
    }
}

impl Timer {
    /// A timer that has not been set.
    pub fn new() -> (timer: Timer)
        ensures
            timer@ == TimerState::start(),
    {
        Timer { running: false, deadline: 0 }
    }

    /// Sets the timer at `now` to fire after `duration`, whatever it was set to
    /// before, and gives the deadline that its sleep is to have.
    pub fn reset(&mut self, now: u128, duration: u128) -> (deadline: u128)
        requires
            now + duration <= u128::MAX,
        ensures
            final(self)@ == old(self)@.set(now as int, duration as int),
            deadline == now + duration,
    {
        self.running = true;
        self.deadline = now + duration;
        self.deadline
    }

    /// Whether the sleep is to be polled at all.
    pub fn needs_poll(&self) -> (needed: bool)
        ensures
            needed == self@.running,
    {
        self.running
    }

    /// Polls the timer. `sleep` is what its sleep gave; of a timer that is not
    /// running it does not matter. A timer that fires stops.
    pub fn poll(&mut self, sleep: TimerPoll) -> (result: TimerPoll)
        ensures
            result is Ready <==> old(self)@.fires(sleep),
            final(self)@ == old(self)@.polled(sleep),
    {
        if self.running {
            if sleep != TimerPoll::Pending {
                self.running = false;
            }
            sleep
        } else {
            TimerPoll::Pending
        }
    }
}

/// Something that is done with a timer.
pub ghost enum TimerOp {
    /// The timer is set at `now` to fire after `duration`.
    Reset { now: nat, duration: nat },
    /// The timer is polled at `at` while its sleep, if it were polled, gave
    /// `sleep`.
    Poll { at: nat, sleep: TimerPoll },
}

/// The state of a new timer after `ops`.
pub open spec fn timer_after(ops: Seq<TimerOp>) -> TimerState
    decreases ops.len(),
{
    if ops.len() == 0 {
        TimerState::start()
    } else {
        match ops.last() {
            TimerOp::Reset { now, duration } => timer_after(ops.drop_last()).set(
                now as int,
                duration as int,
            ),
            TimerOp::Poll { at, sleep } => timer_after(ops.drop_last()).polled(sleep),
        }
    }
}

/// Whether the poll at index `i` of `ops` fires the timer.
pub open spec fn fires_at(ops: Seq<TimerOp>, i: int) -> bool {
    match ops[i] {
        TimerOp::Reset { now, duration } => false,
        TimerOp::Poll { at, sleep } => timer_after(ops.take(i)).fires(sleep),
    }
}

/// How many times a new timer fires during `ops`.
pub open spec fn times_fired(ops: Seq<TimerOp>) -> nat
    decreases ops.len(),
{
    if ops.len() == 0 {
        0
    } else {
        times_fired(ops.drop_last()) + if fires_at(ops, ops.len() - 1) {
            1nat
        } else {
            0nat
        }
    }
}

/// How many times a timer is set during `ops`.
pub open spec fn times_set(ops: Seq<TimerOp>) -> nat
    decreases ops.len(),
{
    if ops.len() == 0 {
        0
    } else {
        times_set(ops.drop_last()) + if ops.last() is Reset {
            1nat
        } else {
            0nat
        }
    }
}

/// Whether the sleep of the timer keeps its deadline: where it has elapsed while
/// the timer runs, the deadline has passed.
pub open spec fn sleep_keeps_deadline(ops: Seq<TimerOp>) -> bool {
    forall|i: int|
        0 <= i < ops.len() && #[trigger] fires_at(ops, i) ==> timer_after(ops.take(i)).deadline
            <= ops[i]->at
}

/// A timer fires at most once for each time it is set: every setting has led to
/// one firing, or was set anew before it fired, or is still running.
pub proof fn law_fires_at_most_once_per_reset(ops: Seq<TimerOp>)
    ensures
        times_fired(ops) + (if timer_after(ops).running {
            1nat
        } else {
            0nat
        }) <= times_set(ops),
    decreases ops.len(),
{
    if ops.len() > 0 {
        assert(ops.take(ops.len() - 1) =~= ops.drop_last());
        law_fires_at_most_once_per_reset(ops.drop_last());
    }
}

/// A timer that has been set runs, through any polls of a sleep that has not
/// elapsed, until its sleep has elapsed, and then it fires.
#[verifier::spinoff_prover]
pub proof fn law_reset_timer_fires(
    ops: Seq<TimerOp>,
    now: nat,
    duration: nat,
    polls: Seq<nat>,
    at: nat,
)
    ensures
        ({
            let waited = ops.push(TimerOp::Reset { now, duration }) + polls.map_values(
                |at: nat| TimerOp::Poll { at, sleep: TimerPoll::Pending },
            );
            let fired = waited.push(TimerOp::Poll { at, sleep: TimerPoll::Ready });
            &&& timer_after(waited) == timer_after(ops).set(now as int, duration as int)
            &&& times_fired(waited) == times_fired(ops)
            &&& !timer_after(fired).running
            &&& times_fired(fired) == times_fired(ops) + 1
        }),
    decreases polls.len(),
{
    let pending = |at: nat| TimerOp::Poll { at, sleep: TimerPoll::Pending };
    let waited = ops.push(TimerOp::Reset { now, duration }) + polls.map_values(pending);
    let fired = waited.push(TimerOp::Poll { at, sleep: TimerPoll::Ready });
    if polls.len() == 0 {
        assert(waited =~= ops.push(TimerOp::Reset { now, duration }));
        assert(waited.drop_last() =~= ops);
        assert(!fires_at(waited, waited.len() - 1));
        assert(times_fired(waited) == times_fired(ops));
    } else {
        law_reset_timer_fires(ops, now, duration, polls.drop_last(), at);
        assert(waited.drop_last() =~= ops.push(TimerOp::Reset { now, duration })
            + polls.drop_last().map_values(pending));
        assert(waited.take(waited.len() - 1) =~= waited.drop_last());
        assert(waited.last() == pending(polls.last()));
        assert(!fires_at(waited, waited.len() - 1));
        assert(times_fired(waited) == times_fired(waited.drop_last()));
    }
    assert(fired.drop_last() =~= waited);
    assert(fired.take(fired.len() - 1) =~= waited);
    assert(fires_at(fired, fired.len() - 1));
    assert(times_fired(fired) == times_fired(waited) + 1);
}

/// The last setting alone decides: whatever was done with the timer before, it
/// runs and its deadline is the time of the setting plus the duration. To set it
/// twice is to set it the second time.
pub proof fn law_last_reset_decides(
    ops: Seq<TimerOp>,
    first_now: nat,
    first_duration: nat,
    now: nat,
    duration: nat,
)
    ensures
        ({
            let first = TimerOp::Reset { now: first_now, duration: first_duration };
            let last = TimerOp::Reset { now, duration };
            &&& timer_after(ops.push(last)) == (TimerState {
                running: true,
                deadline: (now + duration) as int,
            })
            &&& timer_after(ops.push(first).push(last)) == timer_after(ops.push(last))
        }),
{
    let first = TimerOp::Reset { now: first_now, duration: first_duration };
    let last = TimerOp::Reset { now, duration };
    assert(ops.push(last).last() == last);
    assert(ops.push(first).push(last).last() == last);
}

/// A timer does not fire early: a firing comes no sooner than the duration of
/// the last setting after the time of that setting.
pub proof fn law_does_not_fire_early(ops: Seq<TimerOp>, set: int, fired: int)
    requires
        sleep_keeps_deadline(ops),
        0 <= set < fired < ops.len(),
        ops[set] is Reset,
        forall|i: int| set < i < fired ==> (#[trigger] ops[i]) is Poll,
        fires_at(ops, fired),
    ensures
        ops[fired]->at >= ops[set]->now + ops[set]->duration,
{
    lemma_deadline_stays(ops, set, fired);
}

proof fn lemma_deadline_stays(ops: Seq<TimerOp>, set: int, end: int)
    requires
        0 <= set < end <= ops.len(),
        ops[set] is Reset,
        forall|i: int| set < i < end ==> (#[trigger] ops[i]) is Poll,
    ensures
        timer_after(ops.take(end)).deadline == ops[set]->now + ops[set]->duration,
    decreases end - set,
{
    assert(ops.take(end).drop_last() =~= ops.take(end - 1));
    assert(ops.take(end).last() == ops[end - 1]);
    if end > set + 1 {
        lemma_deadline_stays(ops, set, end - 1);
    }
}

/// A new timer is not running. A timer says that its sleep is to be polled
/// exactly while it runs.
pub proof fn law_new_timer_does_not_run(fresh: Timer, timer: Timer, needed: bool)
    requires
        call_ensures(Timer::new, (), fresh),
        call_ensures(Timer::needs_poll, (&timer,), needed),
    ensures
        !fresh@.running,
        needed == timer@.running,
{
}

/// Whatever a timer was, setting it makes it run, with the time of the setting
/// plus the duration for a deadline, which is also what its sleep is given.
pub proof fn law_setting(timer: &mut Timer, now: u128, duration: u128, deadline: u128)
    requires
        call_ensures(Timer::reset, (timer, now, duration), deadline),
    ensures
        final(timer)@.running,
        final(timer)@.deadline == now + duration,
        deadline == now + duration,
{
}

/// A poll is ready exactly if the timer runs and its sleep has elapsed. A poll
/// that is ready stops the timer, and any other one leaves it as it was.
pub proof fn law_poll(timer: &mut Timer, sleep: TimerPoll, result: TimerPoll)
    requires
        call_ensures(Timer::poll, (timer, sleep), result),
    ensures
        result is Ready <==> old(timer)@.running && sleep is Ready,
        result is Ready ==> !final(timer)@.running,
        result is Pending ==> final(timer)@ == old(timer)@,
        final(timer)@.deadline == old(timer)@.deadline,
{
}

/// Between two settings a timer is ready once at most: after a poll that is
/// ready the next one is not, whatever the sleep gives.
pub proof fn law_ready_once(
    timer: &mut Timer,
    later: &mut Timer,
    sleep: TimerPoll,
    later_sleep: TimerPoll,
    result: TimerPoll,
    later_result: TimerPoll,
)
    requires
        call_ensures(Timer::poll, (timer, sleep), result),
        call_ensures(Timer::poll, (later, later_sleep), later_result),
        *old(later) == *final(timer),
        result is Ready,
    ensures
        later_result is Pending,
{
}

/// What the histories of timers say of a setting and of a poll is what these do.
pub proof fn law_histories_are_of_timers(
    timer: &mut Timer,
    polled: &mut Timer,
    ops: Seq<TimerOp>,
    now: u128,
    duration: u128,
    deadline: u128,
    at: nat,
    sleep: TimerPoll,
    result: TimerPoll,
)
    requires
        call_ensures(Timer::reset, (timer, now, duration), deadline),
        call_ensures(Timer::poll, (polled, sleep), result),
        old(timer)@ == timer_after(ops),
        old(polled)@ == timer_after(ops),
    ensures
        final(timer)@ == timer_after(
            ops.push(TimerOp::Reset { now: now as nat, duration: duration as nat }),
        ),
        final(polled)@ == timer_after(ops.push(TimerOp::Poll { at, sleep })),
        fires_at(ops.push(TimerOp::Poll { at, sleep }), ops.len() as int) <==> result is Ready,
{
    let reset = TimerOp::Reset { now: now as nat, duration: duration as nat };
    let poll = TimerOp::Poll { at, sleep };
    assert(ops.push(reset).drop_last() =~= ops);
    assert(ops.push(poll).drop_last() =~= ops);
    assert(ops.push(poll).take(ops.len() as int) =~= ops);
}

} // verus!
