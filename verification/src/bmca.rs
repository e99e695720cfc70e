//! The task that runs the best master clock algorithm.
//!
//! The algorithm runs over the port while the port does nothing else: the task
//! tells the port task to stop, waits for the port, runs the algorithm on it and
//! sends it back.

use crate::timer::{Timer, TimerPoll};
use vstd::prelude::*;

verus! {

/// How many ports each of the two channels between the tasks holds.
pub const PORT_CHANNEL_CAPACITY: usize = 1;

/// The stop signal before any has been given.
pub const STOP_AT_START: bool = false;

/// What the task does next.
#[derive(Clone, Copy, Debug, PartialEq, Eq, Structural)]
pub enum BmcaStep {
    /// Set the timer to the interval of the algorithm.
    ArmTimer,
    /// Wait for the timer.
    AwaitTimer,
    /// Tell the port task to stop.
    RequestStop,
    /// Wait for the port.
    ReceivePort,
    /// Take back that the port task is to stop.
    ClearStop,
    /// Run the algorithm on the port.
    RunBmca,
    /// Send the port to its task.
    SendPort,
}

/// The step that follows, once `step` is done.
pub open spec fn next_step(step: BmcaStep) -> BmcaStep {
    match step {
        BmcaStep::ArmTimer => BmcaStep::AwaitTimer,
        BmcaStep::AwaitTimer => BmcaStep::RequestStop,
        BmcaStep::RequestStop => BmcaStep::ReceivePort,
        BmcaStep::ReceivePort => BmcaStep::ClearStop,
        BmcaStep::ClearStop => BmcaStep::RunBmca,
        BmcaStep::RunBmca => BmcaStep::SendPort,
        BmcaStep::SendPort => BmcaStep::ArmTimer,
    }
}

/// The value that the stop signal is given at `step`, if any.
pub open spec fn signal_at(step: BmcaStep) -> Option<bool> {
    match step {
        BmcaStep::RequestStop => Some(true),
        BmcaStep::ClearStop => Some(false),
        _ => None,
    }
}

/// Whether the task holds the port when it comes to `step`.
pub open spec fn holds_port(step: BmcaStep) -> bool {
    step is ClearStop || step is RunBmca || step is SendPort
}

/// The task that runs the algorithm.
#[derive(Debug, PartialEq, Eq)]
pub struct BmcaLoop {
    step: BmcaStep,
    timer: Timer,
}

/// The state of the task.
pub ghost struct BmcaState {
    /// What the task does next.
    pub step: BmcaStep,
    /// The timer for the interval of the algorithm.
    pub timer: crate::timer::TimerState,
}

impl View for BmcaLoop {
    type V = BmcaState;

    closed spec fn view(&self) -> BmcaState {
        BmcaState { step: self.step, timer: self.timer@ }
    }
}

impl BmcaState {
    /// The state of a task that has done nothing.
    pub open spec fn start() -> BmcaState {
        BmcaState { step: BmcaStep::ArmTimer, timer: crate::timer::TimerState::start() }
    }

    /// The invariant of the task: it waits for a timer that runs.
    pub open spec fn wf(self) -> bool {
        self.step is AwaitTimer ==> self.timer.running
    }

    /// The state after the timer is set at `now` to `interval`.
    pub open spec fn armed(self, now: int, interval: int) -> BmcaState {
        BmcaState { step: next_step(self.step), timer: self.timer.set(now, interval) }
    }

    /// The state after the timer is polled while its sleep gives `sleep`.
    pub open spec fn polled(self, sleep: TimerPoll) -> BmcaState {
        BmcaState {
            step: if sleep is Ready {
                next_step(self.step)
            } else {
                self.step
            },
            timer: self.timer.polled(sleep),
        }
    }

    /// The state after a step that does not concern the timer is done.
    pub open spec fn advanced(self) -> BmcaState {
        BmcaState { step: next_step(self.step), timer: self.timer }
    }
}

impl BmcaLoop {
    /// A task that has done nothing. The port has been sent to its task.
    pub fn new() -> (bmca: BmcaLoop)
        ensures
            bmca@ == BmcaState::start(),
    {
        BmcaLoop { step: BmcaStep::ArmTimer, timer: Timer::new() }
    }

    /// What the task does next.
    pub fn step(&self) -> (step: BmcaStep)
        ensures
            step == self@.step,
    {
        self.step
    }

    /// The value that the stop signal is to be given at this step, if any.
    pub fn stop_signal(&self) -> (signal: Option<bool>)
        ensures
            signal == signal_at(self@.step),
    {
        match self.step {
            BmcaStep::RequestStop => Some(true),
            BmcaStep::ClearStop => Some(false),
            _ => None,
        }
    }

    /// Sets the timer at `now` to the interval of the algorithm, and gives the
    /// deadline that its sleep is to have.
    pub fn arm(&mut self, now: u128, interval: u128) -> (deadline: u128)
        requires
            old(self)@.step is ArmTimer,
            now + interval <= u128::MAX,
        ensures
            final(self)@ == old(self)@.armed(now as int, interval as int),
            final(self)@.wf(),
            deadline == now + interval,
    {
        self.step = BmcaStep::AwaitTimer;
        self.timer.reset(now, interval)
    }

    /// Polls the timer. `sleep` is what its sleep gave. Once the timer fires, the
    /// task goes on.
    pub fn poll_timer(&mut self, sleep: TimerPoll) -> (result: TimerPoll)
        requires
            old(self)@.wf(),
            old(self)@.step is AwaitTimer,
        ensures
            result == sleep,
            final(self)@ == old(self)@.polled(sleep),
            final(self)@.wf(),
    {
        let result = self.timer.poll(sleep);
        if result == TimerPoll::Ready {
            self.step = BmcaStep::RequestStop;
        }
        result
    }

    /// Goes on to the step that follows, once the current one is done.
    pub fn advance(&mut self)
        requires
            !(old(self)@.step is ArmTimer),
            !(old(self)@.step is AwaitTimer),
        ensures
            final(self)@ == old(self)@.advanced(),
            final(self)@.wf(),
    {
        self.step = match self.step {
            BmcaStep::ArmTimer => BmcaStep::AwaitTimer,
            BmcaStep::AwaitTimer => BmcaStep::RequestStop,
            BmcaStep::RequestStop => BmcaStep::ReceivePort,
            BmcaStep::ReceivePort => BmcaStep::ClearStop,
            BmcaStep::ClearStop => BmcaStep::RunBmca,
            BmcaStep::RunBmca => BmcaStep::SendPort,
            BmcaStep::SendPort => BmcaStep::ArmTimer,
        };
    }
}

/// Something that the task does.
pub ghost enum BmcaOp {
    /// The timer is set at `now` to `interval`.
    Arm { now: nat, interval: nat },
    /// The timer is polled at `at` while its sleep gives `sleep`.
    Poll { at: nat, sleep: TimerPoll },
    /// Another step is done.
    Advance,
}

impl BmcaState {
    /// Whether the task can do `op`. Its sleep has elapsed only once the deadline
    /// has passed.
    pub open spec fn allows(self, op: BmcaOp) -> bool {
        match op {
            BmcaOp::Arm { now, interval } => self.step is ArmTimer,
            BmcaOp::Poll { at, sleep } => self.step is AwaitTimer && (sleep is Ready
                ==> self.timer.deadline <= at),
            BmcaOp::Advance => !(self.step is ArmTimer) && !(self.step is AwaitTimer),
        }
    }

    /// The state after `op`.
    pub open spec fn after(self, op: BmcaOp) -> BmcaState {
        match op {
            BmcaOp::Arm { now, interval } => self.armed(now as int, interval as int),
            BmcaOp::Poll { at, sleep } => self.polled(sleep),
            BmcaOp::Advance => self.advanced(),
        }
    }
}

/// The state of a new task after `ops`.
pub open spec fn bmca_after(ops: Seq<BmcaOp>) -> BmcaState
    decreases ops.len(),
{
    if ops.len() == 0 {
        BmcaState::start()
    } else {
        bmca_after(ops.drop_last()).after(ops.last())
    }
}

/// Whether a new task can do `ops`, one after the other.
pub open spec fn is_bmca_history(ops: Seq<BmcaOp>) -> bool
    decreases ops.len(),
{
    ops.len() > 0 ==> is_bmca_history(ops.drop_last()) && bmca_after(ops.drop_last()).allows(
        ops.last(),
    )
}

/// Whether the timer was set at index `i` of `ops` and only polled since, and the
/// setting comes first of all or right after the port was sent.
pub open spec fn armed_at(ops: Seq<BmcaOp>, i: int) -> bool {
    &&& 0 <= i < ops.len()
    &&& ops[i] is Arm
    &&& forall|k: int| i < k < ops.len() ==> (#[trigger] ops[k]) is Poll
    &&& i > 0 ==> ops[i - 1] is Advance && bmca_after(ops.take(i - 1)).step is SendPort
}

/// The port task is told to stop no earlier than one interval into a round:
/// where that is the next step, the timer has just fired, and in this round,
/// which began at the start of the task or with the sending of the port, it was
/// set to an interval that has passed since. The setting at index `armed` is the
/// one of this round, so each round goes by the interval that was given in it.
pub proof fn law_stop_waits_for_the_interval(ops: Seq<BmcaOp>) -> (armed: int)
    requires
        is_bmca_history(ops),
        bmca_after(ops).step is RequestStop,
    ensures
        armed_at(ops, armed),
        ops.last() is Poll,
        ops.last()->sleep is Ready,
        ops.last()->at >= ops[armed]->now + ops[armed]->interval,
{
    let armed = lemma_armed(ops.drop_last());
    lemma_armed_through_poll(ops, armed);
    armed
}

proof fn lemma_armed_through_poll(ops: Seq<BmcaOp>, armed: int)
    requires
        ops.len() > 0,
        ops.last() is Poll,
        armed_at(ops.drop_last(), armed),
    ensures
        armed_at(ops, armed),
        ops[armed] == ops.drop_last()[armed],
{
    let before = ops.drop_last();
    assert forall|k: int| armed < k < ops.len() implies (#[trigger] ops[k]) is Poll by {
        if k < before.len() {
            assert(ops[k] == before[k]);
        }
    }
    if armed > 0 {
        assert(ops.take(armed - 1) =~= before.take(armed - 1));
        assert(ops[armed - 1] == before[armed - 1]);
    }
}

proof fn lemma_armed(ops: Seq<BmcaOp>) -> (armed: int)
    requires
        is_bmca_history(ops),
        bmca_after(ops).step is AwaitTimer,
    ensures
        armed_at(ops, armed),
        bmca_after(ops).timer.deadline == ops[armed]->now + ops[armed]->interval,
    decreases ops.len(),
{
    let before = ops.drop_last();
    if ops.last() is Arm {
        let armed = ops.len() - 1;
        if armed > 0 {
            reveal_with_fuel(is_bmca_history, 2);
            reveal_with_fuel(bmca_after, 2);
            assert(before.drop_last() =~= ops.take(armed - 1));
            assert(before.last() == ops[armed - 1]);
        }
        armed
    } else {
        let armed = lemma_armed(before);
        lemma_armed_through_poll(ops, armed);
        armed
    }
}

/// A new task sets the timer first. A task tells its step, and gives the stop
/// signal a value at two steps alone: it is set to stop the port task and cleared
/// once the port has arrived.
pub proof fn law_steps_and_signals(
    fresh: BmcaLoop,
    bmca: BmcaLoop,
    step: BmcaStep,
    signal: Option<bool>,
)
    requires
        call_ensures(BmcaLoop::new, (), fresh),
        call_ensures(BmcaLoop::step, (&bmca,), step),
        call_ensures(BmcaLoop::stop_signal, (&bmca,), signal),
    ensures
        fresh@.step is ArmTimer,
        !fresh@.timer.running,
        step == bmca@.step,
        signal == Some(true) <==> step is RequestStop,
        signal == Some(false) <==> step is ClearStop,
        PORT_CHANNEL_CAPACITY == 1,
        !STOP_AT_START,
{
}

/// Once the timer is set the task waits for it, whatever the time and the
/// interval: it runs until one interval from now.
pub proof fn law_armed_task_waits(bmca: &mut BmcaLoop, now: u128, interval: u128, deadline: u128)
    requires
        call_ensures(BmcaLoop::arm, (bmca, now, interval), deadline),
        old(bmca)@.step is ArmTimer,
    ensures
        final(bmca)@.step is AwaitTimer,
        final(bmca)@.timer.running,
        final(bmca)@.timer.deadline == now + interval,
        deadline == now + interval,
        final(bmca)@.wf(),
{
}

/// A task that waits does so until its sleep has elapsed, and tells the port task
/// to stop next.
pub proof fn law_waiting_task_goes_on_when_its_sleep_elapses(
    bmca: &mut BmcaLoop,
    sleep: TimerPoll,
    result: TimerPoll,
)
    requires
        call_ensures(BmcaLoop::poll_timer, (bmca, sleep), result),
        old(bmca)@.step is AwaitTimer,
        old(bmca)@.timer.running,
    ensures
        result == sleep,
        sleep is Pending ==> final(bmca)@ == old(bmca)@,
        sleep is Ready ==> final(bmca)@.step is RequestStop && !final(bmca)@.timer.running,
        final(bmca)@.wf(),
{
}

/// The task asks for the port before it waits for it, takes the request back
/// before it runs the algorithm, sends the port once it has run, and then starts
/// over. The timer has no part in this.
pub proof fn law_order_of_a_round(bmca: &mut BmcaLoop)
    requires
        call_ensures(BmcaLoop::advance, (bmca,), ()),
        !(old(bmca)@.step is ArmTimer),
        !(old(bmca)@.step is AwaitTimer),
    ensures
        final(bmca)@.step is ReceivePort <==> old(bmca)@.step is RequestStop,
        final(bmca)@.step is ClearStop <==> old(bmca)@.step is ReceivePort,
        final(bmca)@.step is RunBmca <==> old(bmca)@.step is ClearStop,
        final(bmca)@.step is SendPort <==> old(bmca)@.step is RunBmca,
        final(bmca)@.step is ArmTimer <==> old(bmca)@.step is SendPort,
        final(bmca)@.timer == old(bmca)@.timer,
        final(bmca)@.wf(),
{
}

/// Each step can be done when the task comes to it: the timer can be set to any
/// interval that ends within the range of times, it can be polled while the task
/// waits for it, and the task can go on from every other step.
pub proof fn law_steps_can_be_done(
    bmca: &mut BmcaLoop,
    now: u128,
    interval: u128,
    sleep: TimerPoll,
)
    ensures
        old(bmca)@.step is ArmTimer && now + interval <= u128::MAX ==> call_requires(
            BmcaLoop::arm,
            (bmca, now, interval),
        ),
        old(bmca)@.step is AwaitTimer && old(bmca)@.timer.running ==> call_requires(
            BmcaLoop::poll_timer,
            (bmca, sleep),
        ),
        !(old(bmca)@.step is ArmTimer) && !(old(bmca)@.step is AwaitTimer) ==> call_requires(
            BmcaLoop::advance,
            (bmca,),
        ),
{
}

/// What the histories of the task say of an operation is what the operation does.
pub proof fn law_histories_are_of_the_task(
    armed: &mut BmcaLoop,
    polled: &mut BmcaLoop,
    advanced: &mut BmcaLoop,
    now: u128,
    interval: u128,
    deadline: u128,
    at: nat,
    sleep: TimerPoll,
    result: TimerPoll,
)
    requires
        call_ensures(BmcaLoop::arm, (armed, now, interval), deadline),
        call_ensures(BmcaLoop::poll_timer, (polled, sleep), result),
        call_ensures(BmcaLoop::advance, (advanced,), ()),
    ensures
        final(armed)@ == old(armed)@.after(
            BmcaOp::Arm { now: now as nat, interval: interval as nat },
        ),
        final(polled)@ == old(polled)@.after(BmcaOp::Poll { at, sleep }),
        final(advanced)@ == old(advanced)@.after(BmcaOp::Advance),
{
}

/// Over any history a task comes to each step from the one before it in the
/// round, and from no other: it waits for the port having just told the port task
/// to stop, and tells it to stop having just waited for the timer.
pub proof fn law_no_step_is_left_out(ops: Seq<BmcaOp>)
    requires
        is_bmca_history(ops),
        ops.len() > 0,
    ensures
        ({
            let before = bmca_after(ops.drop_last()).step;
            let step = bmca_after(ops).step;
            &&& step is AwaitTimer ==> before is ArmTimer || (before is AwaitTimer
                && ops.last() is Poll && ops.last()->sleep is Pending)
            &&& step is RequestStop ==> before is AwaitTimer && ops.last() is Poll
                && ops.last()->sleep is Ready
            &&& step is ReceivePort ==> before is RequestStop
            &&& step is ClearStop ==> before is ReceivePort
            &&& step is RunBmca ==> before is ClearStop
            &&& step is SendPort ==> before is RunBmca
            &&& step is ArmTimer ==> before is SendPort
            &&& before is ArmTimer ==> step is AwaitTimer && bmca_after(ops).timer.running
            &&& before is RequestStop ==> step is ReceivePort
        }),
{
}

} // verus!
