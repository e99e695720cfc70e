//! The task that runs a port.
//!
//! The task waits for the port to arrive in the BMCA state, moves it into the
//! running state and hands it what happens. Whatever the port asks for in return
//! is carried out before the next thing that happens is looked at. When it is
//! told to stop, the task moves the port into the BMCA state and sends it back.
//!
//! The task keeps the timers of the port. They stay with it while the port is
//! elsewhere.

use crate::action::TimerId;
use crate::channel::RecvResult;
use crate::timer::TimerPoll;
use crate::timers::PortTimers;
use vstd::prelude::*;
use vstd::slice::slice_subrange;

verus! {

/// `statime::port::is_message_buffer_compatible` tells whether a message is of
/// PTP version 2: it is at least two bytes long and the low four bits of the
/// second byte are 2.
pub assume_specification[ statime::port::is_message_buffer_compatible ](buffer: &[u8]) -> (compatible:
    bool)
    ensures
        compatible == is_version_2(buffer@),
;

/// Whether a message is of PTP version 2.
pub open spec fn is_version_2(message: Seq<u8>) -> bool {
    message.len() >= 2 && message[1] & 0xf == 2
}

/// Where the task stands.
#[derive(Clone, Copy, Debug, PartialEq, Eq, Structural)]
pub enum TaskPhase {
    /// The port is elsewhere.
    AwaitPort,
    /// The port runs; a set of actions is being carried out.
    Handling,
    /// The port runs; the task waits for something to happen.
    Listening,
    /// The port is in the BMCA state again and is being sent back.
    Returning,
}

/// What happens to the task, with addresses `A`, handles `C` of event messages,
/// times `S` of the clock and timestamps `D` of packets.
#[derive(Debug, PartialEq, Eq)]
pub enum TaskEvent<'a, A, C, S, D> {
    /// The port arrived, in the BMCA state.
    PortReceived,
    /// A set of actions was carried out.
    ActionsHandled { pending: Option<(C, S)> },
    /// A message arrived on the event socket.
    EventPacket { buffer: &'a [u8], packet: RecvResult<A, D> },
    /// A message arrived on the general socket.
    GeneralPacket { buffer: &'a [u8], packet: RecvResult<A, D> },
    /// It is time to announce.
    AnnounceNotified,
    /// It is time to send a sync message.
    SyncNotified,
    /// A timer of the task fired.
    TimerFired { timer: TimerId },
    /// The task is told to stop for the BMCA.
    BmcaRequested,
    /// The port was sent back.
    PortReturned,
}

/// What the task does next. Every command on the running port gives a set of
/// actions, which is then carried out.
#[derive(Debug, PartialEq, Eq)]
pub enum TaskCommand<C, S, D> {
    /// Wait for the port.
    ReceivePort,
    /// Move the port into the running state.
    EndBmca,
    /// Tell the port when an event message was sent.
    HandleSendTimestamp { context: C, time: S },
    /// Give the port the first `bytes_read` bytes of the event buffer.
    HandleEventReceive { bytes_read: usize, timestamp: D },
    /// Give the port the first `bytes_read` bytes of the general buffer.
    HandleGeneralReceive { bytes_read: usize },
    HandleAnnounceTimer,
    HandleSyncTimer,
    HandleAnnounceReceiptTimer,
    HandleDelayRequestTimer,
    HandleFilterUpdateTimer,
    /// Drop the message, which is of another version of PTP: go on with an empty
    /// set of actions. In a network with several versions this is no error.
    Discard,
    /// Drop the message, whose time of arrival is missing, and say so: go on with
    /// an empty set of actions.
    DiscardUntimestamped,
    /// Wait for something to happen.
    Listen,
    /// Move the port into the BMCA state and send it back.
    StartBmca,
}

/// What is done about a message on the event socket. It reaches the port if it is
/// of PTP version 2 and the time of its arrival is known. A missing time is an
/// error of messages of version 2 alone.
pub open spec fn event_answer<A, C, S, D>(
    buffer: Seq<u8>,
    packet: RecvResult<A, D>,
) -> TaskCommand<C, S, D> {
    if !is_version_2(buffer.take(packet.bytes_read as int)) {
        TaskCommand::Discard
    } else {
        match packet.timestamp {
            Some(timestamp) => TaskCommand::HandleEventReceive {
                bytes_read: packet.bytes_read,
                timestamp,
            },
            None => TaskCommand::DiscardUntimestamped,
        }
    }
}

impl<'a, A, C, S, D> TaskEvent<'a, A, C, S, D> {
    /// Whether this is one of the things that a listening task waits for.
    pub open spec fn is_heard(self) -> bool {
        match self {
            TaskEvent::PortReceived => false,
            TaskEvent::ActionsHandled { pending } => false,
            TaskEvent::PortReturned => false,
            _ => true,
        }
    }

    /// Whether this can happen to a task that stands at `phase`. The length of
    /// a message is within its buffer.
    pub open spec fn can_happen_at(self, phase: TaskPhase) -> bool {
        match self {
            TaskEvent::PortReceived => phase is AwaitPort,
            TaskEvent::ActionsHandled { pending } => phase is Handling,
            TaskEvent::PortReturned => phase is Returning,
            TaskEvent::EventPacket { buffer, packet } => phase is Listening && packet.bytes_read
                <= buffer@.len(),
            TaskEvent::GeneralPacket { buffer, packet } => phase is Listening && packet.bytes_read
                <= buffer@.len(),
            _ => phase is Listening,
        }
    }

    /// Where this takes the task.
    pub open spec fn leads_to(self) -> TaskPhase {
        match self {
            TaskEvent::PortReceived => TaskPhase::Handling,
            TaskEvent::ActionsHandled { pending: Some(_) } => TaskPhase::Handling,
            TaskEvent::ActionsHandled { pending: None } => TaskPhase::Listening,
            TaskEvent::BmcaRequested => TaskPhase::Returning,
            TaskEvent::PortReturned => TaskPhase::AwaitPort,
            _ => TaskPhase::Handling,
        }
    }

    /// What the task does about this.
    pub open spec fn answer(self) -> TaskCommand<C, S, D> {
        match self {
            TaskEvent::PortReceived => TaskCommand::EndBmca,
            TaskEvent::ActionsHandled { pending: Some(p) } => TaskCommand::HandleSendTimestamp {
                context: p.0,
                time: p.1,
            },
            TaskEvent::ActionsHandled { pending: None } => TaskCommand::Listen,
            TaskEvent::EventPacket { buffer, packet } => event_answer(buffer@, packet),
            TaskEvent::GeneralPacket { buffer, packet } => TaskCommand::HandleGeneralReceive {
                bytes_read: packet.bytes_read,
            },
            TaskEvent::AnnounceNotified => TaskCommand::HandleAnnounceTimer,
            TaskEvent::SyncNotified => TaskCommand::HandleSyncTimer,
            TaskEvent::TimerFired { timer } => match timer {
                TimerId::PortAnnounceTimeout => TaskCommand::HandleAnnounceReceiptTimer,
                TimerId::DelayRequest => TaskCommand::HandleDelayRequestTimer,
                TimerId::FilterUpdate => TaskCommand::HandleFilterUpdateTimer,
            },
            TaskEvent::BmcaRequested => TaskCommand::StartBmca,
            TaskEvent::PortReturned => TaskCommand::ReceivePort,
        }
    }
}

/// The task that runs a port.
#[derive(Debug, PartialEq, Eq)]
pub struct PortTask {
    phase: TaskPhase,
    timers: PortTimers,
}

/// The state of the task.
pub ghost struct TaskState {
    /// Where the task stands.
    pub phase: TaskPhase,
    /// The timers of the task.
    pub timers: crate::timers::TimersState,
}

impl TaskState {
    /// The state of a task that waits for its port for the first time.
    pub open spec fn start() -> TaskState {
        TaskState { phase: TaskPhase::AwaitPort, timers: crate::timers::TimersState::start() }
    }

    /// The state after `event`. The timers stay as they are.
    pub open spec fn stepped<'a, A, C, S, D>(self, event: TaskEvent<'a, A, C, S, D>) -> TaskState {
        TaskState { phase: event.leads_to(), timers: self.timers }
    }

    /// The state after a timer is set at `now` to fire after `duration`.
    pub open spec fn timer_set(self, timer: TimerId, now: int, duration: int) -> TaskState {
        TaskState { phase: self.phase, timers: self.timers.set(timer, now, duration) }
    }

    /// Whether a timer fires when it is polled while its sleep gives `sleep`.
    pub open spec fn fires(self, timer: TimerId, sleep: TimerPoll) -> bool {
        self.timers.get(timer).fires(sleep)
    }

    /// The state after a timer is polled while its sleep gives `sleep`. The task
    /// hears of a timer that fires.
    pub open spec fn timer_polled(self, timer: TimerId, sleep: TimerPoll) -> TaskState {
        TaskState {
            phase: if self.fires(timer, sleep) {
                TaskPhase::Handling
            } else {
                self.phase
            },
            timers: self.timers.polled(timer, sleep),
        }
    }
}

impl View for PortTask {
    type V = TaskState;

    closed spec fn view(&self) -> TaskState {
        TaskState { phase: self.phase, timers: self.timers@ }
    }
}

impl PortTask {
    /// A task that waits for its port. Its timers have not been set.
    pub fn new() -> (task: PortTask)
        ensures
            task@ == TaskState::start(),
    {
        PortTask { phase: TaskPhase::AwaitPort, timers: PortTimers::new() }
    }

    /// Where the task stands.
    pub fn phase(&self) -> (phase: TaskPhase)
        ensures
            phase == self@.phase,
    {
        self.phase
    }

    /// Whether the task can be told of `event` where it stands. Of a timer that
    /// fired it is not told: it polls its timers itself.
    pub fn accepts<'a, A, C, S, D>(&self, event: &TaskEvent<'a, A, C, S, D>) -> (accepted: bool)
        ensures
            accepted == (event.can_happen_at(self@.phase) && !(event is TimerFired)),
    {
        match event {
            TaskEvent::PortReceived => self.phase == TaskPhase::AwaitPort,
            TaskEvent::ActionsHandled { pending: _ } => self.phase == TaskPhase::Handling,
            TaskEvent::PortReturned => self.phase == TaskPhase::Returning,
            TaskEvent::EventPacket { buffer, packet } => self.phase == TaskPhase::Listening
                && packet.bytes_read <= buffer.len(),
            TaskEvent::GeneralPacket { buffer, packet } => self.phase == TaskPhase::Listening
                && packet.bytes_read <= buffer.len(),
            TaskEvent::TimerFired { timer: _ } => false,
            _ => self.phase == TaskPhase::Listening,
        }
    }

    /// Takes what happened and says what the task does about it.
    pub fn step<'a, A, C, S, D>(&mut self, event: TaskEvent<'a, A, C, S, D>) -> (command:
        TaskCommand<C, S, D>)
        requires
            event.can_happen_at(old(self)@.phase),
            !(event is TimerFired),
        ensures
            final(self)@ == old(self)@.stepped(event),
            command == event.answer(),
    {
        self.take(event)
    }

    /// Sets a timer at `now` to fire after `duration`, and gives the deadline
    /// that its sleep is to have.
    pub fn set_timer(&mut self, timer: TimerId, now: u128, duration: u128) -> (deadline: u128)
        requires
            now + duration <= u128::MAX,
        ensures
            final(self)@ == old(self)@.timer_set(timer, now as int, duration as int),
            deadline == now + duration,
    {
        self.timers.apply(timer, now, duration)
    }

    /// Whether the sleep of a timer is to be polled at all.
    pub fn timer_needs_poll(&self, timer: TimerId) -> (needed: bool)
        ensures
            needed == self@.timers.get(timer).running,
    {
        self.timers.needs_poll(timer)
    }

    /// Polls a timer, whose sleep gave `sleep`, while the task listens. If the
    /// timer fires, that has happened to the task, and the command is what the
    /// task does about it.
    pub fn poll_timer<C, S, D>(&mut self, timer: TimerId, sleep: TimerPoll) -> (command: Option<
        TaskCommand<C, S, D>,
    >)
        requires
            old(self)@.phase is Listening,
        ensures
            final(self)@ == old(self)@.timer_polled(timer, sleep),
            command == if old(self)@.fires(timer, sleep) {
                Some(TaskEvent::TimerFired::<'static, (), C, S, D> { timer }.answer())
            } else {
                None
            },
    {
        match self.timers.poll(timer, sleep) {
            TimerPoll::Ready => {
                let event: TaskEvent<'static, (), C, S, D> = TaskEvent::TimerFired { timer };
                Some(self.take(event))
            },
            TimerPoll::Pending => None,
        }
    }

    /// Takes what happened, be it what the task is told of or that a timer fired.
    fn take<'a, A, C, S, D>(&mut self, event: TaskEvent<'a, A, C, S, D>) -> (command: TaskCommand<
        C,
        S,
        D,
    >)
        requires
            event.can_happen_at(old(self)@.phase),
        ensures
            final(self)@ == old(self)@.stepped(event),
            command == event.answer(),
    {
        match event {
            TaskEvent::PortReceived => {
                self.phase = TaskPhase::Handling;
                TaskCommand::EndBmca
            },
            TaskEvent::ActionsHandled { pending: Some((context, time)) } => {
                TaskCommand::HandleSendTimestamp { context, time }
            },
            TaskEvent::ActionsHandled { pending: None } => {
                self.phase = TaskPhase::Listening;
                TaskCommand::Listen
            },
            TaskEvent::EventPacket { buffer, packet } => {
                self.phase = TaskPhase::Handling;
                receive_event(buffer, packet)
            },
            TaskEvent::GeneralPacket { buffer: _, packet } => {
                self.phase = TaskPhase::Handling;
                TaskCommand::HandleGeneralReceive { bytes_read: packet.bytes_read }
            },
            TaskEvent::AnnounceNotified => {
                self.phase = TaskPhase::Handling;
                TaskCommand::HandleAnnounceTimer
            },
            TaskEvent::SyncNotified => {
                self.phase = TaskPhase::Handling;
                TaskCommand::HandleSyncTimer
            },
            TaskEvent::TimerFired { timer } => {
                self.phase = TaskPhase::Handling;
                match timer {
                    TimerId::PortAnnounceTimeout => TaskCommand::HandleAnnounceReceiptTimer,
                    TimerId::DelayRequest => TaskCommand::HandleDelayRequestTimer,
                    TimerId::FilterUpdate => TaskCommand::HandleFilterUpdateTimer,
                }
            },
            TaskEvent::BmcaRequested => {
                self.phase = TaskPhase::Returning;
                TaskCommand::StartBmca
            },
            TaskEvent::PortReturned => {
                self.phase = TaskPhase::AwaitPort;
                TaskCommand::ReceivePort
            },
        }
    }
}

/// Says what is done about a message on the event socket. Messages of another
/// version of PTP are dropped without an error, whether or not the time of their
/// arrival is known.
pub fn receive_event<A, C, S, D>(buffer: &[u8], packet: RecvResult<A, D>) -> (command: TaskCommand<
    C,
    S,
    D,
>)
    requires
        packet.bytes_read <= buffer@.len(),
    ensures
        command == event_answer::<A, C, S, D>(buffer@, packet),
{
    let message = slice_subrange(buffer, 0, packet.bytes_read);
    proof {
        assert(message@ =~= buffer@.take(packet.bytes_read as int));
    }
    if !statime::port::is_message_buffer_compatible(message) {
        TaskCommand::Discard
    } else {
        match packet.timestamp {
            Some(timestamp) => TaskCommand::HandleEventReceive {
                bytes_read: packet.bytes_read,
                timestamp,
            },
            None => TaskCommand::DiscardUntimestamped,
        }
    }
}

/// Whether the port is in the running state while the task stands at `phase`.
pub open spec fn port_runs(phase: TaskPhase) -> bool {
    phase is Handling || phase is Listening
}

impl<C, S, D> TaskCommand<C, S, D> {
    /// Whether this is a call of the running port.
    pub open spec fn calls_port(self) -> bool {
        match self {
            TaskCommand::ReceivePort => false,
            TaskCommand::EndBmca => false,
            TaskCommand::Discard => false,
            TaskCommand::DiscardUntimestamped => false,
            TaskCommand::Listen => false,
            TaskCommand::StartBmca => false,
            _ => true,
        }
    }
}

/// Where a new task stands after `events`.
pub open spec fn phase_after<'a, A, C, S, D>(
    events: Seq<TaskEvent<'a, A, C, S, D>>,
) -> TaskPhase {
    if events.len() == 0 {
        TaskPhase::AwaitPort
    } else {
        events.last().leads_to()
    }
}

/// Whether `events` can happen to a new task, one after the other.
pub open spec fn is_history<'a, A, C, S, D>(events: Seq<TaskEvent<'a, A, C, S, D>>) -> bool {
    forall|i: int|
        0 <= i < events.len() ==> (#[trigger] events[i]).can_happen_at(
            phase_after(events.take(i)),
        )
}

/// How often the port has arrived during `events`.
pub open spec fn times_received<'a, A, C, S, D>(events: Seq<TaskEvent<'a, A, C, S, D>>) -> nat
    decreases events.len(),
{
    if events.len() == 0 {
        0
    } else {
        times_received(events.drop_last()) + if events.last() is PortReceived {
            1nat
        } else {
            0nat
        }
    }
}

/// How often the port has been sent back during `events`.
pub open spec fn times_returned<'a, A, C, S, D>(events: Seq<TaskEvent<'a, A, C, S, D>>) -> nat
    decreases events.len(),
{
    if events.len() == 0 {
        0
    } else {
        times_returned(events.drop_last()) + if events.last() is PortReturned {
            1nat
        } else {
            0nat
        }
    }
}

/// The running port is called only while it runs. It begins to run exactly when
/// the BMCA is ended and ceases to run exactly when the BMCA is started.
pub proof fn law_port_is_called_only_while_it_runs<'a, A, C, S, D>(
    phase: TaskPhase,
    event: TaskEvent<'a, A, C, S, D>,
)
    requires
        event.can_happen_at(phase),
    ensures
        event.answer().calls_port() ==> port_runs(phase) && port_runs(event.leads_to()),
        event.answer() is EndBmca <==> !port_runs(phase) && port_runs(event.leads_to()),
        event.answer() is StartBmca <==> port_runs(phase) && !port_runs(event.leads_to()),
{
}

/// Whatever the port asks for is carried out, and every time of sending is
/// reported to it, before the task hears of anything else: just before each
/// thing that it hears of, a set of actions was done and left nothing to report.
pub proof fn law_actions_are_done_before_listening<'a, A, C, S, D>(
    events: Seq<TaskEvent<'a, A, C, S, D>>,
    heard: int,
)
    requires
        is_history(events),
        0 <= heard < events.len(),
        events[heard].is_heard(),
    ensures
        heard > 0,
        events[heard - 1] == (TaskEvent::ActionsHandled::<'a, A, C, S, D> { pending: None }),
{
    assert(events[heard].can_happen_at(phase_after(events.take(heard))));
    if heard > 0 {
        assert(events.take(heard).last() == events[heard - 1]);
    }
}

/// Of the messages on the event socket, those of another version of PTP are
/// dropped without an error, and every other one reaches the port or, for want of
/// a time of arrival, is dropped with an error.
pub proof fn law_other_versions_are_no_error<A, C, S, D>(buffer: Seq<u8>, packet: RecvResult<A, D>)
    ensures
        ({
            let answer = event_answer::<A, C, S, D>(buffer, packet);
            let message = buffer.take(packet.bytes_read as int);
            &&& answer is Discard <==> !is_version_2(message)
            &&& answer is DiscardUntimestamped <==> is_version_2(message) && packet.timestamp is None
            &&& answer is HandleEventReceive <==> is_version_2(message) && packet.timestamp is Some
        }),
{
}

/// Every port that arrives is sent back, once, before another is taken: the task
/// holds one port, or none while it waits for one.
pub proof fn law_every_port_is_sent_back<'a, A, C, S, D>(events: Seq<TaskEvent<'a, A, C, S, D>>)
    requires
        is_history(events),
    ensures
        times_received(events) == times_returned(events) + if phase_after(events) is AwaitPort {
            0nat
        } else {
            1nat
        },
    decreases events.len(),
{
    if events.len() > 0 {
        let before = events.drop_last();
        assert forall|i: int| 0 <= i < before.len() implies (
        #[trigger] before[i]).can_happen_at(phase_after(before.take(i))) by {
            assert(before[i] == events[i]);
            assert(before.take(i) =~= events.take(i));
        }
        law_every_port_is_sent_back(before);
        let n = events.len() - 1;
        assert(events[n].can_happen_at(phase_after(events.take(n))));
        assert(events.take(n) =~= before);
    }
}

/// Something that a task does.
pub ghost enum TaskOp<'a, A, C, S, D> {
    /// The task is told of an event.
    Step(TaskEvent<'a, A, C, S, D>),
    /// A timer is set at `now` to fire after `duration`.
    SetTimer { timer: TimerId, now: nat, duration: nat },
    /// A timer is polled at `at` while its sleep, if it were polled, gave
    /// `sleep`.
    PollTimer { timer: TimerId, at: nat, sleep: TimerPoll },
}

impl TaskState {
    /// Whether the task can do `op`: it polls its timers while it listens.
    pub open spec fn allows<'a, A, C, S, D>(self, op: TaskOp<'a, A, C, S, D>) -> bool {
        match op {
            TaskOp::Step(event) => event.can_happen_at(self.phase) && !(event is TimerFired),
            TaskOp::SetTimer { timer, now, duration } => true,
            TaskOp::PollTimer { timer, at, sleep } => self.phase is Listening,
        }
    }

    /// The state after `op`.
    pub open spec fn after<'a, A, C, S, D>(self, op: TaskOp<'a, A, C, S, D>) -> TaskState {
        match op {
            TaskOp::Step(event) => self.stepped(event),
            TaskOp::SetTimer { timer, now, duration } => self.timer_set(
                timer,
                now as int,
                duration as int,
            ),
            TaskOp::PollTimer { timer, at, sleep } => self.timer_polled(timer, sleep),
        }
    }

    /// The events that `op` brings: the one that the task is told of, or that a
    /// timer fired.
    pub open spec fn events_of<'a, A, C, S, D>(self, op: TaskOp<'a, A, C, S, D>) -> Seq<
        TaskEvent<'a, A, C, S, D>,
    > {
        match op {
            TaskOp::Step(event) => seq![event],
            TaskOp::SetTimer { timer, now, duration } => Seq::empty(),
            TaskOp::PollTimer { timer, at, sleep } => if self.fires(timer, sleep) {
                seq![TaskEvent::TimerFired { timer }]
            } else {
                Seq::empty()
            },
        }
    }
}

/// The state of a new task after `ops`.
pub open spec fn task_after<'a, A, C, S, D>(ops: Seq<TaskOp<'a, A, C, S, D>>) -> TaskState
    decreases ops.len(),
{
    if ops.len() == 0 {
        TaskState::start()
    } else {
        task_after(ops.drop_last()).after(ops.last())
    }
}

/// Whether a new task can do `ops`, one after the other.
pub open spec fn is_task_history<'a, A, C, S, D>(ops: Seq<TaskOp<'a, A, C, S, D>>) -> bool
    decreases ops.len(),
{
    ops.len() > 0 ==> is_task_history(ops.drop_last()) && task_after(ops.drop_last()).allows(
        ops.last(),
    )
}

/// What happens to a new task during `ops`.
pub open spec fn events_in<'a, A, C, S, D>(ops: Seq<TaskOp<'a, A, C, S, D>>) -> Seq<
    TaskEvent<'a, A, C, S, D>,
>
    decreases ops.len(),
{
    if ops.len() == 0 {
        Seq::empty()
    } else {
        events_in(ops.drop_last()) + task_after(ops.drop_last()).events_of(ops.last())
    }
}

/// What is done with one timer during `ops`.
pub open spec fn timer_ops<'a, A, C, S, D>(
    ops: Seq<TaskOp<'a, A, C, S, D>>,
    timer: TimerId,
) -> Seq<crate::timer::TimerOp>
    decreases ops.len(),
{
    if ops.len() == 0 {
        Seq::empty()
    } else {
        let before = timer_ops(ops.drop_last(), timer);
        match ops.last() {
            TaskOp::SetTimer { timer: t, now, duration } if t == timer => before.push(
                crate::timer::TimerOp::Reset { now, duration },
            ),
            TaskOp::PollTimer { timer: t, at, sleep } if t == timer => before.push(
                crate::timer::TimerOp::Poll { at, sleep },
            ),
            _ => before,
        }
    }
}

/// Whether the operation at index `i` of `ops` sets or fires `timer`.
pub open spec fn sets_or_fires<'a, A, C, S, D>(
    ops: Seq<TaskOp<'a, A, C, S, D>>,
    i: int,
    timer: TimerId,
) -> bool {
    match ops[i] {
        TaskOp::Step(event) => false,
        TaskOp::SetTimer { timer: t, now, duration } => t == timer,
        TaskOp::PollTimer { timer: t, at, sleep } => t == timer && task_after(ops.take(i)).fires(
            timer,
            sleep,
        ),
    }
}

/// What happens to a task with its timers is one of the histories of the task,
/// and leads where that history leads: all that holds of histories holds here.
pub proof fn law_events_are_a_history<'a, A, C, S, D>(ops: Seq<TaskOp<'a, A, C, S, D>>)
    requires
        is_task_history(ops),
    ensures
        is_history(events_in(ops)),
        phase_after(events_in(ops)) == task_after(ops).phase,
    decreases ops.len(),
{
    if ops.len() > 0 {
        let before = events_in(ops.drop_last());
        let events = events_in(ops);
        law_events_are_a_history(ops.drop_last());
        assert forall|i: int| 0 <= i < events.len() implies (#[trigger] events[i]).can_happen_at(
            phase_after(events.take(i)),
        ) by {
            assert(events.take(i) =~= before.take(i));
            if i < before.len() {
                assert(events[i] == before[i]);
            } else {
                assert(before.take(i) =~= before);
            }
        }
        if events.len() == before.len() {
            assert(events =~= before);
        }
    }
}

/// Each timer of a task goes by what is done with it alone: whatever else the
/// task does, the timer is as a timer that only saw its own settings and polls.
pub proof fn law_timers_are_independent<'a, A, C, S, D>(
    ops: Seq<TaskOp<'a, A, C, S, D>>,
    timer: TimerId,
)
    ensures
        task_after(ops).timers.get(timer) == crate::timer::timer_after(timer_ops(ops, timer)),
    decreases ops.len(),
{
    if ops.len() > 0 {
        let before = timer_ops(ops.drop_last(), timer);
        law_timers_are_independent(ops.drop_last(), timer);
        match ops.last() {
            TaskOp::SetTimer { timer: t, now, duration } => {
                let op = crate::timer::TimerOp::Reset { now, duration };
                assert(before.push(op).drop_last() =~= before);
            },
            TaskOp::PollTimer { timer: t, at, sleep } => {
                let op = crate::timer::TimerOp::Poll { at, sleep };
                assert(before.push(op).drop_last() =~= before);
            },
            TaskOp::Step(event) => {},
        }
    }
}

/// No event that the task is told of touches a timer: after any number of them,
/// a stop for the BMCA and the return of the port among them, all three timers
/// are as they were.
pub proof fn law_steps_keep_the_timers<'a, A, C, S, D>(
    ops: Seq<TaskOp<'a, A, C, S, D>>,
    events: Seq<TaskEvent<'a, A, C, S, D>>,
)
    ensures
        task_after(
            ops + events.map_values(|event: TaskEvent<'a, A, C, S, D>| TaskOp::Step(event)),
        ).timers == task_after(ops).timers,
    decreases events.len(),
{
    let step = |event: TaskEvent<'a, A, C, S, D>| TaskOp::Step(event);
    let all = ops + events.map_values(step);
    if events.len() == 0 {
        assert(all =~= ops);
    } else {
        law_steps_keep_the_timers(ops, events.drop_last());
        assert(all.drop_last() =~= ops + events.drop_last().map_values(step));
        assert(all.last() == step(events.last()));
    }
}

/// A timer outlives the BMCA: one that was set, and neither set anew nor fired
/// since, runs with the deadline that it was given, however often the port has
/// been sent back and has arrived in between. When the task then listens, and
/// the sleep of the timer has elapsed, be it while the port was elsewhere, a
/// poll fires the timer: the task hears of it, and the timer stops.
pub proof fn law_timer_outlives_the_bmca<'a, A, C, S, D>(
    ops: Seq<TaskOp<'a, A, C, S, D>>,
    set: int,
    at: nat,
)
    requires
        is_task_history(ops),
        0 <= set < ops.len(),
        ops[set] is SetTimer,
        forall|i: int| set < i < ops.len() ==> !#[trigger] sets_or_fires(ops, i, ops[set]->SetTimer_timer),
    ensures
        ({
            let timer = ops[set]->SetTimer_timer;
            let state = task_after(ops);
            let poll: TaskOp<'a, A, C, S, D> = TaskOp::PollTimer { timer, at, sleep: TimerPoll::Ready };
            let polled = ops.push(poll);
            &&& state.timers.get(timer) == (crate::timer::TimerState {
                running: true,
                deadline: (ops[set]->now + ops[set]->duration) as int,
            })
            &&& state.phase is Listening ==> {
                &&& is_task_history(polled)
                &&& sets_or_fires(polled, ops.len() as int, timer)
                &&& events_in(polled) == events_in(ops).push(TaskEvent::TimerFired { timer })
                &&& task_after(polled).phase is Handling
                &&& !task_after(polled).timers.get(timer).running
            }
        }),
{
    let timer = ops[set]->SetTimer_timer;
    let poll: TaskOp<'a, A, C, S, D> = TaskOp::PollTimer { timer, at, sleep: TimerPoll::Ready };
    let polled = ops.push(poll);
    lemma_timer_keeps_running(ops, set, ops.len() as int);
    assert(ops.take(ops.len() as int) =~= ops);
    assert(polled.drop_last() =~= ops);
    assert(polled.take(ops.len() as int) =~= ops);
    assert(polled.last() == poll);
    if task_after(ops).phase is Listening {
        assert(events_in(polled) =~= events_in(ops).push(TaskEvent::TimerFired { timer }));
    }
}

proof fn lemma_timer_keeps_running<'a, A, C, S, D>(
    ops: Seq<TaskOp<'a, A, C, S, D>>,
    set: int,
    end: int,
)
    requires
        0 <= set < end <= ops.len(),
        ops[set] is SetTimer,
        forall|i: int| set < i < end ==> !#[trigger] sets_or_fires(ops, i, ops[set]->SetTimer_timer),
    ensures
        task_after(ops.take(end)).timers.get(ops[set]->SetTimer_timer) == (crate::timer::TimerState {
            running: true,
            deadline: (ops[set]->now + ops[set]->duration) as int,
        }),
    decreases end - set,
{
    assert(ops.take(end).drop_last() =~= ops.take(end - 1));
    assert(ops.take(end).last() == ops[end - 1]);
    if end > set + 1 {
        lemma_timer_keeps_running(ops, set, end - 1);
        assert(!sets_or_fires(ops, end - 1, ops[set]->SetTimer_timer));
    }
}

/// No timer fires while the port is elsewhere or is being called: where an
/// operation fires a timer, the task listens.
pub proof fn law_timers_fire_only_while_listening<'a, A, C, S, D>(
    ops: Seq<TaskOp<'a, A, C, S, D>>,
    i: int,
    timer: TimerId,
)
    requires
        is_task_history(ops),
        0 <= i < ops.len(),
        ops[i] is PollTimer,
        sets_or_fires(ops, i, timer),
    ensures
        task_after(ops.take(i)).phase is Listening,
        port_runs(task_after(ops.take(i)).phase),
    decreases ops.len(),
{
    if i < ops.len() - 1 {
        let before = ops.drop_last();
        assert(before[i] == ops[i]);
        assert(before.take(i) =~= ops.take(i));
        law_timers_fire_only_while_listening(before, i, timer);
    } else {
        assert(ops.take(i) =~= ops.drop_last());
    }
}

/// Whether `command` is what is owed to a message that takes the first
/// `bytes_read` bytes of `buffer`. The version is the rest of the second byte by
/// 16. A message of version 2 with a time of arrival reaches the port whole, with
/// that time; without one it is an error; one of another version is neither.
pub open spec fn is_owed_to<A, C, S, D>(
    buffer: Seq<u8>,
    packet: RecvResult<A, D>,
    command: TaskCommand<C, S, D>,
) -> bool {
    if packet.bytes_read >= 2 && buffer[1] % 16 == 2 {
        match packet.timestamp {
            Some(time) => {
                &&& command is HandleEventReceive
                &&& command->HandleEventReceive_bytes_read == packet.bytes_read
                &&& command->timestamp == time
            },
            None => command is DiscardUntimestamped,
        }
    } else {
        command is Discard
    }
}

/// The version of a message is the rest of its second byte by 16.
pub proof fn law_version_is_in_the_second_byte(message: Seq<u8>)
    ensures
        is_version_2(message) <==> message.len() >= 2 && message[1] % 16 == 2,
{
    let second = message[1];
    assert(second & 0xf == second % 16) by (bit_vector);
}

/// What the port is given of an event message of version 2 whose time of arrival
/// is known is the whole message, with that time. No other event message reaches
/// the port.
pub proof fn law_event_message_reaches_the_port_whole<A, C, S, D>(
    buffer: &[u8],
    packet: RecvResult<A, D>,
    command: TaskCommand<C, S, D>,
)
    requires
        call_ensures(receive_event::<A, C, S, D>, (buffer, packet), command),
        packet.bytes_read <= buffer@.len(),
    ensures
        is_owed_to(buffer@, packet, command),
        command is HandleEventReceive ==> buffer@.take(
            command->HandleEventReceive_bytes_read as int,
        ) == buffer@.take(packet.bytes_read as int),
{
    law_version_is_in_the_second_byte(buffer@.take(packet.bytes_read as int));
}

/// What a task does about an event is settled by the event: the port is run when
/// it arrives and sent back when that is requested; the port is told of a time of
/// sending as it was reported, is given a general message whole and an event
/// message as is owed to it, and is told of each notification by the call of its
/// own. Where the task stands follows from this, and its timers stay as they are.
pub proof fn law_events_are_answered<'a, A, C, S, D>(
    task: &mut PortTask,
    event: TaskEvent<'a, A, C, S, D>,
    command: TaskCommand<C, S, D>,
)
    requires
        call_ensures(PortTask::step::<A, C, S, D>, (task, event), command),
        !(event is TimerFired),
        event is EventPacket ==> event->EventPacket_packet.bytes_read
            <= event->EventPacket_buffer@.len(),
    ensures
        command is EndBmca <==> event is PortReceived,
        command is StartBmca <==> event is BmcaRequested,
        command is ReceivePort <==> event is PortReturned,
        command is Listen <==> event is ActionsHandled && event->pending is None,
        command is HandleSendTimestamp <==> event is ActionsHandled && event->pending is Some,
        command is HandleSendTimestamp ==> event->pending == Some((command->context, command->time)),
        command is HandleGeneralReceive <==> event is GeneralPacket,
        command is HandleGeneralReceive ==> command->HandleGeneralReceive_bytes_read
            == event->GeneralPacket_packet.bytes_read,
        event is EventPacket ==> is_owed_to(
            event->EventPacket_buffer@,
            event->EventPacket_packet,
            command,
        ),
        command is HandleAnnounceTimer <==> event is AnnounceNotified,
        command is HandleSyncTimer <==> event is SyncNotified,
        !(command is HandleAnnounceReceiptTimer),
        !(command is HandleDelayRequestTimer),
        !(command is HandleFilterUpdateTimer),
        final(task)@.phase is AwaitPort <==> event is PortReturned,
        final(task)@.phase is Returning <==> event is BmcaRequested,
        final(task)@.phase is Listening <==> event is ActionsHandled && event->pending is None,
        forall|timer: TimerId|
            (#[trigger] final(task)@.timers.get(timer)) == old(task)@.timers.get(timer),
{
    if event is EventPacket {
        law_version_is_in_the_second_byte(
            event->EventPacket_buffer@.take(event->EventPacket_packet.bytes_read as int),
        );
    }
}

/// A task accepts, where it stands, what can happen there and nothing else: the
/// port while it waits for it, the end of a set of actions while one is carried
/// out, the return of the port while that is on its way, and everything else,
/// but for messages longer than their buffer, while it listens.
pub proof fn law_what_is_accepted<'a, A, C, S, D>(
    task: PortTask,
    event: TaskEvent<'a, A, C, S, D>,
    accepted: bool,
    phase: TaskPhase,
)
    requires
        call_ensures(PortTask::accepts::<A, C, S, D>, (&task, &event), accepted),
        call_ensures(PortTask::phase, (&task,), phase),
    ensures
        phase == task@.phase,
        phase is AwaitPort ==> (accepted <==> event is PortReceived),
        phase is Handling ==> (accepted <==> event is ActionsHandled),
        phase is Returning ==> (accepted <==> event is PortReturned),
        phase is Listening ==> (accepted <==> match event {
            TaskEvent::EventPacket { buffer, packet } => packet.bytes_read <= buffer@.len(),
            TaskEvent::GeneralPacket { buffer, packet } => packet.bytes_read <= buffer@.len(),
            TaskEvent::AnnounceNotified => true,
            TaskEvent::SyncNotified => true,
            TaskEvent::BmcaRequested => true,
            _ => false,
        }),
{
}

/// A task can be told of whatever it accepts, can have its timers set at any time
/// to deadlines within the range of times, and can poll them while it listens. A
/// message that fits its buffer can be received.
pub proof fn law_tasks_can_go_on<'a, A, C, S, D>(
    task: &mut PortTask,
    event: TaskEvent<'a, A, C, S, D>,
    accepted: bool,
    timer: TimerId,
    now: u128,
    duration: u128,
    sleep: TimerPoll,
    buffer: &[u8],
    packet: RecvResult<A, D>,
)
    requires
        call_ensures(PortTask::accepts::<A, C, S, D>, (&*old(task), &event), accepted),
    ensures
        accepted ==> call_requires(PortTask::step::<A, C, S, D>, (task, event)),
        now + duration <= u128::MAX ==> call_requires(
            PortTask::set_timer,
            (task, timer, now, duration),
        ),
        old(task)@.phase is Listening ==> call_requires(
            PortTask::poll_timer::<C, S, D>,
            (task, timer, sleep),
        ),
        packet.bytes_read <= buffer@.len() ==> call_requires(
            receive_event::<A, C, S, D>,
            (buffer, packet),
        ),
{
}

/// A new task waits for its port, and none of its timers runs. A task says that
/// the sleep of a timer is to be polled exactly while the timer runs.
pub proof fn law_new_task_waits_for_its_port(
    fresh: PortTask,
    task: PortTask,
    timer: TimerId,
    needed: bool,
)
    requires
        call_ensures(PortTask::new, (), fresh),
        call_ensures(PortTask::timer_needs_poll, (&task, timer), needed),
    ensures
        fresh@.phase is AwaitPort,
        !fresh@.timers.get(timer).running,
        needed == task@.timers.get(timer).running,
{
}

/// Setting a timer of a task makes it run with the deadline that it is given. The
/// other timers, and where the task stands, stay as they are.
pub proof fn law_setting_a_timer_changes_nothing_else(
    task: &mut PortTask,
    timer: TimerId,
    other: TimerId,
    now: u128,
    duration: u128,
    deadline: u128,
)
    requires
        call_ensures(PortTask::set_timer, (task, timer, now, duration), deadline),
        other != timer,
    ensures
        deadline == now + duration,
        final(task)@.timers.get(timer).running,
        final(task)@.timers.get(timer).deadline == now + duration,
        final(task)@.timers.get(other) == old(task)@.timers.get(other),
        final(task)@.phase == old(task)@.phase,
{
}

/// A task hears of a timer exactly if that timer runs and its sleep has elapsed,
/// whatever the other timers do. It then calls the port as that timer asks, and
/// the timer stops. A poll that it does not hear of changes nothing.
pub proof fn law_timer_is_heard_of_when_it_elapses<C, S, D>(
    task: &mut PortTask,
    timer: TimerId,
    other: TimerId,
    sleep: TimerPoll,
    command: Option<TaskCommand<C, S, D>>,
)
    requires
        call_ensures(PortTask::poll_timer::<C, S, D>, (task, timer, sleep), command),
        other != timer,
    ensures
        command is Some <==> old(task)@.timers.get(timer).running && sleep is Ready,
        command is None ==> final(task)@ == old(task)@,
        command is Some ==> {
            &&& command->0 is HandleAnnounceReceiptTimer <==> timer is PortAnnounceTimeout
            &&& command->0 is HandleDelayRequestTimer <==> timer is DelayRequest
            &&& command->0 is HandleFilterUpdateTimer <==> timer is FilterUpdate
            &&& final(task)@.phase is Handling
            &&& !final(task)@.timers.get(timer).running
        },
        final(task)@.timers.get(timer).deadline == old(task)@.timers.get(timer).deadline,
        final(task)@.timers.get(other) == old(task)@.timers.get(other),
{
}

/// What the histories of a task say of an operation is what the operation does,
/// and the event of a poll is that the timer fired, just where a command came of
/// it.
pub proof fn law_histories_are_of_tasks<'a, A, C, S, D>(
    stepped: &mut PortTask,
    set: &mut PortTask,
    polled: &mut PortTask,
    event: TaskEvent<'a, A, C, S, D>,
    answer: TaskCommand<C, S, D>,
    timer: TimerId,
    now: u128,
    duration: u128,
    deadline: u128,
    at: nat,
    sleep: TimerPoll,
    command: Option<TaskCommand<C, S, D>>,
)
    requires
        call_ensures(PortTask::step::<A, C, S, D>, (stepped, event), answer),
        call_ensures(PortTask::set_timer, (set, timer, now, duration), deadline),
        call_ensures(PortTask::poll_timer::<C, S, D>, (polled, timer, sleep), command),
    ensures
        final(stepped)@ == old(stepped)@.after(TaskOp::Step(event)),
        final(set)@ == old(set)@.after(
            TaskOp::SetTimer::<A, C, S, D> {
                timer,
                now: now as nat,
                duration: duration as nat,
            },
        ),
        ({
            let poll: TaskOp<'a, A, C, S, D> = TaskOp::PollTimer { timer, at, sleep };
            let fired: TaskEvent<'a, A, C, S, D> = TaskEvent::TimerFired { timer };
            &&& final(polled)@ == old(polled)@.after(poll)
            &&& command is Some ==> old(polled)@.events_of(poll) == seq![fired]
            &&& command is None ==> old(polled)@.events_of(poll).len() == 0
        }),
        old(stepped)@.events_of(TaskOp::Step(event)) == seq![event],
{
}

/// How often a timer is heard of in `events`.
pub open spec fn times_heard<'a, A, C, S, D>(
    events: Seq<TaskEvent<'a, A, C, S, D>>,
    timer: TimerId,
) -> nat
    decreases events.len(),
{
    if events.len() == 0 {
        0
    } else {
        times_heard(events.drop_last(), timer) + if events.last() is TimerFired
            && events.last()->timer == timer {
            1nat
        } else {
            0nat
        }
    }
}

/// How often a timer is set in `ops`.
pub open spec fn times_timer_set<'a, A, C, S, D>(
    ops: Seq<TaskOp<'a, A, C, S, D>>,
    timer: TimerId,
) -> nat
    decreases ops.len(),
{
    if ops.len() == 0 {
        0
    } else {
        times_timer_set(ops.drop_last(), timer) + if ops.last() is SetTimer
            && ops.last()->SetTimer_timer == timer {
            1nat
        } else {
            0nat
        }
    }
}

/// A task hears of a timer once at most for each time that the timer is set.
pub proof fn law_timer_is_heard_of_once_per_setting<'a, A, C, S, D>(
    ops: Seq<TaskOp<'a, A, C, S, D>>,
    timer: TimerId,
)
    requires
        is_task_history(ops),
    ensures
        times_heard(events_in(ops), timer) + (if task_after(ops).timers.get(timer).running {
            1nat
        } else {
            0nat
        }) <= times_timer_set(ops, timer),
    decreases ops.len(),
{
    if ops.len() > 0 {
        let before = events_in(ops.drop_last());
        let events = events_in(ops);
        law_timer_is_heard_of_once_per_setting(ops.drop_last(), timer);
        if events.len() == before.len() {
            assert(events =~= before);
        } else {
            assert(events.drop_last() =~= before);
        }
    }
}

/// A task hears of a timer only after the timer was set, and no earlier than the
/// duration of the last setting after the time of that setting: where the poll at
/// index `heard` brings an event, the sleep has elapsed, and at index `set` the
/// timer was set, and neither set anew nor heard of in between.
pub proof fn law_timer_is_heard_of_no_earlier<'a, A, C, S, D>(
    ops: Seq<TaskOp<'a, A, C, S, D>>,
    heard: int,
) -> (set: int)
    requires
        0 <= heard < ops.len(),
        ops[heard] is PollTimer,
        task_after(ops.take(heard)).events_of(ops[heard]).len() > 0,
        ops[heard]->sleep is Ready ==> task_after(ops.take(heard)).timers.get(
            ops[heard]->PollTimer_timer,
        ).deadline <= ops[heard]->at,
    ensures
        ops[heard]->sleep is Ready,
        0 <= set < heard,
        ops[set] is SetTimer,
        ops[set]->SetTimer_timer == ops[heard]->PollTimer_timer,
        forall|i: int|
            set < i < heard ==> !#[trigger] sets_or_fires(ops, i, ops[heard]->PollTimer_timer),
        ops[heard]->at >= ops[set]->now + ops[set]->duration,
{
    lemma_running_timer_was_set(ops, heard, ops[heard]->PollTimer_timer)
}

proof fn lemma_running_timer_was_set<'a, A, C, S, D>(
    ops: Seq<TaskOp<'a, A, C, S, D>>,
    end: int,
    timer: TimerId,
) -> (set: int)
    requires
        0 <= end <= ops.len(),
        task_after(ops.take(end)).timers.get(timer).running,
    ensures
        0 <= set < end,
        ops[set] is SetTimer,
        ops[set]->SetTimer_timer == timer,
        forall|i: int| set < i < end ==> !#[trigger] sets_or_fires(ops, i, timer),
        task_after(ops.take(end)).timers.get(timer).deadline == ops[set]->now
            + ops[set]->duration,
    decreases end,
{
    assert(end > 0);
    assert(ops.take(end).drop_last() =~= ops.take(end - 1));
    assert(ops.take(end).last() == ops[end - 1]);
    if ops[end - 1] is SetTimer && ops[end - 1]->SetTimer_timer == timer {
        end - 1
    } else {
        assert(!sets_or_fires(ops, end - 1, timer));
        lemma_running_timer_was_set(ops, end - 1, timer)
    }
}

} // verus!
