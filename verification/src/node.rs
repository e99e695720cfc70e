//! What holds of the two tasks together.
//!
//! One port goes back and forth between the task that runs the best master clock
//! algorithm and the task that runs the port, over two channels that hold one
//! port each. A stop signal goes from the first task to the second.

use crate::action::TimerId;
use crate::bmca::{BmcaLoop, BmcaStep, PORT_CHANNEL_CAPACITY, STOP_AT_START};
use crate::port_task::{PortTask, TaskCommand, TaskEvent, TaskPhase};
use crate::timer::TimerPoll;
use vstd::prelude::*;

verus! {

/// Where the two tasks stand, and what is between them.
pub ghost struct Node {
    pub bmca: BmcaStep,
    pub task: TaskPhase,
    /// The stop signal.
    pub stop: bool,
    /// How many ports are on the way to the port task.
    pub to_task: nat,
    /// How many ports are on the way from the port task.
    pub to_bmca: nat,
}

/// A move of one of the two tasks.
pub ghost enum Move<'a, A, C, S, D> {
    /// The task of the algorithm does its current step.
    Bmca,
    /// `event` happens to the port task.
    Task(TaskEvent<'a, A, C, S, D>),
}

impl Node {
    /// The node at its start: the port has been sent to its task.
    pub open spec fn start() -> Node {
        Node {
            bmca: BmcaStep::ArmTimer,
            task: TaskPhase::AwaitPort,
            stop: STOP_AT_START,
            to_task: 1,
            to_bmca: 0,
        }
    }

    /// Whether a move can be made. To receive, a channel must hold a port; to
    /// send, it must have room; the port task hears of a stop while the signal
    /// is set.
    pub open spec fn enables<'a, A, C, S, D>(self, m: Move<'a, A, C, S, D>) -> bool {
        match m {
            Move::Bmca => match self.bmca {
                BmcaStep::ReceivePort => self.to_bmca > 0,
                BmcaStep::SendPort => self.to_task < PORT_CHANNEL_CAPACITY,
                _ => true,
            },
            Move::Task(event) => {
                &&& event.can_happen_at(self.task)
                &&& event is PortReceived ==> self.to_task > 0
                &&& event is PortReturned ==> self.to_bmca < PORT_CHANNEL_CAPACITY
                &&& event is BmcaRequested ==> self.stop
            },
        }
    }

    /// The node after a move.
    pub open spec fn after<'a, A, C, S, D>(self, m: Move<'a, A, C, S, D>) -> Node {
        match m {
            Move::Bmca => Node {
                bmca: crate::bmca::next_step(self.bmca),
                task: self.task,
                stop: match crate::bmca::signal_at(self.bmca) {
                    Some(stop) => stop,
                    None => self.stop,
                },
                to_task: if self.bmca is SendPort {
                    self.to_task + 1
                } else {
                    self.to_task
                },
                to_bmca: if self.bmca is ReceivePort {
                    (self.to_bmca - 1) as nat
                } else {
                    self.to_bmca
                },
            },
            Move::Task(event) => Node {
                task: event.leads_to(),
                to_task: if event is PortReceived {
                    (self.to_task - 1) as nat
                } else {
                    self.to_task
                },
                to_bmca: if event is PortReturned {
                    self.to_bmca + 1
                } else {
                    self.to_bmca
                },
                ..self
            },
        }
    }

    /// How many ports there are, wherever they are.
    pub open spec fn ports(self) -> nat {
        let with_bmca = if crate::bmca::holds_port(self.bmca) {
            1nat
        } else {
            0nat
        };
        let with_task = if self.task is AwaitPort {
            0nat
        } else {
            1nat
        };
        self.to_task + self.to_bmca + with_bmca + with_task
    }

    /// What holds of a node from its start on.
    pub open spec fn inv(self) -> bool {
        &&& self.ports() == 1
        &&& self.stop <==> self.bmca is ReceivePort || self.bmca is ClearStop
        &&& self.to_bmca > 0 || self.task is Returning ==> self.bmca is ReceivePort
    }
}

/// The node after `moves` from its start.
pub open spec fn node_after<'a, A, C, S, D>(moves: Seq<Move<'a, A, C, S, D>>) -> Node
    decreases moves.len(),
{
    if moves.len() == 0 {
        Node::start()
    } else {
        node_after(moves.drop_last()).after(moves.last())
    }
}

/// Whether `moves` can be made from the start of the node, one after the other.
pub open spec fn is_run<'a, A, C, S, D>(moves: Seq<Move<'a, A, C, S, D>>) -> bool
    decreases moves.len(),
{
    moves.len() > 0 ==> is_run(moves.drop_last()) && node_after(moves.drop_last()).enables(
        moves.last(),
    )
}

proof fn lemma_inv<'a, A, C, S, D>(moves: Seq<Move<'a, A, C, S, D>>)
    requires
        is_run(moves),
    ensures
        node_after(moves).inv(),
    decreases moves.len(),
{
    if moves.len() > 0 {
        lemma_inv(moves.drop_last());
    }
}

/// However the two tasks interleave, there is one port: it is with one of them
/// or on the way between them, never lost and never in two places.
pub proof fn law_there_is_one_port<'a, A, C, S, D>(moves: Seq<Move<'a, A, C, S, D>>)
    requires
        is_run(moves),
    ensures
        node_after(moves).ports() == 1,
{
    lemma_inv(moves);
}

/// The algorithm stops the world: while it has the port, from its arrival until
/// it is sent back, the port does not run. The port task waits for it then, and
/// nothing is on its way.
pub proof fn law_bmca_stops_the_world<'a, A, C, S, D>(moves: Seq<Move<'a, A, C, S, D>>)
    requires
        is_run(moves),
        crate::bmca::holds_port(node_after(moves).bmca),
    ensures
        !crate::port_task::port_runs(node_after(moves).task),
        node_after(moves).task is AwaitPort,
        node_after(moves).to_task == 0,
        node_after(moves).to_bmca == 0,
{
    lemma_inv(moves);
}

/// No send waits for room in a channel.
pub proof fn law_sends_do_not_block<'a, A, C, S, D>(moves: Seq<Move<'a, A, C, S, D>>)
    requires
        is_run(moves),
    ensures
        node_after(moves).bmca is SendPort ==> node_after(moves).to_task < PORT_CHANNEL_CAPACITY,
        node_after(moves).task is Returning ==> node_after(moves).to_bmca < PORT_CHANNEL_CAPACITY,
{
    lemma_inv(moves);
}

/// The stop signal is set from the request to stop until the port has arrived
/// and the signal is cleared. It is not set while the algorithm runs and the
/// port is sent.
pub proof fn law_stop_is_cleared_before_the_bmca_runs<'a, A, C, S, D>(
    moves: Seq<Move<'a, A, C, S, D>>,
)
    requires
        is_run(moves),
    ensures
        node_after(moves).stop <==> node_after(moves).bmca is ReceivePort || node_after(
            moves,
        ).bmca is ClearStop,
        node_after(moves).bmca is RunBmca || node_after(moves).bmca is SendPort
            ==> !node_after(moves).stop,
{
    lemma_inv(moves);
}

/// How often the port task has been told to stop during `moves`.
pub open spec fn stops_requested<'a, A, C, S, D>(moves: Seq<Move<'a, A, C, S, D>>) -> nat
    decreases moves.len(),
{
    if moves.len() == 0 {
        0
    } else {
        let before = moves.drop_last();
        stops_requested(before) + if moves.last() is Bmca && node_after(
            before,
        ).bmca is RequestStop {
            1nat
        } else {
            0nat
        }
    }
}

/// How often the port task has sent the port back during `moves`.
pub open spec fn ports_returned<'a, A, C, S, D>(moves: Seq<Move<'a, A, C, S, D>>) -> nat
    decreases moves.len(),
{
    if moves.len() == 0 {
        0
    } else {
        ports_returned(moves.drop_last()) + match moves.last() {
            Move::Task(TaskEvent::PortReturned) => 1nat,
            _ => 0nat,
        }
    }
}

/// One stop brings the port back once: the port has been sent back as often as
/// the port task was told to stop, but for the stop that is still being waited
/// for.
pub proof fn law_one_return_per_stop<'a, A, C, S, D>(moves: Seq<Move<'a, A, C, S, D>>)
    requires
        is_run(moves),
    ensures
        stops_requested(moves) == ports_returned(moves) + if node_after(moves).bmca is ReceivePort
            && node_after(moves).to_bmca == 0 {
            1nat
        } else {
            0nat
        },
    decreases moves.len(),
{
    if moves.len() > 0 {
        lemma_inv(moves.drop_last());
        law_one_return_per_stop(moves.drop_last());
    }
}

/// The tasks never wait for each other for ever: some task can move.
pub proof fn law_there_is_a_move<'a, A, C, S, D>(moves: Seq<Move<'a, A, C, S, D>>)
    requires
        is_run(moves),
    ensures
        exists|m: Move<'a, A, C, S, D>| node_after(moves).enables(m),
{
    lemma_inv(moves);
    let node = node_after(moves);
    if node.enables(Move::<'a, A, C, S, D>::Bmca) {
    } else if node.task is AwaitPort {
        assert(node.enables(Move::Task(TaskEvent::<'a, A, C, S, D>::PortReceived)));
    } else if node.task is Handling {
        let event: TaskEvent<'a, A, C, S, D> = TaskEvent::ActionsHandled { pending: None };
        assert(node.enables(Move::Task(event)));
    } else if node.task is Listening {
        let event: TaskEvent<'a, A, C, S, D> = TaskEvent::BmcaRequested;
        assert(node.enables(Move::Task(event)));
    } else {
        let event: TaskEvent<'a, A, C, S, D> = TaskEvent::PortReturned;
        assert(node.enables(Move::Task(event)));
    }
}

/// The moves of the node are those of its tasks: whatever an operation of one of
/// the tasks does to where that task stands and to the stop signal, the move does
/// to the node.
pub proof fn law_bmca_moves_are_of_the_task<'a, A, C, S, D>(
    node: Node,
    armed: &mut BmcaLoop,
    polled: &mut BmcaLoop,
    advanced: &mut BmcaLoop,
    now: u128,
    interval: u128,
    deadline: u128,
    signal: Option<bool>,
)
    requires
        call_ensures(BmcaLoop::arm, (armed, now, interval), deadline),
        call_ensures(BmcaLoop::poll_timer, (polled, TimerPoll::Ready), TimerPoll::Ready),
        call_ensures(BmcaLoop::advance, (advanced,), ()),
        call_ensures(BmcaLoop::stop_signal, (&*old(advanced),), signal),
        old(armed)@.step is ArmTimer,
        old(polled)@.step is AwaitTimer,
    ensures
        ({
            let next = node.after(Move::<'a, A, C, S, D>::Bmca);
            &&& node.bmca == old(armed)@.step ==> next.bmca == final(armed)@.step && next.stop
                == node.stop
            &&& node.bmca == old(polled)@.step ==> next.bmca == final(polled)@.step && next.stop
                == node.stop
            &&& node.bmca == old(advanced)@.step ==> {
                &&& next.bmca == final(advanced)@.step
                &&& next.stop == match signal {
                    Some(stop) => stop,
                    None => node.stop,
                }
            }
            &&& next.task == node.task
        }),
{
}

/// The moves of the node are those of its port task: an event that the task is
/// told of, and a timer that it hears of, take the node where they take the task,
/// and the node enables what the task accepts, but for channels and the stop
/// signal.
pub proof fn law_task_moves_are_of_the_task<'a, A, C, S, D>(
    node: Node,
    stepped: &mut PortTask,
    polled: &mut PortTask,
    event: TaskEvent<'a, A, C, S, D>,
    accepted: bool,
    answer: TaskCommand<C, S, D>,
    timer: TimerId,
    command: TaskCommand<C, S, D>,
)
    requires
        call_ensures(PortTask::accepts::<A, C, S, D>, (&*old(stepped), &event), accepted),
        call_ensures(PortTask::step::<A, C, S, D>, (stepped, event), answer),
        call_ensures(
            PortTask::poll_timer::<C, S, D>,
            (polled, timer, TimerPoll::Ready),
            Some(command),
        ),
        node.task == old(stepped)@.phase,
        old(polled)@.phase is Listening,
    ensures
        node.after(Move::Task(event)).task == final(stepped)@.phase,
        node.after(Move::Task(event)).bmca == node.bmca,
        node.after(Move::Task(event)).stop == node.stop,
        node.after(
            Move::Task(TaskEvent::TimerFired::<'a, A, C, S, D> { timer }),
        ).task == final(polled)@.phase,
        node.enables(Move::Task(event)) && !(event is TimerFired) ==> accepted,
        accepted && !(event is PortReceived) && !(event is PortReturned) && !(
        event is BmcaRequested) ==> node.enables(Move::Task(event)),
{
}

} // verus!
