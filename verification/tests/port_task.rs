use ptp_driver::action::TimerId;
use ptp_driver::bmca::{BmcaLoop, BmcaStep, PORT_CHANNEL_CAPACITY, STOP_AT_START};
use ptp_driver::channel::RecvResult;
use ptp_driver::port_task::{receive_event, PortTask, TaskCommand, TaskEvent, TaskPhase};
use ptp_driver::socket::SocketAddrV4;
use ptp_driver::timer::TimerPoll;

type Event<'a> = TaskEvent<'a, SocketAddrV4, u32, u64, u16>;
type Command = TaskCommand<u32, u64, u16>;

fn packet(bytes_read: usize, timestamp: Option<u16>) -> RecvResult<SocketAddrV4, u16> {
    RecvResult { bytes_read, remote_addr: ([224, 0, 1, 129], 320), timestamp }
}

fn listening() -> PortTask {
    let mut task = PortTask::new();
    let event: Event = TaskEvent::PortReceived;
    assert_eq!(task.step(event), TaskCommand::EndBmca);
    let event: Event = TaskEvent::ActionsHandled { pending: None };
    assert_eq!(task.step(event), TaskCommand::Listen);
    task
}

#[test]
fn port_that_arrives_is_run() {
    let mut task = PortTask::new();
    assert_eq!(task.phase(), TaskPhase::AwaitPort);
    let event: Event = TaskEvent::PortReceived;
    assert!(task.accepts(&event));
    assert_eq!(task.step(event), TaskCommand::EndBmca);
    assert_eq!(task.phase(), TaskPhase::Handling);
}

#[test]
fn times_of_sending_are_reported_before_listening() {
    let mut task = PortTask::new();
    let event: Event = TaskEvent::PortReceived;
    task.step(event);
    for context in 1..4u32 {
        let event: Event = TaskEvent::ActionsHandled { pending: Some((context, 50)) };
        assert_eq!(task.step(event), TaskCommand::HandleSendTimestamp { context, time: 50 });
        assert_eq!(task.phase(), TaskPhase::Handling);
        let event: Event = TaskEvent::SyncNotified;
        assert!(!task.accepts(&event));
        let event: Event = TaskEvent::BmcaRequested;
        assert!(!task.accepts(&event));
    }
    let event: Event = TaskEvent::ActionsHandled { pending: None };
    assert_eq!(task.step(event), TaskCommand::Listen);
    assert_eq!(task.phase(), TaskPhase::Listening);
}

#[test]
fn notifications_call_the_port() {
    let mut task = listening();
    let pairs: Vec<(Event, Command)> = vec![
        (TaskEvent::AnnounceNotified, TaskCommand::HandleAnnounceTimer),
        (TaskEvent::SyncNotified, TaskCommand::HandleSyncTimer),
    ];
    for (event, command) in pairs {
        assert!(task.accepts(&event));
        assert_eq!(task.step(event), command);
        assert_eq!(task.phase(), TaskPhase::Handling);
        let event: Event = TaskEvent::ActionsHandled { pending: None };
        assert_eq!(task.step(event), TaskCommand::Listen);
    }
}

#[test]
fn timers_that_fire_call_the_port() {
    let mut task = listening();
    let pairs: [(TimerId, Command); 3] = [
        (TimerId::PortAnnounceTimeout, TaskCommand::HandleAnnounceReceiptTimer),
        (TimerId::DelayRequest, TaskCommand::HandleDelayRequestTimer),
        (TimerId::FilterUpdate, TaskCommand::HandleFilterUpdateTimer),
    ];
    for (timer, command) in pairs {
        assert!(!task.timer_needs_poll(timer));
        let polled: Option<Command> = task.poll_timer(timer, TimerPoll::Ready);
        assert_eq!(polled, None);
        assert_eq!(task.phase(), TaskPhase::Listening);
        assert_eq!(task.set_timer(timer, 100, 20), 120);
        assert!(task.timer_needs_poll(timer));
        let polled: Option<Command> = task.poll_timer(timer, TimerPoll::Pending);
        assert_eq!(polled, None);
        assert_eq!(task.phase(), TaskPhase::Listening);
        let polled: Option<Command> = task.poll_timer(timer, TimerPoll::Ready);
        assert_eq!(polled, Some(command));
        assert_eq!(task.phase(), TaskPhase::Handling);
        assert!(!task.timer_needs_poll(timer));
        let event: Event = TaskEvent::ActionsHandled { pending: None };
        assert_eq!(task.step(event), TaskCommand::Listen);
    }
}

#[test]
fn task_is_not_told_of_its_timers() {
    let task = listening();
    for timer in [TimerId::PortAnnounceTimeout, TimerId::DelayRequest, TimerId::FilterUpdate] {
        let event: Event = TaskEvent::TimerFired { timer };
        assert!(!task.accepts(&event));
    }
}

fn bmca_round(task: &mut PortTask) {
    let event: Event = TaskEvent::BmcaRequested;
    assert_eq!(task.step(event), TaskCommand::StartBmca);
    let event: Event = TaskEvent::PortReturned;
    assert_eq!(task.step(event), TaskCommand::ReceivePort);
    let event: Event = TaskEvent::PortReceived;
    assert_eq!(task.step(event), TaskCommand::EndBmca);
    let event: Event = TaskEvent::ActionsHandled { pending: Some((3, 4)) };
    assert_eq!(task.step(event), TaskCommand::HandleSendTimestamp { context: 3, time: 4 });
    let event: Event = TaskEvent::ActionsHandled { pending: None };
    assert_eq!(task.step(event), TaskCommand::Listen);
}

#[test]
fn timer_outlives_the_bmca() {
    let mut task = listening();
    task.set_timer(TimerId::DelayRequest, 10, 5);
    let polled: Option<Command> = task.poll_timer(TimerId::DelayRequest, TimerPoll::Pending);
    assert_eq!(polled, None);
    bmca_round(&mut task);
    bmca_round(&mut task);
    let mut other = listening();
    other.set_timer(TimerId::DelayRequest, 10, 5);
    assert_eq!(task, other);
    assert!(!task.timer_needs_poll(TimerId::PortAnnounceTimeout));
    assert!(!task.timer_needs_poll(TimerId::FilterUpdate));
    assert!(task.timer_needs_poll(TimerId::DelayRequest));
    let polled: Option<Command> = task.poll_timer(TimerId::DelayRequest, TimerPoll::Ready);
    assert_eq!(polled, Some(TaskCommand::HandleDelayRequestTimer));
}

#[test]
fn event_message_reaches_the_port() {
    let mut task = listening();
    let buffer = [0x00, 0x12, 0x00, 0x2c];
    let event: Event = TaskEvent::EventPacket { buffer: &buffer, packet: packet(4, Some(8)) };
    assert_eq!(
        task.step(event),
        TaskCommand::HandleEventReceive { bytes_read: 4, timestamp: 8 }
    );
    assert_eq!(task.phase(), TaskPhase::Handling);
}

#[test]
fn event_message_of_another_version_is_dropped() {
    let version_1 = [0x00, 0x01, 0x00, 0x02];
    let command: Command = receive_event(&version_1, packet(4, Some(8)));
    assert_eq!(command, TaskCommand::Discard);
    let command: Command = receive_event(&version_1, packet(4, None));
    assert_eq!(command, TaskCommand::Discard);
    let mut task = listening();
    let event: Event = TaskEvent::EventPacket { buffer: &version_1, packet: packet(4, Some(8)) };
    assert_eq!(task.step(event), TaskCommand::Discard);
    assert_eq!(task.phase(), TaskPhase::Handling);
}

#[test]
fn event_message_without_a_timestamp_is_dropped() {
    let command: Command = receive_event(&[0x00, 0x02], packet(2, None));
    assert_eq!(command, TaskCommand::DiscardUntimestamped);
    let mut task = listening();
    let event: Event = TaskEvent::EventPacket { buffer: &[0, 2], packet: packet(2, None) };
    assert_eq!(task.step(event), TaskCommand::DiscardUntimestamped);
    assert_eq!(task.phase(), TaskPhase::Handling);
}

#[test]
fn short_event_messages_are_dropped() {
    let buffer = [0x02, 0x02, 0x02];
    let command: Command = receive_event(&buffer, packet(0, Some(1)));
    assert_eq!(command, TaskCommand::Discard);
    let command: Command = receive_event(&buffer, packet(1, Some(1)));
    assert_eq!(command, TaskCommand::Discard);
    let command: Command = receive_event(&buffer, packet(2, Some(1)));
    assert_eq!(command, TaskCommand::HandleEventReceive { bytes_read: 2, timestamp: 1 });
}

#[test]
fn general_message_reaches_the_port_whatever_it_holds() {
    let mut task = listening();
    let event: Event = TaskEvent::GeneralPacket { buffer: &[1, 1, 1], packet: packet(3, None) };
    assert_eq!(task.step(event), TaskCommand::HandleGeneralReceive { bytes_read: 3 });
}

#[test]
fn message_longer_than_its_buffer_is_not_accepted() {
    let task = listening();
    let event: Event = TaskEvent::EventPacket { buffer: &[0, 2], packet: packet(3, Some(1)) };
    assert!(!task.accepts(&event));
    let event: Event = TaskEvent::GeneralPacket { buffer: &[0, 2], packet: packet(3, Some(1)) };
    assert!(!task.accepts(&event));
    let event: Event = TaskEvent::GeneralPacket { buffer: &[0, 2], packet: packet(2, Some(1)) };
    assert!(task.accepts(&event));
}

#[test]
fn stopped_task_sends_the_port_back() {
    let mut task = listening();
    let event: Event = TaskEvent::BmcaRequested;
    assert_eq!(task.step(event), TaskCommand::StartBmca);
    assert_eq!(task.phase(), TaskPhase::Returning);
    let event: Event = TaskEvent::PortReturned;
    assert_eq!(task.step(event), TaskCommand::ReceivePort);
    assert_eq!(task.phase(), TaskPhase::AwaitPort);
}

#[test]
fn bmca_goes_round() {
    let mut bmca = BmcaLoop::new();
    let round = [
        (BmcaStep::RequestStop, Some(true)),
        (BmcaStep::ReceivePort, None),
        (BmcaStep::ClearStop, Some(false)),
        (BmcaStep::RunBmca, None),
        (BmcaStep::SendPort, None),
    ];
    for (now, interval) in [(100, 50), (400, 1_000)] {
        assert_eq!(bmca.step(), BmcaStep::ArmTimer);
        assert_eq!(bmca.stop_signal(), None);
        assert_eq!(bmca.arm(now, interval), now + interval);
        for _ in 0..3 {
            assert_eq!(bmca.step(), BmcaStep::AwaitTimer);
            assert_eq!(bmca.stop_signal(), None);
            assert_eq!(bmca.poll_timer(TimerPoll::Pending), TimerPoll::Pending);
        }
        assert_eq!(bmca.poll_timer(TimerPoll::Ready), TimerPoll::Ready);
        for (step, signal) in round {
            assert_eq!(bmca.step(), step);
            assert_eq!(bmca.stop_signal(), signal);
            bmca.advance();
        }
    }
}

#[test]
fn stop_waits_for_the_interval() {
    let mut bmca = BmcaLoop::new();
    let mut deadline = 0;
    let mut rounds = 0;
    for now in 0..500u128 {
        match bmca.step() {
            BmcaStep::ArmTimer => {
                deadline = bmca.arm(now, 30 + rounds);
                assert_eq!(deadline, now + 30 + rounds);
            }
            BmcaStep::AwaitTimer => {
                let sleep = if now >= deadline { TimerPoll::Ready } else { TimerPoll::Pending };
                bmca.poll_timer(sleep);
                if bmca.step() == BmcaStep::RequestStop {
                    assert_eq!(now, deadline);
                    rounds += 1;
                }
            }
            _ => bmca.advance(),
        }
    }
    assert!(rounds > 5);
}

#[test]
fn port_goes_back_and_forth() {
    let mut bmca = BmcaLoop::new();
    let mut task = PortTask::new();
    let mut stop = STOP_AT_START;
    let mut to_task = 1;
    let mut to_bmca = 0;
    let mut rounds = 0;
    let mut heard = 0;
    let mut stops = 0;
    let mut returns = 0;
    for turn in 0..1000u128 {
        let may_move = match bmca.step() {
            BmcaStep::ReceivePort => to_bmca > 0,
            BmcaStep::AwaitTimer => turn % 10 == 0,
            _ => true,
        };
        if may_move {
            match bmca.step() {
                BmcaStep::ReceivePort => to_bmca -= 1,
                BmcaStep::RunBmca => {
                    assert_eq!(task.phase(), TaskPhase::AwaitPort);
                    assert!(!stop);
                    rounds += 1;
                }
                BmcaStep::SendPort => {
                    assert!(to_task < PORT_CHANNEL_CAPACITY);
                    to_task += 1;
                }
                _ => {}
            }
            if let Some(signal) = bmca.stop_signal() {
                stop = signal;
                if signal {
                    stops += 1;
                }
            }
            match bmca.step() {
                BmcaStep::ArmTimer => {
                    bmca.arm(turn, 1);
                }
                BmcaStep::AwaitTimer => {
                    bmca.poll_timer(TimerPoll::Ready);
                }
                _ => bmca.advance(),
            }
        }
        let event: Option<Event> = match task.phase() {
            TaskPhase::AwaitPort if to_task > 0 => Some(TaskEvent::PortReceived),
            TaskPhase::AwaitPort => None,
            TaskPhase::Handling => Some(TaskEvent::ActionsHandled { pending: None }),
            TaskPhase::Listening if stop => Some(TaskEvent::BmcaRequested),
            TaskPhase::Listening => Some(TaskEvent::AnnounceNotified),
            TaskPhase::Returning => Some(TaskEvent::PortReturned),
        };
        if let Some(event) = event {
            assert!(task.accepts(&event));
            match task.step(event) {
                TaskCommand::EndBmca => {
                    assert!(!stop);
                    to_task -= 1;
                }
                TaskCommand::ReceivePort => {
                    assert!(to_bmca < PORT_CHANNEL_CAPACITY);
                    to_bmca += 1;
                    returns += 1;
                }
                TaskCommand::HandleAnnounceTimer => heard += 1,
                _ => {}
            }
        }
        assert!(to_task + to_bmca <= 1);
        let awaited = bmca.step() == BmcaStep::ReceivePort && to_bmca == 0;
        assert_eq!(stops, returns + if awaited { 1 } else { 0 });
    }
    assert!(rounds > 10);
    assert!(heard > 10);
}
