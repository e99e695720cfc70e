use ptp_driver::action::{ActionRun, Effect, PortAction, TimerId};
use ptp_driver::config::TimeSyncSettings;
use ptp_driver::socket::SocketAddrV4;
use rand::rngs::StdRng;
use rand::SeedableRng;
use statime::config::{ClockIdentity, TimePropertiesDS};
use statime::filters::{KalmanConfiguration, KalmanFilter};
use statime::port::{ForwardedTLV, NoForwardedTLVs, Port, PortActionIterator, Running};
use statime::time::{Duration, Time};
use statime::{Clock, PtpInstance, PtpInstanceState};
use std::sync::RwLock;

type PlainRun = ActionRun<u32, u64, &'static str>;
type PlainEffect = Effect<SocketAddrV4, &'static str>;

fn seconds(n: u64) -> core::time::Duration {
    core::time::Duration::from_secs(n)
}

#[test]
fn event_message_is_sent_and_its_time_is_reported() {
    let mut run = PlainRun::new();
    let effect: PlainEffect =
        run.begin(PortAction::SendEvent { context: 5, data: vec![1, 2], link_local: false });
    assert_eq!(effect, Effect::SendEvent { data: vec![1, 2], target: ([224, 0, 1, 129], 319) });
    assert!(run.awaits_time());
    run.sent(Some(100));
    assert!(!run.awaits_time());
    assert_eq!(run.finish(), Some((5, 100)));
}

#[test]
fn link_local_messages_go_to_the_peer_delay_group() {
    let mut run = PlainRun::new();
    let effect: PlainEffect =
        run.begin(PortAction::SendEvent { context: 5, data: vec![1], link_local: true });
    assert_eq!(effect, Effect::SendEvent { data: vec![1], target: ([224, 0, 0, 107], 319) });
    run.sent(None);
    let effect: PlainEffect =
        run.begin(PortAction::SendGeneral { data: vec![2], link_local: true });
    assert_eq!(effect, Effect::SendGeneral { data: vec![2], target: ([224, 0, 0, 107], 320) });
    let effect: PlainEffect =
        run.begin(PortAction::SendGeneral { data: vec![3], link_local: false });
    assert_eq!(effect, Effect::SendGeneral { data: vec![3], target: ([224, 0, 1, 129], 320) });
}

#[test]
fn unknown_time_of_sending_is_not_reported() {
    let mut run = PlainRun::new();
    let _: PlainEffect =
        run.begin(PortAction::SendEvent { context: 5, data: vec![], link_local: false });
    run.sent(None);
    assert_eq!(run.finish(), None);
}

#[test]
fn last_known_time_of_sending_is_reported() {
    let mut run = PlainRun::new();
    for (context, time) in [(1, Some(10)), (2, Some(20)), (3, None)] {
        let _: PlainEffect =
            run.begin(PortAction::SendEvent { context, data: vec![], link_local: false });
        run.sent(time);
    }
    assert_eq!(run.finish(), Some((2, 20)));
}

#[test]
fn other_actions_keep_what_is_to_be_reported() {
    let mut run = PlainRun::new();
    let _: PlainEffect =
        run.begin(PortAction::SendEvent { context: 9, data: vec![], link_local: false });
    run.sent(Some(1));
    let _: PlainEffect = run.begin(PortAction::ForwardTLV { tlv: "tlv" });
    let _: PlainEffect = run.begin(PortAction::SendGeneral { data: vec![1], link_local: false });
    assert_eq!(run.finish(), Some((9, 1)));
}

#[test]
fn timers_are_set() {
    let mut run = PlainRun::new();
    let effect: PlainEffect =
        run.begin(PortAction::ResetDelayRequestTimer { duration: seconds(1) });
    assert_eq!(
        effect,
        Effect::ResetTimer { timer: TimerId::DelayRequest, duration: seconds(1) }
    );
    let effect: PlainEffect =
        run.begin(PortAction::ResetAnnounceReceiptTimer { duration: seconds(2) });
    assert_eq!(
        effect,
        Effect::ResetTimer { timer: TimerId::PortAnnounceTimeout, duration: seconds(2) }
    );
    let effect: PlainEffect =
        run.begin(PortAction::ResetFilterUpdateTimer { duration: seconds(3) });
    assert_eq!(
        effect,
        Effect::ResetTimer { timer: TimerId::FilterUpdate, duration: seconds(3) }
    );
    assert_eq!(run.finish(), None);
}

#[test]
fn announce_and_sync_have_no_timer() {
    let mut run = PlainRun::new();
    let effect: PlainEffect = run.begin(PortAction::ResetAnnounceTimer { duration: seconds(1) });
    assert_eq!(effect, Effect::Ignore);
    let effect: PlainEffect = run.begin(PortAction::ResetSyncTimer { duration: seconds(1) });
    assert_eq!(effect, Effect::Ignore);
}

#[test]
fn tlvs_are_forwarded() {
    let mut run = PlainRun::new();
    let effect: PlainEffect = run.begin(PortAction::ForwardTLV { tlv: "tlv" });
    assert_eq!(effect, Effect::Forward { tlv: "tlv" });
}

struct StillClock;

impl Clock for StillClock {
    type Error = ();

    fn now(&self) -> Time {
        Time::from_secs(1)
    }

    fn step_clock(&mut self, _offset: Duration) -> Result<Time, ()> {
        Ok(self.now())
    }

    fn set_frequency(&mut self, _ppm: f64) -> Result<Time, ()> {
        Ok(self.now())
    }

    fn set_properties(&mut self, _properties: &TimePropertiesDS) -> Result<(), ()> {
        Ok(())
    }
}

type Instance = PtpInstance<KalmanFilter, RwLock<PtpInstanceState>>;
type RunningPort<'a> = Port<
    'a,
    Running,
    Option<Vec<ClockIdentity>>,
    StdRng,
    StillClock,
    KalmanFilter,
    RwLock<PtpInstanceState>,
>;
type PortRun = ActionRun<statime::port::TimestampContext, Time, ForwardedTLV<'static>>;
type PortEffect = Effect<SocketAddrV4, ForwardedTLV<'static>>;

fn settings() -> TimeSyncSettings {
    TimeSyncSettings::new([1, 2, 3, 4, 5, 6], 128, false, false, false, 0, 3, 0)
}

fn start<'a>(instance: &'a Instance) -> (RunningPort<'a>, PortActionIterator<'static>) {
    let rng = StdRng::seed_from_u64(1);
    let config = settings().port.config();
    instance.add_port(config, KalmanConfiguration::default(), StillClock, rng).end_bmca()
}

#[test]
fn empty_set_of_actions_is_done_at_once() {
    let mut run = PortRun::new();
    let effect: Option<PortEffect> = run.begin_next(&mut PortActionIterator::empty());
    assert!(effect.is_none());
    assert!(run.finish().is_none());
}

#[test]
fn actions_of_a_port_are_taken_in_order() {
    let instance = settings().instance.instance();
    let (mut port, mut actions) = start(&instance);

    let mut run = PortRun::new();
    let effect: PortEffect = run.begin_next(&mut actions).unwrap();
    match effect {
        Effect::ResetTimer { timer, duration } => {
            assert_eq!(timer, TimerId::PortAnnounceTimeout);
            assert!(duration > seconds(3) && duration < seconds(6));
        }
        _ => panic!("unexpected effect"),
    }
    let effect: Option<PortEffect> = run.begin_next(&mut actions);
    assert!(effect.is_none());
    let effect: Option<PortEffect> = run.begin_next(&mut actions);
    assert!(effect.is_none());
    assert!(run.finish().is_none());

    let mut actions = port.handle_announce_receipt_timer();
    let mut run = PortRun::new();
    for _ in 0..2 {
        let effect: PortEffect = run.begin_next(&mut actions).unwrap();
        assert!(matches!(effect, Effect::Ignore));
    }
    let effect: Option<PortEffect> = run.begin_next(&mut actions);
    assert!(effect.is_none());
    drop(actions);

    let mut actions = port.handle_sync_timer();
    let mut run = PortRun::new();
    let effect: PortEffect = run.begin_next(&mut actions).unwrap();
    assert!(matches!(effect, Effect::Ignore));
    let effect: PortEffect = run.begin_next(&mut actions).unwrap();
    match effect {
        Effect::SendEvent { data, target } => {
            assert_eq!(target, ([224, 0, 1, 129], 319));
            assert_eq!(data.len(), 44);
            assert_eq!(data[0], 0x00);
            assert_eq!(data[1] & 0xf, 2);
            assert_eq!(data[20..28], [1, 2, 3, 4, 5, 6, 0, 0]);
        }
        _ => panic!("unexpected effect"),
    }
    run.sent(Some(Time::from_secs(7)));
    let effect: Option<PortEffect> = run.begin_next(&mut actions);
    assert!(effect.is_none());
    drop(actions);
    let (context, time) = run.finish().unwrap();
    assert_eq!(time, Time::from_secs(7));

    let mut actions = port.handle_send_timestamp(context, time);
    let mut run = PortRun::new();
    let effect: PortEffect = run.begin_next(&mut actions).unwrap();
    match effect {
        Effect::SendGeneral { data, target } => {
            assert_eq!(target, ([224, 0, 1, 129], 320));
            assert_eq!(data.len(), 44);
            assert_eq!(data[0], 0x08);
            assert_eq!(data[34..40], [0, 0, 0, 0, 0, 7]);
        }
        _ => panic!("unexpected effect"),
    }
    let effect: Option<PortEffect> = run.begin_next(&mut actions);
    assert!(effect.is_none());
}

#[test]
fn announce_is_a_general_message() {
    let instance = settings().instance.instance();
    let (mut port, _) = start(&instance);
    let _ = port.handle_announce_receipt_timer();
    let mut actions = port.handle_announce_timer(&mut NoForwardedTLVs);
    let mut run = PortRun::new();
    let mut sent = 0;
    while let Some(effect) = run.begin_next::<SocketAddrV4>(&mut actions) {
        match effect {
            Effect::SendGeneral { data, target } => {
                assert_eq!(target, ([224, 0, 1, 129], 320));
                assert_eq!(data[0], 0x0b);
                assert_eq!(data[47], 128);
                sent += 1;
            }
            Effect::Ignore => {}
            _ => panic!("unexpected effect"),
        }
    }
    assert_eq!(sent, 1);
    assert!(run.finish().is_none());
}

#[test]
fn tlv_of_an_announce_message_is_forwarded() {
    let instance = settings().instance.instance();
    let (mut port, _) = start(&instance);

    let mut message = vec![0u8; 64];
    message[0] = 0x0b;
    message[1] = 0x12;
    message[20..28].copy_from_slice(&[9, 9, 9, 9, 9, 9, 0, 0]);
    message[29] = 1;
    message[32] = 5;
    message[47] = 10;
    message[48] = 248;
    message[49] = 0xfe;
    message[53..61].copy_from_slice(&[9, 9, 9, 9, 9, 9, 0, 0]);
    message[63] = 0xa0;
    message.extend_from_slice(&[0x40, 0x00, 0x00, 0x06, 1, 2, 3, 4, 5, 6]);
    message[3] = 74;

    let mut actions = port.handle_general_receive(&message);
    let mut run = PortRun::new();
    let effect: PortEffect = run.begin_next(&mut actions).unwrap();
    match effect {
        Effect::ResetTimer { timer, duration: _ } => assert_eq!(timer, TimerId::PortAnnounceTimeout),
        _ => panic!("unexpected effect"),
    }
    let effect: PortEffect = run.begin_next(&mut actions).unwrap();
    match effect {
        Effect::Forward { tlv } => assert_eq!(tlv.size(), 10),
        _ => panic!("unexpected effect"),
    }
    let effect: Option<PortEffect> = run.begin_next(&mut actions);
    assert!(effect.is_none());
    assert!(run.finish().is_none());
}
