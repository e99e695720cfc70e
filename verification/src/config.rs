//! The settings of a node.

use statime::config::DelayMechanism as StatimeDelayMechanism;
use statime::config::TimeSource as StatimeTimeSource;
use statime::config::{ClockIdentity, InstanceConfig, PortConfig, SdoId, TimePropertiesDS};
use statime::filters::KalmanFilter;
use statime::time::{Duration, Interval};
use statime::{PtpInstance, PtpInstanceState};
use std::sync::RwLock;
use vstd::prelude::*;

verus! {

/// An instance of PTP in statime: a holder of the data sets of a node.
#[verifier::external_type_specification]
#[verifier::external_body]
#[verifier::reject_recursive_types(F)]
#[verifier::reject_recursive_types(S)]
pub struct ExPtpInstance<F, S>(PtpInstance<F, S>);

/// The data sets of an instance. Nothing is stated of them.
#[verifier::external_type_specification]
#[verifier::external_body]
pub struct ExPtpInstanceState(PtpInstanceState);

/// The filter for measurements. Nothing is stated of it.
#[verifier::external_type_specification]
#[verifier::external_body]
pub struct ExKalmanFilter(KalmanFilter);

/// The lock round the data sets of an instance. Nothing is stated of it.
#[verifier::external_type_specification]
#[verifier::external_body]
#[verifier::reject_recursive_types(T)]
pub struct ExRwLock<T: ?Sized>(RwLock<T>);

/// The identity of a clock in statime. Nothing is stated of it.
#[verifier::external_type_specification]
#[verifier::external_body]
pub struct ExClockIdentity(ClockIdentity);

/// The configuration of a port in statime: a holder of settings.
#[verifier::external_type_specification]
#[verifier::external_body]
#[verifier::reject_recursive_types(A)]
pub struct ExPortConfig<A>(PortConfig<A>);

/// What the time of a node is derived from.
#[derive(Clone, Copy, Debug, PartialEq, Eq, Structural)]
pub enum TimeSource {
    /// An oscillator of its own.
    InternalOscillator,
}

/// What the time of a node counts.
#[derive(Clone, Copy, Debug, PartialEq, Eq, Structural)]
pub enum Timescale {
    /// A time that is not related to UTC.
    Arbitrary,
}

/// The largest SDO identifier: it has 12 bits.
pub const MAX_SDO_ID: u16 = 0xfff;

/// The settings of an instance.
#[derive(Clone, Copy, Debug, PartialEq, Eq)]
pub struct InstanceSettings {
    /// The identity of the clock in the network.
    pub clock_identity: [u8; 8],
    /// The priority when a master is chosen. Lower is better.
    pub priority_1: u8,
    /// The priority between instances that are otherwise alike.
    pub priority_2: u8,
    /// The domain that the instance belongs to.
    pub domain_number: u8,
    /// The identifier of the organization that the domain is of. Messages with
    /// another one are not for the instance.
    pub sdo_id: u16,
    /// Whether the instance never becomes a master.
    pub slave_only: bool,
    /// Whether announce messages record the path that they took.
    pub path_trace: bool,
    /// What the time counts.
    pub timescale: Timescale,
    /// Whether the time can be traced to a primary reference.
    pub time_traceable: bool,
    /// Whether the frequency can be traced to a primary reference.
    pub frequency_traceable: bool,
    /// What the time is derived from.
    pub time_source: TimeSource,
}

/// How the delay of a link is measured, and how often: every two to the power of
/// `log_interval` seconds.
#[derive(Clone, Copy, Debug, PartialEq, Eq, Structural)]
pub enum DelayMechanism {
    /// From end to end, to the master.
    E2E { log_interval: i8 },
    /// On each link, to the peer.
    P2P { log_interval: i8 },
}

/// The settings of a port. An interval is given by its logarithm: two to the
/// power of it is the number of seconds.
#[derive(Clone, Copy, Debug, PartialEq, Eq, Structural)]
pub struct PortSettings {
    /// The time between two announce messages.
    pub announce_log_interval: i8,
    /// How many of those intervals without an announce message end the wait for
    /// one.
    pub announce_receipt_timeout: u8,
    /// The time between two sync messages.
    pub sync_log_interval: i8,
    /// Whether the port never becomes a slave.
    pub master_only: bool,
    /// The asymmetry of the link, in nanoseconds.
    pub delay_asymmetry_nanos: i64,
    /// How the delay is measured.
    pub delay_mechanism: DelayMechanism,
}

/// Which clock a node steers.
#[derive(Clone, Copy, Debug, PartialEq, Eq, Structural)]
pub enum SystemClock {
    /// The clock of the system itself.
    Linux,
    /// A clock over that of the system, which stays as it is.
    Overlay,
}

/// The settings of a node.
#[derive(Clone, Copy, Debug, PartialEq, Eq)]
pub struct TimeSyncSettings {
    pub instance: InstanceSettings,
    pub port: PortSettings,
    pub clock: SystemClock,
}

/// The bytes of the identity of a clock with the MAC address `mac`, by
/// `statime::config::ClockIdentity::from_mac_address`. The contract claims that
/// they are the six bytes of the address and two zeroes.
#[verifier::external_body]
fn identity_from_mac_address(mac: [u8; 6]) -> (identity: [u8; 8])
    ensures
        identity@ == mac@ + seq![0u8, 0u8],
{
    ClockIdentity::from_mac_address(mac).0
}

/// The default SDO identifier, by `statime::config::SdoId::default`. The contract
/// claims that it is 0.
#[verifier::external_body]
fn default_sdo_id() -> (sdo_id: u16)
    ensures
        sdo_id == 0,
{
    u16::from(SdoId::default())
}

/// The settings that an instance was made with: what its data sets hold before
/// anything happens to it.
pub uninterp spec fn instance_settings(
    instance: PtpInstance<KalmanFilter, RwLock<PtpInstanceState>>,
) -> InstanceSettings;

/// Makes an instance, by `statime::PtpInstance::new`, with time properties by
/// `statime::config::TimePropertiesDS::new_arbitrary_time` for the arbitrary
/// timescale. The contract claims that the data sets of the instance start with
/// the settings it is given. An SDO identifier of more than 12 bits is left out:
/// statime has none.
#[verifier::external_body]
fn new_ptp_instance(settings: &InstanceSettings) -> (instance: PtpInstance<
    KalmanFilter,
    RwLock<PtpInstanceState>,
>)
    requires
        settings.sdo_id <= MAX_SDO_ID,
    ensures
        instance_settings(instance) == *settings,
{
    let InstanceSettings { priority_1, priority_2, domain_number, slave_only, path_trace, .. } = *settings;
    let clock_identity = ClockIdentity(settings.clock_identity);
    let sdo_id = SdoId::try_from(settings.sdo_id).unwrap();
    let source = match settings.time_source {
        TimeSource::InternalOscillator => StatimeTimeSource::InternalOscillator,
    };
    let (time, frequency) = (settings.time_traceable, settings.frequency_traceable);
    let time = match settings.timescale {
        Timescale::Arbitrary => TimePropertiesDS::new_arbitrary_time(time, frequency, source),
    };
    PtpInstance::new(
        InstanceConfig { clock_identity, priority_1, priority_2, domain_number, sdo_id, slave_only, path_trace },
        time,
    )
}

/// What the configuration of a port holds: its settings, and the masters that
/// the port accepts, where not every one is.
pub uninterp spec fn port_config_contents(config: PortConfig<Option<Vec<ClockIdentity>>>) -> (
    PortSettings,
    Option<Seq<ClockIdentity>>,
);

/// Makes the configuration of a port, with its intervals by
/// `statime::time::Interval::from_log_2` and its asymmetry by
/// `statime::time::Duration::from_nanos`. The contract claims that the
/// configuration holds what it is given.
#[verifier::external_body]
fn new_port_config(settings: &PortSettings, masters: Option<Vec<ClockIdentity>>) -> (config:
    PortConfig<Option<Vec<ClockIdentity>>>)
    ensures
        port_config_contents(config) == (
            *settings,
            match masters {
                Some(list) => Some(list@),
                None => None,
            },
        ),
{
    let delay_mechanism = match settings.delay_mechanism {
        DelayMechanism::E2E { log_interval } => StatimeDelayMechanism::E2E { interval: Interval::from_log_2(log_interval) },
        DelayMechanism::P2P { log_interval } => StatimeDelayMechanism::P2P { interval: Interval::from_log_2(log_interval) },
    };
    PortConfig {
        acceptable_master_list: masters,
        delay_mechanism,
        announce_interval: Interval::from_log_2(settings.announce_log_interval),
        announce_receipt_timeout: settings.announce_receipt_timeout,
        sync_interval: Interval::from_log_2(settings.sync_log_interval),
        master_only: settings.master_only,
        delay_asymmetry: Duration::from_nanos(settings.delay_asymmetry_nanos),
    }
}

impl InstanceSettings {
    /// Whether these are the settings of a node with the MAC address `mac`, the
    /// priority `priority` and, if `path_trace`, the path trace option: an
    /// instance of domain 0 with SDO identifier 0 that may become a master, with
    /// a time of its own that comes from its own oscillator and can be traced to
    /// nothing.
    pub open spec fn is_for(self, mac: Seq<u8>, priority: u8, path_trace: bool) -> bool {
        &&& self.clock_identity@ == mac + seq![0u8, 0u8]
        &&& self.priority_1 == priority
        &&& self.priority_2 == priority
        &&& self.domain_number == 0
        &&& self.sdo_id == 0
        &&& !self.slave_only
        &&& self.path_trace == path_trace
        &&& self.timescale is Arbitrary
        &&& !self.time_traceable
        &&& !self.frequency_traceable
        &&& self.time_source is InternalOscillator
    }

    /// The settings of the instance of a node.
    pub fn new(identity: [u8; 6], priority: u8, path_trace: bool) -> (settings: InstanceSettings)
        ensures
            settings.is_for(identity@, priority, path_trace),
    {
        InstanceSettings {
            clock_identity: identity_from_mac_address(identity),
            priority_1: priority,
            priority_2: priority,
            domain_number: 0,
            sdo_id: default_sdo_id(),
            slave_only: false,
            path_trace,
            timescale: Timescale::Arbitrary,
            time_traceable: false,
            frequency_traceable: false,
            time_source: TimeSource::InternalOscillator,
        }
    }

    /// Makes the instance.
    pub fn instance(&self) -> (instance: PtpInstance<KalmanFilter, RwLock<PtpInstanceState>>)
        requires
            self.sdo_id <= MAX_SDO_ID,
        ensures
            instance_settings(instance) == *self,
    {
        new_ptp_instance(self)
    }
}

impl PortSettings {
    /// The settings of the port of a node: a port on a symmetric link that
    /// measures the delay to its master every second.
    pub fn new(
        announce_log_interval: i8,
        announce_receipt_timeout: u8,
        sync_log_interval: i8,
        is_master: bool,
    ) -> (settings: PortSettings)
        ensures
            settings == (PortSettings {
                announce_log_interval,
                announce_receipt_timeout,
                sync_log_interval,
                master_only: is_master,
                delay_asymmetry_nanos: 0,
                delay_mechanism: DelayMechanism::E2E { log_interval: 0 },
            }),
    {
        PortSettings {
            announce_log_interval,
            announce_receipt_timeout,
            sync_log_interval,
            master_only: is_master,
            delay_asymmetry_nanos: 0,
            delay_mechanism: DelayMechanism::E2E { log_interval: 0 },
        }
    }

    /// Makes the configuration of a port that accepts every master.
    pub fn config(&self) -> (config: PortConfig<Option<Vec<ClockIdentity>>>)
        ensures
            port_config_contents(config) == (*self, None::<Seq<ClockIdentity>>),
    {
        new_port_config(self, None)
    }
}

impl SystemClock {
    /// The clock to steer.
    pub fn select(use_virtual_clock: bool) -> (clock: SystemClock)
        ensures
            clock == if use_virtual_clock {
                SystemClock::Overlay
            } else {
                SystemClock::Linux
            },
    {
        if use_virtual_clock {
            SystemClock::Overlay
        } else {
            SystemClock::Linux
        }
    }
}

impl TimeSyncSettings {
    /// The settings of a node.
    pub fn new(
        identity: [u8; 6],
        priority: u8,
        is_master: bool,
        path_trace: bool,
        use_virtual_clock: bool,
        announce_log_interval: i8,
        announce_receipt_timeout: u8,
        sync_log_interval: i8,
    ) -> (settings: TimeSyncSettings)
        ensures
            settings.instance.is_for(identity@, priority, path_trace),
            settings.port == (PortSettings {
                announce_log_interval,
                announce_receipt_timeout,
                sync_log_interval,
                master_only: is_master,
                delay_asymmetry_nanos: 0,
                delay_mechanism: DelayMechanism::E2E { log_interval: 0 },
            }),
            settings.clock is Overlay <==> use_virtual_clock,
    {
        TimeSyncSettings {
            instance: InstanceSettings::new(identity, priority, path_trace),
            port: PortSettings::new(
                announce_log_interval,
                announce_receipt_timeout,
                sync_log_interval,
                is_master,
            ),
            clock: SystemClock::select(use_virtual_clock),
        }
    }
}

/// Nodes with different MAC addresses have different identities.
pub proof fn law_identities_differ(
    first: InstanceSettings,
    second: InstanceSettings,
    first_mac: [u8; 6],
    second_mac: [u8; 6],
    priorities: (u8, u8),
    path_traces: (bool, bool),
)
    requires
        first.is_for(first_mac@, priorities.0, path_traces.0),
        second.is_for(second_mac@, priorities.1, path_traces.1),
        first_mac@ != second_mac@,
    ensures
        first.clock_identity@ != second.clock_identity@,
{
    if first.clock_identity@ == second.clock_identity@ {
        let tail = seq![0u8, 0u8];
        assert((first_mac@ + tail).take(6) =~= first_mac@);
        assert((second_mac@ + tail).take(6) =~= second_mac@);
    }
}

/// The instance of a node has the MAC address of the node, followed by two zero
/// bytes, for its identity, and the priority of the node for both of its own. It
/// is in domain 0 with SDO identifier 0 and may become a master. Its time is its
/// own, comes from its own oscillator and can be traced to nothing. It records
/// paths if the node does.
pub proof fn law_settings_of_an_instance(
    mac: [u8; 6],
    priority: u8,
    path_trace: bool,
    settings: InstanceSettings,
)
    requires
        call_ensures(InstanceSettings::new, (mac, priority, path_trace), settings),
    ensures
        forall|i: int| 0 <= i < 6 ==> (#[trigger] settings.clock_identity@[i]) == mac@[i],
        settings.clock_identity@[6] == 0 && settings.clock_identity@[7] == 0,
        settings.priority_1 == priority && settings.priority_2 == priority,
        settings.domain_number == 0 && settings.sdo_id == 0,
        !settings.slave_only,
        settings.path_trace == path_trace,
        settings.timescale is Arbitrary,
        !settings.time_traceable && !settings.frequency_traceable,
        settings.time_source is InternalOscillator,
{
}

/// The port of a node has the intervals and the timeout that the node is given,
/// is a master alone exactly if the node is, and measures the delay to its master
/// over a symmetric link every second.
pub proof fn law_settings_of_a_port(
    announce: i8,
    timeout: u8,
    sync: i8,
    is_master: bool,
    settings: PortSettings,
)
    requires
        call_ensures(PortSettings::new, (announce, timeout, sync, is_master), settings),
    ensures
        settings.announce_log_interval == announce,
        settings.announce_receipt_timeout == timeout,
        settings.sync_log_interval == sync,
        settings.master_only == is_master,
        settings.delay_asymmetry_nanos == 0,
        settings.delay_mechanism is E2E,
        settings.delay_mechanism->E2E_log_interval == 0,
{
}

/// The settings of a node are those of its instance, of its port and of its
/// clock, each made from what the node is given: the clock of the system is left
/// as it is exactly if a virtual clock is asked for.
pub proof fn law_settings_of_a_node(
    mac: [u8; 6],
    priority: u8,
    is_master: bool,
    path_trace: bool,
    use_virtual_clock: bool,
    announce: i8,
    timeout: u8,
    sync: i8,
    settings: TimeSyncSettings,
    clock: SystemClock,
)
    requires
        call_ensures(
            TimeSyncSettings::new,
            (mac, priority, is_master, path_trace, use_virtual_clock, announce, timeout, sync),
            settings,
        ),
        call_ensures(SystemClock::select, (use_virtual_clock,), clock),
    ensures
        forall|i: int| 0 <= i < 6 ==> (#[trigger] settings.instance.clock_identity@[i]) == mac@[i],
        settings.instance.clock_identity@[6] == 0 && settings.instance.clock_identity@[7] == 0,
        settings.instance.priority_1 == priority && settings.instance.priority_2 == priority,
        settings.instance.domain_number == 0 && settings.instance.sdo_id == 0,
        !settings.instance.slave_only,
        settings.instance.path_trace == path_trace,
        settings.instance.timescale is Arbitrary,
        !settings.instance.time_traceable && !settings.instance.frequency_traceable,
        settings.instance.time_source is InternalOscillator,
        settings.port.announce_log_interval == announce,
        settings.port.announce_receipt_timeout == timeout,
        settings.port.sync_log_interval == sync,
        settings.port.master_only == is_master,
        settings.port.delay_asymmetry_nanos == 0,
        settings.port.delay_mechanism is E2E,
        settings.port.delay_mechanism->E2E_log_interval == 0,
        settings.clock == clock,
        clock is Overlay <==> use_virtual_clock,
{
}

/// Settings are kept: an instance is made with each of the settings that it is
/// given, and every identifier of 12 bits can be given; the configuration of a
/// port holds each of its settings and accepts every master.
pub proof fn law_settings_are_kept(
    settings: InstanceSettings,
    instance: PtpInstance<KalmanFilter, RwLock<PtpInstanceState>>,
    port: PortSettings,
    config: PortConfig<Option<Vec<ClockIdentity>>>,
)
    requires
        call_ensures(InstanceSettings::instance, (&settings,), instance),
        call_ensures(PortSettings::config, (&port,), config),
    ensures
        instance_settings(instance).clock_identity == settings.clock_identity,
        instance_settings(instance).priority_1 == settings.priority_1,
        instance_settings(instance).priority_2 == settings.priority_2,
        instance_settings(instance).domain_number == settings.domain_number,
        instance_settings(instance).sdo_id == settings.sdo_id,
        instance_settings(instance).slave_only == settings.slave_only,
        instance_settings(instance).path_trace == settings.path_trace,
        instance_settings(instance).timescale == settings.timescale,
        instance_settings(instance).time_traceable == settings.time_traceable,
        instance_settings(instance).frequency_traceable == settings.frequency_traceable,
        instance_settings(instance).time_source == settings.time_source,
        settings.sdo_id < 4096 ==> call_requires(InstanceSettings::instance, (&settings,)),
        port_config_contents(config).0.announce_log_interval == port.announce_log_interval,
        port_config_contents(config).0.announce_receipt_timeout == port.announce_receipt_timeout,
        port_config_contents(config).0.sync_log_interval == port.sync_log_interval,
        port_config_contents(config).0.master_only == port.master_only,
        port_config_contents(config).0.delay_asymmetry_nanos == port.delay_asymmetry_nanos,
        port_config_contents(config).0.delay_mechanism == port.delay_mechanism,
        port_config_contents(config).1 is None,
{
}

} // verus!
