use ptp_driver::config::{
    DelayMechanism, InstanceSettings, PortSettings, SystemClock, TimeSource, TimeSyncSettings,
    Timescale, MAX_SDO_ID,
};
use statime::config::{ClockIdentity, SdoId};
use statime::time::{Duration, Interval};

#[test]
fn settings_of_a_node() {
    let settings = TimeSyncSettings::new([1, 2, 3, 4, 5, 6], 42, true, true, false, 1, 3, -2);
    assert_eq!(
        settings.instance,
        InstanceSettings {
            clock_identity: [1, 2, 3, 4, 5, 6, 0, 0],
            priority_1: 42,
            priority_2: 42,
            domain_number: 0,
            sdo_id: 0,
            slave_only: false,
            path_trace: true,
            timescale: Timescale::Arbitrary,
            time_traceable: false,
            frequency_traceable: false,
            time_source: TimeSource::InternalOscillator,
        }
    );
    assert_eq!(
        settings.port,
        PortSettings {
            announce_log_interval: 1,
            announce_receipt_timeout: 3,
            sync_log_interval: -2,
            master_only: true,
            delay_asymmetry_nanos: 0,
            delay_mechanism: DelayMechanism::E2E { log_interval: 0 },
        }
    );
    assert_eq!(settings.clock, SystemClock::Linux);
}

#[test]
fn virtual_clock_is_an_overlay() {
    assert_eq!(SystemClock::select(true), SystemClock::Overlay);
    assert_eq!(SystemClock::select(false), SystemClock::Linux);
    let settings = TimeSyncSettings::new([0; 6], 0, false, false, true, 0, 0, 0);
    assert_eq!(settings.clock, SystemClock::Overlay);
    assert!(!settings.port.master_only);
    assert!(!settings.instance.path_trace);
}

#[test]
fn identities_of_different_addresses_differ() {
    let first = InstanceSettings::new([1, 2, 3, 4, 5, 6], 1, false);
    let second = InstanceSettings::new([1, 2, 3, 4, 5, 7], 1, false);
    assert_ne!(first.clock_identity, second.clock_identity);
}

#[test]
fn instance_starts_with_its_settings() {
    let settings = InstanceSettings::new([10, 11, 12, 13, 14, 15], 7, true);
    let instance = settings.instance();
    let data = instance.default_ds();
    assert_eq!(data.clock_identity, ClockIdentity([10, 11, 12, 13, 14, 15, 0, 0]));
    assert_eq!(data.number_ports, 0);
    assert_eq!(data.priority_1, 7);
    assert_eq!(data.priority_2, 7);
    assert_eq!(data.domain_number, 0);
    assert!(!data.slave_only);
    assert_eq!(data.sdo_id, SdoId::default());
    assert!(instance.path_trace_ds().enable);
    let time = instance.time_properties_ds();
    assert!(!time.is_ptp());
    assert!(!time.time_traceable);
    assert!(!time.frequency_traceable);
    assert_eq!(time.utc_offset(), None);
    assert_eq!(time.time_source, statime::config::TimeSource::InternalOscillator);
}

#[test]
fn instance_keeps_unusual_settings() {
    let settings = InstanceSettings {
        clock_identity: [1, 2, 3, 4, 5, 6, 7, 8],
        priority_1: 9,
        priority_2: 10,
        domain_number: 11,
        sdo_id: MAX_SDO_ID,
        slave_only: true,
        path_trace: false,
        timescale: Timescale::Arbitrary,
        time_traceable: true,
        frequency_traceable: false,
        time_source: TimeSource::InternalOscillator,
    };
    let instance = settings.instance();
    let data = instance.default_ds();
    assert_eq!(data.clock_identity, ClockIdentity([1, 2, 3, 4, 5, 6, 7, 8]));
    assert_eq!(data.priority_1, 9);
    assert_eq!(data.priority_2, 10);
    assert_eq!(data.domain_number, 11);
    assert_eq!(data.sdo_id, SdoId::try_from(0xfff).unwrap());
    assert!(!instance.time_properties_ds().is_ptp());
    assert!(data.slave_only);
    assert!(!instance.path_trace_ds().enable);
    assert!(instance.time_properties_ds().time_traceable);
    assert!(!instance.time_properties_ds().frequency_traceable);
}

#[test]
fn port_configuration_holds_its_settings() {
    let config = PortSettings::new(1, 3, -2, true).config();
    assert_eq!(config.acceptable_master_list, None);
    assert_eq!(
        config.delay_mechanism,
        statime::config::DelayMechanism::E2E { interval: Interval::from_log_2(0) }
    );
    assert_eq!(config.announce_interval, Interval::from_log_2(1));
    assert_eq!(config.announce_receipt_timeout, 3);
    assert_eq!(config.sync_interval, Interval::from_log_2(-2));
    assert!(config.master_only);
    assert_eq!(config.delay_asymmetry, Duration::from_nanos(0));
}

#[test]
fn port_configuration_holds_unusual_settings() {
    let settings = PortSettings {
        announce_log_interval: -3,
        announce_receipt_timeout: 200,
        sync_log_interval: 5,
        master_only: false,
        delay_asymmetry_nanos: -1500,
        delay_mechanism: DelayMechanism::P2P { log_interval: 4 },
    };
    let config = settings.config();
    assert_eq!(
        config.delay_mechanism,
        statime::config::DelayMechanism::P2P { interval: Interval::from_log_2(4) }
    );
    assert_eq!(config.announce_interval, Interval::from_log_2(-3));
    assert_eq!(config.announce_receipt_timeout, 200);
    assert_eq!(config.sync_interval, Interval::from_log_2(5));
    assert!(!config.master_only);
    assert_eq!(config.delay_asymmetry, Duration::from_nanos(-1500));
}
