use ptp_driver::socket::{
    event_target, general_target, open_ipv4_event_socket, open_ipv4_general_socket,
    InterfaceTimestampMode, OpenAction, OpenRequest, OpenStage, PtpTargetAddress, SocketAddrV4,
    EVENT_PORT, GENERAL_PORT, IPV4_PDELAY_MULTICAST, IPV4_PRIMARY_MULTICAST,
};

#[test]
fn ipv4_addresses() {
    assert_eq!(SocketAddrV4::PRIMARY_EVENT, ([224, 0, 1, 129], 319));
    assert_eq!(SocketAddrV4::PRIMARY_GENERAL, ([224, 0, 1, 129], 320));
    assert_eq!(SocketAddrV4::PDELAY_EVENT, ([224, 0, 0, 107], 319));
    assert_eq!(SocketAddrV4::PDELAY_GENERAL, ([224, 0, 0, 107], 320));
    assert_eq!(EVENT_PORT, 319);
    assert_eq!(GENERAL_PORT, 320);
    assert_eq!(IPV4_PRIMARY_MULTICAST, [224, 0, 1, 129]);
    assert_eq!(IPV4_PDELAY_MULTICAST, [224, 0, 0, 107]);
}

#[test]
fn targets_of_messages() {
    assert_eq!(event_target::<SocketAddrV4>(false), ([224, 0, 1, 129], 319));
    assert_eq!(event_target::<SocketAddrV4>(true), ([224, 0, 0, 107], 319));
    assert_eq!(general_target::<SocketAddrV4>(false), ([224, 0, 1, 129], 320));
    assert_eq!(general_target::<SocketAddrV4>(true), ([224, 0, 0, 107], 320));
}

#[test]
fn targets_of_another_transport() {
    struct Ethernet(u8);
    impl PtpTargetAddress for Ethernet {
        const PRIMARY_EVENT: Self = Ethernet(1);
        const PRIMARY_GENERAL: Self = Ethernet(2);
        const PDELAY_EVENT: Self = Ethernet(3);
        const PDELAY_GENERAL: Self = Ethernet(4);
    }
    assert_eq!(event_target::<Ethernet>(false).0, 1);
    assert_eq!(general_target::<Ethernet>(false).0, 2);
    assert_eq!(event_target::<Ethernet>(true).0, 3);
    assert_eq!(general_target::<Ethernet>(true).0, 4);
}

#[test]
fn event_socket_opens_and_joins_both_groups() {
    let mode = InterfaceTimestampMode::SoftwareAll;
    let opening = open_ipv4_event_socket("eth0", mode, Some(3));
    assert_eq!(
        opening.action(),
        OpenAction::Open {
            interface: "eth0",
            request: OpenRequest { port: 319, timestamping: mode, bind_phc: Some(3) },
        }
    );
    let opening = opening.completed::<u8>(Ok(())).unwrap();
    assert_eq!(
        opening.action(),
        OpenAction::Join { group: ([224, 0, 1, 129], 0), interface: "eth0" }
    );
    let opening = opening.completed::<u8>(Ok(())).unwrap();
    assert_eq!(
        opening.action(),
        OpenAction::Join { group: ([224, 0, 0, 107], 0), interface: "eth0" }
    );
    let opening = opening.completed::<u8>(Ok(())).unwrap();
    assert_eq!(opening.action(), OpenAction::Deliver);
    let opening = opening.completed::<u8>(Ok(())).unwrap();
    assert_eq!(opening.stage, OpenStage::Ready);
}

#[test]
fn general_socket_takes_no_timestamps() {
    let opening = open_ipv4_general_socket(7u32);
    assert_eq!(
        opening.action(),
        OpenAction::Open {
            interface: 7,
            request: OpenRequest {
                port: 320,
                timestamping: InterfaceTimestampMode::Off,
                bind_phc: None,
            },
        }
    );
    assert_eq!(opening.stage, OpenStage::Opening);
}

#[test]
fn first_error_ends_the_opening() {
    for failing in 0..3 {
        let mut opening = open_ipv4_general_socket(0u32);
        for _ in 0..failing {
            opening = opening.completed::<u8>(Ok(())).unwrap();
        }
        assert_eq!(opening.completed::<u8>(Err(40 + failing)), Err(40 + failing));
    }
}
