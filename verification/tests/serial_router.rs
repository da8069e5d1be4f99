use rustair::config::{SerialBoard, SioInterface};
use rustair::io::serial_router::{SerialConnection, SerialDevice, SerialRouter};

#[test]
fn default_wiring_connects_only_internal_asr33() {
    let router = SerialRouter::default();
    assert_eq!(router.connection(SerialDevice::InternalAsr33), SerialConnection::Port0);
    assert_eq!(router.connection(SerialDevice::TextTerminal), SerialConnection::Disconnected);
    assert_eq!(router.connection(SerialDevice::ExternalTcp), SerialConnection::Disconnected);
    assert_eq!(router.connection(SerialDevice::ExternalCom), SerialConnection::Disconnected);
}

#[test]
fn two_sio_default_wiring_uses_both_ports_and_leaves_host_endpoints_unplugged() {
    let mut router = SerialRouter::default();
    router.reset_for_board(SerialBoard::TwoSio88);
    assert_eq!(router.connection(SerialDevice::InternalAsr33), SerialConnection::Port0);
    assert_eq!(router.connection(SerialDevice::TextTerminal), SerialConnection::Port1);
    assert_eq!(router.connection(SerialDevice::ExternalTcp), SerialConnection::Disconnected);
    assert_eq!(router.connection(SerialDevice::ExternalCom), SerialConnection::Disconnected);
}

#[test]
fn moving_a_cable_displaces_the_previous_endpoint() {
    let mut router = SerialRouter::default();
    let displaced = router.connect(SerialDevice::ExternalCom, SerialConnection::Port0);
    assert_eq!(displaced, Some(SerialDevice::InternalAsr33));
    assert_eq!(router.connection(SerialDevice::ExternalCom), SerialConnection::Port0);
    assert_eq!(router.connection(SerialDevice::InternalAsr33), SerialConnection::Disconnected);
}

#[test]
fn tcp_and_com_can_use_different_two_sio_ports() {
    let mut router = SerialRouter::default();
    router.reset_for_board(SerialBoard::TwoSio88);
    router.connect(SerialDevice::ExternalTcp, SerialConnection::Port0);
    router.connect(SerialDevice::ExternalCom, SerialConnection::Port1);
    assert_eq!(router.connection(SerialDevice::ExternalTcp), SerialConnection::Port0);
    assert_eq!(router.connection(SerialDevice::ExternalCom), SerialConnection::Port1);
    assert_eq!(router.connection(SerialDevice::InternalAsr33), SerialConnection::Disconnected);
    assert_eq!(router.connection(SerialDevice::TextTerminal), SerialConnection::Disconnected);
}

#[test]
fn original_sio_direct_endpoint_wiring_does_not_invent_level_converters() {
    assert!(SerialDevice::InternalAsr33.supports_sio_interface(SioInterface::TtyC));
    assert!(!SerialDevice::InternalAsr33.supports_sio_interface(SioInterface::Rs232A));
    assert!(!SerialDevice::InternalAsr33.supports_sio_interface(SioInterface::TtlB));

    assert!(SerialDevice::ExternalCom.supports_sio_interface(SioInterface::Rs232A));
    assert!(!SerialDevice::ExternalCom.supports_sio_interface(SioInterface::TtlB));
    assert!(!SerialDevice::ExternalCom.supports_sio_interface(SioInterface::TtyC));

    for interface in [SioInterface::Rs232A, SioInterface::TtlB, SioInterface::TtyC] {
        assert!(SerialDevice::TextTerminal.supports_sio_interface(interface));
        assert!(SerialDevice::ExternalTcp.supports_sio_interface(interface));
    }
}

#[test]
fn reconnecting_to_the_same_port_displaces_nothing_and_unplugging_frees_the_port() {
    let mut router = SerialRouter::new();
    assert_eq!(router.connect(SerialDevice::InternalAsr33, SerialConnection::Port0), None);
    assert_eq!(router.device_on(SerialConnection::Port0), Some(SerialDevice::InternalAsr33));
    assert_eq!(router.connect(SerialDevice::InternalAsr33, SerialConnection::Disconnected), None);
    assert_eq!(router.device_on(SerialConnection::Port0), None);
    assert_eq!(router.device_on(SerialConnection::Disconnected), None);
    assert!(!SerialConnection::Disconnected.is_connected());
    assert!(SerialConnection::Port1.is_connected());
    assert!(SerialDevice::InternalAsr33.sio_requirement_label().contains("current loop"));
}
