use dod_shell::network::{ConnectionData, NetworkEvent, NetworkStage};

fn run(events: Vec<NetworkEvent>) -> NetworkStage {
    let mut stage = NetworkStage::start();
    for e in events {
        stage = stage.advance(e);
    }
    stage
}

#[test]
fn wireless_connection_is_reported() {
    let stage = run(vec![
        NetworkEvent::State(70),
        NetworkEvent::Devices(1),
        NetworkEvent::DeviceType(2),
        NetworkEvent::ActiveAccessPoint(true),
        NetworkEvent::AccessPoint { ssid: Some(b"HomeNet".to_vec()), strength: Some(42) },
    ]);
    match stage {
        NetworkStage::Done(ConnectionData::Wireless { signal, ssid }) => {
            assert_eq!(ssid, "HomeNet");
            assert_eq!(signal.render(), "42%");
            assert_eq!(signal.get_value(), (42, 100));
        }
        other => panic!("unexpected stage {:?}", other),
    }
}

#[test]
fn ssid_bytes_are_decoded_lossily() {
    let stage = run(vec![
        NetworkEvent::State(70),
        NetworkEvent::Devices(2),
        NetworkEvent::DeviceType(1),
        NetworkEvent::DeviceType(2),
        NetworkEvent::ActiveAccessPoint(true),
        NetworkEvent::AccessPoint { ssid: Some(vec![b'A', 0xFF, b'B']), strength: Some(7) },
    ]);
    match stage {
        NetworkStage::Done(ConnectionData::Wireless { ssid, .. }) => assert_eq!(ssid, "A\u{FFFD}B"),
        other => panic!("unexpected stage {:?}", other),
    }
}

#[test]
fn not_fully_connected_is_no_connection() {
    let stage = run(vec![NetworkEvent::State(20)]);
    assert!(matches!(stage, NetworkStage::Done(ConnectionData::Disconnected)));
}

#[test]
fn no_wifi_device_is_wired() {
    let stage = run(vec![
        NetworkEvent::State(70),
        NetworkEvent::Devices(2),
        NetworkEvent::DeviceType(1),
        NetworkEvent::DeviceType(14),
    ]);
    assert!(matches!(stage, NetworkStage::Done(ConnectionData::Wired)));
    let stage = run(vec![NetworkEvent::State(70), NetworkEvent::Devices(0)]);
    assert!(matches!(stage, NetworkStage::Done(ConnectionData::Wired)));
}

#[test]
fn wifi_without_access_point_is_wired() {
    let stage = run(vec![
        NetworkEvent::State(70),
        NetworkEvent::Devices(1),
        NetworkEvent::DeviceType(2),
        NetworkEvent::ActiveAccessPoint(false),
    ]);
    assert!(matches!(stage, NetworkStage::Done(ConnectionData::Wired)));
    let stage = run(vec![
        NetworkEvent::State(70),
        NetworkEvent::Devices(1),
        NetworkEvent::DeviceType(2),
        NetworkEvent::ActiveAccessPoint(true),
        NetworkEvent::AccessPoint { ssid: None, strength: Some(50) },
    ]);
    assert!(matches!(stage, NetworkStage::Done(ConnectionData::Wired)));
}

#[test]
fn first_wifi_device_decides() {
    let stage = run(vec![
        NetworkEvent::State(70),
        NetworkEvent::Devices(3),
        NetworkEvent::DeviceType(2),
    ]);
    assert!(matches!(stage, NetworkStage::AskActiveAccessPoint { index: 0, count: 3 }));
}

#[test]
fn bus_failure_is_no_connection() {
    let stage = run(vec![NetworkEvent::State(70), NetworkEvent::Devices(1), NetworkEvent::BusError]);
    assert!(matches!(stage, NetworkStage::Done(ConnectionData::Disconnected)));
    let stage = run(vec![NetworkEvent::BusError]);
    assert!(matches!(stage, NetworkStage::Done(ConnectionData::Disconnected)));
    assert!(stage.is_done());
    assert!(!NetworkStage::start().is_done());
}
