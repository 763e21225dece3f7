use dod_shell::battery::{BatteryFiles, BatteryStatus};
use dod_shell::bluetooth::{BusInterface, BusProperty, ManagedObject};
use dod_shell::leds::{BrightnessFile, LedEntry};
use dod_shell::network::ConnectionData;
use dod_shell::percentage::Percentage;
use dod_shell::snapshot::{
    assemble, disk_data, Collector, DiskReading, MixerReading, RawReadings, Timestamp, Unavailable,
};
use dod_shell::volume::ChannelReading;

fn connected_device() -> Vec<ManagedObject> {
    vec![ManagedObject {
        interfaces: vec![BusInterface {
            name: "org.bluez.Device1".to_string(),
            properties: vec![BusProperty { name: "Connected".to_string(), value: Some(true) }],
        }],
    }]
}

fn readings(battery: Option<BatteryFiles>) -> RawReadings {
    RawReadings {
        cpu_usage: Percentage::from_percent(12),
        total_mem: 8000,
        used_mem: 2000,
        time: Timestamp { year: 2024, month: 5, day: 17, hour: 13, minute: 4, second: 59, offset_seconds: 7200 },
        workspace: 3,
        disks: vec![DiskReading { name: "/dev/sda1".to_string(), size: 1000, free: 250 }],
        battery,
        leds: Ok(vec![LedEntry {
            name: "input3::capslock".to_string(),
            brightness: BrightnessFile::Text("1".to_string()),
        }]),
        mixer: Ok(MixerReading { max: 100, channels: vec![ChannelReading { volume: Some(30), switch: Some(0) }] }),
        network: Ok(ConnectionData::Wireless { signal: Percentage::from_percent(42), ssid: "HomeNet".to_string() }),
        bluetooth: Ok(connected_device()),
    }
}

#[test]
fn end_to_end_cycle() {
    let files = BatteryFiles { capacity: Some("57".to_string()), status: Some("Discharging".to_string()) };
    let (s, failed) = assemble(readings(Some(files)));
    assert!(failed.is_empty());
    assert_eq!(s.battery, Some((Percentage::from_percent(57), BatteryStatus::Discharging)));
    assert!(s.capslock);
    assert!(!s.numlock);
    assert!(s.volume.is_muted());
    assert_eq!(s.volume.render(), "-1%");
    assert!(s.bluetooth);
    match &s.network {
        ConnectionData::Wireless { signal, ssid } => {
            assert_eq!(ssid, "HomeNet");
            assert_eq!(signal.render(), "42%");
        }
        other => panic!("unexpected network {:?}", other),
    }
    assert_eq!(s.mem_usage.render(), "25%");
    assert_eq!(s.mem_usage.get_value(), (2000, 8000));
    assert_eq!(s.disks.len(), 1);
    assert_eq!(s.disks[0].name, "/dev/sda1");
    assert_eq!(s.disks[0].used.render(), "75%");
    assert_eq!(s.workspace, 3);
    assert_eq!(s.time.hour, 13);
}

#[test]
fn no_battery_configured_is_no_failure() {
    let (s, failed) = assemble(readings(None));
    assert_eq!(s.battery, None);
    assert!(!failed.contains(&Collector::Battery));
    assert!(failed.is_empty());
}

#[test]
fn unreadable_battery_is_none_and_recorded() {
    let files = BatteryFiles { capacity: None, status: Some("Charging".to_string()) };
    let (s, failed) = assemble(readings(Some(files)));
    assert_eq!(s.battery, None);
    assert_eq!(failed, vec![Collector::Battery]);
}

#[test]
fn bluetooth_failure_touches_only_its_field() {
    let (good, _) = assemble(readings(None));
    let mut raw = readings(None);
    raw.bluetooth = Err(Unavailable::Unavailable);
    let (bad, failed) = assemble(raw);
    assert_eq!(failed, vec![Collector::Bluetooth]);
    assert!(good.bluetooth);
    assert!(!bad.bluetooth);
    assert_eq!(bad.capslock, good.capslock);
    assert_eq!(bad.numlock, good.numlock);
    assert_eq!(bad.volume, good.volume);
    assert_eq!(bad.battery, good.battery);
    assert_eq!(bad.mem_usage, good.mem_usage);
    assert_eq!(bad.cpu_usage, good.cpu_usage);
    assert_eq!(bad.time, good.time);
    assert_eq!(bad.workspace, good.workspace);
    assert_eq!(bad.disks[0].used, good.disks[0].used);
    assert!(matches!(bad.network, ConnectionData::Wireless { .. }));
}

#[test]
fn every_collector_failing_gives_defaults() {
    let mut raw = readings(Some(BatteryFiles { capacity: None, status: None }));
    raw.bluetooth = Err(Unavailable::Unavailable);
    raw.network = Err(Unavailable::Unavailable);
    raw.leds = Err(Unavailable::Unavailable);
    raw.mixer = Err(Unavailable::Unavailable);
    let (s, failed) = assemble(raw);
    assert_eq!(
        failed,
        vec![Collector::Bluetooth, Collector::Network, Collector::KeyStates, Collector::Battery, Collector::Volume]
    );
    assert!(!s.bluetooth);
    assert!(matches!(s.network, ConnectionData::Disconnected));
    assert!(!s.capslock && !s.numlock);
    assert_eq!(s.battery, None);
    assert_eq!(s.volume, Percentage::zero());
    assert_eq!(s.volume.render(), "0%");
    assert_eq!(s.mem_usage.render(), "25%");
}

#[test]
fn zero_memory_gives_zero_usage() {
    let mut raw = readings(None);
    raw.total_mem = 0;
    raw.used_mem = 0;
    let (s, _) = assemble(raw);
    assert_eq!(s.mem_usage, Percentage::zero());
}

#[test]
fn disk_with_no_space_uses_nothing() {
    let d = disk_data(&DiskReading { name: "loop0".to_string(), size: 0, free: 0 });
    assert_eq!(d.used, Percentage::zero());
    assert_eq!(d.name, "loop0");
}

#[test]
fn timestamps_are_checked() {
    assert!(Timestamp::unix_epoch().is_valid());
    let t = Timestamp { year: 2024, month: 13, day: 1, hour: 0, minute: 0, second: 0, offset_seconds: 0 };
    assert!(!t.is_valid());
}
