use dod_shell::network::ConnectionData;
use dod_shell::percentage::Percentage;
use dod_shell::snapshot::{assemble, RawReadings, SystemStateData, Timestamp, Unavailable};
use dod_shell::snapshot::MixerReading;
use dod_shell::store::SystemState;
use dod_shell::volume::ChannelReading;

type Mapper = fn(&SystemStateData) -> Option<String>;

fn raw(volume_muted: bool, workspace: i32) -> RawReadings {
    RawReadings {
        cpu_usage: Percentage::zero(),
        total_mem: 100,
        used_mem: 50,
        time: Timestamp::unix_epoch(),
        workspace,
        disks: vec![],
        battery: None,
        leds: Err(Unavailable::Unavailable),
        mixer: Ok(MixerReading {
            max: 100,
            channels: vec![ChannelReading { volume: Some(20), switch: Some(if volume_muted { 0 } else { 1 }) }],
        }),
        network: Ok(ConnectionData::Wired),
        bluetooth: Ok(vec![]),
    }
}

fn snapshot(volume_muted: bool, workspace: i32) -> SystemStateData {
    assemble(raw(volume_muted, workspace)).0
}

fn workspace_text(d: &SystemStateData) -> Option<String> {
    Some(format!("ws {}", d.workspace))
}

fn only_when_muted(d: &SystemStateData) -> Option<String> {
    if d.volume.is_muted() {
        Some("muted".to_string())
    } else {
        None
    }
}

#[test]
fn read_returns_last_write() {
    let mut store: SystemState<String, Mapper> = SystemState::new(snapshot(false, 1));
    assert_eq!(store.get_data().workspace, 1);
    store.write(snapshot(true, 2));
    assert_eq!(store.get_data().workspace, 2);
    assert_eq!(store.get_data().workspace, 2);
    store.subscribe(workspace_text);
    assert_eq!(store.get_data().workspace, 2);
}

#[test]
fn mute_marker_survives_storage() {
    let mut store: SystemState<String, Mapper> = SystemState::new(snapshot(false, 1));
    assert_eq!(store.get_data().volume.render(), "20%");
    store.write(snapshot(true, 1));
    assert!(store.get_data().volume.is_muted());
    assert_eq!(store.get_data().volume.get_value(), (-1, 100));
    assert_ne!(store.get_data().volume, Percentage::zero());
}

#[test]
fn each_subscriber_hears_each_write_once() {
    let mut store: SystemState<String, Mapper> = SystemState::new(snapshot(false, 1));
    assert_eq!(store.subscribe(workspace_text), 0);
    assert_eq!(store.subscribe(only_when_muted), 1);
    let out = store.write(snapshot(false, 4));
    assert_eq!(out, vec![Some("ws 4".to_string()), None]);
    let out = store.write(snapshot(true, 5));
    assert_eq!(out, vec![Some("ws 5".to_string()), Some("muted".to_string())]);
}

#[test]
fn update_publishes_the_assembled_snapshot() {
    let mut store: SystemState<String, Mapper> = SystemState::new(snapshot(false, 1));
    store.subscribe(workspace_text);
    let (failed, out) = store.update(raw(false, 9));
    assert_eq!(failed.len(), 1);
    assert_eq!(out, vec![Some("ws 9".to_string())]);
    assert_eq!(store.get_data().workspace, 9);
    assert_eq!(store.get_data().mem_usage.render(), "50%");
}
