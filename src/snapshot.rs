//! The snapshot of system state and the assembler that builds one per cycle from
//! what the collectors gathered.
use vstd::prelude::*;
use crate::battery::{battery_outcome, battery_reading, BatteryFiles, BatteryStatus};
use crate::bluetooth::{any_connected, any_device_connected, ManagedObject};
use crate::leds::{key_states, key_states_of, LedEntry};
use crate::network::{ConnectionData, ConnectionModel};
use crate::percentage::Percentage;
use crate::volume::{volume_from_channels, volume_outcome, ChannelReading};

verus! {

/// Wall-clock time in the local time zone.
#[derive(Clone, Copy, Debug, PartialEq, Eq, Structural)]
pub struct Timestamp {
    pub year: i32,
    pub month: u8,
    pub day: u8,
    pub hour: u8,
    pub minute: u8,
    pub second: u8,
    /// Offset of the local time zone from UTC, in seconds.
    pub offset_seconds: i32,
}

impl Timestamp {
    /// Every field lies in its calendar range.
    pub open spec fn wf(self) -> bool {
        &&& 1 <= self.month <= 12
        &&& 1 <= self.day <= 31
        &&& self.hour < 24
        &&& self.minute < 60
        &&& self.second < 60
        &&& -86400 < self.offset_seconds < 86400
    }

    /// Whether every field lies in its calendar range.
    pub fn is_valid(&self) -> (r: bool)
        ensures
            r == self.wf(),
    {
        1 <= self.month && self.month <= 12 && 1 <= self.day && self.day <= 31 && self.hour < 24
            && self.minute < 60 && self.second < 60 && -86400 < self.offset_seconds
            && self.offset_seconds < 86400
    }

    /// Midnight of the first of January 1970, UTC.
    pub fn unix_epoch() -> (r: Timestamp)
        ensures
            r.wf(),
            r == (Timestamp {
                year: 1970,
                month: 1,
                day: 1,
                hour: 0,
                minute: 0,
                second: 0,
                offset_seconds: 0,
            }),
    {
        Timestamp { year: 1970, month: 1, day: 1, hour: 0, minute: 0, second: 0, offset_seconds: 0 }
    }
}

/// A collector's source could not be reached.
#[derive(Clone, Copy, Debug, PartialEq, Eq, Structural)]
pub enum Unavailable {
    Unavailable,
}

/// A disk as the operating system lists it.
#[derive(Clone, Debug)]
pub struct DiskReading {
    pub name: String,
    /// Total space in bytes.
    pub size: u64,
    /// Available space in bytes.
    pub free: u64,
}

/// Information about a disk.
#[derive(Clone, Debug)]
pub struct DiskData {
    pub name: String,
    /// Total space in bytes.
    pub size: u64,
    /// Available space in bytes.
    pub free: u64,
    /// Share of the space in use.
    pub used: Percentage,
}

/// A disk as mathematical values.
pub struct DiskModel {
    pub name: Seq<char>,
    pub size: u64,
    pub free: u64,
    pub used: (int, int),
}

/// What the mixer's master control reports.
#[derive(Clone, Debug)]
pub struct MixerReading {
    /// Upper end of the playback volume range.
    pub max: i64,
    /// The playback channels, in the mixer's order.
    pub channels: Vec<ChannelReading>,
}

/// Everything gathered in one cycle, before it is merged.
#[derive(Debug)]
pub struct RawReadings {
    pub cpu_usage: Percentage,
    pub total_mem: u64,
    pub used_mem: u64,
    pub time: Timestamp,
    pub workspace: i32,
    pub disks: Vec<DiskReading>,
    /// `None` where no battery is configured.
    pub battery: Option<BatteryFiles>,
    /// Entries of the LED class directory.
    pub leds: Result<Vec<LedEntry>, Unavailable>,
    pub mixer: Result<MixerReading, Unavailable>,
    /// Outcome of the network query chain.
    pub network: Result<ConnectionData, Unavailable>,
    /// Objects that the Bluetooth service manages.
    pub bluetooth: Result<Vec<ManagedObject>, Unavailable>,
}

/// All of the state gathered from the system in one cycle.
#[derive(Clone, Debug)]
pub struct SystemStateData {
    /// CPU usage.
    pub cpu_usage: Percentage,
    /// Memory in the system (RAM only), in bytes.
    pub total_mem: u64,
    /// Memory in use (RAM only), in bytes.
    pub used_mem: u64,
    /// Memory usage: `used_mem / total_mem`, zero when `total_mem` is zero.
    pub mem_usage: Percentage,
    /// Time at which the snapshot was assembled.
    pub time: Timestamp,
    /// Active workspace.
    pub workspace: i32,
    pub network: ConnectionData,
    /// Charge and status; `None` where no battery is configured or it could not be read.
    pub battery: Option<(Percentage, BatteryStatus)>,
    pub disks: Vec<DiskData>,
    /// Whether any Bluetooth device is connected.
    pub bluetooth: bool,
    pub capslock: bool,
    pub numlock: bool,
    /// Output volume; the mute marker where the output is muted.
    pub volume: Percentage,
}

/// A snapshot as mathematical values.
pub struct SnapshotModel {
    pub cpu_usage: (int, int),
    pub total_mem: u64,
    pub used_mem: u64,
    pub mem_usage: (int, int),
    pub time: Timestamp,
    pub workspace: i32,
    pub network: ConnectionModel,
    pub battery: Option<((int, int), BatteryStatus)>,
    pub disks: Seq<DiskModel>,
    pub bluetooth: bool,
    pub capslock: bool,
    pub numlock: bool,
    pub volume: (int, int),
}

impl DiskData {
    pub open spec fn model(self) -> DiskModel {
        DiskModel { name: self.name@, size: self.size, free: self.free, used: self.used.ratio() }
    }
}

impl SystemStateData {
    pub open spec fn model(self) -> SnapshotModel {
        SnapshotModel {
            cpu_usage: self.cpu_usage.ratio(),
            total_mem: self.total_mem,
            used_mem: self.used_mem,
            mem_usage: self.mem_usage.ratio(),
            time: self.time,
            workspace: self.workspace,
            network: self.network.model(),
            battery: match self.battery {
                Some((p, s)) => Some((p.ratio(), s)),
                None => None,
            },
            disks: self.disks@.map_values(|d: DiskData| d.model()),
            bluetooth: self.bluetooth,
            capslock: self.capslock,
            numlock: self.numlock,
            volume: self.volume.ratio(),
        }
    }

    /// Every percentage in the snapshot is well formed.
    pub open spec fn wf(self) -> bool {
        &&& self.cpu_usage.wf()
        &&& self.mem_usage.wf()
        &&& self.network.wf()
        &&& (self.battery matches Some((p, _)) ==> p.wf())
        &&& forall|i: int| 0 <= i < self.disks@.len() ==> (#[trigger] self.disks@[i]).used.wf()
        &&& self.volume.wf()
    }
}

/// Memory usage as a fraction: `used / total`, zero when `total` is zero.
pub open spec fn memory_ratio(used: u64, total: u64) -> (int, int) {
    if total == 0 {
        (0, 1)
    } else {
        (used as int, total as int)
    }
}

/// Disk usage as a fraction: `(size - free) / size`, zero when `size` is zero.
pub open spec fn disk_ratio(size: u64, free: u64) -> (int, int) {
    if size == 0 {
        (0, 1)
    } else {
        (size - free, size as int)
    }
}

pub open spec fn disk_model_of(d: DiskReading) -> DiskModel {
    DiskModel { name: d.name@, size: d.size, free: d.free, used: disk_ratio(d.size, d.free) }
}

/// The battery field: absent where none is configured or it could not be read.
pub open spec fn battery_field(b: Option<BatteryFiles>) -> Option<((int, int), BatteryStatus)> {
    match b {
        None => None,
        Some(files) => match battery_outcome(files) {
            Ok((v, st)) => Some(((v as int, 100int), st)),
            Err(_) => None,
        },
    }
}

/// The lock fields: both off where the directory or an entry could not be read.
pub open spec fn locks_field(l: Result<Vec<LedEntry>, Unavailable>) -> (bool, bool) {
    match l {
        Ok(es) => match key_states_of(es@) {
            Ok(s) => s,
            Err(_) => (false, false),
        },
        Err(_) => (false, false),
    }
}

/// The volume field: zero where the mixer could not be read.
pub open spec fn volume_field(m: Result<MixerReading, Unavailable>) -> (int, int) {
    match m {
        Ok(r) => match volume_outcome(r.max, r.channels@) {
            Ok(v) => v,
            Err(_) => (0, 1),
        },
        Err(_) => (0, 1),
    }
}

/// The network field: no connection where the chain could not run.
pub open spec fn network_field(n: Result<ConnectionData, Unavailable>) -> ConnectionModel {
    match n {
        Ok(c) => c.model(),
        Err(_) => ConnectionModel::Disconnected,
    }
}

/// The Bluetooth field: false where the service could not be reached.
pub open spec fn bluetooth_field(b: Result<Vec<ManagedObject>, Unavailable>) -> bool {
    match b {
        Ok(objs) => any_connected(objs@),
        Err(_) => false,
    }
}

/// The snapshot that one cycle's readings make: each field depends on its own
/// collector alone, and a failed collector gives its field's default.
pub open spec fn assembled(raw: RawReadings) -> SnapshotModel {
    SnapshotModel {
        cpu_usage: raw.cpu_usage.ratio(),
        total_mem: raw.total_mem,
        used_mem: raw.used_mem,
        mem_usage: memory_ratio(raw.used_mem, raw.total_mem),
        time: raw.time,
        workspace: raw.workspace,
        network: network_field(raw.network),
        battery: battery_field(raw.battery),
        disks: raw.disks@.map_values(|d: DiskReading| disk_model_of(d)),
        bluetooth: bluetooth_field(raw.bluetooth),
        capslock: locks_field(raw.leds).0,
        numlock: locks_field(raw.leds).1,
        volume: volume_field(raw.mixer),
    }
}

/// A collector whose failure a cycle records.
#[derive(Clone, Copy, Debug, PartialEq, Eq, Structural)]
pub enum Collector {
    Bluetooth,
    Network,
    KeyStates,
    Battery,
    Volume,
}

/// The collectors that failed in a cycle, in this order: Bluetooth, network, key
/// states, battery, volume. A battery that is not configured is no failure.
pub open spec fn failed_collectors(raw: RawReadings) -> Seq<Collector> {
    let bt = match raw.bluetooth {
        Ok(_) => false,
        Err(_) => true,
    };
    let net = match raw.network {
        Ok(_) => false,
        Err(_) => true,
    };
    let keys = match raw.leds {
        Ok(es) => key_states_of(es@) is Err,
        Err(_) => true,
    };
    let bat = match raw.battery {
        Some(files) => battery_outcome(files) is Err,
        None => false,
    };
    let vol = match raw.mixer {
        Ok(r) => volume_outcome(r.max, r.channels@) is Err,
        Err(_) => true,
    };
    (if bt { seq![Collector::Bluetooth] } else { seq![] }) + (if net {
        seq![Collector::Network]
    } else {
        seq![]
    }) + (if keys { seq![Collector::KeyStates] } else { seq![] }) + (if bat {
        seq![Collector::Battery]
    } else {
        seq![]
    }) + (if vol { seq![Collector::Volume] } else { seq![] })
}

/// Memory usage: `used / total`, zero when `total` is zero.
pub fn memory_usage(used: u64, total: u64) -> (r: Percentage)
    ensures
        r.wf(),
        r.ratio() == memory_ratio(used, total),
{
    if total == 0 {
        Percentage::zero()
    } else {
        Percentage::new(used as i128, total)
    }
}

/// Disk usage: `(size - free) / size`, zero when `size` is zero.
pub fn disk_usage(size: u64, free: u64) -> (r: Percentage)
    ensures
        r.wf(),
        r.ratio() == disk_ratio(size, free),
{
    if size == 0 {
        Percentage::zero()
    } else {
        Percentage::new(size as i128 - free as i128, size)
    }
}

/// Information about a listed disk.
pub fn disk_data(d: &DiskReading) -> (r: DiskData)
    ensures
        r.model() == disk_model_of(*d),
        r.used.wf(),
{
    DiskData { name: d.name.clone(), size: d.size, free: d.free, used: disk_usage(d.size, d.free) }
}

fn disks_data(ds: &Vec<DiskReading>) -> (r: Vec<DiskData>)
    ensures
        r@.map_values(|d: DiskData| d.model()) == ds@.map_values(|d: DiskReading| disk_model_of(d)),
        forall|i: int| 0 <= i < r@.len() ==> (#[trigger] r@[i]).used.wf(),
{
    let mut r: Vec<DiskData> = Vec::new();
    let mut k: usize = 0;
    while k < ds.len()
        invariant
            k <= ds.len(),
            r@.len() == k,
            forall|i: int| 0 <= i < k ==> (#[trigger] r@[i]).model() == disk_model_of(ds@[i]),
            forall|i: int| 0 <= i < r@.len() ==> (#[trigger] r@[i]).used.wf(),
        decreases ds.len() - k,
    {
        r.push(disk_data(&ds[k]));
        k = k + 1;
    }
    assert(r@.map_values(|d: DiskData| d.model()) =~= ds@.map_values(
        |d: DiskReading| disk_model_of(d),
    ));
    r
}

/// Merges one cycle's readings into a snapshot, and lists the collectors that
/// failed. A failed collector leaves its field at the default and nothing else.
pub fn assemble(raw: RawReadings) -> (r: (SystemStateData, Vec<Collector>))
    requires
        raw.cpu_usage.wf(),
        raw.network matches Ok(c) ==> c.wf(),
    ensures
        r.0.model() == assembled(raw),
        r.0.wf(),
        r.1@ == failed_collectors(raw),
{
    let mut failed: Vec<Collector> = Vec::new();
    let bluetooth = match &raw.bluetooth {
        Ok(objs) => any_device_connected(objs),
        Err(_) => {
            failed.push(Collector::Bluetooth);
            false
        },
    };
    let network = match &raw.network {
        Ok(c) => c.duplicate(),
        Err(_) => {
            failed.push(Collector::Network);
            ConnectionData::Disconnected
        },
    };
    let (capslock, numlock) = match &raw.leds {
        Ok(es) => match key_states(es) {
            Ok(s) => s,
            Err(_) => {
                failed.push(Collector::KeyStates);
                (false, false)
            },
        },
        Err(_) => {
            failed.push(Collector::KeyStates);
            (false, false)
        },
    };
    let battery = match &raw.battery {
        None => None,
        Some(files) => match battery_reading(files) {
            Ok(b) => Some(b),
            Err(_) => {
                failed.push(Collector::Battery);
                None
            },
        },
    };
    let volume = match &raw.mixer {
        Ok(m) => match volume_from_channels(m.max, &m.channels) {
            Ok(v) => v,
            Err(_) => {
                failed.push(Collector::Volume);
                Percentage::zero()
            },
        },
        Err(_) => {
            failed.push(Collector::Volume);
            Percentage::zero()
        },
    };
    let data = SystemStateData {
        cpu_usage: raw.cpu_usage,
        total_mem: raw.total_mem,
        used_mem: raw.used_mem,
        mem_usage: memory_usage(raw.used_mem, raw.total_mem),
        time: raw.time,
        workspace: raw.workspace,
        network,
        battery,
        disks: disks_data(&raw.disks),
        bluetooth,
        capslock,
        numlock,
        volume,
    };
    assert(failed@ =~= failed_collectors(raw));
    (data, failed)
}

/// One collector failing leaves every other field of the snapshot as it would
/// have been, sets its own field(s) to the default, and still yields a snapshot.
pub proof fn lemma_failure_isolated(raw: RawReadings)
    ensures
        assembled(RawReadings { bluetooth: Err(Unavailable::Unavailable), ..raw })
            == (SnapshotModel { bluetooth: false, ..assembled(raw) }),
        assembled(RawReadings { network: Err(Unavailable::Unavailable), ..raw }) == (SnapshotModel {
            network: ConnectionModel::Disconnected,
            ..assembled(raw)
        }),
        assembled(RawReadings { leds: Err(Unavailable::Unavailable), ..raw }) == (SnapshotModel {
            capslock: false,
            numlock: false,
            ..assembled(raw)
        }),
        assembled(RawReadings { mixer: Err(Unavailable::Unavailable), ..raw }) == (SnapshotModel {
            volume: (0int, 1int),
            ..assembled(raw)
        }),
        forall|files: BatteryFiles|
            battery_outcome(files) is Err ==> assembled(RawReadings { battery: Some(files), ..raw })
                == (SnapshotModel { battery: None, ..assembled(raw) }),
{
}

} // verus!
