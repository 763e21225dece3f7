//! Network-connectivity reader, as a state machine.
//!
//! The query chain against the network-management service takes several bus
//! round trips. Each stage names the query that the caller must make next; the
//! caller makes it and hands the answer back to `NetworkStage::advance`, until the
//! stage is `Done`. Any bus failure ends the chain with no connection.
use vstd::prelude::*;
use crate::percentage::Percentage;

verus! {

/// Global state of the network-management service when fully connected.
pub const STATE_CONNECTED_GLOBAL: u32 = 70;

/// Device type of a Wi-Fi device.
pub const DEVICE_TYPE_WIFI: u32 = 2;

/// The current internet connection.
#[derive(Clone, Debug)]
pub enum ConnectionData {
    /// Connected by wire (or by a Wi-Fi device whose access point is not known).
    Wired,
    /// Connected through a Wi-Fi access point.
    Wireless {
        /// Signal strength.
        signal: Percentage,
        /// Name of the network.
        ssid: String,
    },
    /// No connection to the internet.
    Disconnected,
}

/// A connection as mathematical values.
pub enum ConnectionModel {
    Wired,
    Wireless { signal: (int, int), ssid: Seq<char> },
    Disconnected,
}

impl ConnectionData {
    pub open spec fn model(self) -> ConnectionModel {
        match self {
            ConnectionData::Wired => ConnectionModel::Wired,
            ConnectionData::Wireless { signal, ssid } => ConnectionModel::Wireless {
                signal: signal.ratio(),
                ssid: ssid@,
            },
            ConnectionData::Disconnected => ConnectionModel::Disconnected,
        }
    }

    pub open spec fn wf(self) -> bool {
        match self {
            ConnectionData::Wireless { signal, .. } => signal.wf(),
            _ => true,
        }
    }

    /// A copy of this connection.
    pub fn duplicate(&self) -> (r: ConnectionData)
        ensures
            r.model() == self.model(),
            r.wf() == self.wf(),
    {
        match self {
            ConnectionData::Wired => ConnectionData::Wired,
            ConnectionData::Wireless { signal, ssid } => ConnectionData::Wireless {
                signal: *signal,
                ssid: ssid.clone(),
            },
            ConnectionData::Disconnected => ConnectionData::Disconnected,
        }
    }
}

impl Default for ConnectionData {
    fn default() -> (r: ConnectionData)
        ensures
            r.model() == ConnectionModel::Disconnected,
    {
        ConnectionData::Disconnected
    }
}

/// What `String::from_utf8_lossy` makes of a byte string.
pub uninterp spec fn lossy_utf8(b: Seq<u8>) -> Seq<char>;

/// Relies on `String::from_utf8_lossy`: the text depends on the bytes alone.
#[verifier::external_body]
fn decode_lossy(b: &Vec<u8>) -> (r: String)
    ensures
        r@ == lossy_utf8(b@),
{
    String::from_utf8_lossy(b).into_owned()
}

/// An answer from the bus to the query that a stage names.
#[derive(Clone, Debug)]
pub enum NetworkEvent {
    /// The service's global state.
    State(u32),
    /// The number of devices that the service manages, in its order.
    Devices(usize),
    /// The type of the device asked about.
    DeviceType(u32),
    /// Whether the Wi-Fi device asked about has an active access point.
    ActiveAccessPoint(bool),
    /// The access point's SSID bytes and signal strength, where they could be read.
    AccessPoint { ssid: Option<Vec<u8>>, strength: Option<u8> },
    /// A bus call failed.
    BusError,
}

/// A stage of the query chain: the query to make next, or the result.
#[derive(Clone, Debug)]
pub enum NetworkStage {
    /// Ask for the global state.
    AskState,
    /// Ask for the list of devices.
    AskDevices,
    /// Ask for the type of device `index` of `count`.
    AskDeviceType { index: usize, count: usize },
    /// Ask for the active access point of device `index`, the first Wi-Fi device.
    AskActiveAccessPoint { index: usize, count: usize },
    /// Ask the active access point of device `index` for its SSID and strength.
    AskAccessPoint { index: usize, count: usize },
    /// The chain is over.
    Done(ConnectionData),
}

/// The stage that follows `stage` on `event`. Wireless results are described by
/// `is_next_stage`, which this function leaves aside.
pub open spec fn next_plain(stage: NetworkStage, event: NetworkEvent) -> NetworkStage {
    match (stage, event) {
        (NetworkStage::Done(c), _) => NetworkStage::Done(c),
        (_, NetworkEvent::BusError) => NetworkStage::Done(ConnectionData::Disconnected),
        (NetworkStage::AskState, NetworkEvent::State(s)) => if s == STATE_CONNECTED_GLOBAL {
            NetworkStage::AskDevices
        } else {
            NetworkStage::Done(ConnectionData::Disconnected)
        },
        (NetworkStage::AskDevices, NetworkEvent::Devices(n)) => if n == 0 {
            NetworkStage::Done(ConnectionData::Wired)
        } else {
            NetworkStage::AskDeviceType { index: 0, count: n }
        },
        (NetworkStage::AskDeviceType { index, count }, NetworkEvent::DeviceType(t)) => if t
            == DEVICE_TYPE_WIFI {
            NetworkStage::AskActiveAccessPoint { index, count }
        } else if index + 1 < count {
            NetworkStage::AskDeviceType { index: (index + 1) as usize, count }
        } else {
            NetworkStage::Done(ConnectionData::Wired)
        },
        (NetworkStage::AskActiveAccessPoint { index, count }, NetworkEvent::ActiveAccessPoint(
            present,
        )) => if present {
            NetworkStage::AskAccessPoint { index, count }
        } else {
            NetworkStage::Done(ConnectionData::Wired)
        },
        (NetworkStage::AskAccessPoint { .. }, NetworkEvent::AccessPoint { .. }) => NetworkStage::Done(
            ConnectionData::Wired,
        ),
        _ => NetworkStage::Done(ConnectionData::Disconnected),
    }
}

/// `next` is the stage that follows `stage` on `event`: an access point with both
/// an SSID and a strength gives a wireless connection; all else is `next_plain`.
pub open spec fn is_next_stage(stage: NetworkStage, event: NetworkEvent, next: NetworkStage) -> bool {
    match (stage, event) {
        (
            NetworkStage::AskAccessPoint { .. },
            NetworkEvent::AccessPoint { ssid: Some(b), strength: Some(v) },
        ) => match next {
            NetworkStage::Done(ConnectionData::Wireless { signal, ssid }) => {
                &&& signal.wf()
                &&& signal.ratio() == (v as int, 100int)
                &&& ssid@ == lossy_utf8(b@)
            },
            _ => false,
        },
        _ => next == next_plain(stage, event),
    }
}

impl NetworkStage {
    /// The first stage of the chain.
    pub fn start() -> (r: NetworkStage)
        ensures
            r == NetworkStage::AskState,
    {
        NetworkStage::AskState
    }

    /// Whether the chain is over.
    pub fn is_done(&self) -> (r: bool)
        ensures
            r == (*self is Done),
    {
        matches!(self, NetworkStage::Done(_))
    }

    /// The stage that follows this one, given the answer to its query.
    pub fn advance(self, event: NetworkEvent) -> (r: NetworkStage)
        ensures
            is_next_stage(self, event, r),
    {
        match (self, event) {
            (NetworkStage::Done(c), _) => NetworkStage::Done(c),
            (_, NetworkEvent::BusError) => NetworkStage::Done(ConnectionData::Disconnected),
            (NetworkStage::AskState, NetworkEvent::State(s)) => if s == STATE_CONNECTED_GLOBAL {
                NetworkStage::AskDevices
            } else {
                NetworkStage::Done(ConnectionData::Disconnected)
            },
            (NetworkStage::AskDevices, NetworkEvent::Devices(n)) => if n == 0 {
                NetworkStage::Done(ConnectionData::Wired)
            } else {
                NetworkStage::AskDeviceType { index: 0, count: n }
            },
            (NetworkStage::AskDeviceType { index, count }, NetworkEvent::DeviceType(t)) => if t
                == DEVICE_TYPE_WIFI {
                NetworkStage::AskActiveAccessPoint { index, count }
            } else if index < count && index + 1 < count {
                NetworkStage::AskDeviceType { index: index + 1, count }
            } else {
                NetworkStage::Done(ConnectionData::Wired)
            },
            (
                NetworkStage::AskActiveAccessPoint { index, count },
                NetworkEvent::ActiveAccessPoint(present),
            ) => if present {
                NetworkStage::AskAccessPoint { index, count }
            } else {
                NetworkStage::Done(ConnectionData::Wired)
            },
            (NetworkStage::AskAccessPoint { .. }, NetworkEvent::AccessPoint { ssid, strength }) => {
                match (ssid, strength) {
                    (Some(b), Some(v)) => NetworkStage::Done(
                        ConnectionData::Wireless {
                            signal: Percentage::from_percent(v),
                            ssid: decode_lossy(&b),
                        },
                    ),
                    _ => NetworkStage::Done(ConnectionData::Wired),
                }
            },
            _ => NetworkStage::Done(ConnectionData::Disconnected),
        }
    }
}

} // verus!
