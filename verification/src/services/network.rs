//! The network widget: NetworkManager's state codes, and the probe that fills in the
//! primary connection's type, interface, IPv4 address and Wi-Fi details one D-Bus reply
//! at a time (any failed step ends the probe with what was found so far).
use vstd::prelude::*;
use vstd::utf8::{decode_utf8, valid_utf8};
use crate::text::{owned, str_eq, utf8_string};

verus! {

/// NetworkManager's overall state.
#[derive(Debug, Clone, Copy, PartialEq, Eq, Structural)]
pub enum NetworkState {
    Unknown,
    Asleep,
    Disconnected,
    Disconnecting,
    Connecting,
    ConnectedLocal,
    ConnectedSite,
    ConnectedGlobal,
}

/// The state for a NetworkManager `NMState` code.
pub open spec fn network_state_of(v: u32) -> NetworkState {
    if v == 10 {
        NetworkState::Asleep
    } else if v == 20 {
        NetworkState::Disconnected
    } else if v == 30 {
        NetworkState::Disconnecting
    } else if v == 40 {
        NetworkState::Connecting
    } else if v == 50 {
        NetworkState::ConnectedLocal
    } else if v == 60 {
        NetworkState::ConnectedSite
    } else if v == 70 {
        NetworkState::ConnectedGlobal
    } else {
        NetworkState::Unknown
    }
}

impl NetworkState {
    /// The state for a NetworkManager `NMState` code; unknown codes are `Unknown`.
    pub fn from_u32(v: u32) -> (r: Self)
        ensures
            r == network_state_of(v),
    {
        match v {
            10 => NetworkState::Asleep,
            20 => NetworkState::Disconnected,
            30 => NetworkState::Disconnecting,
            40 => NetworkState::Connecting,
            50 => NetworkState::ConnectedLocal,
            60 => NetworkState::ConnectedSite,
            70 => NetworkState::ConnectedGlobal,
            _ => NetworkState::Unknown,
        }
    }
}

/// NetworkManager's connectivity.
#[derive(Debug, Clone, Copy, PartialEq, Eq, Structural)]
pub enum ConnectivityState {
    Unknown,
    /// No connectivity.
    NoConnectivity,
    Portal,
    Limited,
    Full,
}

/// The connectivity for a NetworkManager `NMConnectivityState` code.
pub open spec fn connectivity_of(v: u32) -> ConnectivityState {
    if v == 1 {
        ConnectivityState::NoConnectivity
    } else if v == 2 {
        ConnectivityState::Portal
    } else if v == 3 {
        ConnectivityState::Limited
    } else if v == 4 {
        ConnectivityState::Full
    } else {
        ConnectivityState::Unknown
    }
}

impl ConnectivityState {
    /// The connectivity for a NetworkManager code; unknown codes are `Unknown`.
    pub fn from_u32(v: u32) -> (r: Self)
        ensures
            r == connectivity_of(v),
    {
        match v {
            1 => ConnectivityState::NoConnectivity,
            2 => ConnectivityState::Portal,
            3 => ConnectivityState::Limited,
            4 => ConnectivityState::Full,
            _ => ConnectivityState::Unknown,
        }
    }
}

/// The kind of the primary connection.
#[derive(Debug, Clone, PartialEq, Eq)]
pub enum ConnectionType {
    /// No connection.
    NoConnection,
    Wired,
    Wifi,
    Vpn,
    Other(String),
}

/// The kind of a connection by its NetworkManager type name.
pub open spec fn connection_type_is(name: Seq<char>, t: ConnectionType) -> bool {
    if name == "802-3-ethernet"@ {
        t == ConnectionType::Wired
    } else if name == "802-11-wireless"@ {
        t == ConnectionType::Wifi
    } else if name == "vpn"@ {
        t == ConnectionType::Vpn
    } else if name.len() == 0 {
        t == ConnectionType::NoConnection
    } else {
        t matches ConnectionType::Other(o) && o@ == name
    }
}

/// The kind of a connection by its NetworkManager type name.
pub fn connection_type_from(name: &str) -> (r: ConnectionType)
    ensures
        connection_type_is(name@, r),
{
    if str_eq(name, "802-3-ethernet") {
        ConnectionType::Wired
    } else if str_eq(name, "802-11-wireless") {
        ConnectionType::Wifi
    } else if str_eq(name, "vpn") {
        ConnectionType::Vpn
    } else if name.unicode_len() == 0 {
        ConnectionType::NoConnection
    } else {
        ConnectionType::Other(owned(name))
    }
}

/// What the network widget shows.
#[derive(Debug, Clone)]
pub struct NetworkSnapshot {
    pub available: bool,
    pub state: NetworkState,
    pub connectivity: ConnectivityState,
    pub connection_type: ConnectionType,
    pub ssid: Option<String>,
    pub signal_strength: Option<u8>,
    pub interface: Option<String>,
    pub ip4_address: Option<String>,
}

impl NetworkSnapshot {
    /// The snapshot when NetworkManager cannot be reached.
    pub fn unavailable() -> (r: Self)
        ensures
            !r.available,
            r.state == NetworkState::Unknown,
            r.connectivity == ConnectivityState::Unknown,
            r.connection_type == ConnectionType::NoConnection,
            r.ssid is None,
            r.signal_strength is None,
            r.interface is None,
            r.ip4_address is None,
    {
        NetworkSnapshot {
            available: false,
            state: NetworkState::Unknown,
            connectivity: ConnectivityState::Unknown,
            connection_type: ConnectionType::NoConnection,
            ssid: None,
            signal_strength: None,
            interface: None,
            ip4_address: None,
        }
    }
}

// ── The probe ─────────────────────────────────────────────────────────────────

/// A D-Bus query the probe needs answered.
#[derive(Debug, Clone, PartialEq, Eq)]
pub enum NetQuery {
    /// NetworkManager's `PrimaryConnection`.
    PrimaryConnection,
    /// The `Type` of an active connection.
    ConnectionType { active: String },
    /// The `Devices` of an active connection.
    Devices { active: String },
    /// The `IpInterface` of a device.
    DeviceInterface { device: String },
    /// The `Ip4Config` of a device.
    DeviceIp4Config { device: String },
    /// The `address` of the first entry of an IPv4 configuration's `AddressData`.
    Ip4Address { config: String },
    /// The `ActiveAccessPoint` of a wireless device.
    AccessPoint { device: String },
    /// The `Ssid` of an access point.
    AccessPointSsid { ap: String },
    /// The `Strength` of an access point.
    AccessPointStrength { ap: String },
}

/// The answer to a query; `Failed` when the proxy could not be built, the call failed, or
/// (for an IPv4 address) there was none.
#[derive(Debug)]
pub enum NetReply {
    Path(String),
    Text(String),
    Paths(Vec<String>),
    Bytes(Vec<u8>),
    Byte(u8),
    Failed,
}

/// What the probe has found so far and what it is waiting for.
#[derive(Debug)]
pub struct NetProbe {
    pub snapshot: NetworkSnapshot,
    /// The device whose details are being read, once known.
    pub device: Option<String>,
    /// The query awaiting its reply.
    pub pending: NetQuery,
}

/// The next move of the probe.
#[derive(Debug)]
pub enum NetStep {
    /// Send the probe's pending query and give its reply to [`network_step`].
    Ask(NetProbe),
    /// The probe is over: this is the snapshot.
    Done(NetworkSnapshot),
}

/// Whether a path names nothing (`/`).
pub open spec fn is_root(p: Seq<char>) -> bool {
    p == "/"@
}

/// The probe for NetworkManager's `State` and `Connectivity` (a failed read counts as 0):
/// it starts by asking for the primary connection.
pub fn network_probe(state: Option<u32>, connectivity: Option<u32>) -> (r: NetProbe)
    ensures
        r.snapshot.available,
        r.snapshot.state == network_state_of(
            match state {
                Some(s) => s,
                None => 0,
            },
        ),
        r.snapshot.connectivity == connectivity_of(
            match connectivity {
                Some(c) => c,
                None => 0,
            },
        ),
        r.snapshot.connection_type == ConnectionType::NoConnection,
        r.snapshot.ssid is None,
        r.snapshot.signal_strength is None,
        r.snapshot.interface is None,
        r.snapshot.ip4_address is None,
        r.device is None,
        r.pending == NetQuery::PrimaryConnection,
{
    let s = match state {
        Some(s) => s,
        None => 0,
    };
    let c = match connectivity {
        Some(c) => c,
        None => 0,
    };
    NetProbe {
        snapshot: NetworkSnapshot {
            available: true,
            state: NetworkState::from_u32(s),
            connectivity: ConnectivityState::from_u32(c),
            connection_type: ConnectionType::NoConnection,
            ssid: None,
            signal_strength: None,
            interface: None,
            ip4_address: None,
        },
        device: None,
        pending: NetQuery::PrimaryConnection,
    }
}

/// The probe step after the device section: Wi-Fi connections go on to the access point,
/// others are done.
pub open spec fn after_device_is(snapshot: NetworkSnapshot, device: Option<String>, r: NetStep) -> bool {
    if snapshot.connection_type == ConnectionType::Wifi && device is Some {
        r matches NetStep::Ask(p) && p.snapshot == snapshot && p.device == device && p.pending
            == (NetQuery::AccessPoint { device: device->0 })
    } else {
        r matches NetStep::Done(s) && s == snapshot
    }
}

fn after_device(snapshot: NetworkSnapshot, device: Option<String>) -> (r: NetStep)
    ensures
        after_device_is(snapshot, device, r),
{
    let is_wifi = match &snapshot.connection_type {
        ConnectionType::Wifi => true,
        _ => false,
    };
    match device {
        Some(d) => if is_wifi {
            let q = NetQuery::AccessPoint { device: d.clone() };
            NetStep::Ask(NetProbe { snapshot, device: Some(d), pending: q })
        } else {
            NetStep::Done(snapshot)
        },
        None => NetStep::Done(snapshot),
    }
}

/// The SSID an access point reports: its bytes as UTF-8, when they are valid and not empty.
pub open spec fn ssid_of(bytes: Seq<u8>) -> Option<Seq<char>> {
    if valid_utf8(bytes) && decode_utf8(bytes).len() > 0 {
        Some(decode_utf8(bytes))
    } else {
        None
    }
}

/// One step of the probe, given the reply to its pending query:
/// - primary connection: none (`/`) or a failure ends the probe; else ask its type;
/// - type: recorded (a failure reads as no type), then ask the devices;
/// - devices: none or a failure ends the probe; else the first device's interface is asked;
/// - interface: kept when not empty; then ask the device's IPv4 configuration;
/// - IPv4 configuration: when there is one (not `/`), ask its address; else go on;
/// - IPv4 address: recorded; then, for Wi-Fi only, ask the active access point;
/// - access point: none or a failure ends the probe; else ask its SSID;
/// - SSID: kept when it is valid, non-empty UTF-8; then ask the signal strength;
/// - strength: recorded, and the probe is done.
/// A reply of the wrong kind counts as a failure.
pub open spec fn net_step_is(p: NetProbe, reply: NetReply, r: NetStep) -> bool {
    let snap = p.snapshot;
    match p.pending {
        NetQuery::PrimaryConnection => match reply {
            NetReply::Path(path) => if is_root(path@) {
                r matches NetStep::Done(s) && s == snap
            } else {
                r matches NetStep::Ask(q) && q.snapshot == snap && q.device == p.device
                    && q.pending == (NetQuery::ConnectionType { active: path })
            },
            _ => r matches NetStep::Done(s) && s == snap,
        },
        NetQuery::ConnectionType { active } => r matches NetStep::Ask(q) && q.device == p.device
            && q.pending == (NetQuery::Devices { active: active }) && (match reply {
            NetReply::Text(t) => connection_type_is(t@, q.snapshot.connection_type),
            _ => q.snapshot.connection_type == ConnectionType::NoConnection,
        }) && q.snapshot == (NetworkSnapshot {
            connection_type: q.snapshot.connection_type,
            ..snap
        }),
        NetQuery::Devices { .. } => match reply {
            NetReply::Paths(ds) => if ds@.len() == 0 {
                r matches NetStep::Done(s) && s == snap
            } else {
                r matches NetStep::Ask(q) && q.snapshot == snap && q.device == Some(ds@[0])
                    && q.pending == (NetQuery::DeviceInterface { device: ds@[0] })
            },
            _ => r matches NetStep::Done(s) && s == snap,
        },
        NetQuery::DeviceInterface { device } => r matches NetStep::Ask(q) && q.device == p.device
            && q.pending == (NetQuery::DeviceIp4Config { device: device }) && q.snapshot == (
        NetworkSnapshot {
            interface: match reply {
                NetReply::Text(t) => if t@.len() == 0 {
                    None
                } else {
                    Some(t)
                },
                _ => None,
            },
            ..snap
        }),
        NetQuery::DeviceIp4Config { .. } => match reply {
            NetReply::Path(path) => if is_root(path@) {
                after_device_is(snap, p.device, r)
            } else {
                r matches NetStep::Ask(q) && q.snapshot == snap && q.device == p.device
                    && q.pending == (NetQuery::Ip4Address { config: path })
            },
            _ => after_device_is(snap, p.device, r),
        },
        NetQuery::Ip4Address { .. } => after_device_is(
            NetworkSnapshot {
                ip4_address: match reply {
                    NetReply::Text(t) => Some(t),
                    _ => None,
                },
                ..snap
            },
            p.device,
            r,
        ),
        NetQuery::AccessPoint { .. } => match reply {
            NetReply::Path(path) => if is_root(path@) {
                r matches NetStep::Done(s) && s == snap
            } else {
                r matches NetStep::Ask(q) && q.snapshot == snap && q.device == p.device
                    && q.pending == (NetQuery::AccessPointSsid { ap: path })
            },
            _ => r matches NetStep::Done(s) && s == snap,
        },
        NetQuery::AccessPointSsid { ap } => r matches NetStep::Ask(q) && q.device == p.device
            && q.pending == (NetQuery::AccessPointStrength { ap: ap }) && crate::launcher::types::opt_view(
            q.snapshot.ssid,
        ) == (match reply {
            NetReply::Bytes(b) => ssid_of(b@),
            _ => None,
        }) && q.snapshot == (NetworkSnapshot { ssid: q.snapshot.ssid, ..snap }),
        NetQuery::AccessPointStrength { .. } => r matches NetStep::Done(s) && s == (
        NetworkSnapshot {
            signal_strength: match reply {
                NetReply::Byte(b) => Some(b),
                _ => None,
            },
            ..snap
        }),
    }
}

/// Advances the probe by the reply to its pending query.
pub fn network_step(p: NetProbe, reply: NetReply) -> (r: NetStep)
    ensures
        net_step_is(p, reply, r),
{
    let NetProbe { snapshot, device, pending } = p;
    match pending {
        NetQuery::PrimaryConnection => match reply {
            NetReply::Path(path) => if str_eq(&path, "/") {
                NetStep::Done(snapshot)
            } else {
                NetStep::Ask(
                    NetProbe { snapshot, device, pending: NetQuery::ConnectionType { active: path } },
                )
            },
            _ => NetStep::Done(snapshot),
        },
        NetQuery::ConnectionType { active } => {
            let t = match reply {
                NetReply::Text(t) => connection_type_from(&t),
                _ => ConnectionType::NoConnection,
            };
            let mut snapshot = snapshot;
            snapshot.connection_type = t;
            NetStep::Ask(NetProbe { snapshot, device, pending: NetQuery::Devices { active } })
        },
        NetQuery::Devices { .. } => match reply {
            NetReply::Paths(ds) => if ds.len() == 0 {
                NetStep::Done(snapshot)
            } else {
                let d = ds[0].clone();
                let q = NetQuery::DeviceInterface { device: ds[0].clone() };
                NetStep::Ask(NetProbe { snapshot, device: Some(d), pending: q })
            },
            _ => NetStep::Done(snapshot),
        },
        NetQuery::DeviceInterface { device: dev } => {
            let mut snapshot = snapshot;
            snapshot.interface = match reply {
                NetReply::Text(t) => if t.unicode_len() == 0 {
                    None
                } else {
                    Some(t)
                },
                _ => None,
            };
            NetStep::Ask(
                NetProbe { snapshot, device, pending: NetQuery::DeviceIp4Config { device: dev } },
            )
        },
        NetQuery::DeviceIp4Config { .. } => match reply {
            NetReply::Path(path) => if str_eq(&path, "/") {
                after_device(snapshot, device)
            } else {
                NetStep::Ask(NetProbe { snapshot, device, pending: NetQuery::Ip4Address { config: path } })
            },
            _ => after_device(snapshot, device),
        },
        NetQuery::Ip4Address { .. } => {
            let mut snapshot = snapshot;
            snapshot.ip4_address = match reply {
                NetReply::Text(t) => Some(t),
                _ => None,
            };
            after_device(snapshot, device)
        },
        NetQuery::AccessPoint { .. } => match reply {
            NetReply::Path(path) => if str_eq(&path, "/") {
                NetStep::Done(snapshot)
            } else {
                NetStep::Ask(NetProbe { snapshot, device, pending: NetQuery::AccessPointSsid { ap: path } })
            },
            _ => NetStep::Done(snapshot),
        },
        NetQuery::AccessPointSsid { ap } => {
            let mut snapshot = snapshot;
            snapshot.ssid = match reply {
                NetReply::Bytes(b) => match utf8_string(b.as_slice()) {
                    Some(s) => if s.unicode_len() == 0 {
                        None
                    } else {
                        Some(s)
                    },
                    None => None,
                },
                _ => None,
            };
            NetStep::Ask(NetProbe { snapshot, device, pending: NetQuery::AccessPointStrength { ap } })
        },
        NetQuery::AccessPointStrength { .. } => {
            let mut snapshot = snapshot;
            snapshot.signal_strength = match reply {
                NetReply::Byte(b) => Some(b),
                _ => None,
            };
            NetStep::Done(snapshot)
        },
    }
}

} // verus!
