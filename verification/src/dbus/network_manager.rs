//! NetworkManager DBus interface.

use vstd::prelude::*;

verus! {

/// Wifi connection quality.
#[derive(Copy, Clone, PartialEq, Eq, Structural, Debug)]
pub struct WifiConnection {
    /// Wifi is enabled.
    pub enabled: bool,
    /// AP signal strength in percent.
    pub strength: u8,
    /// Connection has internet access.
    pub connected: bool,
}

impl WifiConnection {
    /// Connection status before anything was heard from the network.
    pub open spec fn initial() -> WifiConnection {
        WifiConnection { enabled: false, strength: 0, connected: false }
    }

    /// Connection status that the reported states amount to.
    ///
    /// An access point path of length one is the fallback path `/`, which
    /// stands for no access point.
    pub open spec fn of(
        access_point_path_len: usize,
        strength: u8,
        connectivity: ConnectivityState,
        enabled: bool,
    ) -> Option<WifiConnection> {
        if access_point_path_len == 1 {
            None
        } else {
            Some(WifiConnection { enabled, strength, connected: connectivity == ConnectivityState::Full })
        }
    }

    /// Get current WiFi connection status from the length of the active
    /// access point's path, its signal strength, the connectivity state and
    /// whether wireless is enabled.
    pub fn new(
        access_point_path_len: usize,
        strength: u8,
        connectivity: ConnectivityState,
        enabled: bool,
    ) -> (connection: Option<Self>)
        ensures
            connection == Self::of(access_point_path_len, strength, connectivity, enabled),
    {
        if access_point_path_len == 1 {
            return None;
        }
        let connected = connectivity == ConnectivityState::Full;
        Some(Self { strength, connected, enabled })
    }
}

impl Default for WifiConnection {
    fn default() -> (connection: Self)
        ensures
            connection == WifiConnection::initial(),
    {
        Self { enabled: false, strength: 0, connected: false }
    }
}

/// Type of hardware represented by a device object.
#[derive(Copy, Clone, PartialEq, Eq, Structural, Debug)]
pub enum DeviceType {
    /// Wireless network device.
    Wifi,
    /// Cellular modem.
    Modem,
}

impl DeviceType {
    /// Number that stands for the state on the bus.
    pub open spec fn number(&self) -> u32 {
        match self {
            Self::Wifi => 2,
            Self::Modem => 8,
        }
    }

    /// Get the number that stands for the state on the bus.
    pub fn code(&self) -> (code: u32)
        ensures
            code == self.number(),
    {
        match self {
            Self::Wifi => 2,
            Self::Modem => 8,
        }
    }

    /// Get the state that a number on the bus stands for.
    pub fn from_code(code: u32) -> (state: Option<Self>)
        ensures
            state matches Some(s) ==> s.number() == code,
            state is None ==> forall|s: DeviceType| s.number() != code,
    {
        match code {
            2 => Some(Self::Wifi),
            8 => Some(Self::Modem),
            _ => None,
        }
    }
}

/// NetworkManager connectivity state.
#[derive(Copy, Clone, PartialEq, Eq, Structural, Debug)]
pub enum ConnectivityState {
    /// Network connectivity is unknown.
    Unknown,
    /// The host is not connected to any network.
    Disconnected,
    /// The Internet connection is hijacked by a captive portal gateway.
    Portal,
    /// The host is connected to a network, but does not appear to reach the full Internet.
    Limited,
    /// The host is connected to a network, and appears to be able to reach the full Internet.
    Full,
}

impl ConnectivityState {
    /// Number that stands for the state on the bus.
    pub open spec fn number(&self) -> u32 {
        match self {
            Self::Unknown => 0,
            Self::Disconnected => 1,
            Self::Portal => 2,
            Self::Limited => 3,
            Self::Full => 4,
        }
    }

    /// Get the number that stands for the state on the bus.
    pub fn code(&self) -> (code: u32)
        ensures
            code == self.number(),
    {
        match self {
            Self::Unknown => 0,
            Self::Disconnected => 1,
            Self::Portal => 2,
            Self::Limited => 3,
            Self::Full => 4,
        }
    }

    /// Get the state that a number on the bus stands for.
    pub fn from_code(code: u32) -> (state: Option<Self>)
        ensures
            state matches Some(s) ==> s.number() == code,
            state is None ==> forall|s: ConnectivityState| s.number() != code,
    {
        match code {
            0 => Some(Self::Unknown),
            1 => Some(Self::Disconnected),
            2 => Some(Self::Portal),
            3 => Some(Self::Limited),
            4 => Some(Self::Full),
            _ => None,
        }
    }
}

} // verus!
