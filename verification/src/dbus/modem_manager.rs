//! ModemManager DBus interface.

use vstd::prelude::*;

verus! {

/// Cellular connection status.
#[derive(Copy, Clone, PartialEq, Eq, Structural, Debug)]
pub struct ModemConnection {
    /// Modem is enabled.
    pub enabled: bool,
    /// Cellular signal quality in percent.
    pub strength: u8,
    /// Modem state is at least 'registered'.
    pub registered: bool,
}

impl ModemConnection {
    /// Connection status of a modem that was never heard of.
    pub open spec fn initial() -> ModemConnection {
        ModemConnection { enabled: false, strength: 0, registered: false }
    }

    /// Connection status that a modem's reported states amount to.
    pub open spec fn of(
        signal_quality: u32,
        registration_state: RegistrationState,
        modem_state: ModemState,
    ) -> ModemConnection {
        ModemConnection {
            enabled: modem_state.number() >= ModemState::Enabled.number(),
            strength: (signal_quality % 256) as u8,
            registered: registration_state.number() > RegistrationState::Idle.number(),
        }
    }

    /// Get current cellular connection status from the modem's reported
    /// signal quality, registration state and modem state.
    pub fn new(
        signal_quality: u32,
        registration_state: RegistrationState,
        modem_state: ModemState,
    ) -> (connection: Self)
        ensures
            connection == Self::of(signal_quality, registration_state, modem_state),
    {
        let strength = (signal_quality % 256) as u8;
        let registered = registration_state.code() > RegistrationState::Idle.code();
        let enabled = modem_state.code() >= ModemState::Enabled.code();
        Self { strength, registered, enabled }
    }
}

impl Default for ModemConnection {
    fn default() -> (connection: Self)
        ensures
            connection == ModemConnection::initial(),
    {
        Self { enabled: false, strength: 0, registered: false }
    }
}

/// Request to a modem.
#[derive(Copy, Clone, PartialEq, Eq, Structural, Debug)]
pub enum ModemRequest {
    /// Set the modem's power state.
    SetPowerState(PowerState),
    /// Enable or disable the modem.
    Enable(bool),
}

/// Requests that switch a modem on or off, in their order.
///
/// A modem is powered on before it is enabled. One that is disabled goes to
/// the lowest power state it can recover from afterwards: switched off
/// altogether, it could not be turned back on.
pub open spec fn switch_requests(enabled: bool) -> Seq<ModemRequest> {
    if enabled {
        seq![ModemRequest::SetPowerState(PowerState::On), ModemRequest::Enable(true)]
    } else {
        seq![ModemRequest::Enable(false), ModemRequest::SetPowerState(PowerState::Low)]
    }
}

/// Get the requests that switch a modem on or off, in their order.
pub fn set_enabled(enabled: bool) -> (requests: [ModemRequest; 2])
    ensures
        requests@ == switch_requests(enabled),
{
    if enabled {
        [ModemRequest::SetPowerState(PowerState::On), ModemRequest::Enable(true)]
    } else {
        [ModemRequest::Enable(false), ModemRequest::SetPowerState(PowerState::Low)]
    }
}

/// ModemManager modem 3gpp state.
#[derive(Copy, Clone, PartialEq, Eq, Structural, Debug)]
pub enum RegistrationState {
    /// Not registered, not searching for new operator to register.
    Idle,
    /// Registered on home network.
    Home,
    /// Not registered, searching for new operator to register with.
    Searching,
    /// Registration denied.
    Denied,
    /// Unknown registration status.
    Unknown,
    /// Registered on a roaming network.
    Roaming,
    /// Registered for "SMS only", home network.
    HomeSmsOnly,
    /// Registered for "SMS only", roaming network.
    RoamingSmsOnly,
    /// Emergency services only.
    EmergencyOnly,
    /// Registered for "CSFB not preferred", home network.
    HomeCsfbNotPreferred,
    /// Registered for "CSFB not preferred", roaming network.
    RoamingCsfbNotPreferred,
    /// Attached for access to Restricted Local Operator Services.
    AttachedRlos,
}

impl RegistrationState {
    /// Number that stands for the state on the bus.
    pub open spec fn number(&self) -> u32 {
        match self {
            Self::Idle => 0,
            Self::Home => 1,
            Self::Searching => 2,
            Self::Denied => 3,
            Self::Unknown => 4,
            Self::Roaming => 5,
            Self::HomeSmsOnly => 6,
            Self::RoamingSmsOnly => 7,
            Self::EmergencyOnly => 8,
            Self::HomeCsfbNotPreferred => 9,
            Self::RoamingCsfbNotPreferred => 10,
            Self::AttachedRlos => 11,
        }
    }

    /// Get the number that stands for the state on the bus.
    pub fn code(&self) -> (code: u32)
        ensures
            code == self.number(),
    {
        match self {
            Self::Idle => 0,
            Self::Home => 1,
            Self::Searching => 2,
            Self::Denied => 3,
            Self::Unknown => 4,
            Self::Roaming => 5,
            Self::HomeSmsOnly => 6,
            Self::RoamingSmsOnly => 7,
            Self::EmergencyOnly => 8,
            Self::HomeCsfbNotPreferred => 9,
            Self::RoamingCsfbNotPreferred => 10,
            Self::AttachedRlos => 11,
        }
    }

    /// Get the state that a number on the bus stands for.
    pub fn from_code(code: u32) -> (state: Option<Self>)
        ensures
            state matches Some(s) ==> s.number() == code,
            state is None ==> forall|s: RegistrationState| s.number() != code,
    {
        match code {
            0 => Some(Self::Idle),
            1 => Some(Self::Home),
            2 => Some(Self::Searching),
            3 => Some(Self::Denied),
            4 => Some(Self::Unknown),
            5 => Some(Self::Roaming),
            6 => Some(Self::HomeSmsOnly),
            7 => Some(Self::RoamingSmsOnly),
            8 => Some(Self::EmergencyOnly),
            9 => Some(Self::HomeCsfbNotPreferred),
            10 => Some(Self::RoamingCsfbNotPreferred),
            11 => Some(Self::AttachedRlos),
            _ => None,
        }
    }
}

/// Power state of the modem.
#[derive(Copy, Clone, PartialEq, Eq, Structural, Debug)]
pub enum PowerState {
    /// Unknown power state.
    Unknown,
    /// Off.
    Off,
    /// Low-power mode.
    Low,
    /// Full power mode.
    On,
}

impl PowerState {
    /// Number that stands for the state on the bus.
    pub open spec fn number(&self) -> u32 {
        match self {
            Self::Unknown => 0,
            Self::Off => 1,
            Self::Low => 2,
            Self::On => 3,
        }
    }

    /// Get the number that stands for the state on the bus.
    pub fn code(&self) -> (code: u32)
        ensures
            code == self.number(),
    {
        match self {
            Self::Unknown => 0,
            Self::Off => 1,
            Self::Low => 2,
            Self::On => 3,
        }
    }

    /// Get the state that a number on the bus stands for.
    pub fn from_code(code: u32) -> (state: Option<Self>)
        ensures
            state matches Some(s) ==> s.number() == code,
            state is None ==> forall|s: PowerState| s.number() != code,
    {
        match code {
            0 => Some(Self::Unknown),
            1 => Some(Self::Off),
            2 => Some(Self::Low),
            3 => Some(Self::On),
            _ => None,
        }
    }
}

/// Enumeration of possible modem states.
#[derive(Copy, Clone, PartialEq, Eq, Structural, Debug)]
pub enum ModemState {
    /// The modem is unusable.
    Failed,
    /// State unknown or not reportable.
    Unknown,
    /// The modem is currently being initialized.
    Initializing,
    /// The modem needs to be unlocked.
    Locked,
    /// The modem is not enabled and is powered down.
    Disabled,
    /// The modem is currently transitioning to the disabled state.
    Disabling,
    /// The modem is currently transitioning to the enabled state.
    Enabling,
    /// The modem is enabled and powered on but not registered with a network provider.
    Enabled,
    /// The modem is searching for a network provider to register with.
    Searching,
    /// The modem is registered with a network provider.
    Registered,
    /// The modem is disconnecting and deactivating the last active packet data bearer.
    Disconnecting,
    /// The modem is activating and connecting the first packet data bearer.
    Connecting,
}

impl ModemState {
    /// Number that stands for the state on the bus.
    pub open spec fn number(&self) -> i32 {
        match self {
            Self::Failed => 0,
            Self::Unknown => 1,
            Self::Initializing => 2,
            Self::Locked => 3,
            Self::Disabled => 4,
            Self::Disabling => 5,
            Self::Enabling => 6,
            Self::Enabled => 7,
            Self::Searching => 8,
            Self::Registered => 9,
            Self::Disconnecting => 10,
            Self::Connecting => 11,
        }
    }

    /// Get the number that stands for the state on the bus.
    pub fn code(&self) -> (code: i32)
        ensures
            code == self.number(),
    {
        match self {
            Self::Failed => 0,
            Self::Unknown => 1,
            Self::Initializing => 2,
            Self::Locked => 3,
            Self::Disabled => 4,
            Self::Disabling => 5,
            Self::Enabling => 6,
            Self::Enabled => 7,
            Self::Searching => 8,
            Self::Registered => 9,
            Self::Disconnecting => 10,
            Self::Connecting => 11,
        }
    }

    /// Get the state that a number on the bus stands for.
    pub fn from_code(code: i32) -> (state: Option<Self>)
        ensures
            state matches Some(s) ==> s.number() == code,
            state is None ==> forall|s: ModemState| s.number() != code,
    {
        match code {
            0 => Some(Self::Failed),
            1 => Some(Self::Unknown),
            2 => Some(Self::Initializing),
            3 => Some(Self::Locked),
            4 => Some(Self::Disabled),
            5 => Some(Self::Disabling),
            6 => Some(Self::Enabling),
            7 => Some(Self::Enabled),
            8 => Some(Self::Searching),
            9 => Some(Self::Registered),
            10 => Some(Self::Disconnecting),
            11 => Some(Self::Connecting),
            _ => None,
        }
    }
}

} // verus!
