use epitaph::dbus::modem_manager::{
    set_enabled, ModemConnection, ModemRequest, ModemState, PowerState, RegistrationState,
};
use epitaph::dbus::network_manager::{ConnectivityState, DeviceType, WifiConnection};

#[test]
fn modem_connection_from_states() {
    let connection = ModemConnection::new(77, RegistrationState::Home, ModemState::Registered);
    assert_eq!(connection, ModemConnection { enabled: true, strength: 77, registered: true });
    let connection = ModemConnection::new(300, RegistrationState::Idle, ModemState::Enabling);
    assert_eq!(connection, ModemConnection { enabled: false, strength: 44, registered: false });
    let connection = ModemConnection::new(0, RegistrationState::Searching, ModemState::Enabled);
    assert_eq!(connection, ModemConnection { enabled: true, strength: 0, registered: true });
    assert_eq!(
        ModemConnection::default(),
        ModemConnection { enabled: false, strength: 0, registered: false }
    );
}

#[test]
fn modem_is_powered_before_it_is_enabled() {
    assert_eq!(
        set_enabled(true),
        [ModemRequest::SetPowerState(PowerState::On), ModemRequest::Enable(true)]
    );
    assert_eq!(
        set_enabled(false),
        [ModemRequest::Enable(false), ModemRequest::SetPowerState(PowerState::Low)]
    );
    assert_eq!(PowerState::On.code(), 3);
    assert_eq!(PowerState::Low.code(), 2);
}

#[test]
fn state_codes_round_trip() {
    for code in 0..=11 {
        assert_eq!(RegistrationState::from_code(code).unwrap().code(), code);
        assert_eq!(ModemState::from_code(code as i32).unwrap().code(), code as i32);
    }
    for code in 0..=3 {
        assert_eq!(PowerState::from_code(code).unwrap().code(), code);
    }
    for code in 0..=4 {
        assert_eq!(ConnectivityState::from_code(code).unwrap().code(), code);
    }
    assert_eq!(RegistrationState::from_code(12), None);
    assert_eq!(ModemState::from_code(-1), None);
    assert_eq!(ModemState::from_code(12), None);
    assert_eq!(PowerState::from_code(4), None);
    assert_eq!(ConnectivityState::from_code(5), None);
    assert_eq!(RegistrationState::AttachedRlos.code(), 11);
    assert_eq!(ModemState::Enabled.code(), 7);
    assert_eq!(ConnectivityState::Full.code(), 4);
}

#[test]
fn device_types_have_their_numbers() {
    assert_eq!(DeviceType::Wifi.code(), 2);
    assert_eq!(DeviceType::Modem.code(), 8);
    assert_eq!(DeviceType::from_code(2), Some(DeviceType::Wifi));
    assert_eq!(DeviceType::from_code(8), Some(DeviceType::Modem));
    assert_eq!(DeviceType::from_code(1), None);
}

#[test]
fn wifi_connection_from_states() {
    assert_eq!(
        WifiConnection::new(40, 70, ConnectivityState::Full, true),
        Some(WifiConnection { enabled: true, strength: 70, connected: true })
    );
    assert_eq!(
        WifiConnection::new(40, 70, ConnectivityState::Limited, false),
        Some(WifiConnection { enabled: false, strength: 70, connected: false })
    );
    // The fallback access point `/`.
    assert_eq!(WifiConnection::new(1, 70, ConnectivityState::Full, true), None);
    assert_eq!(
        WifiConnection::default(),
        WifiConnection { enabled: false, strength: 0, connected: false }
    );
}
