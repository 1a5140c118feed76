use epitaph::config::Config;
use epitaph::dbus::modem_manager::ModemConnection;
use epitaph::dbus::network_manager::WifiConnection;
use epitaph::geometry::Fraction;
use epitaph::module::attribute::{first_complete, parse_number};
use epitaph::module::battery::Battery;
use epitaph::module::brightness::Brightness;
use epitaph::module::cellular::Cellular;
use epitaph::module::clock::Clock;
use epitaph::module::date::Date;
use epitaph::module::flashlight::{Flash, Flashlight};
use epitaph::module::gps::Gps;
use epitaph::module::orientation::Orientation;
use epitaph::module::registry::{Module, ModuleEvent};
use epitaph::module::scale::Scale;
use epitaph::module::volume::Volume;
use epitaph::module::wifi::Wifi;
use epitaph::module::{
    Alignment, Command, DrawerModule, PanelModule, PanelModuleContent, Slider, Toggle,
};
use epitaph::text::Svg;

#[test]
fn battery_icon_follows_capacity() {
    let cases = [
        (true, 100, Svg::BatteryCharging100),
        (true, 80, Svg::BatteryCharging100),
        (true, 79, Svg::BatteryCharging80),
        (true, 60, Svg::BatteryCharging80),
        (true, 59, Svg::BatteryCharging60),
        (true, 40, Svg::BatteryCharging60),
        (true, 39, Svg::BatteryCharging40),
        (true, 20, Svg::BatteryCharging40),
        (true, 19, Svg::BatteryCharging20),
        (true, 0, Svg::BatteryCharging20),
        (false, 255, Svg::Battery100),
        (false, 80, Svg::Battery100),
        (false, 79, Svg::Battery80),
        (false, 59, Svg::Battery60),
        (false, 39, Svg::Battery40),
        (false, 19, Svg::Battery20),
    ];
    for (charging, capacity, svg) in cases {
        let battery = Battery { charging, capacity };
        assert_eq!(battery.svg(), svg);
        assert_eq!(battery.content(), PanelModuleContent::Svg(svg));
    }
    assert_eq!(Battery::new(), Battery { charging: false, capacity: 100 });
    assert_eq!(Battery::new().alignment(), Alignment::Right);
}

#[test]
fn battery_reads_first_complete_power_supply() {
    let mut battery = Battery::new();
    battery.update(&vec![(None, Some(true)), (Some(50), None), (Some(42), Some(true)), (Some(1), Some(false))]);
    assert_eq!(battery, Battery { charging: true, capacity: 42 });
    battery.update(&vec![(None, Some(false)), (Some(50), None)]);
    assert_eq!(battery, Battery { charging: true, capacity: 42 });
    battery.update(&vec![]);
    assert_eq!(battery, Battery { charging: true, capacity: 42 });
}

#[test]
fn battery_attributes_are_read() {
    assert_eq!(Battery::read_capacity("87"), Some(87));
    assert_eq!(Battery::read_capacity("255"), Some(255));
    assert_eq!(Battery::read_capacity("256"), None);
    assert_eq!(Battery::read_capacity(""), None);
    assert_eq!(Battery::read_capacity("87\n"), None);
    assert!(Battery::read_charging("Charging"));
    assert!(!Battery::read_charging("Discharging"));
    assert!(!Battery::read_charging("charging"));
    assert!(!Battery::read_charging("Charging "));
    assert!(!Battery::read_charging(""));
}

#[test]
fn numbers_are_parsed_like_unsigned_integers() {
    assert_eq!(parse_number("0", 10), Some(0));
    assert_eq!(parse_number("007", 10), Some(7));
    assert_eq!(parse_number("+7", 10), Some(7));
    assert_eq!(parse_number("10", 10), Some(10));
    assert_eq!(parse_number("11", 10), None);
    assert_eq!(parse_number("+", 10), None);
    assert_eq!(parse_number("", 10), None);
    assert_eq!(parse_number("-1", 10), None);
    assert_eq!(parse_number("1 ", 10), None);
    assert_eq!(parse_number("1a", 10), None);
    assert_eq!(parse_number("++1", 10), None);
    assert_eq!(parse_number("18446744073709551615", u64::MAX), Some(u64::MAX));
    assert_eq!(parse_number("18446744073709551616", u64::MAX), None);
    assert_eq!(parse_number("000000000000000000000000000001", u64::MAX), Some(1));
    assert_eq!(parse_number("99999999999999999999999999", u64::MAX), None);
    assert_eq!(parse_number("5", 0), None);
    assert_eq!(parse_number("0", 0), Some(0));
}

#[test]
fn first_complete_skips_incomplete_pairs() {
    assert_eq!(first_complete::<u8, u8>(&vec![]), None);
    assert_eq!(first_complete(&vec![(Some(1u8), None::<u8>)]), None);
    assert_eq!(first_complete(&vec![(None, Some(1u8)), (Some(2u8), Some(3)), (Some(4), Some(5))]), Some((2, 3)));
}

#[test]
fn brightness_starts_at_device_level() {
    let brightness = Brightness::new(&vec![(None, Some(10)), (Some(30), Some(120))]);
    assert!(brightness.value().equals(&Fraction { num: 1, den: 4 }));
    assert!(Brightness::new(&vec![]).value().equals(&Fraction::one()));
    assert!(Brightness::new(&vec![(Some(5), Some(0))]).value().equals(&Fraction::one()));
    assert!(Brightness::new(&vec![(Some(50), Some(10))]).value().equals(&Fraction::one()));
    assert_eq!(Slider::svg(&brightness), Svg::Brightness);
}

#[test]
fn brightness_snaps_to_twentieths() {
    let mut brightness = Brightness::new(&vec![]);
    assert_eq!(
        brightness.set_value(Fraction { num: 52, den: 100 }),
        Some(Command::Backlight { twentieths: 10 })
    );
    assert_eq!(brightness.value(), Fraction { num: 10, den: 20 });
    assert_eq!(
        brightness.set_value(Fraction { num: 53, den: 100 }),
        Some(Command::Backlight { twentieths: 11 })
    );
    assert_eq!(brightness.set_value(Fraction::zero()), Some(Command::Backlight { twentieths: 0 }));
    assert_eq!(brightness.on_touch_up(), None);
}

#[test]
fn device_brightness_is_never_zero() {
    assert_eq!(Brightness::device_brightness(1000, 10), 500);
    assert_eq!(Brightness::device_brightness(1000, 20), 1000);
    assert_eq!(Brightness::device_brightness(1000, 0), 1);
    assert_eq!(Brightness::device_brightness(7, 1), 1);
    assert_eq!(Brightness::device_brightness(255, 7), 89);
    assert_eq!(Brightness::device_brightness(u32::MAX, 20), u32::MAX);
}

#[test]
fn scale_maps_slider_to_one_through_three() {
    let mut scale = Scale::new();
    assert_eq!(scale.scale, 4);
    assert_eq!(scale.value(), Fraction { num: 2, den: 4 });
    assert_eq!(scale.set_value(Fraction::zero()), None);
    assert_eq!(scale.scale, 2);
    assert_eq!(scale.set_value(Fraction::one()), None);
    assert_eq!(scale.scale, 6);
    assert_eq!(scale.set_value(Fraction { num: 3, den: 10 }), None);
    assert_eq!(scale.scale, 3);
    assert_eq!(scale.value(), Fraction { num: 1, den: 4 });
    assert_eq!(scale.on_touch_up(), Some(Command::OutputScale { halves: 3 }));
    assert_eq!(Slider::svg(&scale), Svg::Scale);
}

#[test]
fn cellular_icon_follows_connection() {
    let cases = [
        (false, true, 100, Svg::CellularDisabled),
        (true, false, 100, Svg::Cellular0),
        (true, true, 100, Svg::Cellular100),
        (true, true, 90, Svg::Cellular100),
        (true, true, 89, Svg::Cellular80),
        (true, true, 70, Svg::Cellular80),
        (true, true, 69, Svg::Cellular60),
        (true, true, 50, Svg::Cellular60),
        (true, true, 49, Svg::Cellular40),
        (true, true, 30, Svg::Cellular40),
        (true, true, 29, Svg::Cellular20),
        (true, true, 10, Svg::Cellular20),
        (true, true, 9, Svg::Cellular0),
    ];
    for (enabled, registered, strength, svg) in cases {
        let connection = ModemConnection { enabled, strength, registered };
        let cellular = Cellular { connection, desired_enabled: false };
        assert_eq!(cellular.svg(), svg);
        assert_eq!(cellular.content(), PanelModuleContent::Svg(svg));
    }
    assert_eq!(Cellular::new().alignment(), Alignment::Right);
}

#[test]
fn cellular_update_redraws_on_visible_change() {
    let mut cellular = Cellular::new();
    assert!(!cellular.update(ModemConnection::default()));
    assert!(cellular.update(ModemConnection { enabled: true, strength: 95, registered: true }));
    assert!(cellular.enabled());
    assert!(!cellular.update(ModemConnection { enabled: true, strength: 96, registered: true }));
    assert_eq!(cellular.connection.strength, 96);
    assert!(cellular.update(ModemConnection { enabled: true, strength: 80, registered: true }));

    // The button follows the modem, whatever was desired.
    assert_eq!(cellular.toggle(), Command::Cellular { enabled: false });
    assert!(!cellular.enabled());
    assert!(cellular.update(ModemConnection { enabled: true, strength: 81, registered: true }));
    assert!(cellular.enabled());
}

#[test]
fn wifi_icon_follows_connection() {
    let cases = [
        (false, true, 100, Svg::WifiDisabled),
        (true, true, 88, Svg::WifiConnected100),
        (true, true, 87, Svg::WifiConnected75),
        (true, true, 63, Svg::WifiConnected75),
        (true, true, 62, Svg::WifiConnected50),
        (true, true, 38, Svg::WifiConnected50),
        (true, true, 37, Svg::WifiConnected25),
        (true, true, 13, Svg::WifiConnected25),
        (true, true, 12, Svg::WifiConnected0),
        (true, false, 88, Svg::WifiDisconnected100),
        (true, false, 63, Svg::WifiDisconnected75),
        (true, false, 38, Svg::WifiDisconnected50),
        (true, false, 13, Svg::WifiDisconnected25),
        (true, false, 0, Svg::WifiDisconnected0),
    ];
    for (enabled, connected, strength, svg) in cases {
        let connection = WifiConnection { enabled, strength, connected };
        let wifi = Wifi { connection, desired_enabled: false };
        assert_eq!(wifi.svg(), svg);
    }
}

#[test]
fn wifi_toggle_flips_desired_state() {
    let mut wifi = Wifi::new();
    assert!(!wifi.enabled());
    assert_eq!(wifi.toggle(), Command::Wifi { enabled: true });
    assert!(wifi.enabled());
    assert_eq!(wifi.svg(), Svg::WifiDisabled);
    assert_eq!(wifi.toggle(), Command::Wifi { enabled: false });
    assert!(wifi.update(WifiConnection { enabled: true, strength: 1, connected: false }));
    assert!(wifi.enabled());
}

#[test]
fn flashlight_toggles() {
    let mut flashlight = Flashlight::new();
    assert!(!flashlight.enabled());
    assert_eq!(flashlight.svg(), Svg::FlashlightOff);
    assert_eq!(flashlight.toggle(), Command::Flashlight);
    assert!(flashlight.enabled());
    assert_eq!(flashlight.svg(), Svg::FlashlightOn);
    assert_eq!(Flashlight::default(), Flashlight::new());
}

#[test]
fn flash_switches_between_off_and_maximum() {
    let flash = Flash::find(&vec![(None, Some(3)), (Some(255), Some(0))]).unwrap();
    assert_eq!(flash, Flash { max_brightness: 255, brightness: 0 });
    assert!(!flash.enabled());
    assert_eq!(flash.toggled_brightness(), 255);
    let flash = Flash::from_device(Some(255), Some(1)).unwrap();
    assert!(flash.enabled());
    assert_eq!(flash.toggled_brightness(), 0);
    assert_eq!(Flash::from_device(None, Some(1)), None);
    assert_eq!(Flash::from_device(Some(1), None), None);
    assert_eq!(Flash::find(&vec![]), None);
}

#[test]
fn orientation_starts_locked() {
    let mut orientation = Orientation::new();
    assert!(orientation.enabled());
    assert_eq!(orientation.svg(), Svg::OrientationLocked);
    assert_eq!(orientation.toggle(), Command::Orientation { unlock: true });
    assert!(!orientation.enabled());
    assert_eq!(orientation.svg(), Svg::OrientationUnlocked);
    assert_eq!(orientation.toggle(), Command::Orientation { unlock: false });
}

#[test]
fn gps_button_shows_desired_state() {
    let mut gps = Gps::new();
    assert_eq!(gps.toggle(), Command::Gps { enabled: true });
    assert!(gps.enabled());
    assert_eq!(gps.svg(), Svg::GpsOff);
    assert!(gps.update(true));
    assert_eq!(gps.svg(), Svg::GpsOn);
    assert!(!gps.update(true));
    assert!(gps.update(false));
    assert!(!gps.enabled());
}

#[test]
fn volume_fills_the_panel() {
    let config = Config::default();
    let mut volume = Volume::new();
    assert_eq!(volume.value(), Fraction { num: 0, den: 100 });
    volume.set_volume(35);
    assert_eq!(volume.value(), Fraction { num: 35, den: 100 });
    assert_eq!(volume.color(&config), config.colors.volume_bg);
    volume.set_volume(100);
    assert_eq!(volume.value(), Fraction::one());
    assert_eq!(volume.color(&config), config.colors.volume_bg);
    volume.set_volume(101);
    assert_eq!(volume.value(), Fraction { num: 1, den: 100 });
    assert_eq!(volume.color(&config), config.colors.volume_bad_bg);
    volume.set_volume(200);
    assert_eq!(volume.value(), Fraction::one());
}

#[test]
fn clock_shows_hours_and_minutes() {
    let clock = Clock::new();
    assert_eq!(clock.alignment(), Alignment::Center);
    match clock.content() {
        PanelModuleContent::Text(text) => {
            let bytes = text.as_bytes();
            assert_eq!(bytes.len(), 5);
            assert_eq!(bytes[2], b':');
            for index in [0, 1, 3, 4] {
                assert!(bytes[index].is_ascii_digit());
            }
            let hours: u32 = text[..2].parse().unwrap();
            let minutes: u32 = text[3..].parse().unwrap();
            assert!(hours < 24 && minutes < 60);
        },
        content => panic!("unexpected content {content:?}"),
    }
}

#[test]
fn clock_updates_after_the_minute() {
    assert_eq!(Clock::next_update(0), 61);
    assert_eq!(Clock::next_update(59), 2);
    assert_eq!(Clock::next_update(60), 61);
    assert_eq!(Clock::next_update(1_700_000_030), 11);
    assert_eq!(Clock::next_update(u64::MAX), 60 - (u64::MAX % 60) + 1);
}

#[test]
fn date_shows_weekday_and_day() {
    let date = Date::new();
    assert_eq!(date.alignment(), Alignment::Left);
    match date.content() {
        PanelModuleContent::Text(text) => {
            let (weekday, day) = text.split_once(". ").unwrap();
            assert!(["Mon", "Tue", "Wed", "Thu", "Fri", "Sat", "Sun"].contains(&weekday));
            assert!(day.bytes().all(|byte| byte.is_ascii_digit()));
            assert!(!day.starts_with('0'));
            let day: u32 = day.parse().unwrap();
            assert!((1..=31).contains(&day));
            assert!(text.len() == 6 || text.len() == 7);
        },
        content => panic!("unexpected content {content:?}"),
    }
}

#[test]
fn registry_holds_modules_in_order() {
    let brightness = Brightness { brightness: Fraction { num: 1, den: 2 } };
    let modules = Module::all(brightness);
    let kinds: Vec<Option<DrawerModule>> =
        modules.iter().map(|module| module.drawer_module()).collect();
    assert_eq!(
        kinds,
        vec![
            Some(DrawerModule::Slider),
            Some(DrawerModule::Slider),
            None,
            Some(DrawerModule::Toggle),
            Some(DrawerModule::Toggle),
            None,
            Some(DrawerModule::Toggle),
            Some(DrawerModule::Toggle),
            Some(DrawerModule::Toggle),
            None,
            None,
        ]
    );
    let alignments: Vec<Option<Alignment>> =
        modules.iter().map(|module| module.alignment()).collect();
    assert_eq!(
        alignments,
        vec![
            None,
            None,
            Some(Alignment::Center),
            Some(Alignment::Right),
            Some(Alignment::Right),
            Some(Alignment::Right),
            None,
            None,
            None,
            Some(Alignment::Left),
            None,
        ]
    );
    assert_eq!(modules[0], Module::Brightness(brightness));
    assert_eq!(modules[10], Module::Volume(Volume::new()));
}

#[test]
fn registry_dispatches_by_capability() {
    let config = Config::default();
    let mut modules = Module::all(Brightness { brightness: Fraction::one() });

    // Slider.
    assert_eq!(modules[1].value(), Some(Fraction { num: 2, den: 4 }));
    assert_eq!(modules[1].enabled(), None);
    assert_eq!(modules[1].svg(), Some(Svg::Scale));
    assert_eq!(modules[1].toggle(), None);
    assert_eq!(modules[1].set_value(Fraction::one()), None);
    assert_eq!(modules[1].on_touch_up(), Some(Command::OutputScale { halves: 6 }));
    assert_eq!(modules[1].content(), None);

    // Toggle.
    assert_eq!(modules[7].enabled(), Some(false));
    assert_eq!(modules[7].value(), None);
    assert_eq!(modules[7].set_value(Fraction::one()), None);
    assert_eq!(modules[7].on_touch_up(), None);
    assert_eq!(modules[7].toggle(), Some(Command::Flashlight));
    assert_eq!(modules[7].enabled(), Some(true));
    assert_eq!(modules[7].svg(), Some(Svg::FlashlightOn));

    // Panel only.
    assert_eq!(modules[5].content(), Some(PanelModuleContent::Svg(Svg::Battery100)));
    assert_eq!(modules[5].svg(), None);
    assert_eq!(modules[5].toggle(), None);
    assert_eq!(modules[5].background_activity(&config), None);

    // Background activity.
    assert_eq!(
        modules[10].background_activity(&config),
        Some((config.colors.volume_bg, Fraction { num: 0, den: 100 }))
    );
    assert_eq!(modules[10].content(), None);
}

#[test]
fn events_reach_their_module_only() {
    let mut modules = Module::all(Brightness { brightness: Fraction::one() });
    let event = ModuleEvent::Battery { charging: true, capacity: 50 };
    let redraws: Vec<bool> = modules.iter_mut().map(|module| module.notify(event)).collect();
    assert_eq!(redraws.iter().filter(|redraw| **redraw).count(), 1);
    assert!(redraws[5]);
    assert_eq!(modules[5], Module::Battery(Battery { charging: true, capacity: 50 }));

    assert!(modules[10].notify(ModuleEvent::Volume(30)));
    assert_eq!(modules[10], Module::Volume(Volume { volume: 30 }));
    assert!(modules[8].notify(ModuleEvent::Gps(true)));
    assert!(!modules[8].notify(ModuleEvent::Gps(true)));
    assert!(!modules[8].notify(ModuleEvent::Volume(1)));
    let connection = ModemConnection { enabled: true, strength: 50, registered: true };
    assert!(modules[3].notify(ModuleEvent::Cellular(connection)));
    assert!(!modules[3].notify(ModuleEvent::Cellular(connection)));
}
