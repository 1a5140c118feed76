//! Battery status and capacity.

use vstd::prelude::*;
use vstd::string::StringSliceAdditionalSpecFns;

use crate::module::attribute::{first_complete, first_found, parse_number, parsed_number};
use crate::module::{Alignment, PanelModule, PanelModuleContent};
use crate::text::Svg;

verus! {

/// Seconds between two capacity updates.
pub const UPDATE_INTERVAL: u64 = 60;

/// Status of a power supply that is charging: the text `Charging`.
pub open spec fn charging_status() -> Seq<u8> {
    seq![0x43u8, 0x68u8, 0x61u8, 0x72u8, 0x67u8, 0x69u8, 0x6Eu8, 0x67u8]
}

/// Battery status and capacity.
#[derive(Copy, Clone, PartialEq, Eq, Debug)]
pub struct Battery {
    /// The battery is charging.
    pub charging: bool,
    /// Capacity in percent.
    pub capacity: u8,
}

impl Battery {
    /// Icon for a charging status and a capacity in percent.
    pub open spec fn icon_for(charging: bool, capacity: u8) -> Svg {
        if charging {
            if capacity >= 80 {
                Svg::BatteryCharging100
            } else if capacity >= 60 {
                Svg::BatteryCharging80
            } else if capacity >= 40 {
                Svg::BatteryCharging60
            } else if capacity >= 20 {
                Svg::BatteryCharging40
            } else {
                Svg::BatteryCharging20
            }
        } else {
            if capacity >= 80 {
                Svg::Battery100
            } else if capacity >= 60 {
                Svg::Battery80
            } else if capacity >= 40 {
                Svg::Battery60
            } else if capacity >= 20 {
                Svg::Battery40
            } else {
                Svg::Battery20
            }
        }
    }

    /// Icon of the battery.
    pub open spec fn icon(&self) -> Svg {
        Self::icon_for(self.charging, self.capacity)
    }

    /// Battery that is full and not charging.
    pub fn new() -> (battery: Self)
        ensures
            !battery.charging,
            battery.capacity == 100,
    {
        Self { charging: false, capacity: 100 }
    }

    /// Battery after the power supplies were looked at: it takes over the
    /// first one that has both a capacity and a status.
    pub open spec fn updated(&self, devices: Seq<(Option<u8>, Option<bool>)>) -> (bool, u8) {
        match first_found(devices, 0) {
            Some((capacity, charging)) => (charging, capacity),
            None => (self.charging, self.capacity),
        }
    }

    /// Read the capacity in percent from a power supply's attribute.
    pub fn read_capacity(text: &str) -> (capacity: Option<u8>)
        ensures
            capacity == match parsed_number(text.spec_bytes(), 255) {
                Some(capacity) => Some(capacity as u8),
                None => None,
            },
    {
        match parse_number(text, 255) {
            Some(capacity) => Some(capacity as u8),
            None => None,
        }
    }

    /// Read from a power supply's status whether it is charging.
    pub fn read_charging(status: &str) -> (charging: bool)
        ensures
            charging == (status.spec_bytes() == charging_status()),
    {
        let bytes = status.as_bytes();
        let charging = bytes.len() == 8 && bytes[0] == 0x43 && bytes[1] == 0x68 && bytes[2] == 0x61
            && bytes[3] == 0x72 && bytes[4] == 0x67 && bytes[5] == 0x69 && bytes[6] == 0x6E
            && bytes[7] == 0x67;
        assert(charging == (bytes@ =~= charging_status()));
        charging
    }

    /// Update battery status from the attributes of the power supplies.
    ///
    /// The status is taken from the first power supply that has both a
    /// capacity and a status, and stays as it is without one.
    pub fn update(&mut self, devices: &Vec<(Option<u8>, Option<bool>)>)
        ensures
            (final(self).charging, final(self).capacity) == old(self).updated(devices@),
    {
        // Find first device with `capacity` and `status` attributes.
        match first_complete(devices) {
            Some((capacity, charging)) => {
                self.capacity = capacity;
                self.charging = charging;
            },
            None => {},
        }
    }

    /// Set the charging status and the capacity in percent.
    pub fn set_status(&mut self, charging: bool, capacity: u8)
        ensures
            *final(self) == (Battery { charging, capacity }),
    {
        self.charging = charging;
        self.capacity = capacity;
    }

    /// Current battery status SVG.
    pub fn svg(&self) -> (svg: Svg)
        ensures
            svg == self.icon(),
    {
        let capacity = self.capacity;
        if self.charging {
            if capacity >= 80 {
                Svg::BatteryCharging100
            } else if capacity >= 60 {
                Svg::BatteryCharging80
            } else if capacity >= 40 {
                Svg::BatteryCharging60
            } else if capacity >= 20 {
                Svg::BatteryCharging40
            } else {
                Svg::BatteryCharging20
            }
        } else {
            if capacity >= 80 {
                Svg::Battery100
            } else if capacity >= 60 {
                Svg::Battery80
            } else if capacity >= 40 {
                Svg::Battery60
            } else if capacity >= 20 {
                Svg::Battery40
            } else {
                Svg::Battery20
            }
        }
    }
}

impl PanelModule for Battery {
    fn alignment(&self) -> (alignment: Alignment)
        ensures
            alignment == Alignment::Right,
    {
        Alignment::Right
    }

    fn content(&self) -> (content: PanelModuleContent)
        ensures
            content == PanelModuleContent::Svg(self.icon()),
    {
        PanelModuleContent::Svg(self.svg())
    }
}

} // verus!
