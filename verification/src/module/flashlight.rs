//! Flashlight toggle.

use vstd::prelude::*;

use crate::module::attribute::{first_complete, first_found};
use crate::module::{Command, Toggle};
use crate::text::Svg;

verus! {

/// Flashlight toggle.
#[derive(Copy, Clone, PartialEq, Eq, Debug)]
pub struct Flashlight {
    pub enabled: bool,
}

impl Flashlight {
    /// Flashlight module with the light off.
    pub fn new() -> (flashlight: Self)
        ensures
            !flashlight.enabled,
    {
        Self { enabled: false }
    }
}

impl Default for Flashlight {
    fn default() -> (flashlight: Self)
        ensures
            !flashlight.enabled,
    {
        Self { enabled: false }
    }
}

impl Toggle for Flashlight {
    open spec fn on(&self) -> bool {
        self.enabled
    }

    open spec fn pressed(&self) -> Self {
        Flashlight { enabled: !self.enabled }
    }

    open spec fn press_command(&self) -> Command {
        Command::Flashlight
    }

    open spec fn icon(&self) -> Svg {
        if self.enabled {
            Svg::FlashlightOn
        } else {
            Svg::FlashlightOff
        }
    }

    fn toggle(&mut self) -> (command: Command) {
        self.enabled = !self.enabled;
        Command::Flashlight
    }

    fn svg(&self) -> (svg: Svg) {
        if self.enabled {
            Svg::FlashlightOn
        } else {
            Svg::FlashlightOff
        }
    }

    fn enabled(&self) -> (enabled: bool) {
        self.enabled
    }
}

/// Flashlight LED as the device reports it.
#[derive(Copy, Clone, PartialEq, Eq, Debug)]
pub struct Flash {
    pub max_brightness: usize,
    pub brightness: usize,
}

impl Flash {
    /// The flashlight is on when it has any brightness.
    pub open spec fn lit(&self) -> bool {
        self.brightness > 0
    }

    /// Brightness that switches the flashlight over.
    pub open spec fn switched(&self) -> usize {
        if self.lit() {
            0
        } else {
            self.max_brightness
        }
    }

    /// Check if flashlight is on.
    pub fn enabled(&self) -> (enabled: bool)
        ensures
            enabled == self.lit(),
    {
        self.brightness > 0
    }

    /// Flashlight from the device's attributes, if both were found.
    pub fn from_device(max_brightness: Option<usize>, brightness: Option<usize>) -> (flash: Option<
        Flash,
    >)
        ensures
            max_brightness is Some && brightness is Some ==> flash == Some(
                Flash { max_brightness: max_brightness->0, brightness: brightness->0 },
            ),
            max_brightness is None || brightness is None ==> flash is None,
    {
        match (max_brightness, brightness) {
            (Some(max_brightness), Some(brightness)) => Some(Flash { max_brightness, brightness }),
            _ => None,
        }
    }

    /// Find any flashlight device: the first one that has both a maximum
    /// and a current brightness.
    pub fn find(devices: &Vec<(Option<usize>, Option<usize>)>) -> (flash: Option<Flash>)
        ensures
            flash == (match first_found(devices@, 0) {
                Some((max_brightness, brightness)) => Some(Flash { max_brightness, brightness }),
                None => None,
            }),
    {
        match first_complete(devices) {
            Some((max_brightness, brightness)) => Some(Flash { max_brightness, brightness }),
            None => None,
        }
    }

    /// Get the brightness that switches the flashlight over.
    pub fn toggled_brightness(&self) -> (brightness: usize)
        ensures
            brightness == self.switched(),
    {
        if self.enabled() {
            0
        } else {
            self.max_brightness
        }
    }
}

} // verus!
