//! GPS toggle.

use vstd::prelude::*;

use crate::module::{Command, Toggle};
use crate::text::Svg;

verus! {

/// GPS toggle.
#[derive(Copy, Clone, PartialEq, Eq, Debug)]
pub struct Gps {
    /// Current GPS state.
    pub enabled: bool,
    /// Desired connectivity state.
    pub desired_enabled: bool,
}

impl Gps {
    /// Module after the location service reported its state.
    pub open spec fn updated(&self, enabled: bool) -> Gps {
        if enabled != self.enabled {
            Gps { enabled, desired_enabled: enabled }
        } else {
            *self
        }
    }

    /// GPS module with the location service off.
    pub fn new() -> (gps: Self)
        ensures
            !gps.enabled,
            !gps.desired_enabled,
    {
        Self { enabled: false, desired_enabled: false }
    }

    /// Take over the reported state of the location service.
    ///
    /// Returns whether a redraw is needed, which is the case only if the
    /// state changed.
    pub fn update(&mut self, enabled: bool) -> (redraw: bool)
        ensures
            *final(self) == old(self).updated(enabled),
            redraw == (enabled != old(self).enabled),
    {
        if enabled != self.enabled {
            self.desired_enabled = enabled;
            self.enabled = enabled;
            true
        } else {
            false
        }
    }
}

impl Toggle for Gps {
    open spec fn on(&self) -> bool {
        self.desired_enabled
    }

    open spec fn pressed(&self) -> Self {
        Gps { enabled: self.enabled, desired_enabled: !self.desired_enabled }
    }

    open spec fn press_command(&self) -> Command {
        Command::Gps { enabled: !self.desired_enabled }
    }

    open spec fn icon(&self) -> Svg {
        if self.enabled {
            Svg::GpsOn
        } else {
            Svg::GpsOff
        }
    }

    fn toggle(&mut self) -> (command: Command) {
        self.desired_enabled = !self.desired_enabled;
        Command::Gps { enabled: self.desired_enabled }
    }

    fn svg(&self) -> (svg: Svg) {
        if self.enabled {
            Svg::GpsOn
        } else {
            Svg::GpsOff
        }
    }

    fn enabled(&self) -> (enabled: bool) {
        self.desired_enabled
    }
}

} // verus!
