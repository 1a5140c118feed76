//! Cellular status and signal strength.

use vstd::prelude::*;

use crate::dbus::modem_manager::ModemConnection;
use crate::module::{Alignment, Command, PanelModule, PanelModuleContent, Toggle};
use crate::text::Svg;

verus! {

/// Cellular status and toggle.
#[derive(Copy, Clone, PartialEq, Eq, Debug)]
pub struct Cellular {
    /// Current connection state.
    pub connection: ModemConnection,
    /// Desired connectivity state.
    pub desired_enabled: bool,
}

impl Cellular {
    /// Icon for a connection status.
    pub open spec fn icon_for(connection: ModemConnection) -> Svg {
        if !connection.enabled {
            Svg::CellularDisabled
        } else if !connection.registered {
            Svg::Cellular0
        } else if connection.strength >= 90 {
            Svg::Cellular100
        } else if connection.strength >= 70 {
            Svg::Cellular80
        } else if connection.strength >= 50 {
            Svg::Cellular60
        } else if connection.strength >= 30 {
            Svg::Cellular40
        } else if connection.strength >= 10 {
            Svg::Cellular20
        } else {
            Svg::Cellular0
        }
    }

    /// Module after a connection status was reported.
    pub open spec fn updated(&self, connection: ModemConnection) -> Cellular {
        if connection == self.connection {
            *self
        } else {
            Cellular { connection, desired_enabled: connection.enabled }
        }
    }

    /// Whether a reported connection status changes what is shown.
    pub open spec fn update_shows(&self, connection: ModemConnection) -> bool {
        connection != self.connection && (Self::icon_for(self.connection) != Self::icon_for(
            connection,
        ) || self.desired_enabled != connection.enabled)
    }

    /// Cellular module without a connection.
    pub fn new() -> (cellular: Self)
        ensures
            cellular.connection == ModemConnection::initial(),
            !cellular.desired_enabled,
    {
        Self { connection: ModemConnection::default(), desired_enabled: false }
    }

    /// Take over a reported connection status.
    ///
    /// Returns whether a redraw is needed, which is the case only if the
    /// icon or the button status changed.
    pub fn update(&mut self, connection: ModemConnection) -> (redraw: bool)
        ensures
            *final(self) == old(self).updated(connection),
            redraw == old(self).update_shows(connection),
    {
        // Ignore updates that change nothing.
        if connection == self.connection {
            return false;
        }
        let old_enabled = self.desired_enabled;
        let old_svg = self.svg();

        // Update connection status.
        self.desired_enabled = connection.enabled;
        self.connection = connection;

        // Request redraw only if SVG changed.
        old_svg != self.svg() || old_enabled != connection.enabled
    }
}

impl PanelModule for Cellular {
    fn alignment(&self) -> (alignment: Alignment)
        ensures
            alignment == Alignment::Right,
    {
        Alignment::Right
    }

    fn content(&self) -> (content: PanelModuleContent)
        ensures
            content == PanelModuleContent::Svg(self.icon()),
    {
        PanelModuleContent::Svg(self.svg())
    }
}

impl Toggle for Cellular {
    open spec fn on(&self) -> bool {
        self.desired_enabled
    }

    open spec fn pressed(&self) -> Self {
        Cellular { connection: self.connection, desired_enabled: !self.desired_enabled }
    }

    open spec fn press_command(&self) -> Command {
        Command::Cellular { enabled: !self.desired_enabled }
    }

    open spec fn icon(&self) -> Svg {
        Self::icon_for(self.connection)
    }

    fn toggle(&mut self) -> (command: Command) {
        self.desired_enabled = !self.desired_enabled;
        Command::Cellular { enabled: self.desired_enabled }
    }

    /// Current cellular status SVG.
    fn svg(&self) -> (svg: Svg) {
        if !self.connection.enabled {
            return Svg::CellularDisabled;
        }
        if !self.connection.registered {
            return Svg::Cellular0;
        }
        let strength = self.connection.strength;
        if strength >= 90 {
            Svg::Cellular100
        } else if strength >= 70 {
            Svg::Cellular80
        } else if strength >= 50 {
            Svg::Cellular60
        } else if strength >= 30 {
            Svg::Cellular40
        } else if strength >= 10 {
            Svg::Cellular20
        } else {
            Svg::Cellular0
        }
    }

    fn enabled(&self) -> (enabled: bool) {
        self.desired_enabled
    }
}

} // verus!
