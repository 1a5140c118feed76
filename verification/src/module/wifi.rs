//! WiFi status and signal strength.

use vstd::prelude::*;

use crate::dbus::network_manager::WifiConnection;
use crate::module::{Alignment, Command, PanelModule, PanelModuleContent, Toggle};
use crate::text::Svg;

verus! {

/// WiFi status and toggle.
#[derive(Copy, Clone, PartialEq, Eq, Debug)]
pub struct Wifi {
    /// Current connection state.
    pub connection: WifiConnection,
    /// Desired connectivity state.
    pub desired_enabled: bool,
}

impl Wifi {
    /// Icon for a connection status.
    pub open spec fn icon_for(connection: WifiConnection) -> Svg {
        if !connection.enabled {
            Svg::WifiDisabled
        } else if connection.connected {
            if connection.strength >= 88 {
                Svg::WifiConnected100
            } else if connection.strength >= 63 {
                Svg::WifiConnected75
            } else if connection.strength >= 38 {
                Svg::WifiConnected50
            } else if connection.strength >= 13 {
                Svg::WifiConnected25
            } else {
                Svg::WifiConnected0
            }
        } else {
            if connection.strength >= 88 {
                Svg::WifiDisconnected100
            } else if connection.strength >= 63 {
                Svg::WifiDisconnected75
            } else if connection.strength >= 38 {
                Svg::WifiDisconnected50
            } else if connection.strength >= 13 {
                Svg::WifiDisconnected25
            } else {
                Svg::WifiDisconnected0
            }
        }
    }

    /// Module after a connection status was reported.
    pub open spec fn updated(&self, connection: WifiConnection) -> Wifi {
        if connection == self.connection {
            *self
        } else {
            Wifi { connection, desired_enabled: connection.enabled }
        }
    }

    /// Whether a reported connection status changes what is shown.
    pub open spec fn update_shows(&self, connection: WifiConnection) -> bool {
        connection != self.connection && (Self::icon_for(self.connection) != Self::icon_for(
            connection,
        ) || self.desired_enabled != connection.enabled)
    }

    /// WiFi module without a connection.
    pub fn new() -> (wifi: Self)
        ensures
            wifi.connection == WifiConnection::initial(),
            !wifi.desired_enabled,
    {
        Self { connection: WifiConnection::default(), desired_enabled: false }
    }

    /// Take over a reported connection status.
    ///
    /// Returns whether a redraw is needed, which is the case only if the
    /// icon or the button status changed.
    pub fn update(&mut self, connection: WifiConnection) -> (redraw: bool)
        ensures
            *final(self) == old(self).updated(connection),
            redraw == old(self).update_shows(connection),
    {
        // Ignore updates that change nothing.
        if connection == self.connection {
            return false;
        }
        let old_enabled = self.desired_enabled;
        let old_svg = self.svg();

        // Update connection status.
        self.desired_enabled = connection.enabled;
        self.connection = connection;

        // Request redraw only if SVG changed.
        old_svg != self.svg() || old_enabled != connection.enabled
    }
}

impl PanelModule for Wifi {
    fn alignment(&self) -> (alignment: Alignment)
        ensures
            alignment == Alignment::Right,
    {
        Alignment::Right
    }

    fn content(&self) -> (content: PanelModuleContent)
        ensures
            content == PanelModuleContent::Svg(self.icon()),
    {
        PanelModuleContent::Svg(self.svg())
    }
}

impl Toggle for Wifi {
    open spec fn on(&self) -> bool {
        self.desired_enabled
    }

    open spec fn pressed(&self) -> Self {
        Wifi { connection: self.connection, desired_enabled: !self.desired_enabled }
    }

    open spec fn press_command(&self) -> Command {
        Command::Wifi { enabled: !self.desired_enabled }
    }

    open spec fn icon(&self) -> Svg {
        Self::icon_for(self.connection)
    }

    fn toggle(&mut self) -> (command: Command) {
        self.desired_enabled = !self.desired_enabled;
        Command::Wifi { enabled: self.desired_enabled }
    }

    /// Current wifi status SVG.
    fn svg(&self) -> (svg: Svg) {
        if !self.connection.enabled {
            return Svg::WifiDisabled;
        }
        let strength = self.connection.strength;
        if self.connection.connected {
            if strength >= 88 {
                Svg::WifiConnected100
            } else if strength >= 63 {
                Svg::WifiConnected75
            } else if strength >= 38 {
                Svg::WifiConnected50
            } else if strength >= 13 {
                Svg::WifiConnected25
            } else {
                Svg::WifiConnected0
            }
        } else {
            if strength >= 88 {
                Svg::WifiDisconnected100
            } else if strength >= 63 {
                Svg::WifiDisconnected75
            } else if strength >= 38 {
                Svg::WifiDisconnected50
            } else if strength >= 13 {
                Svg::WifiDisconnected25
            } else {
                Svg::WifiDisconnected0
            }
        }
    }

    fn enabled(&self) -> (enabled: bool) {
        self.desired_enabled
    }
}

} // verus!
