//! Registry of the modules in their display order.

use vstd::prelude::*;

use crate::config::{Color, Config};
use crate::dbus::modem_manager::ModemConnection;
use crate::dbus::network_manager::WifiConnection;
use crate::geometry::Fraction;
use crate::module::battery::Battery;
use crate::module::brightness::Brightness;
use crate::module::cellular::Cellular;
use crate::module::clock::Clock;
use crate::module::date::Date;
use crate::module::flashlight::Flashlight;
use crate::module::gps::Gps;
use crate::module::orientation::Orientation;
use crate::module::scale::Scale;
use crate::module::volume::Volume;
use crate::module::wifi::Wifi;
use crate::module::{Alignment, Command, DrawerModule, PanelModule, PanelModuleContent, Slider, Toggle};
use crate::text::Svg;

verus! {

/// Panel module.
#[derive(Copy, Clone, PartialEq, Eq, Debug)]
pub enum Module {
    Battery(Battery),
    Brightness(Brightness),
    Cellular(Cellular),
    Clock(Clock),
    Date(Date),
    Flashlight(Flashlight),
    Gps(Gps),
    Orientation(Orientation),
    Scale(Scale),
    Volume(Volume),
    Wifi(Wifi),
}

/// News from a background source of a module.
#[derive(Copy, Clone, PartialEq, Eq, Debug)]
pub enum ModuleEvent {
    /// The power supply reported its status.
    Battery { charging: bool, capacity: u8 },
    /// The modem reported its connection.
    Cellular(ModemConnection),
    /// The location service reported its state.
    Gps(bool),
    /// The audio sink reported its volume in percent.
    Volume(u16),
    /// The network reported its connection.
    Wifi(WifiConnection),
}

impl Module {
    /// Module after it took note of an event. Events of other modules
    /// leave it as it is.
    pub open spec fn notified(&self, event: ModuleEvent) -> Module {
        match (*self, event) {
            (Module::Battery(_), ModuleEvent::Battery { charging, capacity }) => Module::Battery(
                Battery { charging, capacity },
            ),
            (Module::Cellular(module), ModuleEvent::Cellular(connection)) => Module::Cellular(
                module.updated(connection),
            ),
            (Module::Gps(module), ModuleEvent::Gps(enabled)) => Module::Gps(module.updated(enabled)),
            (Module::Volume(_), ModuleEvent::Volume(volume)) => Module::Volume(Volume { volume }),
            (Module::Wifi(module), ModuleEvent::Wifi(connection)) => Module::Wifi(
                module.updated(connection),
            ),
            _ => *self,
        }
    }

    /// An event changes what the module shows.
    pub open spec fn renews(&self, event: ModuleEvent) -> bool {
        match (*self, event) {
            (Module::Battery(_), ModuleEvent::Battery { .. }) => true,
            (Module::Cellular(module), ModuleEvent::Cellular(connection)) => module.update_shows(
                connection,
            ),
            (Module::Gps(module), ModuleEvent::Gps(enabled)) => enabled != module.enabled,
            (Module::Volume(_), ModuleEvent::Volume(_)) => true,
            (Module::Wifi(module), ModuleEvent::Wifi(connection)) => module.update_shows(connection),
            _ => false,
        }
    }

    /// Take note of an event.
    ///
    /// Returns whether a redraw is needed.
    pub fn notify(&mut self, event: ModuleEvent) -> (redraw: bool)
        ensures
            *final(self) == old(self).notified(event),
            redraw == old(self).renews(event),
            final(self).drawer_kind() == old(self).drawer_kind(),
            old(self).wf() ==> final(self).wf(),
    {
        match self {
            Module::Battery(module) => match event {
                ModuleEvent::Battery { charging, capacity } => {
                    module.set_status(charging, capacity);
                    true
                },
                _ => false,
            },
            Module::Cellular(module) => match event {
                ModuleEvent::Cellular(connection) => module.update(connection),
                _ => false,
            },
            Module::Gps(module) => match event {
                ModuleEvent::Gps(enabled) => module.update(enabled),
                _ => false,
            },
            Module::Volume(module) => match event {
                ModuleEvent::Volume(volume) => {
                    module.set_volume(volume);
                    true
                },
                _ => false,
            },
            Module::Wifi(module) => match event {
                ModuleEvent::Wifi(connection) => module.update(connection),
                _ => false,
            },
            _ => false,
        }
    }

    /// Modules in the order in which they are shown, in their state before
    /// anything was heard from their sources.
    pub open spec fn initial(brightness: Brightness) -> Seq<Module> {
        seq![
            Module::Brightness(brightness),
            Module::Scale(Scale { scale: 4 }),
            Module::Clock(Clock),
            Module::Cellular(
                Cellular { connection: ModemConnection::initial(), desired_enabled: false },
            ),
            Module::Wifi(Wifi { connection: WifiConnection::initial(), desired_enabled: false }),
            Module::Battery(Battery { charging: false, capacity: 100 }),
            Module::Orientation(Orientation { locked: true }),
            Module::Flashlight(Flashlight { enabled: false }),
            Module::Gps(Gps { enabled: false, desired_enabled: false }),
            Module::Date(Date),
            Module::Volume(Volume { volume: 0 }),
        ]
    }

    /// Get all modules in the order in which they are shown.
    pub fn all(brightness: Brightness) -> (modules: Vec<Module>)
        requires
            brightness.wf(),
        ensures
            modules@ == Self::initial(brightness),
            forall|i: int| 0 <= i < modules.len() ==> (#[trigger] modules[i]).wf(),
    {
        let mut modules: Vec<Module> = Vec::new();
        modules.push(Module::Brightness(brightness));
        modules.push(Module::Scale(Scale::new()));
        modules.push(Module::Clock(Clock::new()));
        modules.push(Module::Cellular(Cellular::new()));
        modules.push(Module::Wifi(Wifi::new()));
        modules.push(Module::Battery(Battery::new()));
        modules.push(Module::Orientation(Orientation::new()));
        modules.push(Module::Flashlight(Flashlight::new()));
        modules.push(Module::Gps(Gps::new()));
        modules.push(Module::Date(Date::new()));
        modules.push(Module::Volume(Volume::new()));
        assert(modules@ =~= Self::initial(brightness));
        modules
    }

    /// The module holds usable values.
    pub open spec fn wf(&self) -> bool {
        match self {
            Module::Brightness(module) => module.wf(),
            Module::Scale(module) => module.wf(),
            _ => true,
        }
    }

    /// Capability of the module in the drawer.
    pub open spec fn drawer_kind(&self) -> Option<DrawerModule> {
        match self {
            Module::Cellular(_) => Some(DrawerModule::Toggle),
            Module::Flashlight(_) => Some(DrawerModule::Toggle),
            Module::Gps(_) => Some(DrawerModule::Toggle),
            Module::Orientation(_) => Some(DrawerModule::Toggle),
            Module::Wifi(_) => Some(DrawerModule::Toggle),
            Module::Brightness(_) => Some(DrawerModule::Slider),
            Module::Scale(_) => Some(DrawerModule::Slider),
            _ => None,
        }
    }

    /// Alignment of the module in the panel.
    pub open spec fn panel_alignment(&self) -> Option<Alignment> {
        match self {
            Module::Battery(_) => Some(Alignment::Right),
            Module::Cellular(_) => Some(Alignment::Right),
            Module::Clock(_) => Some(Alignment::Center),
            Module::Date(_) => Some(Alignment::Left),
            Module::Wifi(_) => Some(Alignment::Right),
            _ => None,
        }
    }

    /// Icon that the module shows in the panel.
    pub open spec fn panel_icon(&self) -> Option<Svg> {
        match self {
            Module::Battery(module) => Some(module.icon()),
            Module::Cellular(module) => Some(module.icon()),
            Module::Wifi(module) => Some(module.icon()),
            _ => None,
        }
    }

    /// Color and share of the panel's background activity bar.
    pub open spec fn activity(&self, config: Config) -> Option<(Color, Fraction)> {
        match self {
            Module::Volume(module) => Some((module.tint(config), module.level())),
            _ => None,
        }
    }

    /// Module after its slider was moved to `value`.
    pub open spec fn moved(&self, value: Fraction) -> Module {
        match self {
            Module::Brightness(module) => Module::Brightness(module.moved(value)),
            Module::Scale(module) => Module::Scale(module.moved(value)),
            _ => *self,
        }
    }

    /// Work caused by moving the module's slider to `value`.
    pub open spec fn move_command(&self, value: Fraction) -> Option<Command> {
        match self {
            Module::Brightness(module) => module.move_command(value),
            Module::Scale(module) => module.move_command(value),
            _ => None,
        }
    }

    /// Work caused by letting go of the module's slider.
    pub open spec fn release_command(&self) -> Option<Command> {
        match self {
            Module::Brightness(module) => module.release_command(),
            Module::Scale(module) => module.release_command(),
            _ => None,
        }
    }

    /// Module after its button was pressed.
    pub open spec fn pressed(&self) -> Module {
        match self {
            Module::Cellular(module) => Module::Cellular(module.pressed()),
            Module::Flashlight(module) => Module::Flashlight(module.pressed()),
            Module::Gps(module) => Module::Gps(module.pressed()),
            Module::Orientation(module) => Module::Orientation(module.pressed()),
            Module::Wifi(module) => Module::Wifi(module.pressed()),
            _ => *self,
        }
    }

    /// Work caused by pressing the module's button.
    pub open spec fn press_command(&self) -> Option<Command> {
        match self {
            Module::Cellular(module) => Some(module.press_command()),
            Module::Flashlight(module) => Some(module.press_command()),
            Module::Gps(module) => Some(module.press_command()),
            Module::Orientation(module) => Some(module.press_command()),
            Module::Wifi(module) => Some(module.press_command()),
            _ => None,
        }
    }

    /// Status of the module's button.
    pub open spec fn on(&self) -> Option<bool> {
        match self {
            Module::Cellular(module) => Some(module.on()),
            Module::Flashlight(module) => Some(module.on()),
            Module::Gps(module) => Some(module.on()),
            Module::Orientation(module) => Some(module.on()),
            Module::Wifi(module) => Some(module.on()),
            _ => None,
        }
    }

    /// Value shown by the module's slider.
    pub open spec fn shown(&self) -> Option<Fraction> {
        match self {
            Module::Brightness(module) => Some(module.shown()),
            Module::Scale(module) => Some(module.shown()),
            _ => None,
        }
    }

    /// Icon that the module shows in the drawer.
    pub open spec fn drawer_icon(&self) -> Option<Svg> {
        match self {
            Module::Cellular(module) => Some(module.icon()),
            Module::Flashlight(module) => Some(module.icon()),
            Module::Gps(module) => Some(module.icon()),
            Module::Orientation(module) => Some(module.icon()),
            Module::Wifi(module) => Some(module.icon()),
            Module::Brightness(_) => Some(Svg::Brightness),
            Module::Scale(_) => Some(Svg::Scale),
            _ => None,
        }
    }

    /// Drawer module implementation.
    pub fn drawer_module(&self) -> (kind: Option<DrawerModule>)
        ensures
            kind == self.drawer_kind(),
    {
        match self {
            Module::Cellular(_) => Some(DrawerModule::Toggle),
            Module::Flashlight(_) => Some(DrawerModule::Toggle),
            Module::Gps(_) => Some(DrawerModule::Toggle),
            Module::Orientation(_) => Some(DrawerModule::Toggle),
            Module::Wifi(_) => Some(DrawerModule::Toggle),
            Module::Brightness(_) => Some(DrawerModule::Slider),
            Module::Scale(_) => Some(DrawerModule::Slider),
            _ => None,
        }
    }

    /// Module alignment in the panel, if it shows there.
    pub fn alignment(&self) -> (alignment: Option<Alignment>)
        ensures
            alignment == self.panel_alignment(),
    {
        match self {
            Module::Battery(module) => Some(module.alignment()),
            Module::Cellular(module) => Some(module.alignment()),
            Module::Clock(module) => Some(module.alignment()),
            Module::Date(module) => Some(module.alignment()),
            Module::Wifi(module) => Some(module.alignment()),
            _ => None,
        }
    }

    /// Renderable panel content, if the module shows in the panel.
    pub fn content(&self) -> (content: Option<PanelModuleContent>)
        ensures
            content is Some <==> self.panel_alignment() is Some,
            self.panel_icon() matches Some(icon) ==> content == Some(PanelModuleContent::Svg(icon)),
            self.panel_alignment() is Some && self.panel_icon() is None ==> content matches Some(
                PanelModuleContent::Text(_),
            ),
    {
        match self {
            Module::Battery(module) => Some(module.content()),
            Module::Cellular(module) => Some(module.content()),
            Module::Clock(module) => Some(module.content()),
            Module::Date(module) => Some(module.content()),
            Module::Wifi(module) => Some(module.content()),
            _ => None,
        }
    }

    /// Color and share of the panel's background activity bar, if the
    /// module shows one.
    pub fn background_activity(&self, config: &Config) -> (activity: Option<(Color, Fraction)>)
        ensures
            activity == self.activity(*config),
            activity matches Some(bar) ==> bar.1.wf(),
    {
        match self {
            Module::Volume(module) => Some((module.color(config), module.value())),
            _ => None,
        }
    }

    /// Handle slider updates. Modules without a slider stay as they are.
    pub fn set_value(&mut self, value: Fraction) -> (command: Option<Command>)
        requires
            old(self).wf(),
            value.wf(),
        ensures
            *final(self) == old(self).moved(value),
            final(self).wf(),
            command == old(self).move_command(value),
    {
        match self {
            Module::Brightness(module) => module.set_value(value),
            Module::Scale(module) => module.set_value(value),
            _ => None,
        }
    }

    /// Handle the release of a slider.
    pub fn on_touch_up(&mut self) -> (command: Option<Command>)
        requires
            old(self).wf(),
        ensures
            *final(self) == *old(self),
            command == old(self).release_command(),
    {
        match self {
            Module::Brightness(module) => module.on_touch_up(),
            Module::Scale(module) => module.on_touch_up(),
            _ => None,
        }
    }

    /// Toggle button status. Modules without a button stay as they are.
    pub fn toggle(&mut self) -> (command: Option<Command>)
        ensures
            *final(self) == old(self).pressed(),
            command == old(self).press_command(),
            old(self).wf() ==> final(self).wf(),
    {
        match self {
            Module::Cellular(module) => Some(module.toggle()),
            Module::Flashlight(module) => Some(module.toggle()),
            Module::Gps(module) => Some(module.toggle()),
            Module::Orientation(module) => Some(module.toggle()),
            Module::Wifi(module) => Some(module.toggle()),
            _ => None,
        }
    }

    /// Get button status, if the module has a button.
    pub fn enabled(&self) -> (enabled: Option<bool>)
        ensures
            enabled == self.on(),
    {
        match self {
            Module::Cellular(module) => Some(module.enabled()),
            Module::Flashlight(module) => Some(module.enabled()),
            Module::Gps(module) => Some(module.enabled()),
            Module::Orientation(module) => Some(module.enabled()),
            Module::Wifi(module) => Some(module.enabled()),
            _ => None,
        }
    }

    /// Get current slider value, if the module has a slider.
    pub fn value(&self) -> (value: Option<Fraction>)
        requires
            self.wf(),
        ensures
            value == self.shown(),
            value matches Some(v) ==> v.wf(),
    {
        match self {
            Module::Brightness(module) => Some(module.value()),
            Module::Scale(module) => Some(module.value()),
            _ => None,
        }
    }

    /// Get the icon that the module shows in the drawer.
    pub fn svg(&self) -> (svg: Option<Svg>)
        ensures
            svg == self.drawer_icon(),
    {
        match self {
            Module::Cellular(module) => Some(Toggle::svg(module)),
            Module::Flashlight(module) => Some(Toggle::svg(module)),
            Module::Gps(module) => Some(Toggle::svg(module)),
            Module::Orientation(module) => Some(Toggle::svg(module)),
            Module::Wifi(module) => Some(Toggle::svg(module)),
            Module::Brightness(module) => Some(Slider::svg(module)),
            Module::Scale(module) => Some(Slider::svg(module)),
            _ => None,
        }
    }
}

} // verus!
