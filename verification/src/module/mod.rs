//! Panel modules.

use vstd::prelude::*;

use crate::geometry::Fraction;
use crate::text::Svg;

pub mod attribute;
pub mod battery;
pub mod brightness;
pub mod cellular;
pub mod clock;
pub mod date;
pub mod flashlight;
pub mod gps;
pub mod orientation;
pub mod registry;
pub mod scale;
pub mod volume;
pub mod wifi;

verus! {

/// Format that shows the time of day.
pub open spec fn is_clock_format(format: Seq<char>) -> bool {
    format == "%H:%M"@
}

/// Format that shows the day of week and month.
pub open spec fn is_date_format(format: Seq<char>) -> bool {
    format == "%a. %-d"@
}

/// Characters of the decimal digits, in their order.
pub open spec fn digits() -> Seq<char> {
    seq!['0', '1', '2', '3', '4', '5', '6', '7', '8', '9']
}

/// Short names of the days of the week, from Sunday on.
pub open spec fn weekday_names() -> Seq<Seq<char>> {
    seq![
        seq!['S', 'u', 'n'],
        seq!['M', 'o', 'n'],
        seq!['T', 'u', 'e'],
        seq!['W', 'e', 'd'],
        seq!['T', 'h', 'u'],
        seq!['F', 'r', 'i'],
        seq!['S', 'a', 't'],
    ]
}

/// Text that shows a time of day: hour and minute with two digits each, and
/// a colon between them.
pub open spec fn clock_text(hour: int, minute: int) -> Seq<char> {
    seq![digits()[hour / 10], digits()[hour % 10], ':', digits()[minute / 10], digits()[minute % 10]]
}

/// Text that shows a day of the month, without padding.
pub open spec fn day_text(day: int) -> Seq<char> {
    if day < 10 {
        seq![digits()[day]]
    } else {
        seq![digits()[day / 10], digits()[day % 10]]
    }
}

/// Text that shows a date: the short name of the day of the week, a full
/// stop, a space and the day of the month.
pub open spec fn date_text(weekday: int, day: int) -> Seq<char> {
    weekday_names()[weekday] + seq!['.', ' '] + day_text(day)
}

/// The text shows some time of day.
pub open spec fn is_clock_text(text: Seq<char>) -> bool {
    exists|hour: int, minute: int|
        0 <= hour < 24 && 0 <= minute < 60 && text == #[trigger] clock_text(hour, minute)
}

/// The text shows some date.
pub open spec fn is_date_text(text: Seq<char>) -> bool {
    exists|weekday: int, day: int|
        0 <= weekday < 7 && 1 <= day <= 31 && text == #[trigger] date_text(weekday, day)
}

/// Current local time in one of the two formats of the panel.
///
/// Calls chrono's `Local::now`, `DateTime::format` and `to_string`. Which
/// time the text shows depends on the system's clock and time zone, so the
/// contract claims its shape only, as chrono documents the specifiers: `%H`
/// and `%M` write the hour and the minute with two digits each, `%a` one of
/// the seven English short names of the days of the week, and `%-d` the day
/// of the month without padding. Both formats hold valid specifiers only,
/// which is what keeps `to_string` from failing.
#[verifier::external_body]
pub(crate) fn local_time(format: &str) -> (text: String)
    requires
        is_clock_format(format@) || is_date_format(format@),
    ensures
        is_clock_format(format@) ==> is_clock_text(text@),
        is_date_format(format@) ==> is_date_text(text@),
{
    chrono::offset::Local::now().format(format).to_string()
}

/// Module alignment.
#[derive(Copy, Clone, PartialEq, Eq, Structural, Debug)]
pub enum Alignment {
    Left,
    Center,
    Right,
}

/// Module in the panel.
pub trait PanelModule {
    /// Module alignment.
    fn alignment(&self) -> Alignment;

    /// Renderable panel content.
    fn content(&self) -> PanelModuleContent;
}

/// Panel module renderable.
#[derive(PartialEq, Eq, Debug)]
pub enum PanelModuleContent {
    Text(String),
    Svg(Svg),
}

/// Capability of a module in the drawer.
#[derive(Copy, Clone, PartialEq, Eq, Structural, Debug)]
pub enum DrawerModule {
    Toggle,
    Slider,
}

/// Work that a module leaves to the embedding program.
#[derive(Copy, Clone, PartialEq, Eq, Structural, Debug)]
pub enum Command {
    /// Set the backlights to this many twentieths of their maximum.
    Backlight { twentieths: u32 },
    /// Switch the flashlight over.
    Flashlight,
    /// Lock or unlock the display orientation.
    Orientation { unlock: bool },
    /// Set the output scale to this many halves.
    OutputScale { halves: u32 },
    /// Switch the modems on or off.
    Cellular { enabled: bool },
    /// Switch wireless networking on or off.
    Wifi { enabled: bool },
    /// Switch the location service on or off.
    Gps { enabled: bool },
    /// Turn the display off.
    DisplayOff,
}

/// Drawer slider module.
pub trait Slider: Sized {
    /// The slider holds a usable value.
    spec fn wf(&self) -> bool;

    /// Value shown by the slider.
    spec fn shown(&self) -> Fraction;

    /// Slider after it was moved to `value`.
    spec fn moved(&self, value: Fraction) -> Self;

    /// Work caused by moving the slider to `value`.
    spec fn move_command(&self, value: Fraction) -> Option<Command>;

    /// Work caused by letting go of the slider.
    spec fn release_command(&self) -> Option<Command>;

    /// Handle slider updates.
    fn set_value(&mut self, value: Fraction) -> (command: Option<Command>)
        requires
            old(self).wf(),
            value.wf(),
        ensures
            *final(self) == old(self).moved(value),
            final(self).wf(),
            command == old(self).move_command(value),
    ;

    /// Handle touch release.
    ///
    /// This can be used to debounce slider updates until the user is done
    /// inputting the desired value.
    fn on_touch_up(&mut self) -> (command: Option<Command>)
        requires
            old(self).wf(),
        ensures
            *final(self) == *old(self),
            command == old(self).release_command(),
    ;

    /// Get current slider value.
    fn value(&self) -> (value: Fraction)
        requires
            self.wf(),
        ensures
            value == self.shown(),
            value.wf(),
    ;

    /// Get symbol for this slider.
    fn svg(&self) -> Svg;
}

/// Drawer toggle button module.
pub trait Toggle: Sized {
    /// Button status.
    spec fn on(&self) -> bool;

    /// Module after the button was pressed.
    spec fn pressed(&self) -> Self;

    /// Work caused by pressing the button.
    spec fn press_command(&self) -> Command;

    /// Icon of the button.
    spec fn icon(&self) -> Svg;

    /// Toggle button status.
    fn toggle(&mut self) -> (command: Command)
        ensures
            *final(self) == old(self).pressed(),
            command == old(self).press_command(),
    ;

    /// Get button status.
    fn enabled(&self) -> (enabled: bool)
        ensures
            enabled == self.on(),
    ;

    /// Get renderable SVG.
    fn svg(&self) -> (svg: Svg)
        ensures
            svg == self.icon(),
    ;
}

} // verus!
