//! Screen brightness.

use vstd::prelude::*;

use crate::geometry::Fraction;
use crate::module::attribute::{first_complete, first_found};
use crate::module::{Command, Slider};
use crate::text::Svg;

verus! {

/// Number of steps that the brightness slider snaps to.
pub const BRIGHTNESS_STEPS: u32 = 20;

/// Screen brightness slider.
#[derive(Copy, Clone, PartialEq, Eq, Debug)]
pub struct Brightness {
    pub brightness: Fraction,
}

impl Brightness {
    /// Share of the maximum that a backlight's attributes amount to.
    ///
    /// Without both attributes the backlight counts as fully lit.
    pub open spec fn level(brightness: Option<u32>, max_brightness: Option<u32>) -> Fraction {
        if brightness is Some && max_brightness is Some && max_brightness->0 >= 1 {
            Fraction {
                num: if brightness->0 <= max_brightness->0 {
                    brightness->0 as u64
                } else {
                    max_brightness->0 as u64
                },
                den: max_brightness->0 as u64,
            }
        } else {
            Fraction { num: 1, den: 1 }
        }
    }

    /// Brightness written to a backlight with the given maximum.
    pub open spec fn target(max_brightness: u32, twentieths: u32) -> int {
        let scaled = (max_brightness * twentieths) / (BRIGHTNESS_STEPS as int);
        if scaled < 1 {
            1
        } else {
            scaled
        }
    }

    /// Brightness module for the backlights' current and maximum
    /// brightness.
    ///
    /// The brightness is taken from the first backlight that has both.
    pub fn new(devices: &Vec<(Option<u32>, Option<u32>)>) -> (module: Self)
        ensures
            module.brightness == (match first_found(devices@, 0) {
                Some((brightness, max_brightness)) => Self::level(
                    Some(brightness),
                    Some(max_brightness),
                ),
                None => Self::level(None, None),
            }),
            module.wf(),
    {
        // Find first device with `actual_brightness` and `max_brightness` attributes.
        let brightness = match first_complete(devices) {
            Some((brightness, max_brightness)) => {
                if max_brightness >= 1 {
                    Fraction::clamped(brightness as i128, max_brightness as i128)
                } else {
                    Fraction::one()
                }
            },
            None => Fraction::one(),
        };
        Self { brightness }
    }

    /// Calculate the brightness to write to a backlight with the given
    /// maximum, which is never zero.
    pub fn device_brightness(max_brightness: u32, twentieths: u32) -> (brightness: u32)
        requires
            twentieths <= BRIGHTNESS_STEPS,
        ensures
            brightness == Self::target(max_brightness, twentieths),
            1 <= brightness,
    {
        assert(max_brightness * twentieths <= 0xFFFF_FFFF * 20) by (nonlinear_arith)
            requires
                max_brightness <= 0xFFFF_FFFF,
                twentieths <= 20,
        ;
        let scaled = (max_brightness as u64) * (twentieths as u64) / 20;
        if scaled < 1 {
            1
        } else {
            scaled as u32
        }
    }
}

impl Slider for Brightness {
    open spec fn wf(&self) -> bool {
        self.brightness.wf()
    }

    open spec fn shown(&self) -> Fraction {
        self.brightness
    }

    open spec fn moved(&self, value: Fraction) -> Self {
        Brightness {
            brightness: Fraction {
                num: value.rounded(BRIGHTNESS_STEPS as int) as u64,
                den: BRIGHTNESS_STEPS as u64,
            },
        }
    }

    open spec fn move_command(&self, value: Fraction) -> Option<Command> {
        Some(Command::Backlight { twentieths: value.rounded(BRIGHTNESS_STEPS as int) as u32 })
    }

    open spec fn release_command(&self) -> Option<Command> {
        None
    }

    /// Set device backlight brightness.
    fn set_value(&mut self, value: Fraction) -> (command: Option<Command>) {
        // Convert to nearest multiple of .05.
        let twentieths = value.round_to(BRIGHTNESS_STEPS);

        // Update internal brightness value.
        self.brightness = Fraction { num: twentieths as u64, den: BRIGHTNESS_STEPS as u64 };

        Some(Command::Backlight { twentieths })
    }

    fn on_touch_up(&mut self) -> (command: Option<Command>) {
        None
    }

    fn value(&self) -> (value: Fraction) {
        self.brightness
    }

    fn svg(&self) -> (svg: Svg)
        ensures
            svg == Svg::Brightness,
    {
        Svg::Brightness
    }
}

} // verus!
