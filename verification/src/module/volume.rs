//! Audio volume.

use vstd::prelude::*;

use crate::config::{Color, Config};
use crate::geometry::Fraction;

verus! {

/// Audio volume.
#[derive(Copy, Clone, PartialEq, Eq, Debug)]
pub struct Volume {
    /// Volume in percent.
    pub volume: u16,
}

impl Volume {
    /// Share of the panel that the volume fills.
    ///
    /// Multiples of 100% show as a full bar rather than an empty one.
    pub open spec fn level(&self) -> Fraction {
        if self.volume > 0 && self.volume % 100 == 0 {
            Fraction { num: 1, den: 1 }
        } else {
            Fraction { num: (self.volume % 100) as u64, den: 100 }
        }
    }

    /// Bar color for the volume.
    pub open spec fn tint(&self, config: Config) -> Color {
        if self.volume > 100 {
            config.colors.volume_bad_bg
        } else {
            config.colors.volume_bg
        }
    }

    /// Volume module for a muted sink.
    pub fn new() -> (volume: Self)
        ensures
            volume.volume == 0,
    {
        Self { volume: 0 }
    }

    /// Update the module's volume, in percent.
    pub fn set_volume(&mut self, volume: u16)
        ensures
            final(self).volume == volume,
    {
        self.volume = volume;
    }

    /// Get the share of the panel that the volume fills.
    pub fn value(&self) -> (value: Fraction)
        ensures
            value == self.level(),
            value.wf(),
    {
        let modded = self.volume % 100;

        // Show 100% value for multiples of 100%, rather than 0%.
        if self.volume > 0 && modded == 0 {
            Fraction::one()
        } else {
            Fraction { num: modded as u64, den: 100 }
        }
    }

    /// Get the bar color for the volume.
    pub fn color(&self, config: &Config) -> (color: Color)
        ensures
            color == self.tint(*config),
    {
        if self.volume > 100 {
            config.colors.volume_bad_bg
        } else {
            config.colors.volume_bg
        }
    }
}

} // verus!
