//! Compositor output scale.

use vstd::prelude::*;

use crate::geometry::Fraction;
use crate::module::{Command, Slider};
use crate::text::Svg;

verus! {

/// Smallest output scale, in halves.
pub const MIN_SCALE_HALVES: u32 = 2;

/// Number of half steps between the smallest and the largest output scale.
pub const SCALE_STEPS: u32 = 4;

/// Output scale slider.
#[derive(Copy, Clone, PartialEq, Eq, Debug)]
pub struct Scale {
    /// Output scale in halves.
    pub scale: u32,
}

impl Scale {
    /// Scale module at an output scale of two.
    pub fn new() -> (module: Self)
        ensures
            module.scale == 4,
            module.wf(),
    {
        Self { scale: 4 }
    }
}

impl Slider for Scale {
    open spec fn wf(&self) -> bool {
        MIN_SCALE_HALVES <= self.scale <= MIN_SCALE_HALVES + SCALE_STEPS
    }

    open spec fn shown(&self) -> Fraction {
        Fraction { num: (self.scale - MIN_SCALE_HALVES) as u64, den: SCALE_STEPS as u64 }
    }

    open spec fn moved(&self, value: Fraction) -> Self {
        Scale { scale: (MIN_SCALE_HALVES + value.rounded(SCALE_STEPS as int)) as u32 }
    }

    open spec fn move_command(&self, value: Fraction) -> Option<Command> {
        None
    }

    open spec fn release_command(&self) -> Option<Command> {
        Some(Command::OutputScale { halves: self.scale })
    }

    fn set_value(&mut self, value: Fraction) -> (command: Option<Command>) {
        // Map from `0..=1` to `1..=3`, rounded to the nearest multiple of .5.
        let steps = value.round_to(SCALE_STEPS);

        // Update internal scale value.
        self.scale = MIN_SCALE_HALVES + steps;

        None
    }

    fn on_touch_up(&mut self) -> (command: Option<Command>) {
        // Update the compositor's scale.
        Some(Command::OutputScale { halves: self.scale })
    }

    fn value(&self) -> (value: Fraction) {
        // Map back from `1..=3` to `0..=1`.
        Fraction { num: (self.scale - MIN_SCALE_HALVES) as u64, den: SCALE_STEPS as u64 }
    }

    fn svg(&self) -> (svg: Svg)
        ensures
            svg == Svg::Scale,
    {
        Svg::Scale
    }
}

} // verus!
