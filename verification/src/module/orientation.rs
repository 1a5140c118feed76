//! Display orientation lock.

use vstd::prelude::*;

use crate::module::{Command, Toggle};
use crate::text::Svg;

verus! {

/// Display orientation lock.
#[derive(Copy, Clone, PartialEq, Eq, Debug)]
pub struct Orientation {
    pub locked: bool,
}

impl Orientation {
    /// Orientation module with the orientation locked.
    pub fn new() -> (orientation: Self)
        ensures
            orientation.locked,
    {
        Self { locked: true }
    }
}

impl Toggle for Orientation {
    open spec fn on(&self) -> bool {
        self.locked
    }

    open spec fn pressed(&self) -> Self {
        Orientation { locked: !self.locked }
    }

    open spec fn press_command(&self) -> Command {
        Command::Orientation { unlock: self.locked }
    }

    open spec fn icon(&self) -> Svg {
        if self.locked {
            Svg::OrientationLocked
        } else {
            Svg::OrientationUnlocked
        }
    }

    fn toggle(&mut self) -> (command: Command) {
        self.locked = !self.locked;
        Command::Orientation { unlock: !self.locked }
    }

    fn svg(&self) -> (svg: Svg) {
        if self.locked {
            Svg::OrientationLocked
        } else {
            Svg::OrientationUnlocked
        }
    }

    fn enabled(&self) -> (enabled: bool) {
        self.locked
    }
}

} // verus!
