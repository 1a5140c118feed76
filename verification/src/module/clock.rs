//! Nice clock.

use vstd::prelude::*;

use crate::module::{is_clock_text, local_time, Alignment, PanelModule, PanelModuleContent};

verus! {

/// Time of day.
#[derive(Copy, Clone, PartialEq, Eq, Debug)]
pub struct Clock;

impl Clock {
    /// Seconds from a time, given in seconds since the epoch, until one
    /// second into the next minute.
    pub open spec fn delay(total_secs: u64) -> int {
        60 - (total_secs % 60) + 1
    }

    /// Clock module.
    pub fn new() -> (clock: Self)
        ensures
            clock == Clock,
    {
        Self
    }

    /// Calculate seconds until next minute. We add one second just to be
    /// sure.
    pub fn next_update(total_secs: u64) -> (remaining: u64)
        ensures
            remaining == Self::delay(total_secs),
            2 <= remaining <= 61,
    {
        60 - (total_secs % 60) + 1
    }
}

impl PanelModule for Clock {
    fn alignment(&self) -> (alignment: Alignment)
        ensures
            alignment == Alignment::Center,
    {
        Alignment::Center
    }

    fn content(&self) -> (content: PanelModuleContent)
        ensures
            content is Text,
            is_clock_text(content->Text_0@),
    {
        PanelModuleContent::Text(local_time("%H:%M"))
    }
}

} // verus!
