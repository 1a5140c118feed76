//! Current date.

use vstd::prelude::*;

use crate::module::{is_date_text, local_time, Alignment, PanelModule, PanelModuleContent};

verus! {

/// Current date.
#[derive(Copy, Clone, PartialEq, Eq, Debug)]
pub struct Date;

impl Date {
    /// Date module.
    pub fn new() -> (date: Self)
        ensures
            date == Date,
    {
        Self
    }
}

impl PanelModule for Date {
    fn alignment(&self) -> (alignment: Alignment)
        ensures
            alignment == Alignment::Left,
    {
        Alignment::Left
    }

    fn content(&self) -> (content: PanelModuleContent)
        ensures
            content is Text,
            is_date_text(content->Text_0@),
    {
        PanelModuleContent::Text(local_time("%a. %-d"))
    }
}

} // verus!
