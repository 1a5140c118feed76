//! Taps and drags of the primary touch point.
//!
//! One touch point at a time drives the drawer. While it stays close to
//! where it went down it may still be a tap; once it has left that range it
//! drags the drawer. Taps are told from double-taps by a timer that the
//! embedding program runs.

use vstd::prelude::*;

use crate::config::Input;
use crate::drawer::{Drawer, HANDLE_HEIGHT};
use crate::geometry::{Position, ScaleFactor, SCALE_UNITS, SUBPIXELS};

verus! {

/// Touch point that drives the drawer, and the taps before it.
#[derive(Copy, Clone, PartialEq, Eq, Debug)]
pub struct TouchSession {
    /// Touch point that currently drags the drawer or may become a tap.
    pub active_touch: Option<i32>,
    /// Where the touch point went down, in sub-pixel units.
    pub touch_start: Position<i32>,
    /// Last vertical position that the drawer was dragged to.
    pub last_touch_y: i32,
    /// Time of the last short tap, in milliseconds.
    pub last_tap: Option<u64>,
    /// Drawer status that the pending single-tap sets once its timer
    /// expires.
    pub tap_timeout: Option<bool>,
    /// The drawer is being opened rather than closed.
    pub drawer_opening: bool,
}

/// What the release of a touch point asks for.
#[derive(Copy, Clone, PartialEq, Eq, Structural, Debug)]
pub enum Release {
    /// The touch point does not drive the drawer.
    Ignored,
    /// Second tap in time: the timer of the pending single-tap is removed,
    /// and the display is turned off if the tap was on the panel.
    DoubleTap { display_off: bool },
    /// Tap on the panel: a timer is started, after which the drawer is set
    /// to the status given.
    SingleTap { delay: u64, open: bool },
    /// Tap on the drawer's handle: the drawer is closed at once.
    Close,
    /// Tap elsewhere.
    Tap,
    /// End of a drag: the animation takes over.
    Animate,
}

/// Square of the distance between two positions on a screen with a scale
/// factor, in squared physical units.
pub open spec fn distance_squared(a: Position<i32>, b: Position<i32>, scale: ScaleFactor) -> int {
    let dx = (a.x - b.x) * scale.units;
    let dy = (a.y - b.y) * scale.units;
    dx * dx + dy * dy
}

/// Square of the largest distance of a tap, in squared physical units.
pub open spec fn tap_range(input: Input) -> int {
    input.max_tap_distance * SCALE_UNITS * SCALE_UNITS
}

/// A vertical position lies in the panel's band at the top, which has a
/// height in logical pixels.
pub open spec fn on_panel(y: i32, band: u32) -> bool {
    y <= band * SUBPIXELS
}

/// A vertical position lies in the handle's band at the bottom of a drawer
/// window of a height in logical pixels.
pub open spec fn on_handle(y: i32, panel_height: Option<u32>) -> bool {
    panel_height matches Some(height) && y >= (height - HANDLE_HEIGHT) * SUBPIXELS
}

/// A tap at the time `now` comes soon enough after the last one to be a
/// double-tap.
pub open spec fn is_double_tap(last_tap: Option<u64>, now: u64, input: Input) -> bool {
    last_tap matches Some(last) && (now <= last || now - last <= input.multi_tap_interval)
}

impl TouchSession {
    /// Session after a touch point went down to drive the drawer.
    pub open spec fn began(&self, id: i32, position: Position<i32>, opening: bool) -> TouchSession {
        TouchSession {
            last_touch_y: position.y,
            touch_start: position,
            active_touch: Some(id),
            drawer_opening: opening,
            ..*self
        }
    }

    /// A position is close enough to where the touch point went down to
    /// belong to a tap.
    pub open spec fn within_tap(
        &self,
        position: Position<i32>,
        input: Input,
        scale: ScaleFactor,
    ) -> bool {
        distance_squared(position, self.touch_start, scale) <= tap_range(input)
    }

    /// The motion of a touch point to a position drags the drawer: the
    /// touch point drives the drawer, and has left the range of a tap now
    /// or before.
    pub open spec fn drags(
        &self,
        drawer: Drawer,
        input: Input,
        id: i32,
        position: Position<i32>,
    ) -> bool {
        self.active_touch == Some(id) && (drawer.offsetting || !self.within_tap(
            position,
            input,
            drawer.scale_factor,
        ))
    }

    /// Session and drawer after a touch point moved to a position.
    pub open spec fn moved(&self, drawer: Drawer, input: Input, id: i32, position: Position<i32>) -> (
        TouchSession,
        Drawer,
    ) {
        if self.drags(drawer, input, id, position) {
            (
                TouchSession { last_touch_y: position.y, ..*self },
                drawer.dragged(position.y - self.last_touch_y),
            )
        } else {
            (*self, drawer)
        }
    }

    /// What the release of a touch point at the time `now` asks for.
    pub open spec fn release(
        &self,
        drawer: Drawer,
        input: Input,
        panel_height: Option<u32>,
        id: i32,
        now: u64,
    ) -> Release {
        if self.active_touch != Some(id) {
            Release::Ignored
        } else if drawer.offsetting {
            Release::Animate
        } else if is_double_tap(self.last_tap, now, input) {
            Release::DoubleTap { display_off: on_panel(self.touch_start.y, drawer.layout.panel_height) }
        } else if on_panel(self.touch_start.y, drawer.layout.panel_height) {
            Release::SingleTap { delay: input.multi_tap_interval, open: self.drawer_opening }
        } else if on_handle(self.touch_start.y, panel_height) {
            Release::Close
        } else {
            Release::Tap
        }
    }

    /// Session after a touch point was released at the time `now`.
    pub open spec fn released(
        &self,
        drawer: Drawer,
        input: Input,
        panel_height: Option<u32>,
        id: i32,
        now: u64,
    ) -> TouchSession {
        match self.release(drawer, input, panel_height, id, now) {
            Release::Ignored => *self,
            Release::Animate => TouchSession { active_touch: None, last_tap: None, ..*self },
            Release::DoubleTap { .. } => TouchSession {
                active_touch: None,
                last_tap: None,
                tap_timeout: None,
                ..*self
            },
            Release::SingleTap { open, .. } => TouchSession {
                active_touch: None,
                last_tap: Some(now),
                tap_timeout: Some(open),
                ..*self
            },
            _ => TouchSession { active_touch: None, last_tap: Some(now), ..*self },
        }
    }

    /// Session without a touch point or a tap.
    pub open spec fn initial() -> TouchSession {
        TouchSession {
            active_touch: None,
            touch_start: Position { x: 0, y: 0 },
            last_touch_y: 0,
            last_tap: None,
            tap_timeout: None,
            drawer_opening: false,
        }
    }

    /// Create a session without a touch point or a tap.
    pub fn new() -> (session: Self)
        ensures
            session == Self::initial(),
    {
        Self {
            active_touch: None,
            touch_start: Position { x: 0, y: 0 },
            last_touch_y: 0,
            last_tap: None,
            tap_timeout: None,
            drawer_opening: false,
        }
    }

    /// Let a touch point drive the drawer from where it went down.
    pub fn begin(&mut self, id: i32, position: Position<i32>, opening: bool)
        ensures
            *final(self) == old(self).began(id, position, opening),
    {
        self.last_touch_y = position.y;
        self.touch_start = position;
        self.active_touch = Some(id);
        self.drawer_opening = opening;
    }

    /// Check whether a position lies beyond the range of a tap.
    pub fn beyond_tap(&self, position: Position<i32>, input: &Input, scale: ScaleFactor) -> (beyond:
        bool)
        ensures
            beyond == !self.within_tap(position, *input, scale),
    {
        let units = scale.units as i128;
        let x_distance = position.x as i128 - self.touch_start.x as i128;
        let y_distance = position.y as i128 - self.touch_start.y as i128;
        assert(-0x1_0000_0000_0000_0000 <= x_distance * units <= 0x1_0000_0000_0000_0000
            && -0x1_0000_0000_0000_0000 <= y_distance * units <= 0x1_0000_0000_0000_0000)
            by (nonlinear_arith)
            requires
                -0xFFFF_FFFF <= x_distance <= 0xFFFF_FFFF,
                -0xFFFF_FFFF <= y_distance <= 0xFFFF_FFFF,
                0 <= units <= 0xFFFF_FFFF,
        ;
        let x_delta = x_distance * units;
        let y_delta = y_distance * units;
        let range = (input.max_tap_distance as i128) * 14400;
        proof {
            assert(tap_range(*input) == range) by (nonlinear_arith)
                requires
                    tap_range(*input) == input.max_tap_distance * 120 * 120,
                    range == input.max_tap_distance * 14400,
            ;
            assert(x_delta * x_delta >= 0 && y_delta * y_delta >= 0) by (nonlinear_arith);
        }

        // Distances this large lie beyond every range, and would not fit once squared.
        let far: i128 = 0x100_0000_0000;
        if x_delta > far || x_delta < -far {
            assert(x_delta * x_delta > 0x1_0000_0000_0000_0000 * 14400) by (nonlinear_arith)
                requires
                    x_delta > 0x100_0000_0000 || x_delta < -0x100_0000_0000,
            ;
            return true;
        }
        if y_delta > far || y_delta < -far {
            assert(y_delta * y_delta > 0x1_0000_0000_0000_0000 * 14400) by (nonlinear_arith)
                requires
                    y_delta > 0x100_0000_0000 || y_delta < -0x100_0000_0000,
            ;
            return true;
        }
        assert(x_delta * x_delta <= 0x100_0000_0000 * 0x100_0000_0000 && y_delta * y_delta
            <= 0x100_0000_0000 * 0x100_0000_0000) by (nonlinear_arith)
            requires
                -0x100_0000_0000 <= x_delta <= 0x100_0000_0000,
                -0x100_0000_0000 <= y_delta <= 0x100_0000_0000,
        ;
        x_delta * x_delta + y_delta * y_delta > range
    }

    /// Handle the motion of a touch point.
    ///
    /// Returns whether the touch drags the drawer. Touch motion is ignored
    /// until the drag threshold is reached.
    pub fn motion(&mut self, drawer: &mut Drawer, input: &Input, id: i32, position: Position<i32>) -> (dragged:
        bool)
        ensures
            dragged == old(self).drags(*old(drawer), *input, id, position),
            (*final(self), *final(drawer)) == old(self).moved(*old(drawer), *input, id, position),
    {
        if self.active_touch != Some(id) {
            return false;
        }
        if !drawer.offsetting {
            // Ignore touch motion until drag threshold is reached.
            if !self.beyond_tap(position, input, drawer.scale_factor) {
                return false;
            }
        }
        let delta = position.y as i64 - self.last_touch_y as i64;
        drawer.drag(delta);
        self.last_touch_y = position.y;
        true
    }

    /// Handle the release of a touch point at the time `now`.
    pub fn up(
        &mut self,
        drawer: &Drawer,
        input: &Input,
        panel_height: Option<u32>,
        id: i32,
        now: u64,
    ) -> (release: Release)
        ensures
            release == old(self).release(*drawer, *input, panel_height, id, now),
            *final(self) == old(self).released(*drawer, *input, panel_height, id, now),
    {
        // Handle non-module touch events.
        if self.active_touch != Some(id) {
            return Release::Ignored;
        }
        let last_tap = self.last_tap;
        self.last_tap = None;
        self.active_touch = None;

        // Handle drawer dragging.
        if drawer.offsetting {
            return Release::Animate;
        }

        // Handle short taps.
        let multi_tap_interval = input.multi_tap_interval;
        let on_panel = self.touch_start.y as i64 <= (drawer.layout.panel_height as i64) * SUBPIXELS;
        let double_tap = match last_tap {
            Some(last) => now <= last || now - last <= multi_tap_interval,
            None => false,
        };
        if double_tap {
            // Remove delayed single-tap callback.
            self.tap_timeout = None;

            // Turn off display on panel double-tap.
            return Release::DoubleTap { display_off: on_panel };
        }
        self.last_tap = Some(now);
        if on_panel {
            // Stage delayed single-tap for taps on the top panel.
            self.tap_timeout = Some(self.drawer_opening);
            return Release::SingleTap { delay: multi_tap_interval, open: self.drawer_opening };
        }
        let on_handle = match panel_height {
            Some(panel_height) => self.touch_start.y as i64 >= (panel_height as i64 - HANDLE_HEIGHT as i64)
                * SUBPIXELS,
            None => false,
        };
        if on_handle {
            // Immediately close drawer, since handle has no double-tap.
            Release::Close
        } else {
            Release::Tap
        }
    }

    /// Handle the expiry of the single-tap timer.
    ///
    /// Returns the drawer status that the tap sets, unless the tap was
    /// cancelled in the meantime.
    pub fn timeout(&mut self) -> (status: Option<bool>)
        ensures
            status == old(self).tap_timeout,
            *final(self) == (TouchSession { tap_timeout: None, ..*old(self) }),
    {
        let status = self.tap_timeout;
        self.tap_timeout = None;
        status
    }
}

/// Session and drawer after a touch point moved to the first `count` of the
/// given positions.
pub open spec fn moved_through(
    session: TouchSession,
    drawer: Drawer,
    input: Input,
    id: i32,
    positions: Seq<Position<i32>>,
    count: int,
) -> (TouchSession, Drawer)
    decreases count,
{
    if count <= 0 {
        (session, drawer)
    } else {
        let before = moved_through(session, drawer, input, id, positions, count - 1);
        before.0.moved(before.1, input, id, positions[count - 1])
    }
}

/// A touch that goes down, moves only within the range of a tap and is
/// released leaves the drawer where it was: the drawer is not dragged at
/// any point, its offset does not change, and the release counts as a tap.
pub proof fn lemma_tap_keeps_drawer(
    session: TouchSession,
    drawer: Drawer,
    input: Input,
    panel_height: Option<u32>,
    id: i32,
    start: Position<i32>,
    opening: bool,
    positions: Seq<Position<i32>>,
    now: u64,
)
    requires
        !drawer.offsetting,
        forall|i: int|
            0 <= i < positions.len() ==> distance_squared(
                #[trigger] positions[i],
                start,
                drawer.scale_factor,
            ) <= tap_range(input),
    ensures
        forall|count: int|
            0 <= count <= positions.len() ==> (#[trigger] moved_through(
                session.began(id, start, opening),
                drawer,
                input,
                id,
                positions,
                count,
            )) == (session.began(id, start, opening), drawer),
        ({
            let end = moved_through(
                session.began(id, start, opening),
                drawer,
                input,
                id,
                positions,
                positions.len() as int,
            );
            let release = end.0.release(end.1, input, panel_height, id, now);
            &&& end.1 == drawer
            &&& release != Release::Animate
            &&& release != Release::Ignored
        }),
{
    let began = session.began(id, start, opening);
    assert forall|count: int| 0 <= count <= positions.len() implies (#[trigger] moved_through(
        began,
        drawer,
        input,
        id,
        positions,
        count,
    )) == (began, drawer) by {
        lemma_tap_motions(began, drawer, input, id, positions, count);
    }
}

/// Motions within the range of a tap change nothing.
proof fn lemma_tap_motions(
    session: TouchSession,
    drawer: Drawer,
    input: Input,
    id: i32,
    positions: Seq<Position<i32>>,
    count: int,
)
    requires
        !drawer.offsetting,
        0 <= count <= positions.len(),
        forall|i: int|
            0 <= i < positions.len() ==> distance_squared(
                #[trigger] positions[i],
                session.touch_start,
                drawer.scale_factor,
            ) <= tap_range(input),
    ensures
        moved_through(session, drawer, input, id, positions, count) == (session, drawer),
    decreases count,
{
    if count > 0 {
        lemma_tap_motions(session, drawer, input, id, positions, count - 1);
        assert(session.within_tap(positions[count - 1], input, drawer.scale_factor));
    }
}

/// A second tap that follows a tap on the panel within the multi-tap
/// interval removes the timer of the first: the first tap's action can no
/// longer take place, and the second tap is a double-tap that turns the
/// display off if it is on the panel, too.
pub proof fn lemma_double_tap_cancels_single_tap(
    session: TouchSession,
    drawer: Drawer,
    input: Input,
    panel_height: Option<u32>,
    first: i32,
    second: i32,
    start: Position<i32>,
    opening: bool,
    time: u64,
    delay: u64,
)
    requires
        !drawer.offsetting,
        session.active_touch == Some(first),
        on_panel(session.touch_start.y, drawer.layout.panel_height),
        !is_double_tap(session.last_tap, time, input),
        delay <= input.multi_tap_interval,
        time + delay <= u64::MAX,
    ensures
        ({
            let tapped = session.released(drawer, input, panel_height, first, time);
            let again = tapped.began(second, start, opening);
            let end = again.released(drawer, input, panel_height, second, (time + delay) as u64);
            &&& session.release(drawer, input, panel_height, first, time) == (Release::SingleTap {
                delay: input.multi_tap_interval,
                open: session.drawer_opening,
            })
            &&& tapped.tap_timeout == Some(session.drawer_opening)
            &&& again.release(drawer, input, panel_height, second, (time + delay) as u64) == (
            Release::DoubleTap { display_off: on_panel(start.y, drawer.layout.panel_height) })
            &&& end.tap_timeout is None
            &&& end.last_tap is None
            &&& end.active_touch is None
        }),
{
}

} // verus!
