//! Render stall bookkeeping of a window.
//!
//! A window draws when the compositor calls for a frame. Where a call finds
//! nothing to draw, no further call is on its way, and the window is
//! stalled: the next change has to draw by itself.

use vstd::prelude::*;

use crate::geometry::Size;

verus! {

/// Dirty and stalled flags of one window.
#[derive(Copy, Clone, PartialEq, Eq, Debug)]
pub struct RenderDirtiness {
    /// Content changed, and needs a redraw at the next opportunity.
    pub dirty: bool,
    /// No frame was submitted at the last opportunity, so a forced redraw
    /// is owed once something changes.
    pub stalled: bool,
}

/// A size without area cannot be drawn to.
pub open spec fn is_empty(size: Size<u32>) -> bool {
    size.width == 0 || size.height == 0
}

impl RenderDirtiness {
    /// A window may draw when it has changed, is visible and has an area.
    pub open spec fn ready(&self, visible: bool, size: Size<u32>) -> bool {
        self.dirty && visible && !is_empty(size)
    }

    /// Flags after a drawing opportunity.
    ///
    /// A window that is not ready stalls. One that is ready draws and is
    /// clean afterwards.
    pub open spec fn drawn(&self, visible: bool, size: Size<u32>) -> RenderDirtiness {
        if self.ready(visible, size) {
            RenderDirtiness { dirty: false, stalled: self.stalled }
        } else {
            RenderDirtiness { dirty: self.dirty, stalled: true }
        }
    }

    /// Flags after a change that demands visible feedback.
    pub open spec fn unstalled(&self) -> RenderDirtiness {
        RenderDirtiness { dirty: true, stalled: false }
    }

    /// Flags after the drawing opportunities of `attempts`, each of which
    /// finds the window with the visibility and size given.
    pub open spec fn drawn_through(&self, attempts: Seq<(bool, Size<u32>)>, count: int) -> RenderDirtiness
        decreases count,
    {
        if count <= 0 {
            *self
        } else {
            self.drawn_through(attempts, count - 1).drawn(attempts[count - 1].0, attempts[count - 1].1)
        }
    }

    /// Flags of a window that has nothing to draw and no frame on its way.
    pub fn new() -> (flags: Self)
        ensures
            !flags.dirty,
            flags.stalled,
    {
        Self { dirty: false, stalled: true }
    }

    /// Record that the content changed. This does not draw.
    pub fn mark_dirty(&mut self)
        ensures
            final(self).dirty,
            final(self).stalled == old(self).stalled,
    {
        self.dirty = true;
    }

    /// Decide at a drawing opportunity whether the window draws.
    ///
    /// A window that is clean, hidden or without area stalls and must not
    /// draw. Otherwise it is clean from now on and has to draw.
    pub fn begin_draw(&mut self, visible: bool, size: Size<u32>) -> (draw: bool)
        ensures
            draw == old(self).ready(visible, size),
            *final(self) == old(self).drawn(visible, size),
    {
        if !self.dirty || !visible || size.width == 0 || size.height == 0 {
            self.stalled = true;
            false
        } else {
            self.dirty = false;
            true
        }
    }

    /// Record a change that demands visible feedback.
    ///
    /// Returns whether the window was stalled, in which case it has to draw
    /// at once rather than wait for a frame that nobody called for.
    pub fn unstall(&mut self) -> (force: bool)
        ensures
            force == old(self).stalled,
            *final(self) == old(self).unstalled(),
    {
        let force = self.stalled;
        self.dirty = true;
        self.stalled = false;
        force
    }
}

/// Drawing opportunities that find a window hidden or without area never
/// let it draw, however many there are, and leave it stalled.
pub proof fn lemma_stalled_while_not_ready(
    flags: RenderDirtiness,
    attempts: Seq<(bool, Size<u32>)>,
    count: int,
)
    requires
        1 <= count <= attempts.len(),
        forall|i: int| 0 <= i < attempts.len() ==> !(#[trigger] attempts[i]).0 || is_empty(attempts[i].1),
    ensures
        flags.drawn_through(attempts, count).stalled,
        flags.drawn_through(attempts, count).dirty == flags.dirty,
        forall|i: int|
            0 <= i < count ==> !flags.drawn_through(attempts, i).ready(
                (#[trigger] attempts[i]).0,
                attempts[i].1,
            ),
    decreases count,
{
    if count > 1 {
        lemma_stalled_while_not_ready(flags, attempts, count - 1);
    }
    let before = flags.drawn_through(attempts, count - 1);
    assert(flags.drawn_through(attempts, 0) == flags);
    assert(before.dirty == flags.dirty);
    let attempt = attempts[count - 1];
    assert(!attempt.0 || is_empty(attempt.1));
    assert(flags.drawn_through(attempts, count) == before.drawn(attempt.0, attempt.1));
}

/// A stalled window that has become visible and has an area draws exactly
/// once when it is unstalled: at once, and not again on a second call.
pub proof fn lemma_unstall_draws_once(flags: RenderDirtiness, size: Size<u32>)
    requires
        flags.stalled,
        !is_empty(size),
    ensures
        flags.unstalled().ready(true, size),
        !flags.unstalled().drawn(true, size).stalled,
        !flags.unstalled().drawn(true, size).dirty,
{
}

} // verus!
