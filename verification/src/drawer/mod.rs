//! Drawer window state.

use vstd::prelude::*;

use crate::config::Layout;
use crate::geometry::{clamp_int, Position, ScaleFactor, Size, PHYSICAL_UNITS};
use crate::stall::RenderDirtiness;

pub mod frame;
pub mod laws;
pub mod positioner;
pub mod run;
pub mod touch;

verus! {

/// Height of the handle for single-tap closing the drawer.
pub const HANDLE_HEIGHT: u32 = 32;

/// Drawer module icon height.
pub const ICON_HEIGHT: u32 = 32;

/// Animation speed in sub-pixel units per millisecond.
pub const ANIMATION_SPEED: u64 = 768;

/// Number of equal parts of the full offset, of which one has to be covered
/// for the animation to complete a motion.
pub const ANIMATION_THRESHOLD_PARTS: i64 = 4;

/// Drawer window state.
#[derive(Copy, Clone, PartialEq, Eq, Debug)]
pub struct Drawer {
    /// Current drawer Y-offset, in sub-pixel units.
    pub offset: i64,
    /// Drawer currently in the process of being opened/closed.
    pub offsetting: bool,
    /// Time of the last step of a running animation, in milliseconds.
    pub last_animation_frame: Option<u64>,
    /// Module that the tracked touch point went down on.
    pub touch_module: Option<usize>,
    /// Last position of the tracked touch point, in physical units.
    pub touch_position: Position<i64>,
    /// Touch point that went down on a module.
    pub touch_id: Option<i32>,
    /// The size changed since the last frame.
    pub pending_resize: bool,
    /// A frame callback is on its way.
    pub frame_pending: bool,
    /// DPI scale factor.
    pub scale_factor: ScaleFactor,
    /// The window is mapped.
    pub visible: bool,
    /// Window size in physical pixels.
    pub size: Size<u32>,
    /// Render stall bookkeeping.
    pub render: RenderDirtiness,
    /// Paddings of the module grid and height of the panel's band.
    pub layout: Layout,
}

impl Drawer {
    /// The drawer holds a usable scale factor.
    pub open spec fn wf(&self) -> bool {
        self.scale_factor.wf()
    }

    /// Drawer offset when fully visible, in sub-pixel units.
    pub open spec fn full_offset(&self) -> int {
        (self.size.height * PHYSICAL_UNITS) / (self.scale_factor.units as int)
    }

    /// An animation step moves the drawer towards its full offset rather
    /// than towards zero.
    ///
    /// A drawer that is being opened completes the motion from a quarter of
    /// the way on, one that is being closed returns from three quarters on.
    pub open spec fn rises(&self, opening: bool) -> bool {
        if opening {
            ANIMATION_THRESHOLD_PARTS * self.offset >= self.full_offset()
        } else {
            ANIMATION_THRESHOLD_PARTS * self.offset >= (ANIMATION_THRESHOLD_PARTS - 1)
                * self.full_offset()
        }
    }

    /// Distance of an animation step from the time `last` to the time `now`.
    pub open spec fn step(last: u64, now: u64) -> int {
        if now > last {
            (now - last) * ANIMATION_SPEED
        } else {
            0
        }
    }

    /// Offset that an animation step takes the drawer to, before it is held
    /// to the range of the drawer.
    pub open spec fn stepped(&self, last: u64, now: u64, opening: bool) -> int {
        if self.rises(opening) {
            self.offset + Self::step(last, now)
        } else {
            self.offset - Self::step(last, now)
        }
    }

    /// Drawer after an animation step at the time `now`.
    ///
    /// Without a running animation nothing changes. A step that reaches
    /// zero hides the drawer and ends the animation, one that reaches the
    /// full offset ends it too.
    pub open spec fn animated(&self, now: u64, opening: bool) -> Drawer {
        match self.last_animation_frame {
            None => *self,
            Some(last) => {
                let offset = self.stepped(last, now, opening);
                if offset <= 0 {
                    Drawer { offset: 0, last_animation_frame: None, visible: false, ..*self }
                } else if offset >= self.full_offset() {
                    Drawer {
                        offset: self.full_offset() as i64,
                        last_animation_frame: None,
                        ..*self
                    }
                } else {
                    Drawer { offset: offset as i64, last_animation_frame: Some(now), ..*self }
                }
            },
        }
    }

    /// Drawer after a finger dragged it by `delta` sub-pixel units.
    ///
    /// The offset is not held to the range of the drawer here, only to
    /// what an offset can hold.
    pub open spec fn dragged(&self, delta: int) -> Drawer {
        Drawer {
            offsetting: true,
            offset: clamp_int(self.offset + delta, i64::MIN as int, i64::MAX as int) as i64,
            ..*self
        }
    }

    /// Drawer that is closed, hidden and not configured yet.
    pub open spec fn initial() -> Drawer {
        Drawer {
            offset: 0,
            offsetting: false,
            last_animation_frame: None,
            touch_module: None,
            touch_position: Position { x: 0, y: 0 },
            touch_id: None,
            pending_resize: false,
            frame_pending: false,
            scale_factor: ScaleFactor { units: 120 },
            visible: false,
            size: Size { width: 0, height: 0 },
            render: RenderDirtiness { dirty: false, stalled: true },
            layout: Layout::initial(),
        }
    }

    /// Create a drawer that is closed, hidden and not configured yet.
    pub fn new() -> (drawer: Self)
        ensures
            drawer == Self::initial(),
            drawer.wf(),
    {
        Self {
            offset: 0,
            offsetting: false,
            last_animation_frame: None,
            touch_module: None,
            touch_position: Position { x: 0, y: 0 },
            touch_id: None,
            pending_resize: false,
            frame_pending: false,
            scale_factor: ScaleFactor::one(),
            visible: false,
            size: Size::new(0, 0),
            render: RenderDirtiness::new(),
            layout: Layout::default(),
        }
    }

    /// Take over the layout of a configuration. It shows from the next
    /// frame on.
    pub fn set_layout(&mut self, layout: Layout)
        ensures
            *final(self) == (Drawer { layout, ..*old(self) }),
    {
        self.layout = layout;
    }

    /// Hide the drawer window.
    ///
    /// The caller detaches the window's buffer.
    pub fn hide_window(&mut self)
        ensures
            *final(self) == (Drawer { visible: false, ..*old(self) }),
    {
        self.visible = false;
    }

    /// Request a new frame.
    ///
    /// Returns whether the caller has to ask the compositor for a frame
    /// callback, which is the case unless one is on its way already.
    pub fn request_frame(&mut self) -> (request: bool)
        ensures
            request == !old(self).frame_pending,
            *final(self) == (Drawer { frame_pending: true, ..*old(self) }),
    {
        // Ensure window is mapped without pending frame.
        if self.frame_pending {
            return false;
        }
        self.frame_pending = true;
        true
    }

    /// Drawer offset when fully visible.
    pub fn max_offset(&self) -> (offset: i64)
        requires
            self.wf(),
        ensures
            offset == self.full_offset(),
            0 <= offset <= 0xFFFF_FFFF * PHYSICAL_UNITS,
    {
        let units = self.scale_factor.units as i64;
        let physical = (self.size.height as i64) * PHYSICAL_UNITS;
        assert(0 <= physical / units <= physical) by (nonlinear_arith)
            requires
                physical >= 0,
                units >= 1,
        ;
        physical / units
    }

    /// Start the drawer animation.
    ///
    /// Returns whether the caller has to ask the compositor for a frame
    /// callback.
    pub fn start_animation(&mut self, now: u64) -> (request: bool)
        ensures
            request == !old(self).frame_pending,
            *final(self) == (Drawer {
                last_animation_frame: Some(now),
                offsetting: false,
                frame_pending: true,
                ..*old(self)
            }),
    {
        self.last_animation_frame = Some(now);
        self.offsetting = false;
        self.request_frame()
    }

    /// Update drawer animation.
    pub fn animate_drawer(&mut self, now: u64, opening: bool)
        requires
            old(self).wf(),
        ensures
            *final(self) == old(self).animated(now, opening),
            final(self).wf(),
    {
        // Ensure animation is active.
        let last_animation_frame = match self.last_animation_frame {
            Some(last_animation_frame) => last_animation_frame,
            None => return ,
        };

        let max_offset = self.max_offset();

        // Compute threshold beyond which motion will automatically be completed.
        let scaled_offset = (self.offset as i128) * 4;
        let rises = if opening {
            scaled_offset >= max_offset as i128
        } else {
            scaled_offset >= 3 * (max_offset as i128)
        };

        // Update drawer position.
        let elapsed: u64 = if now > last_animation_frame {
            now - last_animation_frame
        } else {
            0
        };
        let animation_step = (elapsed as i128) * (ANIMATION_SPEED as i128);
        let offset = if rises {
            self.offset as i128 + animation_step
        } else {
            self.offset as i128 - animation_step
        };

        if offset <= 0 {
            self.offset = 0;
            self.last_animation_frame = None;
            self.hide_window();
        } else if offset >= max_offset as i128 {
            self.offset = max_offset;
            self.last_animation_frame = None;
        } else {
            self.offset = offset as i64;
            self.last_animation_frame = Some(now);
        }
    }

    /// Drag the drawer by `delta` sub-pixel units.
    pub fn drag(&mut self, delta: i64)
        ensures
            *final(self) == old(self).dragged(delta as int),
    {
        self.offsetting = true;
        let offset = self.offset as i128 + delta as i128;
        self.offset = if offset > i64::MAX as i128 {
            i64::MAX
        } else if offset < i64::MIN as i128 {
            i64::MIN
        } else {
            offset as i64
        };
    }

    /// Set the drawer fully open or closed, without animation.
    ///
    /// Returns whether the caller has to detach the window's buffer, which
    /// is the case when the drawer is closed.
    pub fn set_status(&mut self, open: bool) -> (hidden: bool)
        requires
            old(self).wf(),
        ensures
            hidden == !open,
            open ==> *final(self) == (Drawer {
                offset: old(self).full_offset() as i64,
                ..*old(self)
            }),
            !open ==> *final(self) == (Drawer { offset: 0, visible: false, ..*old(self) }),
            final(self).wf(),
    {
        if open {
            self.offset = self.max_offset();
            false
        } else {
            self.offset = 0;
            self.hide_window();
            true
        }
    }

    /// Resize the window.
    pub(crate) fn resize(&mut self, size: Size<u32>)
        ensures
            *final(self) == (Drawer { pending_resize: true, size, ..*old(self) }),
    {
        self.pending_resize = true;
        self.size = size;
    }
}

} // verus!
