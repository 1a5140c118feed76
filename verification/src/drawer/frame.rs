//! Frames of the drawer.

use vstd::prelude::*;

use crate::config::{Color, Config};
use crate::drawer::positioner::{scaled_length, ModulePositioner, MAX_LENGTH, MAX_MODULES};
use crate::drawer::run::{batch_modules, drawn_modules, ModuleDraw};
use crate::drawer::touch::modules_wf;
use crate::drawer::{Drawer, HANDLE_HEIGHT};
use crate::geometry::{
    clamp_int, max_int, min_int, round_div, trunc_div, Rect, ScaleFactor, Size, PHYSICAL_UNITS,
    SUBPIXELS,
};
use crate::module::registry::Module;
use crate::stall::RenderDirtiness;
use crate::text::Svg;

verus! {

/// Handle at the bottom of the drawer.
#[derive(Copy, Clone, PartialEq, Eq, Debug)]
pub struct Handle {
    /// Arrow that shows which way the drawer goes.
    pub icon: Svg,
    /// Pixel size that the icon is rasterized at.
    pub icon_size: (u32, u32),
    /// Left edge of the handle in physical pixels.
    pub x: i64,
    /// Top edge of the handle in physical pixels.
    pub y: i64,
}

/// Everything that is needed to render one frame of the drawer.
#[derive(PartialEq, Eq, Debug)]
pub struct DrawerFrame {
    /// Logical size to resize the window's viewport to, when the size
    /// changed since the last frame.
    pub resize: Option<Size<u32>>,
    /// Window size in physical pixels.
    pub size: Size<u32>,
    /// Rows of physical pixels, counted from the window's top, that the
    /// drawer leaves free.
    pub y_offset: i64,
    /// Opaque region of the window in logical pixels.
    pub opaque: Rect,
    /// Height of the panel's band in physical pixels.
    pub panel_height: i64,
    /// Background color.
    pub background: Color,
    /// What is drawn for each module, in the modules' order.
    pub modules: Vec<Option<ModuleDraw>>,
    /// Handle at the bottom of the drawer.
    pub handle: Handle,
}

/// Outcome of a drawing opportunity.
#[derive(PartialEq, Eq, Debug)]
pub enum DrawerDraw {
    /// No buffer is submitted.
    Skipped,
    /// The animation closed the drawer: the window's buffer is detached.
    Hidden,
    /// The frame is rendered and committed together with a request for the
    /// next frame callback.
    Frame(DrawerFrame),
}

impl Drawer {
    /// Drawer after a pending resize was applied: a drawer that is open
    /// and not dragged stays fully open.
    pub open spec fn resized(&self) -> Drawer {
        if self.pending_resize {
            Drawer {
                pending_resize: false,
                offset: if !self.offsetting && self.offset > 0 {
                    self.full_offset() as i64
                } else {
                    self.offset
                },
                ..*self
            }
        } else {
            *self
        }
    }

    /// Offset as it is read for rendering: held to the range from zero to
    /// the full offset.
    pub open spec fn render_offset(&self) -> int {
        clamp_int(self.offset as int, 0, self.full_offset())
    }

    /// Drawer with its offset held to the range of the drawer.
    pub open spec fn settled(&self) -> Drawer {
        Drawer { offset: self.render_offset() as i64, ..*self }
    }

    /// Drawer as it is rendered at the time `now`: resized, moved by the
    /// animation and with its offset in range.
    pub open spec fn prepared(&self, now: u64, opening: bool) -> Drawer {
        self.resized().animated(now, opening).settled()
    }

    /// Rows of physical pixels that the drawer covers.
    pub open spec fn covered_rows(&self) -> int {
        min_int(
            round_div(self.offset * self.scale_factor.units, PHYSICAL_UNITS as int),
            self.size.height as int,
        )
    }

    /// Window size in logical pixels.
    pub open spec fn logical_size(&self) -> Size<u32> {
        Size {
            width: min_int(self.scale_factor.unscaled(self.size.width as int), u32::MAX as int) as u32,
            height: min_int(self.scale_factor.unscaled(self.size.height as int), u32::MAX as int) as u32,
        }
    }

    /// Opaque region of the drawer in logical pixels: as wide as the
    /// window, from where the drawer's body starts down to the offset.
    pub open spec fn opaque_region(&self) -> Rect {
        let logical = self.logical_size();
        let drawer_height = logical.height - self.layout.panel_height;
        Rect {
            x: 0,
            y: round_div(max_int(self.offset - drawer_height * SUBPIXELS, 0), SUBPIXELS as int) as i64,
            width: logical.width as i64,
            height: round_div(self.offset as int, SUBPIXELS as int) as i64,
        }
    }

    /// Handle of the drawer: an arrow down while the drawer is being
    /// opened and is not fully open, an arrow up otherwise, centered at the
    /// window's bottom.
    pub open spec fn handle(&self, opening: bool) -> Handle {
        let icon = if opening && self.offset != self.full_offset() {
            Svg::ArrowDown
        } else {
            Svg::ArrowUp
        };
        let handle_height = scaled_length(HANDLE_HEIGHT as int, self.scale_factor);
        let width = min_int(self.size.width as int, MAX_LENGTH as int);
        let height = min_int(self.size.height as int, MAX_LENGTH as int);
        Handle {
            icon,
            icon_size: icon.raster_size(None, Some(HANDLE_HEIGHT), self.scale_factor),
            x: trunc_div(width - handle_height, 2) as i64,
            y: (height - handle_height) as i64,
        }
    }

    /// A drawing opportunity at the time `now` renders a frame: the drawer
    /// is visible, the animation does not close it, and it covers at least
    /// one row of pixels.
    pub open spec fn renders(&self, now: u64, opening: bool) -> bool {
        self.visible && self.prepared(now, opening).visible && self.prepared(now, opening).covered_rows()
            > 0
    }

    /// Drawer after a drawing opportunity at the time `now`.
    ///
    /// A drawer without a frame to render stalls. One that renders a frame
    /// while its animation runs stays dirty, so that the next frame
    /// callback takes the next step.
    pub open spec fn drawn(&self, now: u64, opening: bool) -> Drawer {
        if !self.visible {
            Drawer {
                frame_pending: false,
                render: RenderDirtiness { stalled: true, ..self.render },
                ..*self
            }
        } else {
            let prepared = self.prepared(now, opening);
            if self.renders(now, opening) {
                Drawer {
                    frame_pending: true,
                    render: RenderDirtiness {
                        dirty: self.render.dirty || prepared.last_animation_frame is Some,
                        ..self.render
                    },
                    ..prepared
                }
            } else {
                Drawer {
                    frame_pending: false,
                    render: RenderDirtiness { stalled: true, ..self.render },
                    ..prepared
                }
            }
        }
    }

    /// Drawer after a drawing opportunity that it uses only if it is ready.
    pub open spec fn used(&self, now: u64, opening: bool) -> Drawer {
        if self.render.ready(self.visible, self.size) {
            (Drawer { render: RenderDirtiness { dirty: false, ..self.render }, ..*self }).drawn(
                now,
                opening,
            )
        } else {
            Drawer {
                frame_pending: false,
                render: RenderDirtiness { stalled: true, ..self.render },
                ..*self
            }
        }
    }

    /// The outcome is the one of a drawing opportunity that the drawer
    /// uses only if it is ready.
    pub open spec fn used_outcome(
        &self,
        draw: DrawerDraw,
        config: Config,
        modules: Seq<Module>,
        now: u64,
        opening: bool,
    ) -> bool {
        if self.render.ready(self.visible, self.size) {
            (Drawer { render: RenderDirtiness { dirty: false, ..self.render }, ..*self }).outcome(
                draw,
                config,
                modules,
                now,
                opening,
            )
        } else {
            draw is Skipped
        }
    }

    /// Drawer after a change that demands visible feedback.
    pub open spec fn unstalled(&self, now: u64, opening: bool) -> Drawer {
        if self.render.stalled {
            (Drawer { render: self.render.unstalled(), ..*self }).used(now, opening)
        } else {
            Drawer { render: self.render.unstalled(), ..*self }
        }
    }

    /// The outcome is the one of a change that demands visible feedback.
    pub open spec fn unstalled_outcome(
        &self,
        draw: DrawerDraw,
        config: Config,
        modules: Seq<Module>,
        now: u64,
        opening: bool,
    ) -> bool {
        if self.render.stalled {
            (Drawer { render: self.render.unstalled(), ..*self }).used_outcome(
                draw,
                config,
                modules,
                now,
                opening,
            )
        } else {
            draw is Skipped
        }
    }

    /// The frame shows the drawer in its current state.
    pub open spec fn shown_by(
        &self,
        frame: DrawerFrame,
        resized: bool,
        config: Config,
        modules: Seq<Module>,
        opening: bool,
    ) -> bool {
        &&& frame.resize == (if resized {
            Some(self.logical_size())
        } else {
            None
        })
        &&& frame.size == self.size
        &&& frame.y_offset == self.size.height - self.covered_rows()
        &&& frame.opaque == self.opaque_region()
        &&& frame.panel_height == scaled_length(self.layout.panel_height as int, self.scale_factor)
        &&& frame.background == config.colors.bg
        &&& frame.modules@ == drawn_modules(
            ModulePositioner::grid(self.size, self.scale_factor, self.layout),
            self.scale_factor,
            config,
            modules,
        )
        &&& frame.handle == self.handle(opening)
    }

    /// Drawer after its scale factor changed: the physical size follows
    /// the change of the factor.
    pub open spec fn rescaled(&self, scale_factor: ScaleFactor) -> Drawer {
        Drawer {
            scale_factor,
            pending_resize: true,
            size: Size {
                width: min_int(
                    round_div(self.size.width * scale_factor.units, self.scale_factor.units as int),
                    u32::MAX as int,
                ) as u32,
                height: min_int(
                    round_div(self.size.height * scale_factor.units, self.scale_factor.units as int),
                    u32::MAX as int,
                ) as u32,
            },
            ..*self
        }
    }

    /// Drawer after it was configured with a size in logical pixels.
    pub open spec fn reconfigured(&self, new_size: Size<u32>) -> Drawer {
        Drawer { pending_resize: true, size: self.scale_factor.scaled_size(new_size), ..*self }
    }

    /// Get the window size in logical pixels.
    pub fn logical(&self) -> (size: Size<u32>)
        requires
            self.wf(),
        ensures
            size == self.logical_size(),
    {
        let width = self.scale_factor.unscale(self.size.width);
        let height = self.scale_factor.unscale(self.size.height);
        Size {
            width: if width > 0xFFFF_FFFF {
                0xFFFF_FFFF
            } else {
                width as u32
            },
            height: if height > 0xFFFF_FFFF {
                0xFFFF_FFFF
            } else {
                height as u32
            },
        }
    }

    /// Record that the drawer's content changed. This does not draw.
    pub fn mark_dirty(&mut self)
        ensures
            *final(self) == (Drawer {
                render: RenderDirtiness { dirty: true, ..old(self).render },
                ..*old(self)
            }),
    {
        self.render.mark_dirty();
    }

    /// Update the DPI scale factor.
    ///
    /// The physical size follows the change of the factor.
    pub fn set_scale_factor(&mut self, scale_factor: ScaleFactor)
        requires
            old(self).wf(),
            scale_factor.wf(),
        ensures
            *final(self) == old(self).rescaled(scale_factor),
            final(self).wf(),
    {
        let old_units = self.scale_factor.units as u128;
        let new_units = scale_factor.units as u128;
        assert(self.size.width * new_units <= 0xFFFF_FFFF * 0xFFFF_FFFF && self.size.height
            * new_units <= 0xFFFF_FFFF * 0xFFFF_FFFF) by (nonlinear_arith)
            requires
                self.size.width <= 0xFFFF_FFFF,
                self.size.height <= 0xFFFF_FFFF,
                0 <= new_units <= 0xFFFF_FFFF,
        ;
        let width = (2 * ((self.size.width as u128) * new_units) + old_units) / (2 * old_units);
        let height = (2 * ((self.size.height as u128) * new_units) + old_units) / (2 * old_units);
        self.scale_factor = scale_factor;
        self.resize(
            Size {
                width: if width > 0xFFFF_FFFF {
                    0xFFFF_FFFF
                } else {
                    width as u32
                },
                height: if height > 0xFFFF_FFFF {
                    0xFFFF_FFFF
                } else {
                    height as u32
                },
            },
        );
    }

    /// Reconfigure the window to a size in logical pixels.
    pub fn reconfigure(&mut self, new_size: Size<u32>)
        requires
            old(self).wf(),
        ensures
            *final(self) == old(self).reconfigured(new_size),
            final(self).wf(),
    {
        let size = self.scale_factor.scale_size(new_size);
        self.resize(size);
    }

    /// Show the drawer window.
    ///
    /// The first frame is rendered immediately.
    pub fn show(&mut self, config: &Config, modules: &Vec<Module>, opening: bool, now: u64) -> (draw:
        DrawerDraw)
        requires
            old(self).wf(),
            modules.len() <= MAX_MODULES,
            modules_wf(modules@),
        ensures
            *final(self) == (Drawer { visible: true, ..*old(self) }).drawn(now, opening),
            final(self).wf(),
            (Drawer { visible: true, ..*old(self) }).outcome(draw, *config, modules@, now, opening),
    {
        self.visible = true;

        // Immediately render the first frame.
        self.draw(config, modules, opening, now)
    }

    /// The outcome is the one of a drawing opportunity at the time `now`.
    pub open spec fn outcome(
        &self,
        draw: DrawerDraw,
        config: Config,
        modules: Seq<Module>,
        now: u64,
        opening: bool,
    ) -> bool {
        match draw {
            DrawerDraw::Skipped => !self.visible || (self.prepared(now, opening).visible
                && self.prepared(now, opening).covered_rows() <= 0),
            DrawerDraw::Hidden => self.visible && !self.prepared(now, opening).visible,
            DrawerDraw::Frame(frame) => self.renders(now, opening) && self.prepared(
                now,
                opening,
            ).shown_by(frame, self.pending_resize, config, modules, opening),
        }
    }

    /// Bring the drawer into the state that it is rendered in.
    ///
    /// Returns whether a resize was pending.
    pub fn prepare(&mut self, now: u64, opening: bool) -> (resized: bool)
        requires
            old(self).wf(),
        ensures
            *final(self) == old(self).prepared(now, opening),
            resized == old(self).pending_resize,
            0 <= final(self).offset <= final(self).full_offset(),
            final(self).full_offset() <= 0xFFFF_FFFF * PHYSICAL_UNITS,
            final(self).wf(),
    {
        // Apply pending resize before rendering.
        let resized = self.pending_resize;
        if resized {
            self.pending_resize = false;

            // Ensure drawer stays fully open after resize.
            if !self.offsetting && self.offset > 0 {
                self.offset = self.max_offset();
            }
        }
        assert(*self == old(self).resized());

        // Update drawer open/close animation.
        self.animate_drawer(now, opening);

        // Clamp offset, to ensure minimize works immediately.
        let max_offset = self.max_offset();
        if self.offset > max_offset {
            self.offset = max_offset;
        }
        if self.offset < 0 {
            self.offset = 0;
        }
        resized
    }

    /// Calculate the rows of physical pixels that the drawer covers.
    pub fn covered(&self) -> (rows: i64)
        requires
            0 <= self.offset <= 0xFFFF_FFFF * PHYSICAL_UNITS,
        ensures
            rows == self.covered_rows(),
            0 <= rows <= self.size.height,
    {
        assert(self.offset * self.scale_factor.units <= 0xFFFF_FFFF * 30720 * 0xFFFF_FFFF
            && self.offset * self.scale_factor.units >= 0) by (nonlinear_arith)
            requires
                0 <= self.offset <= 0xFFFF_FFFF * 30720,
                0 <= self.scale_factor.units <= 0xFFFF_FFFF,
        ;
        let scaled = (self.offset as i128) * (self.scale_factor.units as i128);
        let rounded = (2 * scaled + 30720) / 61440;
        if rounded > self.size.height as i128 {
            self.size.height as i64
        } else {
            rounded as i64
        }
    }

    /// Calculate the opaque region of the drawer.
    pub fn opaque(&self) -> (region: Rect)
        requires
            self.wf(),
            0 <= self.offset <= 0xFFFF_FFFF * PHYSICAL_UNITS,
        ensures
            region == self.opaque_region(),
    {
        // Calculate vertical opaque region start.
        let logical_size = self.logical();
        let drawer_height = logical_size.height as i64 - self.layout.panel_height as i64;
        let below = self.offset - drawer_height * SUBPIXELS;
        let y = if below > 0 {
            (2 * below + 256) / 512
        } else {
            0
        };
        Rect {
            x: 0,
            y,
            width: logical_size.width as i64,
            height: (2 * self.offset + 256) / 512,
        }
    }

    /// Lay out the handle at the bottom of the drawer.
    pub fn handle_for(&self, opening: bool) -> (handle: Handle)
        requires
            self.wf(),
        ensures
            handle == self.handle(opening),
    {
        let opening = opening && self.offset != self.max_offset();
        let icon = if opening {
            Svg::ArrowDown
        } else {
            Svg::ArrowUp
        };
        let handle_height = self.handle_height();
        let width: i64 = if self.size.width > 32767 {
            32767
        } else {
            self.size.width as i64
        };
        let height: i64 = if self.size.height > 32767 {
            32767
        } else {
            self.size.height as i64
        };
        Handle {
            icon,
            icon_size: icon.target_size(None, Some(HANDLE_HEIGHT), self.scale_factor),
            x: (width - handle_height) / 2,
            y: height - handle_height,
        }
    }

    /// Render the drawer.
    ///
    /// A hidden drawer is never rendered. Otherwise a pending resize is
    /// applied, the animation takes a step and the offset is held to its
    /// range before the frame is laid out.
    pub fn draw(&mut self, config: &Config, modules: &Vec<Module>, opening: bool, now: u64) -> (draw:
        DrawerDraw)
        requires
            old(self).wf(),
            modules.len() <= MAX_MODULES,
            modules_wf(modules@),
        ensures
            *final(self) == old(self).drawn(now, opening),
            final(self).wf(),
            old(self).outcome(draw, *config, modules@, now, opening),
            0 <= final(self).offset <= final(self).full_offset() || !old(self).visible,
    {
        // Never attach new buffers while hidden.
        if !self.visible {
            self.frame_pending = false;
            self.render.stalled = true;
            return DrawerDraw::Skipped;
        }
        let resized = self.prepare(now, opening);
        if !self.visible {
            self.frame_pending = false;
            self.render.stalled = true;
            return DrawerDraw::Hidden;
        }

        // Calculate drawer offset.
        let covered = self.covered();
        let y_offset = self.size.height as i64 - covered;

        // Skip rendering if there's nothing to draw.
        if covered <= 0 {
            self.frame_pending = false;
            self.render.stalled = true;
            return DrawerDraw::Skipped;
        }
        let opaque = self.opaque();
        let logical_size = self.logical();

        // Add modules to rendering batch.
        let positioner = ModulePositioner::with_layout(self.size, self.scale_factor, self.layout);
        let draws = batch_modules(positioner, self.scale_factor, config, modules);

        // Add drawer handle to rendering batch.
        let handle = self.handle_for(opening);

        // Keep drawing while the animation runs.
        if self.last_animation_frame.is_some() {
            self.render.dirty = true;
        }
        self.frame_pending = true;
        DrawerDraw::Frame(
            DrawerFrame {
                resize: if resized {
                    Some(logical_size)
                } else {
                    None
                },
                size: self.size,
                y_offset,
                opaque,
                panel_height: positioner.panel_height,
                background: config.colors.bg,
                modules: draws,
                handle,
            },
        )
    }

    /// Height of the handle in physical pixels.
    pub fn handle_height(&self) -> (height: i64)
        ensures
            height == scaled_length(HANDLE_HEIGHT as int, self.scale_factor),
            0 <= height <= MAX_LENGTH,
    {
        let exact = self.scale_factor.scale(HANDLE_HEIGHT);
        if exact > 32767 {
            32767
        } else {
            exact as i64
        }
    }

    /// Use a drawing opportunity, such as a frame callback.
    ///
    /// A drawer that is clean, hidden or without area stalls and submits
    /// nothing. Otherwise it is rendered.
    pub fn draw_if_ready(&mut self, config: &Config, modules: &Vec<Module>, opening: bool, now: u64) -> (draw:
        DrawerDraw)
        requires
            old(self).wf(),
            modules.len() <= MAX_MODULES,
            modules_wf(modules@),
        ensures
            final(self).wf(),
            *final(self) == old(self).used(now, opening),
            old(self).used_outcome(draw, *config, modules@, now, opening),
    {
        self.frame_pending = false;
        if !self.render.begin_draw(self.visible, self.size) {
            return DrawerDraw::Skipped;
        }
        self.draw(config, modules, opening, now)
    }

    /// Record a change that demands visible feedback.
    ///
    /// A stalled drawer has no frame callback on its way, so it uses a
    /// drawing opportunity at once. Otherwise the change waits for the
    /// callback.
    pub fn unstall(&mut self, config: &Config, modules: &Vec<Module>, opening: bool, now: u64) -> (draw:
        DrawerDraw)
        requires
            old(self).wf(),
            modules.len() <= MAX_MODULES,
            modules_wf(modules@),
        ensures
            final(self).wf(),
            *final(self) == old(self).unstalled(now, opening),
            old(self).unstalled_outcome(draw, *config, modules@, now, opening),
    {
        if self.render.unstall() {
            self.draw_if_ready(config, modules, opening, now)
        } else {
            DrawerDraw::Skipped
        }
    }
}

} // verus!
