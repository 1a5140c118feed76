//! Panel window state.

use vstd::prelude::*;

use crate::config::{Color, Config};
use crate::drawer::positioner::{scaled_length, MAX_LENGTH};
use crate::geometry::{clamp_int, min_int, trunc_div, Fraction, ScaleFactor, Size};
use crate::module::registry::Module;
use crate::module::{Alignment, PanelModuleContent};
use crate::stall::{is_empty, RenderDirtiness};
use crate::text::Svg;

verus! {

/// Panel height in pixels with a scale factor of 1, unless the layout says
/// otherwise.
pub const PANEL_HEIGHT: u32 = 20;

/// Panel SVG width.
pub const MODULE_WIDTH: u32 = 20;

/// Padding between panel modules.
pub const MODULE_PADDING: u32 = 5;

/// Panel padding to the screen edges.
pub const EDGE_PADDING: u32 = 5;

/// Milliseconds after which background activity will be hidden again.
pub const BACKGROUND_ACTIVITY_TIMEOUT: u64 = 1000;

/// Scale a constant by the DPI scale factor.
fn scale_length(length: u32, scale: ScaleFactor) -> (scaled: i64)
    ensures
        scaled == scaled_length(length as int, scale),
        0 <= scaled <= MAX_LENGTH,
{
    let exact = scale.scale(length);
    if exact > 32767 {
        32767
    } else {
        exact as i64
    }
}

/// Largest width of a run.
pub const MAX_RUN_WIDTH: i64 = 0x3FFF_FFFF_FFFF_FFFF;

/// Sum of two lengths, held to the widths that a run can have.
pub open spec fn extended(width: int, advance: int) -> int {
    clamp_int(width + advance, -MAX_RUN_WIDTH, MAX_RUN_WIDTH as int)
}

/// Add up two lengths without overflow.
fn extend(width: i64, advance: i64) -> (sum: i64)
    ensures
        sum == extended(width as int, advance as int),
{
    let sum = width as i128 + advance as i128;
    if sum > MAX_RUN_WIDTH as i128 {
        MAX_RUN_WIDTH
    } else if sum < -(MAX_RUN_WIDTH as i128) {
        -MAX_RUN_WIDTH
    } else {
        sum as i64
    }
}

/// Icon in a run of panel modules.
#[derive(Copy, Clone, PartialEq, Eq, Debug)]
pub struct PanelIcon {
    pub svg: Svg,
    /// Pixel size that the icon is rasterized at.
    pub size: (u32, u32),
    /// Left edge of the icon, before the run is aligned.
    pub x: i64,
    /// Top edge of the icon.
    pub y: i64,
}

/// Run of multiple panel modules.
#[derive(Copy, Clone, PartialEq, Eq, Debug)]
pub struct PanelRun {
    pub alignment: Alignment,
    pub scale_factor: ScaleFactor,
    /// Panel size in physical pixels.
    pub size: Size<u32>,
    /// Width of what was added to the run so far.
    pub width: i64,
}

impl PanelRun {
    /// Module padding with scale factor applied.
    pub open spec fn padding(&self) -> int {
        scaled_length(MODULE_PADDING as int, self.scale_factor)
    }

    /// Edge padding with scale factor applied.
    pub open spec fn edge(&self) -> int {
        scaled_length(EDGE_PADDING as int, self.scale_factor)
    }

    /// Width of the run after glyphs with the first `count` of the given
    /// advances were added.
    pub open spec fn advanced(&self, advances: Seq<i32>, count: int) -> int
        decreases count,
    {
        if count <= 0 {
            self.width as int
        } else {
            extended(self.advanced(advances, count - 1), advances[count - 1] as int)
        }
    }

    /// Width of the run without the padding behind its last module.
    pub open spec fn trimmed(&self) -> int {
        extended(self.width as int, -self.padding())
    }

    /// Distance from the left screen edge at which the run starts.
    ///
    /// A run on the left starts at the edge padding and one on the right
    /// ends at it. A run in the center has equal margins.
    pub open spec fn offset(&self) -> int {
        let width = min_int(self.size.width as int, MAX_LENGTH as int);
        match self.alignment {
            Alignment::Left => self.edge(),
            Alignment::Center => trunc_div(width - self.trimmed(), 2),
            Alignment::Right => width - self.trimmed() - self.edge(),
        }
    }

    /// Empty run of an alignment.
    pub fn new(size: Size<u32>, scale_factor: ScaleFactor, alignment: Alignment) -> (run: Self)
        ensures
            run == (PanelRun { alignment, scale_factor, size, width: 0 }),
    {
        Self { alignment, size, scale_factor, width: 0 }
    }

    /// Module padding with scale factor applied.
    pub fn module_padding(&self) -> (padding: i64)
        ensures
            padding == self.padding(),
            0 <= padding <= MAX_LENGTH,
    {
        scale_length(MODULE_PADDING, self.scale_factor)
    }

    /// Edge padding with scale factor applied.
    pub fn edge_padding(&self) -> (padding: i64)
        ensures
            padding == self.edge(),
            0 <= padding <= MAX_LENGTH,
    {
        scale_length(EDGE_PADDING, self.scale_factor)
    }

    /// Add text module to this run.
    ///
    /// Takes the advance of each of the text's glyphs and returns the left
    /// edge of each glyph, before the run is aligned.
    pub fn batch_string(&mut self, advances: &Vec<i32>) -> (positions: Vec<i64>)
        ensures
            positions.len() == advances.len(),
            forall|i: int|
                0 <= i < advances.len() ==> positions[i] == old(self).advanced(advances@, i),
            *final(self) == (PanelRun {
                width: extended(
                    old(self).advanced(advances@, advances.len() as int),
                    old(self).padding(),
                ) as i64,
                ..*old(self)
            }),
    {
        let mut positions: Vec<i64> = Vec::new();
        let mut i: usize = 0;

        // Batch vertices for all glyphs.
        while i < advances.len()
            invariant
                0 <= i <= advances.len(),
                positions.len() == i,
                forall|j: int| 0 <= j < i ==> positions[j] == old(self).advanced(advances@, j),
                *self == (PanelRun {
                    width: old(self).advanced(advances@, i as int) as i64,
                    ..*old(self)
                }),
            decreases advances.len() - i,
        {
            positions.push(self.width);
            self.width = extend(self.width, advances[i] as i64);
            i += 1;
        }
        self.width = extend(self.width, self.module_padding());
        positions
    }

    /// What is drawn for an SVG that is added to the run.
    pub open spec fn icon(&self, svg: Svg) -> PanelIcon {
        let size = svg.raster_size(Some(MODULE_WIDTH), None, self.scale_factor);
        PanelIcon {
            svg,
            size,
            x: self.width,
            y: trunc_div(min_int(self.size.height as int, MAX_LENGTH as int) - size.1, 2) as i64,
        }
    }

    /// Add SVG module to this run.
    pub fn batch_svg(&mut self, svg: Svg) -> (icon: PanelIcon)
        ensures
            icon == old(self).icon(svg),
            *final(self) == (PanelRun {
                width: extended(
                    extended(old(self).width as int, icon.size.0 as int),
                    old(self).padding(),
                ) as i64,
                ..*old(self)
            }),
    {
        let size = svg.target_size(Some(MODULE_WIDTH), None, self.scale_factor);

        // Calculate Y to center SVG.
        let height: i64 = if self.size.height > 32767 {
            32767
        } else {
            self.size.height as i64
        };
        let y = (height - size.1 as i64) / 2;
        let icon = PanelIcon { svg, size, x: self.width, y };

        self.width = extend(self.width, size.0 as i64);
        self.width = extend(self.width, self.module_padding());
        icon
    }

    /// Finish the run.
    ///
    /// Returns the offset from the left screen edge that all of the run's
    /// positions are moved by.
    pub fn draw(&self) -> (x_offset: i64)
        ensures
            x_offset == self.offset(),
    {
        // Trim last module padding.
        let width = extend(self.width, -self.module_padding());
        let screen: i64 = if self.size.width > 32767 {
            32767
        } else {
            self.size.width as i64
        };

        // Determine vertex offset from left screen edge.
        match self.alignment {
            Alignment::Left => self.edge_padding(),
            Alignment::Center => (screen - width) / 2,
            Alignment::Right => screen - width - self.edge_padding(),
        }
    }
}

/// Background activity bar and the values that the modules showed last.
pub struct Activity {
    pub bar: Option<(Color, Fraction)>,
    pub last: Seq<Fraction>,
}

/// Values that the modules showed last, for a list of `len` modules: what
/// is missing counts as zero.
pub open spec fn sized_activity(last: Seq<Fraction>, len: nat) -> Seq<Fraction> {
    Seq::new(
        len,
        |i: int|
            if i < last.len() {
                last[i]
            } else {
                Fraction { num: 0, den: 1 }
            },
    )
}

/// Activity after the module at `index` was looked at: a module whose
/// value changed takes over the bar.
pub open spec fn noticed(activity: Activity, module: Module, config: Config, index: int) -> Activity {
    match module.activity(config) {
        Some((color, value)) => if activity.last[index].same(value) {
            activity
        } else {
            Activity { bar: Some((color, value)), last: activity.last.update(index, value) }
        },
        None => activity,
    }
}

/// Activity after the modules from `from` on were looked at, last one
/// first.
pub open spec fn activity_from(
    activity: Activity,
    modules: Seq<Module>,
    config: Config,
    from: int,
) -> Activity
    decreases modules.len() - from,
{
    if from < 0 || from >= modules.len() {
        activity
    } else {
        noticed(activity_from(activity, modules, config, from + 1), modules[from], config, from)
    }
}

/// Indices of the first `count` modules that show in the panel with an
/// alignment, in the modules' order.
pub open spec fn aligned(modules: Seq<Module>, alignment: Alignment, count: int) -> Seq<int>
    decreases count,
{
    if count <= 0 {
        Seq::empty()
    } else if modules[count - 1].panel_alignment() == Some(alignment) {
        aligned(modules, alignment, count - 1).push(count - 1)
    } else {
        aligned(modules, alignment, count - 1)
    }
}

/// Background activity bar of a frame.
#[derive(Copy, Clone, PartialEq, Eq, Debug)]
pub struct ActivityBar {
    pub color: Color,
    /// Width of the bar in physical pixels.
    pub width: u32,
}

/// Everything that is needed to render one frame of the panel, but for the
/// modules' content.
#[derive(Copy, Clone, PartialEq, Eq, Debug)]
pub struct PanelFrame {
    /// Panel size in physical pixels.
    pub size: Size<u32>,
    /// Panel size in logical pixels, for the viewport and the opaque region.
    pub logical: Size<u32>,
    /// Background color.
    pub background: Color,
    /// Background activity bar, if one is shown.
    pub activity: Option<ActivityBar>,
    /// The timer that hides the background activity bar has to be started
    /// anew.
    pub restart_timeout: bool,
}

/// Outcome of a drawing opportunity.
#[derive(Copy, Clone, PartialEq, Eq, Debug)]
pub enum PanelDraw {
    /// No buffer is submitted.
    Skipped,
    /// The frame is rendered and committed together with a request for the
    /// next frame callback.
    Frame(PanelFrame),
}

/// Panel window state.
#[derive(PartialEq, Eq, Debug)]
pub struct Panel {
    /// A frame callback is on its way.
    pub frame_pending: bool,
    /// DPI scale factor.
    pub scale_factor: ScaleFactor,
    /// Window size in physical pixels.
    pub size: Size<u32>,
    /// Render stall bookkeeping.
    pub render: RenderDirtiness,
    /// Color and share of the background activity bar.
    pub background_activity: Option<(Color, Fraction)>,
    /// Value that each module showed in the last frame.
    pub last_background_activity: Vec<Fraction>,
    /// Height of the panel in logical pixels.
    pub height: u32,
}

impl Panel {
    /// The panel holds usable values.
    pub open spec fn wf(&self) -> bool {
        &&& self.scale_factor.wf()
        &&& self.background_activity matches Some(bar) ==> bar.1.wf()
    }

    /// Background activity before a frame.
    pub open spec fn activity(&self) -> Activity {
        Activity { bar: self.background_activity, last: self.last_background_activity@ }
    }

    /// Background activity after a frame that shows the given modules.
    pub open spec fn next_activity(&self, modules: Seq<Module>, config: Config) -> Activity {
        activity_from(
            Activity {
                bar: self.background_activity,
                last: sized_activity(self.last_background_activity@, modules.len()),
            },
            modules,
            config,
            0,
        )
    }

    /// Panel size in logical pixels.
    pub open spec fn logical_size(&self) -> Size<u32> {
        Size {
            width: min_int(self.scale_factor.unscaled(self.size.width as int), u32::MAX as int) as u32,
            height: min_int(self.scale_factor.unscaled(self.size.height as int), u32::MAX as int) as u32,
        }
    }

    /// Background activity bar as it is drawn.
    pub open spec fn bar(&self) -> Option<ActivityBar> {
        match self.background_activity {
            Some((color, value)) => Some(
                ActivityBar { color, width: value.rounded(self.size.width as int) as u32 },
            ),
            None => None,
        }
    }

    /// The panel `after` and the outcome `draw` are what a drawing
    /// opportunity, which the panel uses only if it is ready, leads to.
    pub open spec fn draws_to(
        &self,
        after: Panel,
        draw: PanelDraw,
        config: Config,
        modules: Seq<Module>,
    ) -> bool {
        &&& after.scale_factor == self.scale_factor
        &&& after.height == self.height
        &&& after.size == self.size
        &&& after.render == self.render.drawn(true, self.size)
        &&& if self.render.ready(true, self.size) {
            &&& draw == PanelDraw::Frame(after.frame(config))
            &&& after.frame_pending
            &&& after.activity() == self.next_activity(modules, config)
        } else {
            &&& draw is Skipped
            &&& !after.frame_pending
            &&& after.activity() == self.activity()
        }
    }

    /// The panel `after` and the outcome `draw` are what a change that
    /// demands visible feedback leads to, once the panel has the scale
    /// factor, the size, the height and the background activity bar given.
    pub open spec fn unstalls_as(
        &self,
        scale_factor: ScaleFactor,
        size: Size<u32>,
        height: u32,
        bar: Option<(Color, Fraction)>,
        after: Panel,
        draw: PanelDraw,
        config: Config,
        modules: Seq<Module>,
    ) -> bool {
        &&& after.scale_factor == scale_factor
        &&& after.height == height
        &&& after.size == size
        &&& if self.render.stalled && !is_empty(size) {
            &&& draw == PanelDraw::Frame(after.frame(config))
            &&& after.render == (RenderDirtiness { dirty: false, stalled: false })
            &&& after.frame_pending
            &&& after.activity() == activity_from(
                Activity {
                    bar,
                    last: sized_activity(self.last_background_activity@, modules.len()),
                },
                modules,
                config,
                0,
            )
        } else if self.render.stalled {
            &&& draw is Skipped
            &&& after.render == (RenderDirtiness { dirty: true, stalled: true })
            &&& !after.frame_pending
            &&& after.activity() == (Activity { bar, last: self.last_background_activity@ })
        } else {
            &&& draw is Skipped
            &&& after.render == (RenderDirtiness { dirty: true, stalled: false })
            &&& after.frame_pending == self.frame_pending
            &&& after.activity() == (Activity { bar, last: self.last_background_activity@ })
        }
    }

    /// The panel `after` and the outcome `draw` are what a change that
    /// demands visible feedback leads to.
    pub open spec fn unstalls_to(
        &self,
        after: Panel,
        draw: PanelDraw,
        config: Config,
        modules: Seq<Module>,
    ) -> bool {
        self.unstalls_as(
            self.scale_factor,
            self.size,
            self.height,
            self.background_activity,
            after,
            draw,
            config,
            modules,
        )
    }

    /// Physical size of the panel after its scale factor changed.
    pub open spec fn rescaled_size(&self, scale_factor: ScaleFactor) -> Size<u32> {
        Size {
            width: min_int(
                crate::geometry::round_div(
                    self.size.width * scale_factor.units,
                    self.scale_factor.units as int,
                ),
                u32::MAX as int,
            ) as u32,
            height: min_int(
                crate::geometry::round_div(
                    self.size.height * scale_factor.units,
                    self.scale_factor.units as int,
                ),
                u32::MAX as int,
            ) as u32,
        }
    }

    /// Panel that is not configured yet.
    pub fn new() -> (panel: Self)
        ensures
            !panel.frame_pending,
            panel.scale_factor.units == 120,
            panel.size == (Size::<u32> { width: 0, height: 0 }),
            panel.render == (RenderDirtiness { dirty: false, stalled: true }),
            panel.background_activity is None,
            panel.last_background_activity@.len() == 0,
            panel.height == PANEL_HEIGHT,
            panel.wf(),
    {
        Self {
            frame_pending: false,
            scale_factor: ScaleFactor::one(),
            size: Size::new(0, 0),
            render: RenderDirtiness::new(),
            background_activity: None,
            last_background_activity: Vec::new(),
            height: PANEL_HEIGHT,
        }
    }

    /// Update current status of the background activity bar.
    ///
    /// Returns whether the timer that hides the bar has to be started anew,
    /// which is the case whenever a bar is shown.
    pub fn update_background_activity(&mut self, config: &Config, modules: &Vec<Module>) -> (restart:
        bool)
        requires
            old(self).wf(),
        ensures
            final(self).activity() == old(self).next_activity(modules@, *config),
            restart == final(self).background_activity is Some,
            final(self).frame_pending == old(self).frame_pending,
            final(self).scale_factor == old(self).scale_factor,
            final(self).height == old(self).height,
            final(self).size == old(self).size,
            final(self).render == old(self).render,
            final(self).wf(),
    {
        // Ensure activity cache has the correct size.
        self.last_background_activity.truncate(modules.len());
        while self.last_background_activity.len() < modules.len()
            invariant
                self.last_background_activity.len() <= modules.len(),
                self.last_background_activity.len() >= old(self).last_background_activity.len()
                    || self.last_background_activity.len() >= modules.len(),
                self.last_background_activity@ =~= sized_activity(
                    old(self).last_background_activity@,
                    self.last_background_activity.len() as nat,
                ),
                self.background_activity == old(self).background_activity,
                self.frame_pending == old(self).frame_pending,
                self.scale_factor == old(self).scale_factor,
                self.size == old(self).size,
                self.render == old(self).render,
                self.height == old(self).height,
            decreases modules.len() - self.last_background_activity.len(),
        {
            self.last_background_activity.push(Fraction::zero());
        }
        let ghost start = Activity {
            bar: old(self).background_activity,
            last: sized_activity(old(self).last_background_activity@, modules.len() as nat),
        };

        // Find the first module that changed since the last frame.
        let mut i: usize = modules.len();
        while i > 0
            invariant
                0 <= i <= modules.len(),
                self.last_background_activity.len() == modules.len(),
                self.activity() == activity_from(start, modules@, *config, i as int),
                self.frame_pending == old(self).frame_pending,
                self.scale_factor == old(self).scale_factor,
                self.size == old(self).size,
                self.render == old(self).render,
                self.height == old(self).height,
                self.wf(),
            decreases i,
        {
            i -= 1;
            match modules[i].background_activity(config) {
                Some((color, value)) => {
                    if !self.last_background_activity[i].equals(&value) {
                        self.background_activity = Some((color, value));
                        self.last_background_activity.set(i, value);
                    }
                },
                None => {},
            }
        }

        self.background_activity.is_some()
    }

    /// Frame that shows the panel in its current state.
    pub open spec fn frame(&self, config: Config) -> PanelFrame {
        PanelFrame {
            size: self.size,
            logical: self.logical_size(),
            background: config.colors.bg,
            activity: self.bar(),
            restart_timeout: self.background_activity is Some,
        }
    }

    /// Render the panel.
    pub fn draw(&mut self, config: &Config, modules: &Vec<Module>) -> (frame: PanelFrame)
        requires
            old(self).wf(),
        ensures
            final(self).activity() == old(self).next_activity(modules@, *config),
            frame == final(self).frame(*config),
            final(self).frame_pending,
            final(self).scale_factor == old(self).scale_factor,
            final(self).height == old(self).height,
            final(self).size == old(self).size,
            final(self).render == old(self).render,
            final(self).wf(),
    {
        let restart_timeout = self.update_background_activity(config, modules);

        // Partially change background color based on the activity module.
        let activity = match self.background_activity {
            Some((color, value)) => Some(ActivityBar { color, width: value.round_to(self.size.width) }),
            None => None,
        };
        self.frame_pending = true;
        PanelFrame {
            size: self.size,
            logical: self.logical(),
            background: config.colors.bg,
            activity,
            restart_timeout,
        }
    }

    /// Use a drawing opportunity, such as a frame callback.
    ///
    /// A panel that is clean or without area stalls and submits nothing.
    /// Otherwise it is rendered.
    pub fn draw_if_ready(&mut self, config: &Config, modules: &Vec<Module>) -> (draw: PanelDraw)
        requires
            old(self).wf(),
        ensures
            final(self).wf(),
            old(self).draws_to(*final(self), draw, *config, modules@),
    {
        self.frame_pending = false;
        if !self.render.begin_draw(true, self.size) {
            return PanelDraw::Skipped;
        }
        PanelDraw::Frame(self.draw(config, modules))
    }

    /// Record a change that demands visible feedback.
    ///
    /// A stalled panel has no frame callback on its way, so it uses a
    /// drawing opportunity at once. Otherwise the change waits for the
    /// callback.
    pub fn unstall(&mut self, config: &Config, modules: &Vec<Module>) -> (draw: PanelDraw)
        requires
            old(self).wf(),
        ensures
            final(self).wf(),
            old(self).unstalls_to(*final(self), draw, *config, modules@),
    {
        if self.render.unstall() {
            self.draw_if_ready(config, modules)
        } else {
            PanelDraw::Skipped
        }
    }

    /// Record that the panel's content changed. This does not draw.
    pub fn mark_dirty(&mut self)
        ensures
            final(self).render == (RenderDirtiness { dirty: true, ..old(self).render }),
            final(self).frame_pending == old(self).frame_pending,
            final(self).scale_factor == old(self).scale_factor,
            final(self).height == old(self).height,
            final(self).size == old(self).size,
            final(self).activity() == old(self).activity(),
    {
        self.render.mark_dirty();
    }

    /// Content of the modules that show in the panel with an alignment, in
    /// the modules' order.
    pub fn contents(modules: &Vec<Module>, alignment: Alignment) -> (contents: Vec<
        PanelModuleContent,
    >)
        ensures
            contents.len() == aligned(modules@, alignment, modules.len() as int).len(),
            forall|k: int|
                0 <= k < contents.len() ==> {
                    let module = modules[aligned(modules@, alignment, modules.len() as int)[k]];
                    match module.panel_icon() {
                        Some(icon) => #[trigger] contents[k] == PanelModuleContent::Svg(icon),
                        None => contents[k] is Text,
                    }
                },
    {
        let mut contents: Vec<PanelModuleContent> = Vec::new();
        let mut i: usize = 0;
        while i < modules.len()
            invariant
                0 <= i <= modules.len(),
                contents.len() == aligned(modules@, alignment, i as int).len(),
                forall|k: int|
                    0 <= k < contents.len() ==> {
                        let module = modules[aligned(modules@, alignment, i as int)[k]];
                        match module.panel_icon() {
                            Some(icon) => #[trigger] contents[k] == PanelModuleContent::Svg(icon),
                            None => contents[k] is Text,
                        }
                    },
            decreases modules.len() - i,
        {
            let ghost before = aligned(modules@, alignment, i as int);
            if modules[i].alignment() == Some(alignment) {
                match modules[i].content() {
                    Some(content) => {
                        contents.push(content);
                    },
                    None => {},
                }
            }
            i += 1;
            proof {
                let after = aligned(modules@, alignment, i as int);
                assert forall|k: int| 0 <= k < before.len() implies after[k] == before[k] by {}
            }
        }
        contents
    }

    /// Update the DPI scale factor.
    ///
    /// The physical size follows the change of the factor. Returns the
    /// panel's size in logical pixels, for the viewport and the opaque
    /// region.
    pub fn set_scale_factor(&mut self, scale_factor: ScaleFactor) -> (logical: Size<u32>)
        requires
            old(self).wf(),
            scale_factor.wf(),
        ensures
            final(self).scale_factor == scale_factor,
            final(self).height == old(self).height,
            final(self).size == old(self).rescaled_size(scale_factor),
            logical == final(self).logical_size(),
            final(self).frame_pending == old(self).frame_pending,
            final(self).render == old(self).render,
            final(self).activity() == old(self).activity(),
            final(self).wf(),
    {
        let old_units = self.scale_factor.units as u128;
        let new_units = scale_factor.units as u128;
        assert(self.size.width * new_units <= 0xFFFF_FFFF * 0xFFFF_FFFF && self.size.height
            * new_units <= 0xFFFF_FFFF * 0xFFFF_FFFF) by (nonlinear_arith)
            requires
                self.size.width <= 0xFFFF_FFFF,
                self.size.height <= 0xFFFF_FFFF,
                0 <= new_units <= 0xFFFF_FFFF,
        ;
        let width = (2 * ((self.size.width as u128) * new_units) + old_units) / (2 * old_units);
        let height = (2 * ((self.size.height as u128) * new_units) + old_units) / (2 * old_units);
        self.scale_factor = scale_factor;
        self.resize(
            Size {
                width: if width > 0xFFFF_FFFF {
                    0xFFFF_FFFF
                } else {
                    width as u32
                },
                height: if height > 0xFFFF_FFFF {
                    0xFFFF_FFFF
                } else {
                    height as u32
                },
            },
        )
    }

    /// Reconfigure the window to a width in logical pixels.
    ///
    /// Returns the panel's size in logical pixels, for the viewport and
    /// the opaque region.
    pub fn reconfigure(&mut self, new_width: u32) -> (logical: Size<u32>)
        requires
            old(self).wf(),
        ensures
            final(self).size == old(self).scale_factor.scaled_size(
                Size { width: new_width, height: old(self).height },
            ),
            logical == final(self).logical_size(),
            final(self).scale_factor == old(self).scale_factor,
            final(self).height == old(self).height,
            final(self).frame_pending == old(self).frame_pending,
            final(self).render == old(self).render,
            final(self).activity() == old(self).activity(),
            final(self).wf(),
    {
        // Update size.
        let size = self.scale_factor.scale_size(Size::new(new_width, self.height));
        self.resize(size)
    }

    /// Request a new frame.
    ///
    /// Returns whether the caller has to ask the compositor for a frame
    /// callback, which is the case unless one is on its way already.
    pub fn request_frame(&mut self) -> (request: bool)
        ensures
            request == !old(self).frame_pending,
            final(self).frame_pending,
            final(self).scale_factor == old(self).scale_factor,
            final(self).height == old(self).height,
            final(self).size == old(self).size,
            final(self).render == old(self).render,
            final(self).activity() == old(self).activity(),
    {
        if self.frame_pending {
            return false;
        }
        self.frame_pending = true;
        true
    }

    /// Get the panel's size in logical pixels.
    pub fn logical(&self) -> (logical: Size<u32>)
        requires
            self.wf(),
        ensures
            logical == self.logical_size(),
    {
        let width = self.scale_factor.unscale(self.size.width);
        let height = self.scale_factor.unscale(self.size.height);
        Size {
            width: if width > 0xFFFF_FFFF {
                0xFFFF_FFFF
            } else {
                width as u32
            },
            height: if height > 0xFFFF_FFFF {
                0xFFFF_FFFF
            } else {
                height as u32
            },
        }
    }

    /// Resize the window.
    fn resize(&mut self, size: Size<u32>) -> (logical: Size<u32>)
        requires
            old(self).wf(),
        ensures
            final(self).size == size,
            logical == final(self).logical_size(),
            final(self).scale_factor == old(self).scale_factor,
            final(self).height == old(self).height,
            final(self).frame_pending == old(self).frame_pending,
            final(self).render == old(self).render,
            final(self).activity() == old(self).activity(),
            final(self).wf(),
    {
        self.size = size;

        // Update viewporter buffer target size.
        self.logical()
    }

    /// Set the height of the panel in logical pixels. It shows once the
    /// window is configured anew.
    pub fn set_height(&mut self, height: u32)
        ensures
            final(self).height == height,
            final(self).frame_pending == old(self).frame_pending,
            final(self).scale_factor == old(self).scale_factor,
            final(self).size == old(self).size,
            final(self).render == old(self).render,
            final(self).activity() == old(self).activity(),
    {
        self.height = height;
    }

    /// Reset the background activity bar.
    pub fn clear_background_activity(&mut self)
        ensures
            final(self).background_activity is None,
            final(self).last_background_activity@ == old(self).last_background_activity@,
            final(self).frame_pending == old(self).frame_pending,
            final(self).scale_factor == old(self).scale_factor,
            final(self).height == old(self).height,
            final(self).size == old(self).size,
            final(self).render == old(self).render,
    {
        self.background_activity = None;
    }
}

/// A drawing opportunity that finds the panel without area submits no
/// buffer and leaves the panel stalled and without area as before: so it is
/// with every further opportunity. Once the panel has an area, unstalling
/// it renders exactly one frame at once.
pub proof fn lemma_panel_stalls_while_not_ready(
    panel: Panel,
    after: Panel,
    draw: PanelDraw,
    later: Panel,
    frame: PanelDraw,
    size: Size<u32>,
    config: Config,
    modules: Seq<Module>,
)
    requires
        is_empty(panel.size),
        panel.draws_to(after, draw, config, modules),
        !is_empty(size),
        after.unstalls_as(
            after.scale_factor,
            size,
            after.height,
            after.background_activity,
            later,
            frame,
            config,
            modules,
        ),
    ensures
        draw is Skipped,
        after.render.stalled,
        after.size == panel.size,
        frame is Frame,
        !later.render.stalled,
        !later.render.dirty,
{
}

} // verus!
