//! Batched drawer module layout.

use vstd::prelude::*;

use crate::config::{Color, Config};
use crate::drawer::positioner::{kinds_of, Cursor, ModulePositioner, MAX_MODULES};
use crate::drawer::ICON_HEIGHT;
use crate::geometry::{trunc_div, Fraction, Rect, ScaleFactor};
use crate::module::registry::Module;
use crate::module::DrawerModule;
use crate::text::Svg;

verus! {

/// What is drawn for one module of the drawer.
#[derive(Copy, Clone, PartialEq, Eq, Debug)]
pub struct ModuleDraw {
    /// Bounding box of the module, which is what a touch is tested against.
    pub cell: Rect,
    /// Backdrop of a toggle, or tray of a slider.
    pub backdrop: Rect,
    /// Color of the backdrop.
    pub color: Color,
    /// Filled part of a slider's tray.
    pub fill: Option<Rect>,
    /// Color of the filled part.
    pub fill_color: Color,
    /// Icon of the module.
    pub icon: Svg,
    /// Place and size of the icon.
    pub icon_box: Rect,
}

/// Box of a size that is centered in an area.
pub open spec fn centered(area: Rect, size: (u32, u32)) -> Rect {
    Rect {
        x: (area.x + trunc_div(area.width - size.0, 2)) as i64,
        y: (area.y + trunc_div(area.height - size.1, 2)) as i64,
        width: size.0 as i64,
        height: size.1 as i64,
    }
}

/// Center a box of a size in an area.
fn center(area: Rect, size: (u32, u32)) -> (rect: Rect)
    requires
        -0x2_0000_0000_0000 <= area.x <= 0x2_0000_0000_0000,
        -0x2_0000_0000_0000 <= area.y <= 0x2_0000_0000_0000,
        -0x2_0000_0000_0000 <= area.width <= 0x2_0000_0000_0000,
        -0x2_0000_0000_0000 <= area.height <= 0x2_0000_0000_0000,
    ensures
        rect == centered(area, size),
{
    Rect {
        x: area.x + (area.width - size.0 as i64) / 2,
        y: area.y + (area.height - size.1 as i64) / 2,
        width: size.0 as i64,
        height: size.1 as i64,
    }
}

/// Length of the part of a tray that a slider's value fills, rounded
/// towards zero.
pub open spec fn filled(width: int, value: Fraction) -> int {
    trunc_div(width * value.num, value.den as int)
}

/// Calculate the filled part of a tray.
fn fill_width(width: i64, value: Fraction) -> (part: i64)
    requires
        value.wf(),
        -0x7FFF_FFFF <= width <= 0x7FFF_FFFF,
    ensures
        part == filled(width as int, value),
{
    if width >= 0 {
        assert(width * value.num >= 0) by (nonlinear_arith)
            requires
                width >= 0,
                value.num >= 0,
        ;
        value.floor_of(width as u32) as i64
    } else {
        let part = value.floor_of((-width) as u32) as i64;
        proof {
            let product = (-width) * value.num;
            assert(width * value.num == -product) by (nonlinear_arith)
                requires
                    product == (-width) * value.num,
            ;
            assert(product >= 0) by (nonlinear_arith)
                requires
                    product == (-width) * value.num,
                    width < 0,
                    value.num >= 0,
            ;
            if product == 0 {
                assert(0int / (value.den as int) == 0) by (nonlinear_arith)
                    requires
                        value.den >= 1,
                ;
            }
        }
        -part
    }
}

/// Batched drawer module rendering.
#[derive(Copy, Clone, PartialEq, Eq, Debug)]
pub struct DrawerRun {
    pub positioner: ModulePositioner,
    pub scale_factor: ScaleFactor,
    pub column: i32,
    pub row: i32,
}

impl DrawerRun {
    /// The run can place another module.
    pub open spec fn wf(&self) -> bool {
        &&& self.positioner.wf()
        &&& 0 <= self.column < i32::MAX
        &&& 0 <= self.row < i32::MAX - 1
    }

    /// Cell that the next module is placed in.
    pub open spec fn cursor(&self) -> Cursor {
        Cursor { column: self.column as int, row: self.row as int }
    }

    /// Tray of a slider: as wide as its cell, and centered in its height.
    pub open spec fn tray(positioner: ModulePositioner, cell: Rect) -> Rect {
        Rect {
            x: cell.x,
            y: (cell.y + trunc_div(positioner.module_size - positioner.slider_size.height, 2)) as i64,
            width: positioner.slider_size.width,
            height: positioner.slider_size.height,
        }
    }

    /// What is drawn for a module whose bounding box is `cell`.
    pub open spec fn drawn(
        positioner: ModulePositioner,
        scale: ScaleFactor,
        config: Config,
        module: Module,
        cell: Rect,
    ) -> ModuleDraw {
        match module.drawer_kind() {
            Some(DrawerModule::Slider) => {
                let tray = Self::tray(positioner, cell);
                let icon = module.drawer_icon()->0;
                ModuleDraw {
                    cell,
                    backdrop: tray,
                    color: config.colors.module_inactive,
                    fill: Some(
                        Rect {
                            width: filled(tray.width as int, module.shown()->0) as i64,
                            ..tray
                        },
                    ),
                    fill_color: config.colors.module_active,
                    icon,
                    icon_box: centered(tray, icon.raster_size(Some(ICON_HEIGHT), None, scale)),
                }
            },
            _ => {
                let icon = module.drawer_icon()->0;
                ModuleDraw {
                    cell,
                    backdrop: cell,
                    color: if module.on() == Some(true) {
                        config.colors.module_active
                    } else {
                        config.colors.module_inactive
                    },
                    fill: None,
                    fill_color: config.colors.module_active,
                    icon,
                    icon_box: centered(cell, icon.raster_size(None, Some(ICON_HEIGHT), scale)),
                }
            },
        }
    }

    /// What the run draws for the next module, if it shows in the drawer.
    pub open spec fn batched(&self, config: Config, module: Module) -> Option<ModuleDraw> {
        match self.positioner.cell_at(self.cursor(), module.drawer_kind()) {
            Some(cell) => Some(Self::drawn(self.positioner, self.scale_factor, config, module, cell)),
            None => None,
        }
    }

    /// Run that starts at the first cell of a grid.
    pub fn new(positioner: ModulePositioner, scale_factor: ScaleFactor) -> (run: Self)
        requires
            positioner.wf(),
        ensures
            run.positioner == positioner,
            run.scale_factor == scale_factor,
            run.column == 0,
            run.row == 0,
            run.wf(),
    {
        Self { positioner, scale_factor, column: 0, row: 0 }
    }

    /// Add a drawer module to the run.
    ///
    /// Modules that do not show in the drawer take no cell and draw
    /// nothing.
    pub fn batch(&mut self, config: &Config, module: &Module) -> (draw: Option<ModuleDraw>)
        requires
            old(self).wf(),
            module.wf(),
        ensures
            draw == old(self).batched(*config, *module),
            final(self).cursor() == old(self).positioner.advance(
                old(self).cursor(),
                module.drawer_kind(),
            ),
            final(self).positioner == old(self).positioner,
            final(self).scale_factor == old(self).scale_factor,
            0 <= final(self).column <= old(self).column + 1,
            old(self).row <= final(self).row <= old(self).row + 2,
    {
        match module.drawer_module() {
            Some(DrawerModule::Toggle) => Some(self.batch_toggle(config, module)),
            Some(DrawerModule::Slider) => Some(self.batch_slider(config, module)),
            None => None,
        }
    }

    /// Add a slider to the drawer.
    pub fn batch_slider(&mut self, config: &Config, slider: &Module) -> (draw: ModuleDraw)
        requires
            old(self).wf(),
            slider.wf(),
            slider.drawer_kind() == Some(DrawerModule::Slider),
        ensures
            Some(draw) == old(self).batched(*config, *slider),
            final(self).cursor() == old(self).positioner.advance(
                old(self).cursor(),
                slider.drawer_kind(),
            ),
            final(self).positioner == old(self).positioner,
            final(self).scale_factor == old(self).scale_factor,
            0 <= final(self).column <= old(self).column + 1,
            old(self).row <= final(self).row <= old(self).row + 2,
    {
        // Calculate the slider's cell, which starts an empty row.
        let cell = self.positioner.place(&mut self.column, &mut self.row, Some(DrawerModule::Slider));
        let cell = match cell {
            Some(cell) => cell,
            None => Rect { x: 0, y: 0, width: 0, height: 0 },
        };

        // Calculate origin point.
        let y = cell.y + (self.positioner.module_size - self.positioner.slider_size.height) / 2;
        let tray = Rect {
            x: cell.x,
            y,
            width: self.positioner.slider_size.width,
            height: self.positioner.slider_size.height,
        };

        // Stage slider vertices.
        let value = match slider.value() {
            Some(value) => value,
            None => Fraction::zero(),
        };
        let slider_width = fill_width(tray.width, value);
        let fill = Rect { x: tray.x, y: tray.y, width: slider_width, height: tray.height };

        // Calculate icon origin.
        let icon = match slider.svg() {
            Some(icon) => icon,
            None => Svg::Brightness,
        };
        let icon_size = icon.target_size(Some(ICON_HEIGHT), None, self.scale_factor);
        let icon_box = center(tray, icon_size);

        ModuleDraw {
            cell,
            backdrop: tray,
            color: config.colors.module_inactive,
            fill: Some(fill),
            fill_color: config.colors.module_active,
            icon,
            icon_box,
        }
    }

    /// Add a toggle button to the drawer.
    pub fn batch_toggle(&mut self, config: &Config, toggle: &Module) -> (draw: ModuleDraw)
        requires
            old(self).wf(),
            toggle.drawer_kind() == Some(DrawerModule::Toggle),
        ensures
            Some(draw) == old(self).batched(*config, *toggle),
            final(self).cursor() == old(self).positioner.advance(
                old(self).cursor(),
                toggle.drawer_kind(),
            ),
            final(self).positioner == old(self).positioner,
            final(self).scale_factor == old(self).scale_factor,
            0 <= final(self).column <= old(self).column + 1,
            old(self).row <= final(self).row <= old(self).row + 2,
    {
        // Calculate module origin point and update active column/row.
        let cell = self.positioner.place(&mut self.column, &mut self.row, Some(DrawerModule::Toggle));
        let cell = match cell {
            Some(cell) => cell,
            None => Rect { x: 0, y: 0, width: 0, height: 0 },
        };

        // Calculate icon origin point.
        let icon = match toggle.svg() {
            Some(icon) => icon,
            None => Svg::Brightness,
        };
        let icon_size = icon.target_size(None, Some(ICON_HEIGHT), self.scale_factor);
        let icon_box = center(cell, icon_size);

        // Batch icon backdrop.
        let color = match toggle.enabled() {
            Some(true) => config.colors.module_active,
            _ => config.colors.module_inactive,
        };

        ModuleDraw {
            cell,
            backdrop: cell,
            color,
            fill: None,
            fill_color: config.colors.module_active,
            icon,
            icon_box,
        }
    }
}

/// What is drawn for each module of a list, in the list's order.
///
/// Modules that do not show in the drawer have no entry.
pub open spec fn drawn_modules(
    positioner: ModulePositioner,
    scale: ScaleFactor,
    config: Config,
    modules: Seq<Module>,
) -> Seq<Option<ModuleDraw>> {
    Seq::new(
        modules.len(),
        |i: int|
            match positioner.cell(kinds_of(modules), i) {
                Some(cell) => Some(DrawerRun::drawn(positioner, scale, config, modules[i], cell)),
                None => None,
            },
    )
}

/// Lay out all modules of the drawer for rendering, in their order.
pub fn batch_modules(
    positioner: ModulePositioner,
    scale_factor: ScaleFactor,
    config: &Config,
    modules: &Vec<Module>,
) -> (draws: Vec<Option<ModuleDraw>>)
    requires
        positioner.wf(),
        modules.len() <= MAX_MODULES,
        forall|i: int| 0 <= i < modules.len() ==> modules[i].wf(),
    ensures
        draws@ == drawn_modules(positioner, scale_factor, *config, modules@),
{
    let ghost kinds = kinds_of(modules@);
    let mut run = DrawerRun::new(positioner, scale_factor);
    let mut draws: Vec<Option<ModuleDraw>> = Vec::new();
    let mut i: usize = 0;
    while i < modules.len()
        invariant
            positioner.wf(),
            modules.len() <= MAX_MODULES,
            forall|i: int| 0 <= i < modules.len() ==> modules[i].wf(),
            kinds == kinds_of(modules@),
            0 <= i <= modules.len(),
            run.positioner == positioner,
            run.scale_factor == scale_factor,
            0 <= run.column <= i,
            0 <= run.row <= 2 * i,
            run.cursor() == positioner.cursor_at(kinds, i as int),
            draws.len() == i,
            forall|j: int|
                0 <= j < i ==> draws[j] == drawn_modules(
                    positioner,
                    scale_factor,
                    *config,
                    modules@,
                )[j],
        decreases modules.len() - i,
    {
        assert(kinds[i as int] == modules[i as int].drawer_kind());
        assert(positioner.cursor_at(kinds, i + 1) == positioner.advance(
            positioner.cursor_at(kinds, i as int),
            kinds[i as int],
        ));
        let draw = run.batch(config, &modules[i]);
        draws.push(draw);
        i += 1;
    }
    assert(draws@ =~= drawn_modules(positioner, scale_factor, *config, modules@));
    draws
}

} // verus!
