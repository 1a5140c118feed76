//! Module grid of the drawer.

use vstd::prelude::*;

use crate::config::Layout;
use crate::geometry::{
    clamp_int, min_int, trunc_div, Fraction, Position, Rect, ScaleFactor, Size,
    PHYSICAL_UNITS,
};
use crate::module::registry::Module;
use crate::module::DrawerModule;

verus! {

/// Slider module height.
///
/// This should be less than `MODULE_SIZE`.
pub const SLIDER_HEIGHT: u32 = 48;

/// Drawer module width and height.
pub const MODULE_SIZE: u32 = 64;

/// Largest length and window dimension that the grid is laid out with.
pub const MAX_LENGTH: i64 = 32767;

/// Largest number of modules that the grid places.
pub const MAX_MODULES: usize = 0x3FFF_FFFF;

/// Drawer capability of each module of a list, in order.
pub open spec fn kinds_of(modules: Seq<Module>) -> Seq<Option<DrawerModule>> {
    Seq::new(modules.len(), |i: int| modules[i].drawer_kind())
}

/// Grid cell that the next module is placed in.
pub struct Cursor {
    pub column: int,
    pub row: int,
}

/// Touched module with the touch's position inside of it.
#[derive(Copy, Clone, PartialEq, Eq, Debug)]
pub struct ModuleHit {
    /// Index of the module in the module list.
    pub index: usize,
    /// Horizontal position from the module's left to its right edge.
    pub x: Fraction,
    /// Vertical position from the module's top to its bottom edge.
    pub y: Fraction,
}

/// Module position calculator.
#[derive(Copy, Clone, PartialEq, Eq, Debug)]
pub struct ModulePositioner {
    pub slider_size: Size<i64>,
    pub module_padding: i64,
    pub edge_padding: i64,
    pub panel_height: i64,
    pub module_size: i64,
    pub size: Size<i64>,
    pub columns: i64,
}

/// Physical length of a logical length, limited to the largest length.
pub open spec fn scaled_length(length: int, scale: ScaleFactor) -> int {
    min_int(scale.scaled(length), MAX_LENGTH as int)
}

/// Scale a constant by the DPI scale factor.
fn scale_length(length: u32, scale: ScaleFactor) -> (scaled: i64)
    ensures
        scaled == scaled_length(length as int, scale),
        0 <= scaled <= MAX_LENGTH,
        scale.wf() && length >= 60 ==> scaled >= 1,
{
    let exact = scale.scale(length);
    proof {
        if scale.wf() && length >= 60 {
            let n = length * scale.units;
            assert(n >= 60) by (nonlinear_arith)
                requires
                    n == length * scale.units,
                    length >= 60,
                    scale.units >= 1,
            ;
            assert(scale.scaled(length as int) == (2 * n + 120) / 240);
            assert((2 * n + 120) / 240 >= 1) by (nonlinear_arith)
                requires
                    n >= 60,
            ;
        }
    }
    if exact > 32767 {
        32767
    } else {
        exact as i64
    }
}

impl ModulePositioner {
    /// Bounds that every grid keeps, which rule out overflow.
    pub open spec fn wf(&self) -> bool {
        &&& 1 <= self.module_size <= MAX_LENGTH
        &&& 0 <= self.module_padding <= MAX_LENGTH
        &&& 0 <= self.panel_height <= MAX_LENGTH
        &&& 0 <= self.size.width <= MAX_LENGTH
        &&& 0 <= self.size.height <= MAX_LENGTH
        &&& 0 <= self.slider_size.height <= MAX_LENGTH
        &&& -4 * MAX_LENGTH <= self.edge_padding <= 4 * MAX_LENGTH
        &&& -9 * MAX_LENGTH <= self.slider_size.width <= 9 * MAX_LENGTH
        &&& -4 * MAX_LENGTH <= self.columns <= 4 * MAX_LENGTH
    }

    /// Grid of a drawer with a physical size at a scale factor, with the
    /// paddings of a layout.
    ///
    /// As many columns are placed as fit between the edge paddings. The
    /// edge padding is then widened, so that both margins are equal and
    /// share what is left over.
    pub open spec fn grid(size: Size<u32>, scale: ScaleFactor, layout: Layout) -> ModulePositioner {
        let width = min_int(size.width as int, MAX_LENGTH as int);
        let height = min_int(size.height as int, MAX_LENGTH as int);
        let panel_height = scaled_length(layout.panel_height as int, scale);
        let module_size = scaled_length(MODULE_SIZE as int, scale);
        let module_padding = scaled_length(layout.module_padding as int, scale);
        let slider_height = scaled_length(SLIDER_HEIGHT as int, scale);
        let edge_padding = scaled_length(layout.edge_padding as int, scale);
        let content_width = width - edge_padding * 2;
        let padded_module_size = module_size + module_padding;
        let columns = trunc_div(content_width + module_padding, padded_module_size);
        let edge_padding = trunc_div(
            width + module_padding - columns * padded_module_size,
            2,
        );
        ModulePositioner {
            slider_size: Size { width: (width - 2 * edge_padding) as i64, height: slider_height as i64 },
            module_padding: module_padding as i64,
            edge_padding: edge_padding as i64,
            panel_height: panel_height as i64,
            module_size: module_size as i64,
            size: Size { width: width as i64, height: height as i64 },
            columns: columns as i64,
        }
    }

    /// Lay out the grid of a drawer with a physical size at a scale factor,
    /// with the paddings that are used when nothing else is set.
    pub fn new(size: Size<u32>, scale_factor: ScaleFactor) -> (positioner: Self)
        requires
            scale_factor.wf(),
        ensures
            positioner == Self::grid(size, scale_factor, Layout::initial()),
            positioner.wf(),
    {
        Self::with_layout(size, scale_factor, Layout::default())
    }

    /// Lay out the grid of a drawer with a physical size at a scale factor,
    /// with the paddings of a layout.
    pub fn with_layout(size: Size<u32>, scale_factor: ScaleFactor, layout: Layout) -> (positioner: Self)
        requires
            scale_factor.wf(),
        ensures
            positioner == Self::grid(size, scale_factor, layout),
            positioner.wf(),
    {
        let width: i64 = if size.width > 32767 {
            32767
        } else {
            size.width as i64
        };
        let height: i64 = if size.height > 32767 {
            32767
        } else {
            size.height as i64
        };

        // Scale constants by DPI scale factor.
        let panel_height = scale_length(layout.panel_height, scale_factor);
        let module_size = scale_length(MODULE_SIZE, scale_factor);
        let module_padding = scale_length(layout.module_padding, scale_factor);
        let slider_height = scale_length(SLIDER_HEIGHT, scale_factor);
        let edge_padding = scale_length(layout.edge_padding, scale_factor);

        let content_width = width - edge_padding * 2;
        let padded_module_size = module_size + module_padding;
        let numerator = content_width + module_padding;
        let columns = numerator / padded_module_size;
        proof {
            let n = numerator as int;
            let d = padded_module_size as int;
            if n >= 0 {
                assert(0 <= n / d <= n && (n / d) * d <= n) by (nonlinear_arith)
                    requires
                        n >= 0,
                        d >= 1,
                ;
            } else {
                assert(0 <= (-n) / d <= -n && ((-n) / d) * d <= -n) by (nonlinear_arith)
                    requires
                        n < 0,
                        d >= 1,
                ;
            }
            assert(columns == trunc_div(n, d));
            let c = columns as int;
            assert(-2 * MAX_LENGTH <= c * d <= 2 * MAX_LENGTH) by (nonlinear_arith)
                requires
                    -2 * MAX_LENGTH <= n <= 2 * MAX_LENGTH,
                    n >= 0 ==> c == n / d && 0 <= (n / d) * d <= n,
                    n < 0 ==> c == -((-n) / d) && 0 <= ((-n) / d) * d <= -n,
            ;
        }
        let remainder = width + module_padding - columns * padded_module_size;
        let edge_padding = remainder / 2;
        assert(edge_padding == trunc_div(remainder as int, 2));

        let slider_width = width - 2 * edge_padding;
        let slider_size = Size::new(slider_width, slider_height);

        Self { module_padding, edge_padding, panel_height, slider_size, module_size, columns, size: Size::new(width, height) }
    }

    /// Top-left corner of a grid cell, below the panel's band.
    pub open spec fn origin(&self, column: int, row: int) -> (int, int) {
        let padded_module_size = self.module_size + self.module_padding;
        (
            self.edge_padding + column * padded_module_size,
            self.panel_height + self.edge_padding + row * padded_module_size,
        )
    }

    /// Get cell origin point.
    pub fn position(&self, column: i32, row: i32) -> (origin: (i64, i64))
        requires
            self.wf(),
        ensures
            origin.0 == self.origin(column as int, row as int).0,
            origin.1 == self.origin(column as int, row as int).1,
            -0x1_0000_0000_0000 <= origin.0 <= 0x1_0000_0000_0000,
            -0x1_0000_0000_0000 <= origin.1 <= 0x1_0000_0000_0000,
    {
        let padded_module_size = self.module_size + self.module_padding;
        assert(-0x8000_0000 * 65534 <= column * padded_module_size <= 0x8000_0000 * 65534)
            by (nonlinear_arith)
            requires
                -0x8000_0000 <= column <= 0x8000_0000,
                1 <= padded_module_size <= 65534,
        ;
        assert(-0x8000_0000 * 65534 <= row * padded_module_size <= 0x8000_0000 * 65534)
            by (nonlinear_arith)
            requires
                -0x8000_0000 <= row <= 0x8000_0000,
                1 <= padded_module_size <= 65534,
        ;
        let x = self.edge_padding + (column as i64) * padded_module_size;
        let y = self.panel_height + self.edge_padding + (row as i64) * padded_module_size;

        (x, y)
    }
    /// Cell that a module of a kind takes when the cursor stands at
    /// `cursor`. A slider starts a new row unless the row is empty.
    pub open spec fn slot(cursor: Cursor, kind: Option<DrawerModule>) -> Cursor {
        if kind == Some(DrawerModule::Slider) && cursor.column != 0 {
            Cursor { column: 0, row: cursor.row + 1 }
        } else {
            cursor
        }
    }

    /// Cursor after a module of a kind was placed at `cursor`.
    ///
    /// A toggle takes one cell and a slider a whole row. Modules that do
    /// not show in the drawer take nothing.
    pub open spec fn advance(&self, cursor: Cursor, kind: Option<DrawerModule>) -> Cursor {
        match kind {
            None => cursor,
            Some(DrawerModule::Toggle) => if cursor.column + 1 >= self.columns {
                Cursor { column: 0, row: cursor.row + 1 }
            } else {
                Cursor { column: cursor.column + 1, row: cursor.row }
            },
            Some(DrawerModule::Slider) => Cursor { column: 0, row: Self::slot(cursor, kind).row + 1 },
        }
    }

    /// Cursor after the first `index` modules were placed, from left to
    /// right and from top to bottom.
    pub open spec fn cursor_at(&self, kinds: Seq<Option<DrawerModule>>, index: int) -> Cursor
        decreases index,
    {
        if index <= 0 {
            Cursor { column: 0, row: 0 }
        } else {
            self.advance(self.cursor_at(kinds, index - 1), kinds[index - 1])
        }
    }

    /// Bounding box of a module that is placed at `cursor`.
    pub open spec fn cell_at(&self, cursor: Cursor, kind: Option<DrawerModule>) -> Option<Rect> {
        let slot = Self::slot(cursor, kind);
        let origin = self.origin(slot.column, slot.row);
        match kind {
            None => None,
            Some(DrawerModule::Toggle) => Some(
                Rect {
                    x: origin.0 as i64,
                    y: origin.1 as i64,
                    width: self.module_size,
                    height: self.module_size,
                },
            ),
            Some(DrawerModule::Slider) => Some(
                Rect {
                    x: origin.0 as i64,
                    y: origin.1 as i64,
                    width: self.slider_size.width,
                    height: self.module_size,
                },
            ),
        }
    }

    /// Bounding box of the module at `index`, if it shows in the drawer.
    pub open spec fn cell(&self, kinds: Seq<Option<DrawerModule>>, index: int) -> Option<Rect> {
        self.cell_at(self.cursor_at(kinds, index), kinds[index])
    }

    /// The module at `index` has a bounding box that covers a position,
    /// given in physical units.
    pub open spec fn touched(
        &self,
        kinds: Seq<Option<DrawerModule>>,
        index: int,
        position: Position<i64>,
    ) -> bool {
        self.cell(kinds, index) matches Some(cell) && cell.covers(
            trunc_div(position.x as int, PHYSICAL_UNITS as int),
            trunc_div(position.y as int, PHYSICAL_UNITS as int),
        )
    }

    /// Share of an extent that lies before a coordinate, which is given in
    /// physical units, limited to the extent.
    pub open spec fn share(start: int, extent: int, coordinate: int) -> Fraction {
        Fraction {
            num: clamp_int(coordinate - start * PHYSICAL_UNITS, 0, extent * PHYSICAL_UNITS) as u64,
            den: (extent * PHYSICAL_UNITS) as u64,
        }
    }

    /// Hit of a position, given in physical units, on the module at `index`.
    pub open spec fn hit_on(
        &self,
        kinds: Seq<Option<DrawerModule>>,
        index: int,
        position: Position<i64>,
    ) -> ModuleHit {
        let cell = self.cell(kinds, index)->0;
        ModuleHit {
            index: index as usize,
            x: Self::share(cell.x as int, cell.width as int, position.x as int),
            y: Self::share(cell.y as int, cell.height as int, position.y as int),
        }
    }

    /// First module from `from` on whose bounding box covers a position.
    pub open spec fn first_touched(
        &self,
        kinds: Seq<Option<DrawerModule>>,
        position: Position<i64>,
        from: int,
    ) -> Option<int>
        decreases kinds.len() - from,
    {
        if from < 0 || from >= kinds.len() {
            None
        } else if self.touched(kinds, from, position) {
            Some(from)
        } else {
            self.first_touched(kinds, position, from + 1)
        }
    }

    /// Hit of a position, given in physical units, on the first module in
    /// the modules' order whose bounding box covers it. A grid without a
    /// column is touched nowhere.
    pub open spec fn located(
        &self,
        kinds: Seq<Option<DrawerModule>>,
        position: Position<i64>,
    ) -> Option<ModuleHit> {
        if self.columns < 1 {
            None
        } else {
            match self.first_touched(kinds, position, 0) {
                Some(index) => Some(self.hit_on(kinds, index, position)),
                None => None,
            }
        }
    }

    /// The first touched module is the one before which none is touched.
    pub proof fn lemma_first_touched(
        &self,
        kinds: Seq<Option<DrawerModule>>,
        position: Position<i64>,
        from: int,
        end: int,
    )
        requires
            0 <= from <= end <= kinds.len(),
            forall|j: int| from <= j < end ==> !self.touched(kinds, j, position),
        ensures
            end < kinds.len() && self.touched(kinds, end, position) ==> self.first_touched(
                kinds,
                position,
                from,
            ) == Some(end),
            end == kinds.len() ==> self.first_touched(kinds, position, from) is None,
        decreases end - from,
    {
        if from < end {
            self.lemma_first_touched(kinds, position, from + 1, end);
        }
    }

    /// Advance the cursor past a module of a kind, and get the module's
    /// bounding box.
    pub fn place(&self, column: &mut i32, row: &mut i32, kind: Option<DrawerModule>) -> (cell: Option<
        Rect,
    >)
        requires
            self.wf(),
            0 <= *old(column) < i32::MAX,
            0 <= *old(row) < i32::MAX - 1,
        ensures
            cell == self.cell_at(Cursor { column: *old(column) as int, row: *old(row) as int }, kind),
            (Cursor { column: *final(column) as int, row: *final(row) as int }) == self.advance(
                Cursor { column: *old(column) as int, row: *old(row) as int },
                kind,
            ),
            0 <= *final(column) <= *old(column) + 1,
            *old(row) <= *final(row) <= *old(row) + 2,
            cell matches Some(cell) ==> cell.bounded(),
    {
        match kind {
            None => None,
            Some(DrawerModule::Toggle) => {
                let (x, y) = self.position(*column, *row);

                // Update active column/row.
                *column += 1;
                if *column as i64 >= self.columns {
                    *column = 0;
                    *row += 1;
                }
                Some(Rect { x, y, width: self.module_size, height: self.module_size })
            },
            Some(DrawerModule::Slider) => {
                // Ensure we're in an empty row.
                if *column != 0 {
                    *column = 0;
                    *row += 1;
                }
                let (x, y) = self.position(*column, *row);

                // Update active row.
                *row += 1;
                Some(Rect { x, y, width: self.slider_size.width, height: self.module_size })
            },
        }
    }

    /// Get relative position inside a module.
    ///
    /// Walks the modules in their order and returns the first one whose
    /// bounding box covers the position, which is given in physical units.
    /// A grid without a column is touched nowhere.
    pub fn module_position(&self, modules: &Vec<Module>, position: Position<i64>) -> (hit: Option<
        ModuleHit,
    >)
        requires
            self.wf(),
            modules.len() <= MAX_MODULES,
        ensures
            hit == self.located(kinds_of(modules@), position),
            hit matches Some(hit) ==> {
                &&& self.columns >= 1
                &&& hit.index < modules.len()
                &&& self.touched(kinds_of(modules@), hit.index as int, position)
                &&& forall|j: int|
                    0 <= j < hit.index ==> !self.touched(kinds_of(modules@), j, position)
                &&& hit == self.hit_on(kinds_of(modules@), hit.index as int, position)
                &&& hit.x.wf()
                &&& hit.y.wf()
            },
            hit is None ==> self.columns < 1 || forall|j: int|
                0 <= j < modules.len() ==> !self.touched(kinds_of(modules@), j, position),
    {
        if self.columns < 1 {
            return None;
        }
        let x = position.x / PHYSICAL_UNITS;
        let y = position.y / PHYSICAL_UNITS;
        let ghost kinds = kinds_of(modules@);
        let mut column: i32 = 0;
        let mut row: i32 = 0;

        let mut i: usize = 0;
        while i < modules.len()
            invariant
                self.wf(),
                self.columns >= 1,
                modules.len() <= MAX_MODULES,
                kinds == kinds_of(modules@),
                0 <= i <= modules.len(),
                0 <= column <= i,
                0 <= row <= 2 * i,
                (Cursor { column: column as int, row: row as int }) == self.cursor_at(kinds, i as int),
                x == trunc_div(position.x as int, PHYSICAL_UNITS as int),
                y == trunc_div(position.y as int, PHYSICAL_UNITS as int),
                forall|j: int| 0 <= j < i ==> !self.touched(kinds, j, position),
            decreases modules.len() - i,
        {
            // Only check drawer modules.
            let kind = modules[i].drawer_module();
            assert(kinds[i as int] == kind);
            assert(self.cursor_at(kinds, i + 1) == self.advance(self.cursor_at(kinds, i as int), kinds[i as int]));
            match self.place(&mut column, &mut row, kind) {
                Some(cell) => {
                    // Check if position is within this module.
                    let end_x = cell.x + cell.width;
                    let end_y = cell.y + cell.height;
                    if x >= cell.x && y >= cell.y && x < end_x && y < end_y {
                        assert(PHYSICAL_UNITS == 30720);
                        assert(cell.width >= 1 && cell.height >= 1);
                        assert(-0x1_0000_0000_0000 * 30720 <= cell.x * 30720 <= 0x1_0000_0000_0000
                            * 30720 && -0x1_0000_0000_0000 * 30720 <= cell.y * 30720
                            <= 0x1_0000_0000_0000 * 30720 && 0 <= cell.width * 30720
                            <= 0x1_0000_0000_0000 * 30720 && 0 <= cell.height * 30720
                            <= 0x1_0000_0000_0000 * 30720) by (nonlinear_arith)
                            requires
                                cell.bounded(),
                                cell.width >= 1,
                                cell.height >= 1,
                        ;
                        let fractional_x = Fraction::clamped(
                            position.x as i128 - (cell.x as i128) * (PHYSICAL_UNITS as i128),
                            (cell.width as i128) * (PHYSICAL_UNITS as i128),
                        );
                        let fractional_y = Fraction::clamped(
                            position.y as i128 - (cell.y as i128) * (PHYSICAL_UNITS as i128),
                            (cell.height as i128) * (PHYSICAL_UNITS as i128),
                        );
                        proof {
                            self.lemma_first_touched(kinds, position, 0, i as int);
                        }
                        return Some(ModuleHit { index: i, x: fractional_x, y: fractional_y });
                    }
                },
                None => {},
            }
            i += 1;
        }
        proof {
            self.lemma_first_touched(kinds, position, 0, modules.len() as int);
        }

        None
    }
}

} // verus!
