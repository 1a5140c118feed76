//! Built-in icons and the texture atlas.

use vstd::prelude::*;

use crate::geometry::{min_int, ScaleFactor};

verus! {

/// Built-in SVGs.
#[derive(Copy, Clone, Hash, PartialEq, Eq, Structural, Debug)]
pub enum Svg {
    BatteryCharging100,
    BatteryCharging80,
    BatteryCharging60,
    BatteryCharging40,
    BatteryCharging20,
    Battery100,
    Battery80,
    Battery60,
    Battery40,
    Battery20,
    WifiConnected100,
    WifiConnected75,
    WifiConnected50,
    WifiConnected25,
    WifiConnected0,
    WifiDisconnected100,
    WifiDisconnected75,
    WifiDisconnected50,
    WifiDisconnected25,
    WifiDisconnected0,
    WifiDisabled,
    Cellular100,
    Cellular80,
    Cellular60,
    Cellular40,
    Cellular20,
    Cellular0,
    CellularDisabled,
    Brightness,
    FlashlightOn,
    FlashlightOff,
    OrientationLocked,
    OrientationUnlocked,
    GpsOn,
    GpsOff,
    Scale,
    ArrowUp,
    ArrowDown,
}

impl Svg {
    /// Dimensions of the SVG, as width and height.
    pub open spec fn dimensions(&self) -> (u32, u32) {
        match self {
            Self::BatteryCharging100 => (20, 13),
            Self::BatteryCharging80 => (20, 13),
            Self::BatteryCharging60 => (20, 13),
            Self::BatteryCharging40 => (20, 13),
            Self::BatteryCharging20 => (20, 13),
            Self::Battery100 => (20, 7),
            Self::Battery80 => (20, 7),
            Self::Battery60 => (20, 7),
            Self::Battery40 => (20, 7),
            Self::Battery20 => (20, 7),
            Self::WifiConnected100 => (20, 14),
            Self::WifiConnected75 => (20, 14),
            Self::WifiConnected50 => (20, 14),
            Self::WifiConnected25 => (20, 14),
            Self::WifiConnected0 => (20, 14),
            Self::WifiDisconnected100 => (20, 14),
            Self::WifiDisconnected75 => (20, 14),
            Self::WifiDisconnected50 => (20, 14),
            Self::WifiDisconnected25 => (20, 14),
            Self::WifiDisconnected0 => (20, 14),
            Self::WifiDisabled => (20, 16),
            Self::Cellular100 => (20, 15),
            Self::Cellular80 => (20, 15),
            Self::Cellular60 => (20, 15),
            Self::Cellular40 => (20, 15),
            Self::Cellular20 => (20, 15),
            Self::Cellular0 => (20, 15),
            Self::CellularDisabled => (20, 18),
            Self::Brightness => (1, 1),
            Self::FlashlightOn => (45, 75),
            Self::FlashlightOff => (45, 75),
            Self::OrientationLocked => (73, 65),
            Self::OrientationUnlocked => (73, 65),
            Self::GpsOn => (1, 1),
            Self::GpsOff => (1, 1),
            Self::Scale => (11, 7),
            Self::ArrowUp => (64, 64),
            Self::ArrowDown => (64, 64),
        }
    }

    /// Get SVG's dimensions.
    pub fn size(&self) -> (size: (u32, u32))
        ensures
            size == self.dimensions(),
            1 <= size.0 <= 73,
            1 <= size.1 <= 75,
    {
        match self {
            Self::BatteryCharging100 => (20, 13),
            Self::BatteryCharging80 => (20, 13),
            Self::BatteryCharging60 => (20, 13),
            Self::BatteryCharging40 => (20, 13),
            Self::BatteryCharging20 => (20, 13),
            Self::Battery100 => (20, 7),
            Self::Battery80 => (20, 7),
            Self::Battery60 => (20, 7),
            Self::Battery40 => (20, 7),
            Self::Battery20 => (20, 7),
            Self::WifiConnected100 => (20, 14),
            Self::WifiConnected75 => (20, 14),
            Self::WifiConnected50 => (20, 14),
            Self::WifiConnected25 => (20, 14),
            Self::WifiConnected0 => (20, 14),
            Self::WifiDisconnected100 => (20, 14),
            Self::WifiDisconnected75 => (20, 14),
            Self::WifiDisconnected50 => (20, 14),
            Self::WifiDisconnected25 => (20, 14),
            Self::WifiDisconnected0 => (20, 14),
            Self::WifiDisabled => (20, 16),
            Self::Cellular100 => (20, 15),
            Self::Cellular80 => (20, 15),
            Self::Cellular60 => (20, 15),
            Self::Cellular40 => (20, 15),
            Self::Cellular20 => (20, 15),
            Self::Cellular0 => (20, 15),
            Self::CellularDisabled => (20, 18),
            Self::Brightness => (1, 1),
            Self::FlashlightOn => (45, 75),
            Self::FlashlightOff => (45, 75),
            Self::OrientationLocked => (73, 65),
            Self::OrientationUnlocked => (73, 65),
            Self::GpsOn => (1, 1),
            Self::GpsOff => (1, 1),
            Self::Scale => (11, 7),
            Self::ArrowUp => (64, 64),
            Self::ArrowDown => (64, 64),
        }
    }
    /// Number of the SVG among the built-in SVGs.
    pub open spec fn index(&self) -> u128 {
        match self {
            Self::BatteryCharging100 => 0,
            Self::BatteryCharging80 => 1,
            Self::BatteryCharging60 => 2,
            Self::BatteryCharging40 => 3,
            Self::BatteryCharging20 => 4,
            Self::Battery100 => 5,
            Self::Battery80 => 6,
            Self::Battery60 => 7,
            Self::Battery40 => 8,
            Self::Battery20 => 9,
            Self::WifiConnected100 => 10,
            Self::WifiConnected75 => 11,
            Self::WifiConnected50 => 12,
            Self::WifiConnected25 => 13,
            Self::WifiConnected0 => 14,
            Self::WifiDisconnected100 => 15,
            Self::WifiDisconnected75 => 16,
            Self::WifiDisconnected50 => 17,
            Self::WifiDisconnected25 => 18,
            Self::WifiDisconnected0 => 19,
            Self::WifiDisabled => 20,
            Self::Cellular100 => 21,
            Self::Cellular80 => 22,
            Self::Cellular60 => 23,
            Self::Cellular40 => 24,
            Self::Cellular20 => 25,
            Self::Cellular0 => 26,
            Self::CellularDisabled => 27,
            Self::Brightness => 28,
            Self::FlashlightOn => 29,
            Self::FlashlightOff => 30,
            Self::OrientationLocked => 31,
            Self::OrientationUnlocked => 32,
            Self::GpsOn => 33,
            Self::GpsOff => 34,
            Self::Scale => 35,
            Self::ArrowUp => 36,
            Self::ArrowDown => 37,
        }
    }

    /// Get the number of the SVG among the built-in SVGs.
    pub fn number(&self) -> (number: u128)
        ensures
            number == self.index(),
            number < 38,
    {
        match self {
            Self::BatteryCharging100 => 0,
            Self::BatteryCharging80 => 1,
            Self::BatteryCharging60 => 2,
            Self::BatteryCharging40 => 3,
            Self::BatteryCharging20 => 4,
            Self::Battery100 => 5,
            Self::Battery80 => 6,
            Self::Battery60 => 7,
            Self::Battery40 => 8,
            Self::Battery20 => 9,
            Self::WifiConnected100 => 10,
            Self::WifiConnected75 => 11,
            Self::WifiConnected50 => 12,
            Self::WifiConnected25 => 13,
            Self::WifiConnected0 => 14,
            Self::WifiDisconnected100 => 15,
            Self::WifiDisconnected75 => 16,
            Self::WifiDisconnected50 => 17,
            Self::WifiDisconnected25 => 18,
            Self::WifiDisconnected0 => 19,
            Self::WifiDisabled => 20,
            Self::Cellular100 => 21,
            Self::Cellular80 => 22,
            Self::Cellular60 => 23,
            Self::Cellular40 => 24,
            Self::Cellular20 => 25,
            Self::Cellular0 => 26,
            Self::CellularDisabled => 27,
            Self::Brightness => 28,
            Self::FlashlightOn => 29,
            Self::FlashlightOff => 30,
            Self::OrientationLocked => 31,
            Self::OrientationUnlocked => 32,
            Self::GpsOn => 33,
            Self::GpsOff => 34,
            Self::Scale => 35,
            Self::ArrowUp => 36,
            Self::ArrowDown => 37,
        }
    }

    /// Pixel width and height that the SVG is rasterized at.
    ///
    /// A target for both dimensions stretches the SVG to it. A target for
    /// one of them keeps the SVG's proportions, and without a target it has
    /// its own size. Either way the scale factor applies on top, and
    /// lengths are rounded down and limited to what a length can hold.
    pub open spec fn raster_size(
        &self,
        target_width: Option<u32>,
        target_height: Option<u32>,
        scale: ScaleFactor,
    ) -> (u32, u32) {
        let (width, height) = self.dimensions();
        let (raster_width, raster_height) = match (target_width, target_height) {
            (Some(tw), Some(th)) => ((tw * scale.units) / 120, (th * scale.units) / 120),
            (Some(tw), None) => ((tw * scale.units) / 120, (height * tw * scale.units) / (width * 120)),
            (None, Some(th)) => ((width * th * scale.units) / (height * 120), (th * scale.units) / 120),
            (None, None) => ((width * scale.units) / 120, (height * scale.units) / 120),
        };
        (
            min_int(raster_width, u32::MAX as int) as u32,
            min_int(raster_height, u32::MAX as int) as u32,
        )
    }

    /// Calculate the target dimensions for rasterizing the SVG.
    pub fn target_size(
        &self,
        target_width: Option<u32>,
        target_height: Option<u32>,
        scale_factor: ScaleFactor,
    ) -> (size: (u32, u32))
        ensures
            size == self.raster_size(target_width, target_height, scale_factor),
    {
        let (width, height) = self.size();
        let units = scale_factor.units as u128;
        let width = width as u128;
        let height = height as u128;

        // Calculate SVG X/Y scale factor.
        let tw = match target_width {
            Some(tw) => tw as u128,
            None => 0,
        };
        let th = match target_height {
            Some(th) => th as u128,
            None => 0,
        };
        assert(height * tw <= 75 * 0xFFFF_FFFF && width * th <= 75 * 0xFFFF_FFFF) by (nonlinear_arith)
            requires
                1 <= width <= 73,
                1 <= height <= 75,
                0 <= tw <= 0xFFFF_FFFF,
                0 <= th <= 0xFFFF_FFFF,
        ;
        let (x_num, x_den, y_num, y_den): (u128, u128, u128, u128) = match (
            target_width,
            target_height,
        ) {
            (Some(_), Some(_)) => (tw, 1, th, 1),
            (Some(_), None) => (tw, 1, height * tw, width),
            (None, Some(_)) => (width * th, height, th, 1),
            (None, None) => (width, 1, height, 1),
        };
        assert(x_num * units <= 75 * 0xFFFF_FFFF * 0xFFFF_FFFF && y_num * units <= 75 * 0xFFFF_FFFF
            * 0xFFFF_FFFF) by (nonlinear_arith)
            requires
                0 <= x_num <= 75 * 0xFFFF_FFFF,
                0 <= y_num <= 75 * 0xFFFF_FFFF,
                0 <= units <= 0xFFFF_FFFF,
        ;

        // Calculate target dimensions.
        let raster_width = (x_num * units) / (x_den * 120);
        let raster_height = (y_num * units) / (y_den * 120);
        (
            if raster_width > 0xFFFF_FFFF {
                0xFFFF_FFFF
            } else {
                raster_width as u32
            },
            if raster_height > 0xFFFF_FFFF {
                0xFFFF_FFFF
            } else {
                raster_height as u32
            },
        )
    }
}

/// Width and height of the glyph atlas texture.
///
/// 4096 is the maximum permitted texture size on the PinePhone.
pub const ATLAS_SIZE: i32 = 4096;

/// Subtexture cached inside an [`Atlas`].
#[derive(Copy, Clone, PartialEq, Eq, Debug)]
pub struct GlSubTexture {
    /// Index of the atlas texture that holds the subtexture.
    pub texture: usize,
    pub multicolor: bool,
    pub top: i16,
    pub left: i16,
    pub width: i16,
    pub height: i16,
    /// Left edge inside the atlas texture, in texels.
    pub atlas_x: i32,
    /// Bottom edge inside the atlas texture, in texels.
    pub atlas_y: i32,
    pub advance: (i32, i32),
}

impl GlSubTexture {
    /// The subtexture lies inside of an atlas texture.
    pub open spec fn wf(&self) -> bool {
        &&& 0 <= self.width <= ATLAS_SIZE
        &&& 0 <= self.height <= ATLAS_SIZE
        &&& 0 <= self.atlas_x <= ATLAS_SIZE - self.width
        &&& 0 <= self.atlas_y <= ATLAS_SIZE - self.height
    }
}

/// Pixels of a rasterized glyph.
#[derive(PartialEq, Eq, Debug)]
pub enum GlyphBitmap {
    /// Coverage with three bytes per pixel.
    Rgb(Vec<u8>),
    /// Colors with four bytes per pixel.
    Rgba(Vec<u8>),
}

/// Element stored in the texture atlas.
#[derive(PartialEq, Eq, Debug)]
pub struct AtlasEntry {
    /// Pixels with four bytes each.
    pub buffer: Vec<u8>,
    pub width: i32,
    pub height: i32,
    pub top: i32,
    pub left: i32,
    pub advance: (i32, i32),
    pub multicolor: bool,
}

/// Key for caching atlas entries.
#[derive(Copy, Clone, Hash, PartialEq, Eq, Debug)]
pub enum CacheKey {
    Character(char),
    Svg((Svg, u32, u32)),
}

/// Pixels with four bytes each that stand for pixels with three bytes each:
/// every pixel keeps its three bytes and is fully opaque. Bytes that do not
/// make up a whole pixel are left out.
pub open spec fn with_alpha(rgb: Seq<u8>) -> Seq<u8> {
    Seq::new(
        (rgb.len() / 3 * 4) as nat,
        |i: int|
            if i % 4 == 3 {
                255u8
            } else {
                rgb[i / 4 * 3 + i % 4]
            },
    )
}

/// Add an opaque alpha channel to pixels with three bytes each.
pub fn rgb_to_rgba(rgb: &Vec<u8>) -> (rgba: Vec<u8>)
    requires
        rgb.len() / 3 * 4 <= usize::MAX,
    ensures
        rgba@ == with_alpha(rgb@),
{
    let pixel_count = rgb.len() / 3;
    let mut rgba: Vec<u8> = Vec::new();
    let mut pixel: usize = 0;
    while pixel < pixel_count
        invariant
            pixel_count == rgb.len() / 3,
            0 <= pixel <= pixel_count,
            rgba.len() == pixel * 4,
            forall|i: int| 0 <= i < rgba.len() ==> rgba@[i] == with_alpha(rgb@)[i],
        decreases pixel_count - pixel,
    {
        rgba.push(rgb[pixel * 3]);
        rgba.push(rgb[pixel * 3 + 1]);
        rgba.push(rgb[pixel * 3 + 2]);
        rgba.push(255);
        pixel += 1;
    }
    assert(rgba@ =~= with_alpha(rgb@));
    rgba
}

impl AtlasEntry {
    /// The entry has a size.
    pub open spec fn wf(&self) -> bool {
        self.width >= 0 && self.height >= 0
    }

    /// Create a new SVG atlas entry.
    pub fn new_svg(buffer: Vec<u8>, width: u32, height: u32) -> (entry: Self)
        requires
            width <= i32::MAX,
            height <= i32::MAX,
        ensures
            entry.buffer@ == buffer@,
            entry.width == width,
            entry.height == height,
            entry.top == 0,
            entry.left == 0,
            entry.advance == (width as i32, 0i32),
            entry.multicolor,
            entry.wf(),
    {
        Self {
            buffer,
            width: width as i32,
            height: height as i32,
            top: 0,
            left: 0,
            advance: (width as i32, 0),
            multicolor: true,
        }
    }

    /// Create an atlas entry for a rasterized glyph.
    ///
    /// Coverage is stored with an opaque alpha channel. A glyph of colors
    /// is multicolor.
    pub fn from_glyph(
        bitmap: GlyphBitmap,
        width: i32,
        height: i32,
        top: i32,
        left: i32,
        advance: (i32, i32),
    ) -> (entry: Self)
        requires
            bitmap matches GlyphBitmap::Rgb(rgb) ==> rgb.len() / 3 * 4 <= usize::MAX,
        ensures
            match bitmap {
                GlyphBitmap::Rgb(rgb) => entry.buffer@ == with_alpha(rgb@) && !entry.multicolor,
                GlyphBitmap::Rgba(rgba) => entry.buffer@ == rgba@ && entry.multicolor,
            },
            entry.width == width,
            entry.height == height,
            entry.top == top,
            entry.left == left,
            entry.advance == advance,
    {
        let (buffer, multicolor) = match bitmap {
            GlyphBitmap::Rgb(buffer) => (rgb_to_rgba(&buffer), false),
            GlyphBitmap::Rgba(buffer) => (buffer, true),
        };
        Self { multicolor, buffer, width, height, top, left, advance }
    }
}

/// Reason for which an entry cannot be stored in the atlas.
#[derive(Copy, Clone, PartialEq, Eq, Structural, Debug)]
pub enum AtlasError {
    /// The entry is larger than an atlas texture.
    TooBig,
}

impl AtlasError {
    /// Message that describes the error.
    pub fn message(&self) -> (message: &'static str)
        ensures
            message@ == "glyph too big for atlas"@,
    {
        "glyph too big for atlas"
    }
}

/// Atlas for combining multiple textures.
///
/// The strategy for filling an atlas looks roughly like this:
///
/// ```text
///                           (width, height)
///   +-----+-----+-----+-----+-----+
///   | 10  |     |     |     |     | <- Atlas is full when next glyph's height doesn't fit.
///   |     |     |     |     |     | <- Empty spaces for new elements.
///   +-----+-----+-----+-----+-----+
///   | 5   | 6   | 7   | 8   | 9   |
///   |     |     |     |     |     |
///   +-----+-----+-----+-----+-----+ <- Row height is tallest subtexture in the row.
///   | 1   | 2   | 3   | 4         |    This is the baseline for the next row.
///   |     |     |     |           | <- Row is full when next glyph's width doesn't fit.
///   +-----+-----+-----+-----------+
/// (0, 0)
/// ```
#[derive(Copy, Clone, PartialEq, Eq, Debug)]
pub struct Atlas {
    /// Number of atlas textures, of which the last one is written to.
    pub textures: usize,
    /// Largest glyph's height in this row.
    pub row_height: i32,
    /// X position for writing new glyphs.
    pub cursor_x: i32,
    /// Y position for writing new glyphs.
    pub cursor_y: i32,
}

impl Atlas {
    /// The cursor and the current row lie inside of the last texture.
    pub open spec fn wf(&self) -> bool {
        &&& self.textures >= 1
        &&& 0 <= self.cursor_x <= ATLAS_SIZE
        &&& 0 <= self.cursor_y
        &&& 0 <= self.row_height
        &&& self.cursor_y + self.row_height <= ATLAS_SIZE
    }

    /// The texel at `x` and `y` of a texture was never written to: it lies
    /// right of the cursor in the current row, above that row, or in a
    /// texture that does not exist yet.
    pub open spec fn free(&self, texture: int, x: int, y: int) -> bool {
        &&& 0 <= x < ATLAS_SIZE
        &&& 0 <= y < ATLAS_SIZE
        &&& texture >= self.textures || (texture == self.textures - 1 && (y >= self.cursor_y
            + self.row_height || (y >= self.cursor_y && x >= self.cursor_x)))
    }

    /// Atlas whose cursor stands where an entry of a size is written to: in
    /// a new row if the current one is too short, and in a new texture if
    /// no row is left.
    pub open spec fn opened(&self, width: int, height: int) -> Atlas {
        let row = if self.cursor_x + width > ATLAS_SIZE {
            Atlas {
                cursor_y: (self.cursor_y + self.row_height) as i32,
                row_height: 0,
                cursor_x: 0,
                ..*self
            }
        } else {
            *self
        };
        if row.cursor_y + height > ATLAS_SIZE {
            Atlas { textures: (row.textures + 1) as usize, row_height: 0, cursor_x: 0, cursor_y: 0 }
        } else {
            row
        }
    }

    /// Subtexture that an entry is stored as.
    pub open spec fn placement(&self, entry: AtlasEntry) -> GlSubTexture {
        let opened = self.opened(entry.width as int, entry.height as int);
        GlSubTexture {
            texture: (opened.textures - 1) as usize,
            multicolor: entry.multicolor,
            top: entry.top as i16,
            left: entry.left as i16,
            width: entry.width as i16,
            height: entry.height as i16,
            atlas_x: opened.cursor_x,
            atlas_y: opened.cursor_y,
            advance: entry.advance,
        }
    }

    /// Atlas after an entry of a size was stored.
    pub open spec fn filled(&self, width: int, height: int) -> Atlas {
        let opened = self.opened(width, height);
        Atlas {
            row_height: if opened.row_height >= height {
                opened.row_height
            } else {
                height as i32
            },
            cursor_x: (opened.cursor_x + width) as i32,
            ..opened
        }
    }

    /// Atlas with one empty texture.
    pub fn new() -> (atlas: Self)
        ensures
            atlas == (Atlas { textures: 1, row_height: 0, cursor_x: 0, cursor_y: 0 }),
            atlas.wf(),
    {
        Self { textures: 1, row_height: 0, cursor_x: 0, cursor_y: 0 }
    }

    /// Insert an entry into the atlas.
    ///
    /// Returns where the caller has to upload the entry's buffer to. An
    /// entry that is larger than an atlas texture is refused.
    pub fn insert(&mut self, entry: &AtlasEntry) -> (result: Result<GlSubTexture, AtlasError>)
        requires
            old(self).wf(),
            entry.wf(),
            old(self).textures < usize::MAX,
        ensures
            final(self).wf(),
            entry.width > ATLAS_SIZE || entry.height > ATLAS_SIZE ==> result == Err::<
                GlSubTexture,
                AtlasError,
            >(AtlasError::TooBig) && *final(self) == *old(self),
            entry.width <= ATLAS_SIZE && entry.height <= ATLAS_SIZE ==> {
                &&& result == Ok::<GlSubTexture, AtlasError>(old(self).placement(*entry))
                &&& *final(self) == old(self).filled(entry.width as int, entry.height as int)
                &&& result->Ok_0.wf()
            },
    {
        // Error if entry cannot fit at all.
        if entry.width > ATLAS_SIZE || entry.height > ATLAS_SIZE {
            return Err(AtlasError::TooBig);
        }

        // Create new row if entry doesn't fit into current one.
        if self.cursor_x + entry.width > ATLAS_SIZE {
            self.cursor_y += self.row_height;
            self.row_height = 0;
            self.cursor_x = 0;
        }

        // Create a new texture if the row's available height is too little.
        if self.cursor_y + entry.height > ATLAS_SIZE {
            self.textures += 1;
            self.row_height = 0;
            self.cursor_x = 0;
            self.cursor_y = 0;
        }
        let atlas_x = self.cursor_x;
        let atlas_y = self.cursor_y;

        // Update atlas write position.
        if entry.height > self.row_height {
            self.row_height = entry.height;
        }
        self.cursor_x += entry.width;

        Ok(
            GlSubTexture {
                texture: self.textures - 1,
                multicolor: entry.multicolor,
                top: #[verifier::truncate]
                (entry.top as i16),
                left: #[verifier::truncate]
                (entry.left as i16),
                width: entry.width as i16,
                height: entry.height as i16,
                atlas_x,
                atlas_y,
                advance: entry.advance,
            },
        )
    }
}

/// An entry is stored in texels that were never written to, and takes them:
/// they are not free afterwards, and no other texel becomes free. So no two
/// entries of an atlas share a texel.
pub proof fn lemma_insert_takes_free_texels(atlas: Atlas, width: int, height: int, x: int, y: int)
    requires
        atlas.wf(),
        0 <= width <= ATLAS_SIZE,
        0 <= height <= ATLAS_SIZE,
        atlas.textures < usize::MAX,
    ensures
        ({
            let opened = atlas.opened(width, height);
            let filled = atlas.filled(width, height);
            let texture = opened.textures - 1;
            let inside = opened.cursor_x <= x < opened.cursor_x + width && opened.cursor_y <= y
                < opened.cursor_y + height;
            &&& filled.wf()
            &&& inside ==> atlas.free(texture, x, y) && !filled.free(texture, x, y)
            &&& forall|t: int| filled.free(t, x, y) ==> atlas.free(t, x, y)
        }),
{
}

/// Code of the first SVG of zero size.
pub const SVG_CODES: u128 = 0x1_0000_0000_0000_0000_0000_0000;

impl CacheKey {
    /// Number that stands for the key: the character's scalar value, or a
    /// number above all of those that is made up of the SVG and its size.
    pub open spec fn code(&self) -> u128 {
        match self {
            CacheKey::Character(character) => *character as u128,
            CacheKey::Svg((svg, width, height)) => (SVG_CODES + svg.index()
                * 0x1_0000_0000_0000_0000 + *width * 0x1_0000_0000 + *height) as u128,
        }
    }

    /// Get the number that stands for the key.
    pub fn encode(&self) -> (code: u128)
        ensures
            code == self.code(),
    {
        match self {
            CacheKey::Character(character) => *character as u128,
            CacheKey::Svg((svg, width, height)) => SVG_CODES + svg.number()
                * 0x1_0000_0000_0000_0000 + (*width as u128) * 0x1_0000_0000 + (*height as u128),
        }
    }

    /// Keys with the same code are the same.
    pub proof fn lemma_code_tells_keys_apart(self, other: CacheKey)
        ensures
            self.code() == other.code() <==> self == other,
    {
        match (self, other) {
            (CacheKey::Svg((svg, width, height)), CacheKey::Svg((other_svg, other_width, other_height))) => {
                if self.code() == other.code() {
                    assert(svg.index() == other_svg.index());
                    assert(svg == other_svg);
                    assert(width == other_width);
                    assert(height == other_height);
                }
            },
            _ => {},
        }
    }
}

/// Cache of the subtextures that were stored in the atlas.
#[derive(PartialEq, Eq, Debug)]
pub struct TextureCache {
    /// Subtexture of each key's code.
    pub entries: std::collections::HashMap<u128, GlSubTexture>,
    /// Atlas that holds the subtextures.
    pub atlas: Atlas,
    /// DPI scale factor that the subtextures were rasterized at.
    pub scale_factor: ScaleFactor,
}

impl TextureCache {
    /// The atlas can take another entry.
    pub open spec fn wf(&self) -> bool {
        self.atlas.wf() && self.atlas.textures < usize::MAX
    }

    /// Subtexture that is cached for a key.
    pub open spec fn cached(&self, key: CacheKey) -> Option<GlSubTexture> {
        if self.entries@.contains_key(key.code()) {
            Some(self.entries@[key.code()])
        } else {
            None
        }
    }

    /// Empty cache for a scale factor.
    pub fn new(scale_factor: ScaleFactor) -> (cache: Self)
        ensures
            cache.entries@ == Map::<u128, GlSubTexture>::empty(),
            cache.atlas == (Atlas { textures: 1, row_height: 0, cursor_x: 0, cursor_y: 0 }),
            cache.scale_factor == scale_factor,
            cache.wf(),
    {
        Self { entries: std::collections::HashMap::new(), atlas: Atlas::new(), scale_factor }
    }

    /// Key of an SVG at the size that it is rasterized at for the targets
    /// given.
    pub fn svg_key(&self, svg: Svg, target_width: Option<u32>, target_height: Option<u32>) -> (key:
        CacheKey)
        ensures
            key == CacheKey::Svg(
                (
                    svg,
                    svg.raster_size(target_width, target_height, self.scale_factor).0,
                    svg.raster_size(target_width, target_height, self.scale_factor).1,
                ),
            ),
    {
        let (width, height) = svg.target_size(target_width, target_height, self.scale_factor);
        CacheKey::Svg((svg, width, height))
    }

    /// Try to load a subtexture from the cache.
    pub fn get(&self, key: CacheKey) -> (subtexture: Option<GlSubTexture>)
        ensures
            subtexture == self.cached(key),
    {
        broadcast use vstd::std_specs::hash::group_hash_axioms;

        let code = key.encode();
        match self.entries.get(&code) {
            Some(subtexture) => Some(*subtexture),
            None => None,
        }
    }

    /// Store a rasterized entry in the atlas and cache its subtexture
    /// under a key.
    ///
    /// Returns where the caller has to upload the entry's buffer to. An
    /// entry that is larger than an atlas texture is refused.
    pub fn insert(&mut self, key: CacheKey, entry: &AtlasEntry) -> (result: Result<
        GlSubTexture,
        AtlasError,
    >)
        requires
            old(self).wf(),
            entry.wf(),
        ensures
            final(self).atlas.wf(),
            final(self).scale_factor == old(self).scale_factor,
            entry.width > ATLAS_SIZE || entry.height > ATLAS_SIZE ==> {
                &&& result == Err::<GlSubTexture, AtlasError>(AtlasError::TooBig)
                &&& final(self).atlas == old(self).atlas
                &&& final(self).entries@ == old(self).entries@
            },
            entry.width <= ATLAS_SIZE && entry.height <= ATLAS_SIZE ==> {
                &&& result == Ok::<GlSubTexture, AtlasError>(old(self).atlas.placement(*entry))
                &&& final(self).atlas == old(self).atlas.filled(
                    entry.width as int,
                    entry.height as int,
                )
                &&& final(self).entries@ == old(self).entries@.insert(key.code(), result->Ok_0)
                &&& final(self).cached(key) == Some(result->Ok_0)
                &&& forall|other: CacheKey|
                    other != key ==> #[trigger] final(self).cached(other) == old(self).cached(other)
            },
    {
        broadcast use vstd::std_specs::hash::group_hash_axioms;

        let subtexture = match self.atlas.insert(entry) {
            Ok(subtexture) => subtexture,
            Err(error) => return Err(error),
        };
        let code = key.encode();
        self.entries.insert(code, subtexture);
        proof {
            assert forall|other: CacheKey| other != key implies #[trigger] self.cached(other)
                == old(self).cached(other) by {
                key.lemma_code_tells_keys_apart(other);
            }
        }
        Ok(subtexture)
    }

    /// Update the DPI scale factor.
    ///
    /// Returns whether the factor changed. In that case the cache and the
    /// atlas are empty again, and the caller drops the atlas textures. All
    /// caches stay as they are when the factor didn't change.
    pub fn set_scale_factor(&mut self, scale_factor: ScaleFactor) -> (changed: bool)
        ensures
            changed == (scale_factor != old(self).scale_factor),
            final(self).scale_factor == scale_factor,
            changed ==> final(self).entries@ == Map::<u128, GlSubTexture>::empty()
                && final(self).atlas == (Atlas {
                textures: 1,
                row_height: 0,
                cursor_x: 0,
                cursor_y: 0,
            }),
            !changed ==> final(self).entries@ == old(self).entries@ && final(self).atlas == old(
                self,
            ).atlas,
    {
        if self.scale_factor.units == scale_factor.units {
            return false;
        }
        self.scale_factor = scale_factor;

        // Clear glyph cache and drop all atlas textures.
        self.atlas = Atlas::new();
        self.entries.clear();
        true
    }
}

} // verus!
