//! Shared geometry types.
//!
//! Logical coordinates are carried in sub-pixel units, scale factors in
//! 120ths and physical coordinates in whole pixels, so every conversion
//! between them is an explicit integer computation.

use vstd::prelude::*;

verus! {

/// Sub-pixel units per logical pixel.
pub const SUBPIXELS: i64 = 256;

/// Scale units per scale factor of one.
pub const SCALE_UNITS: u32 = 120;

/// Sub-pixel scale units per physical pixel.
pub const PHYSICAL_UNITS: i64 = 30720;

/// 2D object position.
#[derive(Copy, Clone, PartialEq, Eq, Debug)]
pub struct Position<T> {
    pub x: T,
    pub y: T,
}

/// 2D object size.
#[derive(Copy, Clone, PartialEq, Eq, Debug)]
pub struct Size<T> {
    pub width: T,
    pub height: T,
}

impl<T> Size<T> {
    /// Size of a width and a height.
    pub fn new(width: T, height: T) -> (size: Self)
        ensures
            size.width == width,
            size.height == height,
    {
        Self { width, height }
    }
}

/// Axis-aligned rectangle in physical pixels.
#[derive(Copy, Clone, PartialEq, Eq, Debug)]
pub struct Rect {
    pub x: i64,
    pub y: i64,
    pub width: i64,
    pub height: i64,
}

impl Rect {
    /// The rectangle's coordinates are small enough to add up.
    pub open spec fn bounded(&self) -> bool {
        &&& -0x1_0000_0000_0000 <= self.x <= 0x1_0000_0000_0000
        &&& -0x1_0000_0000_0000 <= self.y <= 0x1_0000_0000_0000
        &&& -0x1_0000_0000_0000 <= self.width <= 0x1_0000_0000_0000
        &&& -0x1_0000_0000_0000 <= self.height <= 0x1_0000_0000_0000
    }

    /// The rectangle covers the pixel at `x` and `y`. Its right and bottom
    /// edges lie outside.
    pub open spec fn covers(&self, x: int, y: int) -> bool {
        self.x <= x < self.x + self.width && self.y <= y < self.y + self.height
    }
}

/// Quotient of two non-negative integers, rounded to nearest with halves up.
pub open spec fn round_div(n: int, d: int) -> int {
    (2 * n + d) / (2 * d)
}

/// Quotient rounded towards zero.
pub open spec fn trunc_div(n: int, d: int) -> int {
    if n >= 0 {
        n / d
    } else {
        -((-n) / d)
    }
}

/// The smaller of two integers.
pub open spec fn min_int(a: int, b: int) -> int {
    if a <= b {
        a
    } else {
        b
    }
}

/// The larger of two integers.
pub open spec fn max_int(a: int, b: int) -> int {
    if a >= b {
        a
    } else {
        b
    }
}

/// An integer limited to the range between `low` and `high`.
pub open spec fn clamp_int(value: int, low: int, high: int) -> int {
    max_int(low, min_int(value, high))
}

/// DPI scale factor in 120ths.
#[derive(Copy, Clone, PartialEq, Eq, Debug)]
pub struct ScaleFactor {
    pub units: u32,
}

impl ScaleFactor {
    /// A scale factor is usable when it is positive.
    pub open spec fn wf(&self) -> bool {
        self.units >= 1
    }

    /// Scale factor from its count of 120ths.
    pub fn new(units: u32) -> (scale: Option<Self>)
        ensures
            units == 0 <==> scale is None,
            scale matches Some(s) ==> s.units == units && s.wf(),
    {
        if units == 0 {
            None
        } else {
            Some(Self { units })
        }
    }

    /// Scale factor of one.
    pub fn one() -> (scale: Self)
        ensures
            scale.units == SCALE_UNITS,
            scale.wf(),
    {
        Self { units: SCALE_UNITS }
    }

    /// Length in physical pixels of a logical pixel length.
    pub open spec fn scaled(&self, length: int) -> int {
        round_div(length * self.units, SCALE_UNITS as int)
    }

    /// Size in physical pixels of a logical size, each dimension limited to
    /// what a size can hold.
    pub open spec fn scaled_size(&self, size: Size<u32>) -> Size<u32> {
        Size {
            width: min_int(self.scaled(size.width as int), u32::MAX as int) as u32,
            height: min_int(self.scaled(size.height as int), u32::MAX as int) as u32,
        }
    }

    /// Scale a logical size to physical pixels.
    pub fn scale_size(&self, size: Size<u32>) -> (scaled: Size<u32>)
        ensures
            scaled == self.scaled_size(size),
    {
        let width = self.scale(size.width);
        let height = self.scale(size.height);
        Size {
            width: if width > 0xFFFF_FFFF {
                0xFFFF_FFFF
            } else {
                width as u32
            },
            height: if height > 0xFFFF_FFFF {
                0xFFFF_FFFF
            } else {
                height as u32
            },
        }
    }

    /// Length in whole logical pixels of a physical pixel length, rounded
    /// to nearest.
    pub open spec fn unscaled(&self, length: int) -> int {
        round_div(length * SCALE_UNITS, self.units as int)
    }

    /// Convert a physical pixel length to the nearest logical pixel.
    pub fn unscale(&self, length: u32) -> (unscaled: u64)
        requires
            self.wf(),
        ensures
            unscaled == self.unscaled(length as int),
            unscaled <= 120 * length + 1,
    {
        let product: u64 = (length as u64) * 120;
        let units = self.units as u64;
        let unscaled = (2 * product + units) / (2 * units);
        assert(unscaled <= product + 1) by (nonlinear_arith)
            requires
                unscaled == (2 * product + units) / (2 * units),
                units >= 1,
        ;
        unscaled
    }

    /// Position in physical units of a position in sub-pixel units.
    pub open spec fn scaled_position(&self, position: Position<i32>) -> Position<i64> {
        Position { x: (position.x * self.units) as i64, y: (position.y * self.units) as i64 }
    }

    /// Scale touch position by scale factor.
    pub fn scale_touch(&self, position: Position<i32>) -> (scaled: Position<i64>)
        ensures
            scaled == self.scaled_position(position),
            scaled.x == position.x * self.units,
            scaled.y == position.y * self.units,
    {
        assert(-0x8000_0000 * 0xFFFF_FFFF <= position.x * self.units <= 0x8000_0000 * 0xFFFF_FFFF)
            by (nonlinear_arith)
            requires
                -0x8000_0000 <= position.x <= 0x8000_0000,
                0 <= self.units <= 0xFFFF_FFFF,
        ;
        assert(-0x8000_0000 * 0xFFFF_FFFF <= position.y * self.units <= 0x8000_0000 * 0xFFFF_FFFF)
            by (nonlinear_arith)
            requires
                -0x8000_0000 <= position.y <= 0x8000_0000,
                0 <= self.units <= 0xFFFF_FFFF,
        ;
        Position {
            x: (position.x as i64) * (self.units as i64),
            y: (position.y as i64) * (self.units as i64),
        }
    }

    /// Scale a logical pixel length to the nearest physical pixel.
    pub fn scale(&self, length: u32) -> (scaled: u64)
        ensures
            scaled == self.scaled(length as int),
    {
        assert((length as u128) * (self.units as u128) <= 0xFFFF_FFFE_0000_0001) by (nonlinear_arith)
            requires
                length <= 0xFFFF_FFFF,
                self.units <= 0xFFFF_FFFF,
        ;
        let product: u128 = (length as u128) * (self.units as u128);
        ((2 * product + 120) / 240) as u64
    }
}

/// Share of a whole between zero and one, as a quotient of two integers.
#[derive(Copy, Clone, PartialEq, Eq, Debug)]
pub struct Fraction {
    pub num: u64,
    pub den: u64,
}

impl Fraction {
    /// A fraction has a positive denominator and lies between zero and one.
    pub open spec fn wf(&self) -> bool {
        self.den >= 1 && self.num <= self.den
    }

    /// Two fractions stand for the same number.
    pub open spec fn same(&self, other: Fraction) -> bool {
        self.num * other.den == other.num * self.den
    }

    /// The fraction of `steps`, rounded to the nearest whole step.
    pub open spec fn rounded(&self, steps: int) -> int {
        round_div(steps * self.num, self.den as int)
    }

    /// The fraction of `length`, rounded down.
    pub open spec fn floored(&self, length: int) -> int {
        (length * self.num) / (self.den as int)
    }

    /// The empty share.
    pub fn zero() -> (fraction: Self)
        ensures
            fraction.num == 0,
            fraction.den == 1,
            fraction.wf(),
    {
        Self { num: 0, den: 1 }
    }

    /// The full share.
    pub fn one() -> (fraction: Self)
        ensures
            fraction.num == 1,
            fraction.den == 1,
            fraction.wf(),
    {
        Self { num: 1, den: 1 }
    }

    /// Quotient of `num` and `den`, limited to the range from zero to one.
    ///
    /// A denominator that is not positive gives the full share.
    pub fn clamped(num: i128, den: i128) -> (fraction: Self)
        requires
            den <= u64::MAX,
        ensures
            fraction.wf(),
            den >= 1 ==> fraction.den == den && fraction.num == clamp_int(num as int, 0, den as int),
            den < 1 ==> fraction.num == 1 && fraction.den == 1,
    {
        if den < 1 {
            Self { num: 1, den: 1 }
        } else if num < 0 {
            Self { num: 0, den: den as u64 }
        } else if num > den {
            Self { num: den as u64, den: den as u64 }
        } else {
            Self { num: num as u64, den: den as u64 }
        }
    }

    /// Check whether two fractions stand for the same number.
    pub fn equals(&self, other: &Fraction) -> (equal: bool)
        ensures
            equal == self.same(*other),
    {
        assert(self.num * other.den <= 0xFFFF_FFFF_FFFF_FFFF * 0xFFFF_FFFF_FFFF_FFFF) by (nonlinear_arith)
            requires
                self.num <= 0xFFFF_FFFF_FFFF_FFFF,
                other.den <= 0xFFFF_FFFF_FFFF_FFFF,
        ;
        assert(other.num * self.den <= 0xFFFF_FFFF_FFFF_FFFF * 0xFFFF_FFFF_FFFF_FFFF) by (nonlinear_arith)
            requires
                other.num <= 0xFFFF_FFFF_FFFF_FFFF,
                self.den <= 0xFFFF_FFFF_FFFF_FFFF,
        ;
        (self.num as u128) * (other.den as u128) == (other.num as u128) * (self.den as u128)
    }

    /// Take the fraction of `steps`, rounded to the nearest whole step.
    pub fn round_to(&self, steps: u32) -> (step: u32)
        requires
            self.wf(),
        ensures
            step == self.rounded(steps as int),
            step <= steps,
    {
        let num = self.num as u128;
        let den = self.den as u128;
        assert(steps * num <= steps * den) by (nonlinear_arith)
            requires
                num <= den,
        ;
        assert(steps * den <= 0xFFFF_FFFF * 0xFFFF_FFFF_FFFF_FFFF) by (nonlinear_arith)
            requires
                steps <= 0xFFFF_FFFF,
                den <= 0xFFFF_FFFF_FFFF_FFFF,
        ;
        let scaled: u128 = (steps as u128) * num;
        let step = (2 * scaled + den) / (2 * den);
        assert(step <= steps) by (nonlinear_arith)
            requires
                step == (2 * scaled + den) / (2 * den),
                scaled <= steps * den,
                den >= 1,
        ;
        step as u32
    }

    /// Take the fraction of `length`, rounded down.
    pub fn floor_of(&self, length: u32) -> (part: u32)
        requires
            self.wf(),
        ensures
            part == self.floored(length as int),
            part <= length,
    {
        let num = self.num as u128;
        let den = self.den as u128;
        assert(length * num <= length * den) by (nonlinear_arith)
            requires
                num <= den,
        ;
        assert(length * den <= 0xFFFF_FFFF * 0xFFFF_FFFF_FFFF_FFFF) by (nonlinear_arith)
            requires
                length <= 0xFFFF_FFFF,
                den <= 0xFFFF_FFFF_FFFF_FFFF,
        ;
        let scaled: u128 = (length as u128) * num;
        let part = scaled / den;
        assert(part <= length) by (nonlinear_arith)
            requires
                part == scaled / den,
                scaled <= length * den,
                den >= 1,
        ;
        part as u32
    }
}

} // verus!
