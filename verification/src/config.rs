//! Configuration options.

use vstd::prelude::*;
use vstd::string::StringSliceAdditionalSpecFns;

verus! {

/// Shell configuration.
#[derive(Copy, Clone, PartialEq, Eq, Debug)]
pub struct Config {
    pub colors: Colors,
    pub input: Input,
    pub layout: Layout,
}

impl Default for Config {
    fn default() -> (config: Self)
        ensures
            config == Config::initial(),
    {
        Self { colors: Colors::default(), input: Input::default(), layout: Layout::default() }
    }
}

impl Config {
    /// Configuration used when nothing else is set.
    pub open spec fn initial() -> Config {
        Config { colors: Colors::initial(), input: Input::initial(), layout: Layout::initial() }
    }
}

/// Color configuration.
#[derive(Copy, Clone, PartialEq, Eq, Debug)]
pub struct Colors {
    /// Background color.
    pub bg: Color,
    /// Active module background.
    pub module_active: Color,
    /// Inactive module background.
    pub module_inactive: Color,
    /// Volume overlay background.
    pub volume_bg: Color,
    /// Volume overlay background when over 100%.
    pub volume_bad_bg: Color,
}

impl Colors {
    /// Colors used when nothing else is set.
    pub open spec fn initial() -> Colors {
        Colors {
            bg: Color { r: 24, g: 24, b: 24 },
            module_active: Color { r: 85, g: 85, b: 85 },
            module_inactive: Color { r: 51, g: 51, b: 51 },
            volume_bg: Color { r: 117, g: 42, b: 42 },
            volume_bad_bg: Color { r: 255, g: 0, b: 0 },
        }
    }
}

impl Default for Colors {
    fn default() -> (colors: Self)
        ensures
            colors == Colors::initial(),
    {
        Self {
            bg: Color::new(24, 24, 24),
            module_active: Color::new(85, 85, 85),
            module_inactive: Color::new(51, 51, 51),
            volume_bg: Color::new(117, 42, 42),
            volume_bad_bg: Color::new(255, 0, 0),
        }
    }
}

/// Input configuration.
#[derive(Copy, Clone, PartialEq, Eq, Debug)]
pub struct Input {
    /// Square of the maximum distance in physical pixels before touch input
    /// is considered a drag, in squared sub-pixel units.
    pub max_tap_distance: u64,
    /// Maximum time between taps to be considered a double-tap, in
    /// milliseconds.
    pub multi_tap_interval: u64,
}

impl Input {
    /// Input settings used when nothing else is set.
    pub open spec fn initial() -> Input {
        Input { max_tap_distance: 26_214_400, multi_tap_interval: 200 }
    }
}

impl Default for Input {
    fn default() -> (input: Self)
        ensures
            input == Input::initial(),
    {
        Self { max_tap_distance: 26_214_400, multi_tap_interval: 200 }
    }
}

/// Layout configuration, in logical pixels.
#[derive(Copy, Clone, PartialEq, Eq, Debug)]
pub struct Layout {
    /// Height of the panel.
    pub panel_height: u32,
    /// Padding between drawer modules.
    pub module_padding: u32,
    /// Drawer padding to the screen edges.
    pub edge_padding: u32,
}

impl Layout {
    /// Layout used when nothing else is set.
    pub open spec fn initial() -> Layout {
        Layout { panel_height: 20, module_padding: 16, edge_padding: 24 }
    }
}

impl Default for Layout {
    fn default() -> (layout: Self)
        ensures
            layout == Layout::initial(),
    {
        Self { panel_height: 20, module_padding: 16, edge_padding: 24 }
    }
}

/// RGB color.
#[derive(Copy, Clone, PartialEq, Eq, Debug)]
pub struct Color {
    pub r: u8,
    pub g: u8,
    pub b: u8,
}

impl Color {
    /// Color of a red, a green and a blue channel.
    pub fn new(r: u8, g: u8, b: u8) -> (color: Self)
        ensures
            color == (Color { r, g, b }),
    {
        Self { r, g, b }
    }

    /// Channels of the color followed by full opacity.
    pub fn as_u8(&self) -> (channels: [u8; 4])
        ensures
            channels@ == seq![self.r, self.g, self.b, 255u8],
    {
        [self.r, self.g, self.b, 255]
    }
}

/// Reason for which a text is no color.
#[derive(Copy, Clone, PartialEq, Eq, Structural, Debug)]
pub enum ColorError {
    /// The text does not start with `#`.
    MissingPrefix,
    /// The text has another number of digits than six.
    WrongLength { digits: usize },
    /// The text holds something else than hex digits.
    NonHexDigits,
}

/// Value of a hex digit.
pub open spec fn hex_value(byte: u8) -> Option<u8> {
    if 0x30 <= byte <= 0x39 {
        Some((byte - 0x30) as u8)
    } else if 0x41 <= byte <= 0x46 {
        Some((byte - 0x41 + 10) as u8)
    } else if 0x61 <= byte <= 0x66 {
        Some((byte - 0x61 + 10) as u8)
    } else {
        None
    }
}

/// Value of the digit at `index` of a color's six digits, which follow the
/// leading `#`. A plus sign in place of the first digit counts as zero.
pub open spec fn color_digit(bytes: Seq<u8>, index: int) -> Option<u8> {
    if index == 0 && bytes[1] == 0x2B {
        Some(0u8)
    } else {
        hex_value(bytes[1 + index])
    }
}

/// Color that a text stands for: a `#` followed by two hex digits each for
/// red, green and blue.
pub open spec fn parsed_color(bytes: Seq<u8>) -> Result<Color, ColorError> {
    if bytes.len() == 0 || bytes[0] != 0x23 {
        Err(ColorError::MissingPrefix)
    } else if bytes.len() != 7 {
        Err(ColorError::WrongLength { digits: (bytes.len() - 1) as usize })
    } else if exists|i: int| 0 <= i < 6 && (#[trigger] color_digit(bytes, i)) is None {
        Err(ColorError::NonHexDigits)
    } else {
        Ok(
            Color {
                r: (color_digit(bytes, 0)->0 * 16 + color_digit(bytes, 1)->0) as u8,
                g: (color_digit(bytes, 2)->0 * 16 + color_digit(bytes, 3)->0) as u8,
                b: (color_digit(bytes, 4)->0 * 16 + color_digit(bytes, 5)->0) as u8,
            },
        )
    }
}

/// Get the value of a hex digit.
fn hex_digit(byte: u8) -> (value: Option<u8>)
    ensures
        value == hex_value(byte),
        value matches Some(v) ==> v < 16,
{
    if 0x30 <= byte && byte <= 0x39 {
        Some(byte - 0x30)
    } else if 0x41 <= byte && byte <= 0x46 {
        Some(byte - 0x41 + 10)
    } else if 0x61 <= byte && byte <= 0x66 {
        Some(byte - 0x61 + 10)
    } else {
        None
    }
}

impl Color {
    /// Read an RGB color from a hex string like `#ff00ff`.
    pub fn from_hex(value: &str) -> (color: Result<Color, ColorError>)
        ensures
            color == parsed_color(value.spec_bytes()),
    {
        let bytes = value.as_bytes();
        if bytes.len() == 0 || bytes[0] != 0x23 {
            return Err(ColorError::MissingPrefix);
        }
        let digits = bytes.len() - 1;
        if digits != 6 {
            return Err(ColorError::WrongLength { digits });
        }
        let mut channels: [u8; 6] = [0; 6];
        let mut i: usize = 0;
        while i < 6
            invariant
                0 <= i <= 6,
                bytes@ == value.spec_bytes(),
                bytes@.len() == 7,
                bytes@[0] == 0x23,
                forall|k: int| 0 <= k < i ==> color_digit(bytes@, k) == Some(#[trigger] channels@[k]),
                forall|k: int| 0 <= k < i ==> channels@[k] < 16,
            decreases 6 - i,
        {
            let digit = if i == 0 && bytes[1] == 0x2B {
                Some(0)
            } else {
                hex_digit(bytes[1 + i])
            };
            match digit {
                Some(digit) => {
                    channels[i] = digit;
                },
                None => {
                    let ghost missing = i as int;
                    assert(0 <= missing < 6 && color_digit(bytes@, missing) is None);
                    return Err(ColorError::NonHexDigits);
                },
            }
            i += 1;
        }
        assert(forall|k: int| 0 <= k < 6 ==> color_digit(bytes@, k) == Some(#[trigger] channels@[k]));
        Ok(
            Color::new(
                channels[0] * 16 + channels[1],
                channels[2] * 16 + channels[3],
                channels[4] * 16 + channels[5],
            ),
        )
    }
}

} // verus!
