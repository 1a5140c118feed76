use epitaph::config::{Color, ColorError, Colors, Config, Input, Layout};

#[test]
fn color_channels() {
    let color = Color::new(1, 2, 3);
    assert_eq!((color.r, color.g, color.b), (1, 2, 3));
    assert_eq!(color.as_u8(), [1, 2, 3, 255]);
}

#[test]
fn default_configuration() {
    let config = Config::default();
    assert_eq!(config.colors, Colors::default());
    assert_eq!(config.input, Input::default());
    assert_eq!(config.colors.bg, Color::new(24, 24, 24));
    assert_eq!(config.colors.module_active, Color::new(85, 85, 85));
    assert_eq!(config.colors.module_inactive, Color::new(51, 51, 51));
    assert_eq!(config.colors.volume_bg, Color::new(117, 42, 42));
    assert_eq!(config.colors.volume_bad_bg, Color::new(255, 0, 0));
    assert_eq!(config.layout, Layout::default());
    assert_eq!(config.layout, Layout { panel_height: 20, module_padding: 16, edge_padding: 24 });
    assert_eq!(config.input.multi_tap_interval, 200);
    // 400 square pixels.
    assert_eq!(config.input.max_tap_distance, 400 * 256 * 256);
}

#[test]
fn hex_colors_are_read() {
    assert_eq!(Color::from_hex("#ff00ff"), Ok(Color::new(255, 0, 255)));
    assert_eq!(Color::from_hex("#181818"), Ok(Color::new(24, 24, 24)));
    assert_eq!(Color::from_hex("#AbCdEf"), Ok(Color::new(0xAB, 0xCD, 0xEF)));
    assert_eq!(Color::from_hex("#000000"), Ok(Color::new(0, 0, 0)));
    assert_eq!(Color::from_hex("#0a1B9f"), Ok(Color::new(0x0A, 0x1B, 0x9F)));
    assert_eq!(Color::from_hex("#+12345"), Ok(Color::new(0x01, 0x23, 0x45)));
}

#[test]
fn color_without_prefix_is_refused() {
    assert_eq!(Color::from_hex("ff00ff"), Err(ColorError::MissingPrefix));
    assert_eq!(Color::from_hex(""), Err(ColorError::MissingPrefix));
    assert_eq!(Color::from_hex(" #ff00ff"), Err(ColorError::MissingPrefix));
}

#[test]
fn color_of_wrong_length_is_refused() {
    assert_eq!(Color::from_hex("#"), Err(ColorError::WrongLength { digits: 0 }));
    assert_eq!(Color::from_hex("#fff"), Err(ColorError::WrongLength { digits: 3 }));
    assert_eq!(Color::from_hex("#ff00ff00"), Err(ColorError::WrongLength { digits: 8 }));
    // Digits are counted in bytes.
    assert_eq!(Color::from_hex("#ééé"), Err(ColorError::NonHexDigits));
}

#[test]
fn color_with_other_characters_is_refused() {
    assert_eq!(Color::from_hex("#ff00fg"), Err(ColorError::NonHexDigits));
    assert_eq!(Color::from_hex("#-12345"), Err(ColorError::NonHexDigits));
    assert_eq!(Color::from_hex("#1+2345"), Err(ColorError::NonHexDigits));
    assert_eq!(Color::from_hex("#ff 0ff"), Err(ColorError::NonHexDigits));
    assert_eq!(Color::from_hex("#ff00f@"), Err(ColorError::NonHexDigits));
    assert_eq!(Color::from_hex("#ff00f`"), Err(ColorError::NonHexDigits));
    assert_eq!(Color::from_hex("#/f00ff"), Err(ColorError::NonHexDigits));
    assert_eq!(Color::from_hex("#:f00ff"), Err(ColorError::NonHexDigits));
}
