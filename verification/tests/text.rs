use epitaph::geometry::ScaleFactor;
use epitaph::text::{
    rgb_to_rgba, Atlas, AtlasEntry, AtlasError, CacheKey, GlSubTexture, GlyphBitmap, Svg,
    TextureCache, ATLAS_SIZE,
};

fn entry(width: i32, height: i32) -> AtlasEntry {
    AtlasEntry::new_svg(Vec::new(), width as u32, height as u32)
}

#[test]
fn svgs_have_their_dimensions() {
    assert_eq!(Svg::BatteryCharging100.size(), (20, 13));
    assert_eq!(Svg::Battery20.size(), (20, 7));
    assert_eq!(Svg::WifiConnected50.size(), (20, 14));
    assert_eq!(Svg::WifiDisabled.size(), (20, 16));
    assert_eq!(Svg::Cellular0.size(), (20, 15));
    assert_eq!(Svg::CellularDisabled.size(), (20, 18));
    assert_eq!(Svg::Brightness.size(), (1, 1));
    assert_eq!(Svg::FlashlightOn.size(), (45, 75));
    assert_eq!(Svg::OrientationUnlocked.size(), (73, 65));
    assert_eq!(Svg::Scale.size(), (11, 7));
    assert_eq!(Svg::ArrowUp.size(), (64, 64));
    assert_eq!(Svg::ArrowDown.size(), (64, 64));
}

#[test]
fn svg_target_size_keeps_proportions() {
    let one = ScaleFactor::one();
    let two = ScaleFactor::new(240).unwrap();
    assert_eq!(Svg::Battery100.target_size(None, None, one), (20, 7));
    assert_eq!(Svg::Battery100.target_size(None, None, two), (40, 14));
    assert_eq!(Svg::Battery100.target_size(Some(20), None, two), (40, 14));
    assert_eq!(Svg::Battery100.target_size(Some(40), None, one), (40, 14));
    assert_eq!(Svg::FlashlightOn.target_size(None, Some(32), one), (19, 32));
    assert_eq!(Svg::FlashlightOn.target_size(None, Some(32), two), (38, 64));
    assert_eq!(Svg::Scale.target_size(Some(32), None, one), (32, 20));
    assert_eq!(Svg::Scale.target_size(Some(30), Some(10), two), (60, 20));
    assert_eq!(Svg::ArrowUp.target_size(None, Some(32), ScaleFactor::new(180).unwrap()), (48, 48));
    assert_eq!(Svg::Brightness.target_size(Some(u32::MAX), None, two), (u32::MAX, u32::MAX));
    assert_eq!(Svg::Scale.target_size(None, None, ScaleFactor::new(1).unwrap()), (0, 0));
}

#[test]
fn rgb_gets_opaque_alpha() {
    assert_eq!(rgb_to_rgba(&vec![]), Vec::<u8>::new());
    assert_eq!(rgb_to_rgba(&vec![1, 2, 3]), vec![1, 2, 3, 255]);
    assert_eq!(rgb_to_rgba(&vec![1, 2, 3, 4, 5, 6]), vec![1, 2, 3, 255, 4, 5, 6, 255]);
    // Bytes that make up no whole pixel are left out.
    assert_eq!(rgb_to_rgba(&vec![1, 2, 3, 4, 5]), vec![1, 2, 3, 255]);
    assert_eq!(rgb_to_rgba(&vec![1, 2]), Vec::<u8>::new());
}

#[test]
fn svg_entry_is_multicolor() {
    let entry = AtlasEntry::new_svg(vec![1, 2, 3, 4], 1, 1);
    assert_eq!(
        entry,
        AtlasEntry {
            buffer: vec![1, 2, 3, 4],
            width: 1,
            height: 1,
            top: 0,
            left: 0,
            advance: (1, 0),
            multicolor: true,
        }
    );
}

#[test]
fn glyph_entry_keeps_metrics() {
    let entry = AtlasEntry::from_glyph(GlyphBitmap::Rgb(vec![9, 8, 7]), 1, 1, 12, -1, (7, 0));
    assert_eq!(
        entry,
        AtlasEntry {
            buffer: vec![9, 8, 7, 255],
            width: 1,
            height: 1,
            top: 12,
            left: -1,
            advance: (7, 0),
            multicolor: false,
        }
    );
    let entry = AtlasEntry::from_glyph(GlyphBitmap::Rgba(vec![9, 8, 7, 6]), 1, 1, 0, 0, (7, 1));
    assert_eq!(entry.buffer, vec![9, 8, 7, 6]);
    assert!(entry.multicolor);
    assert_eq!(entry.advance, (7, 1));
}

#[test]
fn cache_keys_tell_entries_apart() {
    assert_eq!(CacheKey::Character('a'), CacheKey::Character('a'));
    assert_ne!(CacheKey::Character('a'), CacheKey::Character('b'));
    assert_ne!(CacheKey::Svg((Svg::Scale, 1, 2)), CacheKey::Svg((Svg::Scale, 2, 1)));
}

#[test]
fn atlas_fills_rows_from_the_left() {
    let mut atlas = Atlas::new();
    let first = atlas.insert(&entry(1000, 50)).unwrap();
    assert_eq!((first.texture, first.atlas_x, first.atlas_y), (0, 0, 0));
    assert_eq!((first.width, first.height), (1000, 50));
    assert_eq!(first.advance, (1000, 0));
    assert!(first.multicolor);
    let second = atlas.insert(&entry(2000, 80)).unwrap();
    assert_eq!((second.texture, second.atlas_x, second.atlas_y), (0, 1000, 0));
    let third = atlas.insert(&entry(1096, 20)).unwrap();
    assert_eq!((third.texture, third.atlas_x, third.atlas_y), (0, 3000, 0));
    assert_eq!(atlas, Atlas { textures: 1, row_height: 80, cursor_x: 4096, cursor_y: 0 });

    // The row is full: the next row starts above its tallest entry.
    let fourth = atlas.insert(&entry(1, 1)).unwrap();
    assert_eq!((fourth.texture, fourth.atlas_x, fourth.atlas_y), (0, 0, 80));
    assert_eq!(atlas, Atlas { textures: 1, row_height: 1, cursor_x: 1, cursor_y: 80 });
}

#[test]
fn atlas_opens_new_texture_when_full() {
    let mut atlas = Atlas::new();
    atlas.insert(&entry(100, 4000)).unwrap();
    let tall = atlas.insert(&entry(100, 4096)).unwrap();
    assert_eq!((tall.texture, tall.atlas_x, tall.atlas_y), (0, 100, 0));
    // Neither the row nor the texture has room for this one.
    let next = atlas.insert(&entry(4000, 10)).unwrap();
    assert_eq!((next.texture, next.atlas_x, next.atlas_y), (1, 0, 0));
    assert_eq!(atlas, Atlas { textures: 2, row_height: 10, cursor_x: 4000, cursor_y: 0 });

    let mut atlas = Atlas { textures: 1, row_height: 10, cursor_x: 10, cursor_y: 4000 };
    let next = atlas.insert(&entry(10, 97)).unwrap();
    assert_eq!((next.texture, next.atlas_x, next.atlas_y), (1, 0, 0));
}

#[test]
fn atlas_refuses_huge_entries() {
    let mut atlas = Atlas::new();
    let before = atlas;
    assert_eq!(atlas.insert(&entry(ATLAS_SIZE + 1, 1)), Err(AtlasError::TooBig));
    assert_eq!(atlas.insert(&entry(1, ATLAS_SIZE + 1)), Err(AtlasError::TooBig));
    assert_eq!(atlas, before);
    assert_eq!(AtlasError::TooBig.message(), "glyph too big for atlas");
    let full = atlas.insert(&entry(ATLAS_SIZE, ATLAS_SIZE)).unwrap();
    assert_eq!((full.texture, full.atlas_x, full.atlas_y), (0, 0, 0));
}

#[test]
fn atlas_entries_do_not_overlap() {
    let mut atlas = Atlas::new();
    let sizes = [(700, 300), (1500, 900), (2400, 100), (3000, 3000), (50, 50), (4096, 200), (1, 4096)];
    let mut placed: Vec<GlSubTexture> = Vec::new();
    for round in 0..4 {
        for (width, height) in sizes {
            let texture = atlas.insert(&entry((width + round).min(ATLAS_SIZE), height)).unwrap();
            assert!(texture.atlas_x + texture.width as i32 <= ATLAS_SIZE);
            assert!(texture.atlas_y + texture.height as i32 <= ATLAS_SIZE);
            for other in &placed {
                let apart = other.texture != texture.texture
                    || other.atlas_x + other.width as i32 <= texture.atlas_x
                    || texture.atlas_x + texture.width as i32 <= other.atlas_x
                    || other.atlas_y + other.height as i32 <= texture.atlas_y
                    || texture.atlas_y + texture.height as i32 <= other.atlas_y;
                assert!(apart);
            }
            placed.push(texture);
        }
    }
}

#[test]
fn cache_keys_have_codes_of_their_own() {
    let keys = [
        CacheKey::Character('\0'),
        CacheKey::Character('a'),
        CacheKey::Character(char::MAX),
        CacheKey::Svg((Svg::BatteryCharging100, 0, 0)),
        CacheKey::Svg((Svg::BatteryCharging100, 0, 1)),
        CacheKey::Svg((Svg::BatteryCharging100, 1, 0)),
        CacheKey::Svg((Svg::BatteryCharging80, 0, 0)),
        CacheKey::Svg((Svg::BatteryCharging100, u32::MAX, u32::MAX)),
        CacheKey::Svg((Svg::ArrowDown, u32::MAX, u32::MAX)),
    ];
    for (index, key) in keys.iter().enumerate() {
        for other in &keys[index + 1..] {
            assert_ne!(key.encode(), other.encode());
        }
    }
    assert_eq!(CacheKey::Character('a').encode(), 97);
    assert_eq!(CacheKey::Svg((Svg::BatteryCharging100, 0, 0)).encode(), 1 << 96);
    assert_eq!(
        CacheKey::Svg((Svg::BatteryCharging80, 2, 3)).encode(),
        (1 << 96) + (1 << 64) + (2 << 32) + 3
    );
    assert_eq!(Svg::BatteryCharging100.number(), 0);
    assert_eq!(Svg::ArrowDown.number(), 37);
}

#[test]
fn cache_finds_stored_subtextures() {
    let scale = ScaleFactor::new(240).unwrap();
    let mut cache = TextureCache::new(scale);
    let text = CacheKey::Character('a');
    let icon = cache.svg_key(Svg::Battery100, Some(20), None);
    assert_eq!(icon, CacheKey::Svg((Svg::Battery100, 40, 14)));
    assert_eq!(cache.get(text), None);
    assert_eq!(cache.get(icon), None);

    let first = cache.insert(text, &entry(10, 20)).unwrap();
    assert_eq!((first.atlas_x, first.atlas_y), (0, 0));
    assert_eq!(cache.get(text), Some(first));
    assert_eq!(cache.get(icon), None);
    let second = cache.insert(icon, &entry(40, 14)).unwrap();
    assert_eq!((second.atlas_x, second.atlas_y), (10, 0));
    assert_eq!(cache.get(icon), Some(second));
    assert_eq!(cache.get(text), Some(first));
    assert_eq!(cache.get(CacheKey::Character('b')), None);

    assert_eq!(cache.insert(CacheKey::Character('c'), &entry(5000, 1)), Err(AtlasError::TooBig));
    assert_eq!(cache.get(CacheKey::Character('c')), None);
    assert_eq!(cache.atlas.cursor_x, 50);
}

#[test]
fn cache_is_cleared_when_scale_changes() {
    let scale = ScaleFactor::new(240).unwrap();
    let mut cache = TextureCache::new(scale);
    cache.insert(CacheKey::Character('a'), &entry(10, 20)).unwrap();
    assert!(!cache.set_scale_factor(scale));
    assert!(cache.get(CacheKey::Character('a')).is_some());
    assert_eq!(cache.atlas.cursor_x, 10);

    assert!(cache.set_scale_factor(ScaleFactor::one()));
    assert_eq!(cache.get(CacheKey::Character('a')), None);
    assert_eq!(cache.atlas, Atlas::new());
    assert_eq!(cache.scale_factor, ScaleFactor::one());
    assert_eq!(cache.svg_key(Svg::Battery100, Some(20), None), CacheKey::Svg((Svg::Battery100, 20, 7)));
}
