use epitaph::config::Layout;
use epitaph::drawer::positioner::ModulePositioner;
use epitaph::geometry::{Fraction, Position, ScaleFactor, Size};
use epitaph::module::brightness::Brightness;
use epitaph::module::flashlight::Flashlight;
use epitaph::module::orientation::Orientation;
use epitaph::module::registry::Module;
use epitaph::module::scale::Scale;
use epitaph::module::DrawerModule;
use epitaph::panel::PANEL_HEIGHT;

fn modules() -> Vec<Module> {
    Module::all(Brightness { brightness: Fraction::one() })
}

fn physical(x: i64, y: i64) -> Position<i64> {
    Position { x: x * 30720, y: y * 30720 }
}

#[test]
fn grid_at_scale_one() {
    let positioner = ModulePositioner::new(Size::new(360, 720), ScaleFactor::one());
    assert_eq!(positioner.panel_height, PANEL_HEIGHT as i64);
    assert_eq!(positioner.module_size, 64);
    assert_eq!(positioner.module_padding, 16);
    assert_eq!(positioner.columns, 4);
    assert_eq!(positioner.edge_padding, 28);
    assert_eq!(positioner.slider_size, Size::new(304, 48));
    assert_eq!(positioner.size, Size::new(360, 720));
}

#[test]
fn grid_at_scale_two() {
    let positioner = ModulePositioner::new(Size::new(720, 1440), ScaleFactor::new(240).unwrap());
    assert_eq!(positioner.panel_height, 40);
    assert_eq!(positioner.module_size, 128);
    assert_eq!(positioner.module_padding, 32);
    assert_eq!(positioner.columns, 4);
    assert_eq!(positioner.edge_padding, 56);
    assert_eq!(positioner.slider_size, Size::new(608, 96));
}

#[test]
fn grid_splits_remainder_evenly() {
    let positioner = ModulePositioner::new(Size::new(400, 720), ScaleFactor::one());
    assert_eq!(positioner.columns, 4);
    assert_eq!(positioner.edge_padding, 48);
    assert_eq!(positioner.slider_size.width, 400 - 2 * 48);
}

#[test]
fn grid_limits_window_dimensions() {
    let positioner = ModulePositioner::new(Size::new(100_000, 100_000), ScaleFactor::one());
    assert_eq!(positioner.size, Size::new(32767, 32767));
}

#[test]
fn position_is_cell_origin_below_panel() {
    let positioner = ModulePositioner::new(Size::new(720, 1440), ScaleFactor::new(240).unwrap());
    assert_eq!(positioner.position(0, 0), (56, 96));
    assert_eq!(positioner.position(1, 2), (216, 416));
    assert_eq!(positioner.position(3, 0), (536, 96));
}

#[test]
fn narrow_window_has_no_column() {
    let positioner = ModulePositioner::new(Size::new(100, 720), ScaleFactor::one());
    assert_eq!(positioner.columns, 0);
    assert_eq!(positioner.edge_padding, 58);
    // Each module gets a row of its own.
    let mut column = 0;
    let mut row = 0;
    let first = positioner.place(&mut column, &mut row, Some(DrawerModule::Toggle)).unwrap();
    let second = positioner.place(&mut column, &mut row, Some(DrawerModule::Toggle)).unwrap();
    assert_eq!((first.x, first.y), (58, 78));
    assert_eq!((second.x, second.y), (58, 158));
    // No touch hits a module.
    let modules = modules();
    assert_eq!(positioner.module_position(&modules, physical(60, 80)), None);
    assert_eq!(positioner.module_position(&modules, physical(70, 170)), None);
}

#[test]
fn sliders_take_a_row_and_break_the_line() {
    let positioner = ModulePositioner::new(Size::new(360, 720), ScaleFactor::one());
    let mut column = 0;
    let mut row = 0;
    let toggle = positioner.place(&mut column, &mut row, Some(DrawerModule::Toggle)).unwrap();
    assert_eq!((toggle.x, toggle.y, toggle.width, toggle.height), (28, 48, 64, 64));
    assert_eq!((column, row), (1, 0));
    let slider = positioner.place(&mut column, &mut row, Some(DrawerModule::Slider)).unwrap();
    assert_eq!((slider.x, slider.y, slider.width, slider.height), (28, 128, 304, 64));
    assert_eq!((column, row), (0, 2));
    assert_eq!(positioner.place(&mut column, &mut row, None), None);
    assert_eq!((column, row), (0, 2));
    let next = positioner.place(&mut column, &mut row, Some(DrawerModule::Toggle)).unwrap();
    assert_eq!((next.x, next.y), (28, 208));
}

#[test]
fn toggles_wrap_after_last_column() {
    let positioner = ModulePositioner::new(Size::new(360, 720), ScaleFactor::one());
    let mut column = 0;
    let mut row = 0;
    for expected in [28, 108, 188, 268] {
        let cell = positioner.place(&mut column, &mut row, Some(DrawerModule::Toggle)).unwrap();
        assert_eq!((cell.x, cell.y), (expected, 48));
    }
    assert_eq!((column, row), (0, 1));
}

#[test]
fn touch_hits_first_module_in_order() {
    let positioner = ModulePositioner::new(Size::new(720, 1440), ScaleFactor::new(240).unwrap());
    let modules = modules();
    let hit = positioner.module_position(&modules, physical(200, 200)).unwrap();
    assert_eq!(hit.index, 0);
    assert_eq!(hit.x, Fraction { num: 144 * 30720, den: 608 * 30720 });
    assert_eq!(hit.y, Fraction { num: 104 * 30720, den: 128 * 30720 });

    let hit = positioner.module_position(&modules, physical(200, 300)).unwrap();
    assert_eq!(hit.index, 1);
    // Cellular, wifi, orientation, flashlight and GPS toggles.
    assert_eq!(positioner.module_position(&modules, physical(56, 416)).unwrap().index, 3);
    assert_eq!(positioner.module_position(&modules, physical(216, 500)).unwrap().index, 4);
    assert_eq!(positioner.module_position(&modules, physical(400, 500)).unwrap().index, 6);
    assert_eq!(positioner.module_position(&modules, physical(600, 543)).unwrap().index, 7);
    assert_eq!(positioner.module_position(&modules, physical(100, 600)).unwrap().index, 8);
}

#[test]
fn touch_on_padding_misses() {
    let positioner = ModulePositioner::new(Size::new(720, 1440), ScaleFactor::new(240).unwrap());
    let modules = modules();
    // Edge padding.
    assert_eq!(positioner.module_position(&modules, physical(40, 200)), None);
    // Gap between two toggles.
    assert_eq!(positioner.module_position(&modules, physical(200, 450)), None);
    // Gap between two rows.
    assert_eq!(positioner.module_position(&modules, physical(200, 230)), None);
    // Panel band.
    assert_eq!(positioner.module_position(&modules, physical(200, 20)), None);
    // Right and bottom edge lie outside.
    assert_eq!(positioner.module_position(&modules, physical(184, 416)), None);
    assert_eq!(positioner.module_position(&modules, physical(100, 544)), None);
    // Below the last module.
    assert_eq!(positioner.module_position(&modules, physical(200, 1000)), None);
}

#[test]
fn fractions_follow_sub_pixel_position() {
    let positioner = ModulePositioner::new(Size::new(360, 720), ScaleFactor::one());
    let modules = vec![Module::Flashlight(Flashlight::new())];
    // Half a pixel right of the cell's left edge.
    let hit = positioner
        .module_position(&modules, Position { x: 28 * 30720 + 15360, y: 48 * 30720 })
        .unwrap();
    assert_eq!(hit.index, 0);
    assert_eq!(hit.x, Fraction { num: 15360, den: 64 * 30720 });
    assert_eq!(hit.y, Fraction { num: 0, den: 64 * 30720 });
}

#[test]
fn modules_without_drawer_part_take_no_cell() {
    let positioner = ModulePositioner::new(Size::new(360, 720), ScaleFactor::one());
    let modules = vec![
        Module::Orientation(Orientation::new()),
        Module::all(Brightness { brightness: Fraction::one() })[2],
        Module::Scale(Scale::new()),
    ];
    assert_eq!(positioner.module_position(&modules, physical(30, 50)).unwrap().index, 0);
    assert_eq!(positioner.module_position(&modules, physical(30, 130)).unwrap().index, 2);
    assert_eq!(positioner.module_position(&[].to_vec(), physical(30, 50)), None);
}

#[test]
fn grid_follows_configured_layout() {
    let layout = Layout { panel_height: 30, module_padding: 8, edge_padding: 0 };
    let positioner = ModulePositioner::with_layout(Size::new(360, 720), ScaleFactor::one(), layout);
    assert_eq!(positioner.panel_height, 30);
    assert_eq!(positioner.module_padding, 8);
    assert_eq!(positioner.columns, 5);
    assert_eq!(positioner.edge_padding, 4);
    assert_eq!(positioner.slider_size.width, 352);
    assert_eq!(positioner.position(1, 1), (76, 106));
    assert_eq!(
        ModulePositioner::with_layout(Size::new(360, 720), ScaleFactor::one(), Layout::default()),
        ModulePositioner::new(Size::new(360, 720), ScaleFactor::one())
    );
}
