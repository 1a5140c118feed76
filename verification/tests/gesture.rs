use epitaph::config::Input;
use epitaph::drawer::Drawer;
use epitaph::geometry::{Position, ScaleFactor, Size};
use epitaph::gesture::{Release, TouchSession};

fn logical(x: i32, y: i32) -> Position<i32> {
    Position { x: x * 256, y: y * 256 }
}

fn drawer() -> Drawer {
    let mut drawer = Drawer::new();
    drawer.set_scale_factor(ScaleFactor::new(240).unwrap());
    drawer.reconfigure(Size::new(360, 720));
    drawer
}

#[test]
fn begin_records_the_touch() {
    let mut session = TouchSession::new();
    session.begin(4, logical(10, 20), true);
    assert_eq!(session.active_touch, Some(4));
    assert_eq!(session.touch_start, logical(10, 20));
    assert_eq!(session.last_touch_y, 20 * 256);
    assert!(session.drawer_opening);
    assert_eq!(session.last_tap, None);
    assert_eq!(session.tap_timeout, None);
}

#[test]
fn motion_within_tap_distance_is_no_drag() {
    let input = Input::default();
    let mut session = TouchSession::new();
    let mut drawer = drawer();
    drawer.offset = 12345;
    let before = drawer;
    session.begin(4, logical(100, 10), true);
    let began = session;

    // Exactly at the threshold of 20 physical pixels, which are 10 logical ones.
    for position in [logical(100, 20), logical(110, 10), logical(94, 18), logical(100, 0)] {
        assert!(!session.motion(&mut drawer, &input, 4, position));
        assert_eq!(drawer, before);
        assert_eq!(session, began);
        assert!(!drawer.offsetting);
    }
    assert_ne!(session.up(&drawer, &input, Some(720), 4, 0), Release::Animate);
    assert_eq!(drawer.offset, 12345);
}

#[test]
fn motion_beyond_tap_distance_drags() {
    let input = Input::default();
    let mut session = TouchSession::new();
    let mut drawer = drawer();
    session.begin(4, logical(100, 10), true);

    // One sub-pixel unit beyond the threshold.
    assert!(session.motion(&mut drawer, &input, 4, Position { x: 100 * 256, y: 20 * 256 + 1 }));
    assert!(drawer.offsetting);
    assert_eq!(drawer.offset, 10 * 256 + 1);
    assert_eq!(session.last_touch_y, 20 * 256 + 1);

    // Once the drawer is dragged, every motion moves it.
    assert!(session.motion(&mut drawer, &input, 4, logical(100, 12)));
    assert_eq!(drawer.offset, 2 * 256);
    assert!(session.motion(&mut drawer, &input, 4, logical(100, 112)));
    assert_eq!(drawer.offset, 102 * 256);

    assert_eq!(session.up(&drawer, &input, Some(720), 4, 0), Release::Animate);
    assert_eq!(session.active_touch, None);
    assert_eq!(session.last_tap, None);
}

#[test]
fn motion_of_other_touch_is_ignored() {
    let input = Input::default();
    let mut session = TouchSession::new();
    let mut drawer = drawer();
    let before = drawer;
    session.begin(4, logical(100, 10), true);
    assert!(!session.motion(&mut drawer, &input, 5, logical(100, 500)));
    assert_eq!(drawer, before);
    assert_eq!(session.up(&drawer, &input, Some(720), 5, 0), Release::Ignored);
    assert_eq!(session.active_touch, Some(4));
}

#[test]
fn tap_on_panel_starts_timer() {
    let input = Input::default();
    let drawer = drawer();
    let mut session = TouchSession::new();
    session.begin(4, logical(100, 20), true);
    assert_eq!(
        session.up(&drawer, &input, Some(720), 4, 1000),
        Release::SingleTap { delay: 200, open: true }
    );
    assert_eq!(session.tap_timeout, Some(true));
    assert_eq!(session.last_tap, Some(1000));
    assert_eq!(session.active_touch, None);
    assert_eq!(session.timeout(), Some(true));
    assert_eq!(session.timeout(), None);
}

#[test]
fn timer_delay_follows_configuration() {
    let drawer = drawer();
    let mut session = TouchSession::new();
    session.begin(4, logical(100, 20), false);
    let input = Input { multi_tap_interval: 350, ..Input::default() };
    assert_eq!(
        session.up(&drawer, &input, Some(720), 4, 1000),
        Release::SingleTap { delay: 350, open: false }
    );
    // The interval is read anew for the second tap.
    session.begin(5, logical(100, 20), false);
    let input = Input { multi_tap_interval: 100, ..Input::default() };
    assert_eq!(
        session.up(&drawer, &input, Some(720), 5, 1300),
        Release::SingleTap { delay: 100, open: false }
    );
}

#[test]
fn second_tap_in_time_is_double_tap() {
    let input = Input::default();
    let drawer = drawer();
    let mut session = TouchSession::new();
    session.begin(4, logical(100, 10), true);
    session.up(&drawer, &input, Some(720), 4, 1000);
    session.begin(5, logical(100, 10), true);
    assert_eq!(
        session.up(&drawer, &input, Some(720), 5, 1200),
        Release::DoubleTap { display_off: true }
    );
    assert_eq!(session.tap_timeout, None);
    assert_eq!(session.last_tap, None);
    assert_eq!(session.timeout(), None);

    // The next tap starts over.
    session.begin(6, logical(100, 10), true);
    assert_eq!(
        session.up(&drawer, &input, Some(720), 6, 1250),
        Release::SingleTap { delay: 200, open: true }
    );
}

#[test]
fn second_tap_too_late_is_single_tap() {
    let input = Input::default();
    let drawer = drawer();
    let mut session = TouchSession::new();
    session.begin(4, logical(100, 10), true);
    session.up(&drawer, &input, Some(720), 4, 1000);
    session.begin(5, logical(100, 10), true);
    assert_eq!(
        session.up(&drawer, &input, Some(720), 5, 1201),
        Release::SingleTap { delay: 200, open: true }
    );
    assert_eq!(session.last_tap, Some(1201));
}

#[test]
fn double_tap_below_panel_keeps_display_on() {
    let input = Input::default();
    let drawer = drawer();
    let mut session = TouchSession::new();
    session.begin(4, logical(100, 10), false);
    session.up(&drawer, &input, Some(720), 4, 1000);
    session.begin(5, logical(100, 300), false);
    assert_eq!(
        session.up(&drawer, &input, Some(720), 5, 1100),
        Release::DoubleTap { display_off: false }
    );
    assert_eq!(session.tap_timeout, None);
}

#[test]
fn tap_on_handle_closes_at_once() {
    let input = Input::default();
    let drawer = drawer();
    let mut session = TouchSession::new();
    session.begin(4, logical(100, 688), false);
    assert_eq!(session.up(&drawer, &input, Some(720), 4, 1000), Release::Close);
    assert_eq!(session.tap_timeout, None);
    assert_eq!(session.last_tap, Some(1000));

    // Right above the handle.
    let mut session = TouchSession::new();
    session.begin(4, Position { x: 100 * 256, y: 688 * 256 - 1 }, false);
    assert_eq!(session.up(&drawer, &input, Some(720), 4, 1000), Release::Tap);

    // Without a configured drawer there is no handle.
    let mut session = TouchSession::new();
    session.begin(4, logical(100, 700), false);
    assert_eq!(session.up(&drawer, &input, None, 4, 1000), Release::Tap);
}

#[test]
fn panel_band_ends_at_panel_height() {
    let input = Input::default();
    let drawer = drawer();
    let mut session = TouchSession::new();
    session.begin(4, Position { x: 0, y: 20 * 256 + 1 }, true);
    assert_eq!(session.up(&drawer, &input, Some(720), 4, 1000), Release::Tap);
}

#[test]
fn tap_distance_is_measured_in_physical_pixels() {
    let input = Input::default();
    let mut session = TouchSession::new();
    session.begin(4, logical(100, 10), true);
    let one = ScaleFactor::one();
    let two = ScaleFactor::new(240).unwrap();
    let three = ScaleFactor::new(360).unwrap();
    assert!(!session.beyond_tap(logical(100, 30), &input, one));
    assert!(session.beyond_tap(logical(100, 30), &input, two));
    assert!(!session.beyond_tap(logical(112, 26), &input, one));
    assert!(session.beyond_tap(Position { x: 112 * 256 + 1, y: 26 * 256 }, &input, one));
    assert!(!session.beyond_tap(logical(104, 7), &input, three));
    assert!(session.beyond_tap(logical(111, 10), &input, two));
    assert!(session.beyond_tap(Position { x: i32::MAX, y: i32::MIN }, &input, one));
    assert!(session.beyond_tap(
        Position { x: i32::MIN, y: i32::MAX },
        &Input { max_tap_distance: u64::MAX, ..input },
        ScaleFactor::new(u32::MAX).unwrap()
    ));
    assert!(!session.beyond_tap(
        Position { x: i32::MIN, y: i32::MAX },
        &Input { max_tap_distance: u64::MAX, ..input },
        one
    ));
    assert!(session.beyond_tap(
        Position { x: 100 * 256 + 1, y: 10 * 256 },
        &Input { max_tap_distance: 0, ..input },
        one
    ));
    assert!(!session.beyond_tap(logical(100, 10), &Input { max_tap_distance: 0, ..input }, one));
}
