use epitaph::config::{Config, Input, Layout};
use epitaph::dbus::network_manager::WifiConnection;
use epitaph::drawer::frame::DrawerDraw;
use epitaph::geometry::{Fraction, Position, ScaleFactor, Size};
use epitaph::module::brightness::Brightness;
use epitaph::module::registry::{Module, ModuleEvent};
use epitaph::module::Command;
use epitaph::panel::PanelDraw;
use epitaph::state::{State, Surface, TapTimer};

const FULL: i64 = 720 * 256;

fn logical(x: i32, y: i32) -> Position<i32> {
    Position { x: x * 256, y: y * 256 }
}

/// Shell with windows of 360x720 logical pixels at a scale factor of two.
fn state() -> State {
    let modules = Module::all(Brightness { brightness: Fraction::one() });
    let mut state = State::new(modules, Config::default());
    let scale = ScaleFactor::new(240).unwrap();
    state.scale_factor_changed(Surface::Panel, scale, 0);
    state.scale_factor_changed(Surface::Drawer, scale, 0);
    state.configure(Surface::Panel, Size::new(360, 20), 0);
    state.configure(Surface::Drawer, Size::new(360, 720), 0);
    state
}

/// Shell whose drawer is fully open.
fn open_state() -> State {
    let mut state = state();
    state.down(Surface::Panel, 1, logical(100, 10), 0);
    state.up(1, 10);
    state.tap_timeout(210);
    assert_eq!(state.drawer.offset, FULL);
    state
}

#[test]
fn windows_are_configured() {
    let state = state();
    assert_eq!(state.panel.size, Size::new(720, 40));
    assert_eq!(state.drawer.size, Size::new(720, 1440));
    assert_eq!(state.panel_height, Some(720));
    assert_eq!(state.drawer.max_offset(), FULL);
    assert!(!state.drawer.visible);
    assert!(!state.terminated);
}

#[test]
fn first_configure_draws_the_panel() {
    let modules = Module::all(Brightness { brightness: Fraction::one() });
    let mut state = State::new(modules, Config::default());
    let reaction = state.configure(Surface::Panel, Size::new(360, 20), 0);
    match reaction.panel {
        PanelDraw::Frame(frame) => {
            assert_eq!(frame.size, Size::new(360, 20));
            assert_eq!(frame.logical, Size::new(360, 20));
            assert_eq!(frame.background, Config::default().colors.bg);
            assert_eq!(frame.activity, None);
        },
        draw => panic!("unexpected outcome {draw:?}"),
    }
    assert_eq!(reaction.drawer, DrawerDraw::Skipped);
    assert!(state.panel.frame_pending);

    // The frame callback finds nothing new and stalls the panel.
    let reaction = state.draw(Surface::Panel, 16);
    assert_eq!(reaction.panel, PanelDraw::Skipped);
    assert!(state.panel.render.stalled);
}

#[test]
fn events_of_other_surfaces_are_ignored() {
    let mut state = state();
    let drawer = state.drawer;
    let reaction = state.down(Surface::Other, 1, logical(100, 10), 0);
    assert_eq!(reaction.drawer, DrawerDraw::Skipped);
    assert_eq!(reaction.panel, PanelDraw::Skipped);
    assert_eq!(state.session.active_touch, None);
    state.configure(Surface::Other, Size::new(1, 1), 0);
    state.draw(Surface::Other, 0);
    assert_eq!(state.drawer, drawer);
}

#[test]
fn panel_tap_opens_the_drawer() {
    let mut state = state();
    let reaction = state.down(Surface::Panel, 1, logical(100, 10), 0);
    assert!(state.drawer.visible);
    assert!(state.session.drawer_opening);
    assert_eq!(state.session.active_touch, Some(1));
    // A closed drawer covers nothing, so nothing is rendered yet.
    assert_eq!(reaction.drawer, DrawerDraw::Skipped);

    let reaction = state.up(1, 50);
    assert_eq!(reaction.tap_timer, TapTimer::Start { delay: 200 });
    assert_eq!(reaction.command, None);
    assert_eq!(state.drawer.offset, 0);

    let reaction = state.tap_timeout(250);
    assert_eq!(state.drawer.offset, FULL);
    assert_eq!(state.drawer.max_offset(), 720 * 256);
    assert!(state.drawer.visible);
    assert_eq!(state.drawer.last_animation_frame, None);
    match reaction.drawer {
        DrawerDraw::Frame(frame) => {
            assert_eq!(frame.y_offset, 0);
            assert_eq!(frame.size, Size::new(720, 1440));
        },
        draw => panic!("unexpected outcome {draw:?}"),
    }
}

#[test]
fn tap_on_open_drawers_panel_band_closes_it() {
    let mut state = open_state();
    let reaction = state.down(Surface::Drawer, 2, logical(100, 10), 1000);
    assert_eq!(reaction.command, None);
    assert_eq!(state.session.active_touch, Some(2));
    assert!(!state.session.drawer_opening);
    let reaction = state.up(2, 1010);
    assert_eq!(reaction.tap_timer, TapTimer::Start { delay: 200 });
    let reaction = state.tap_timeout(1210);
    assert_eq!(reaction.drawer, DrawerDraw::Hidden);
    assert_eq!(state.drawer.offset, 0);
    assert!(!state.drawer.visible);
}

#[test]
fn handle_tap_hides_the_drawer() {
    let mut state = open_state();
    state.down(Surface::Drawer, 2, logical(180, 700), 1000);
    let reaction = state.up(2, 1010);
    assert_eq!(reaction.drawer, DrawerDraw::Hidden);
    assert_eq!(reaction.tap_timer, TapTimer::Keep);
    assert_eq!(state.drawer.offset, 0);
    assert!(!state.drawer.visible);
}

#[test]
fn double_tap_cancels_single_tap_and_turns_display_off() {
    let mut state = state();
    state.down(Surface::Panel, 1, logical(100, 10), 0);
    let reaction = state.up(1, 10);
    assert_eq!(reaction.tap_timer, TapTimer::Start { delay: 200 });
    assert_eq!(state.session.tap_timeout, Some(true));

    state.down(Surface::Panel, 2, logical(100, 10), 100);
    let reaction = state.up(2, 210);
    assert_eq!(reaction.tap_timer, TapTimer::Cancel);
    assert_eq!(reaction.command, Some(Command::DisplayOff));
    assert_eq!(state.session.tap_timeout, None);

    // A timer that expires nevertheless does nothing.
    let reaction = state.tap_timeout(211);
    assert_eq!(reaction.drawer, DrawerDraw::Skipped);
    assert_eq!(reaction.command, None);
    assert_eq!(state.drawer.offset, 0);

    // The double-tap does not count towards another one.
    state.down(Surface::Panel, 3, logical(100, 10), 220);
    let reaction = state.up(3, 230);
    assert_eq!(reaction.tap_timer, TapTimer::Start { delay: 200 });
    assert_eq!(reaction.command, None);
}

#[test]
fn tap_interval_is_read_at_every_tap() {
    let mut state = state();
    state.down(Surface::Panel, 1, logical(100, 10), 0);
    state.set_config(
        Config {
            input: Input { multi_tap_interval: 500, ..Input::default() },
            ..Config::default()
        },
        5,
    );
    let reaction = state.up(1, 10);
    assert_eq!(reaction.tap_timer, TapTimer::Start { delay: 500 });
    state.down(Surface::Panel, 2, logical(100, 10), 400);
    let reaction = state.up(2, 510);
    assert_eq!(reaction.tap_timer, TapTimer::Cancel);
}

#[test]
fn tap_motion_keeps_the_drawer() {
    let mut state = state();
    state.down(Surface::Panel, 1, logical(100, 10), 0);
    let drawer = state.drawer;
    for position in [logical(105, 15), logical(100, 20), logical(95, 5)] {
        let reaction = state.motion(1, position, 5);
        assert_eq!(reaction.drawer, DrawerDraw::Skipped);
        assert_eq!(state.drawer, drawer);
        assert!(!state.drawer.offsetting);
        assert_eq!(state.drawer.offset, 0);
    }
    let reaction = state.up(1, 10);
    assert_eq!(reaction.tap_timer, TapTimer::Start { delay: 200 });
    assert!(!reaction.request_frame);
}

#[test]
fn drag_from_panel_opens_the_drawer() {
    let mut state = state();
    state.down(Surface::Panel, 1, logical(100, 10), 0);
    let reaction = state.motion(1, logical(100, 210), 10);
    assert!(state.drawer.offsetting);
    assert_eq!(state.drawer.offset, 200 * 256);
    match reaction.drawer {
        DrawerDraw::Frame(frame) => assert_eq!(frame.y_offset, 1440 - 400),
        draw => panic!("unexpected outcome {draw:?}"),
    }
    // Until the frame callback the next motion renders nothing.
    let reaction = state.motion(1, logical(100, 310), 20);
    assert_eq!(reaction.drawer, DrawerDraw::Skipped);
    assert_eq!(state.drawer.offset, 300 * 256);
    let reaction = state.draw(Surface::Drawer, 26);
    match reaction.drawer {
        DrawerDraw::Frame(frame) => assert_eq!(frame.y_offset, 1440 - 600),
        draw => panic!("unexpected outcome {draw:?}"),
    }

    // Release past a quarter of the way: the animation completes the motion.
    let reaction = state.up(1, 30);
    assert!(!state.drawer.offsetting);
    assert_eq!(state.drawer.last_animation_frame, Some(30));
    assert_eq!(reaction.tap_timer, TapTimer::Keep);
    assert_eq!(state.session.active_touch, None);
    let mut now = 30;
    let mut frames = 0;
    while state.drawer.last_animation_frame.is_some() {
        now += 16;
        frames += 1;
        state.draw(Surface::Drawer, now);
        assert!(frames < 100);
    }
    assert_eq!(state.drawer.offset, FULL);
    assert!(state.drawer.visible);
}

#[test]
fn short_drag_from_panel_closes_again() {
    let mut state = state();
    state.down(Surface::Panel, 1, logical(100, 10), 0);
    state.motion(1, logical(100, 110), 10);
    assert_eq!(state.drawer.offset, 100 * 256);
    state.up(1, 20);
    let mut now = 20;
    let mut hidden = false;
    while state.drawer.last_animation_frame.is_some() {
        now += 16;
        hidden = state.draw(Surface::Drawer, now).drawer == DrawerDraw::Hidden;
    }
    assert!(hidden);
    assert_eq!(state.drawer.offset, 0);
    assert!(!state.drawer.visible);
}

#[test]
fn drag_beyond_the_screen_is_rendered_in_range() {
    let mut state = state();
    state.down(Surface::Panel, 1, logical(100, 10), 0);
    state.motion(1, logical(100, 400), 10);
    state.motion(1, logical(100, 5000), 20);
    assert_eq!(state.drawer.offset, 4990 * 256);
    match state.draw(Surface::Drawer, 30).drawer {
        DrawerDraw::Frame(frame) => assert_eq!(frame.y_offset, 0),
        draw => panic!("unexpected outcome {draw:?}"),
    }
    assert_eq!(state.drawer.offset, FULL);

    state.motion(1, logical(100, -5000), 40);
    assert_eq!(state.drawer.offset, FULL - 10_000 * 256);
    assert_eq!(state.draw(Surface::Drawer, 50).drawer, DrawerDraw::Skipped);
    assert_eq!(state.drawer.offset, 0);
}

#[test]
fn second_touch_on_panel_is_ignored_while_one_is_active() {
    let mut state = state();
    state.down(Surface::Panel, 1, logical(100, 10), 0);
    let session = state.session;
    state.down(Surface::Panel, 2, logical(200, 10), 5);
    assert_eq!(state.session, session);
}

#[test]
fn slider_touch_redraws_at_once() {
    let mut state = open_state();
    state.draw(Surface::Drawer, 300);
    state.draw(Surface::Drawer, 316);
    assert!(state.drawer.render.stalled);

    let reaction = state.down(Surface::Drawer, 5, logical(180, 100), 400);
    assert_eq!(reaction.command, Some(Command::Backlight { twentieths: 10 }));
    assert_eq!(state.session.active_touch, None);
    match reaction.drawer {
        DrawerDraw::Frame(frame) => {
            assert_eq!(frame.modules[0].unwrap().fill.unwrap().width, 304)
        },
        draw => panic!("unexpected outcome {draw:?}"),
    }

    let reaction = state.motion(5, logical(332, 100), 410);
    assert_eq!(reaction.command, Some(Command::Backlight { twentieths: 20 }));
    assert_eq!(reaction.drawer, DrawerDraw::Skipped);
    assert!(state.drawer.render.dirty);

    let reaction = state.up(5, 420);
    assert_eq!(reaction.command, None);
    assert_eq!(reaction.tap_timer, TapTimer::Keep);
    assert_eq!(state.drawer.touch_id, None);
}

#[test]
fn toggle_is_pressed_on_release() {
    let mut state = open_state();
    let reaction = state.down(Surface::Drawer, 5, logical(220, 250), 400);
    assert_eq!(reaction.command, None);
    assert_eq!(state.drawer.touch_module, Some(6));
    let reaction = state.up(5, 420);
    assert_eq!(reaction.command, Some(Command::Orientation { unlock: true }));
    assert_eq!(state.modules[6].enabled(), Some(false));
    let reaction = state.up(5, 430);
    assert_eq!(reaction.command, None);
}

#[test]
fn module_touch_and_drag_do_not_mix() {
    let mut state = open_state();
    // One finger on the brightness slider, a second one beside the modules.
    state.down(Surface::Drawer, 5, logical(180, 100), 400);
    state.down(Surface::Drawer, 6, logical(180, 600), 410);
    assert_eq!(state.session.active_touch, Some(6));
    assert_eq!(state.drawer.touch_id, Some(5));

    let reaction = state.motion(5, logical(100, 100), 420);
    assert_eq!(reaction.command, Some(Command::Backlight { twentieths: 5 }));
    assert!(!state.drawer.offsetting);

    state.motion(6, logical(180, 500), 430);
    assert!(state.drawer.offsetting);
    assert_eq!(state.drawer.offset, FULL - 100 * 256);

    state.up(5, 440);
    assert_eq!(state.drawer.touch_id, None);
    assert_eq!(state.session.active_touch, Some(6));
    let reaction = state.up(6, 450);
    assert!(reaction.request_frame || state.drawer.frame_pending);
    assert_eq!(state.drawer.last_animation_frame, Some(450));
}

#[test]
fn touch_of_unknown_id_changes_nothing() {
    let mut state = open_state();
    let drawer = state.drawer;
    let modules = state.modules.clone();
    let reaction = state.motion(9, logical(10, 10), 0);
    assert_eq!(reaction.command, None);
    let reaction = state.up(9, 0);
    assert_eq!(reaction.command, None);
    assert_eq!(reaction.tap_timer, TapTimer::Keep);
    assert_eq!(state.drawer, drawer);
    assert_eq!(state.modules, modules);
}

#[test]
fn notify_redraws_only_on_change() {
    let mut state = state();
    state.draw(Surface::Panel, 10);
    let connection = WifiConnection { enabled: true, strength: 90, connected: true };
    let reaction = state.notify(ModuleEvent::Wifi(connection), 20);
    match reaction.panel {
        PanelDraw::Frame(_) => (),
        draw => panic!("unexpected outcome {draw:?}"),
    }
    assert_eq!(state.modules[4].enabled(), Some(true));

    // The same icon again: nothing to redraw.
    let connection = WifiConnection { enabled: true, strength: 95, connected: true };
    state.draw(Surface::Panel, 30);
    assert!(state.panel.render.stalled);
    let reaction = state.notify(ModuleEvent::Wifi(connection), 40);
    assert_eq!(reaction.panel, PanelDraw::Skipped);
    assert!(state.panel.render.stalled);
}

#[test]
fn volume_shows_as_background_activity() {
    let mut state = state();
    state.draw(Surface::Panel, 10);
    let reaction = state.notify(ModuleEvent::Volume(50), 20);
    let frame = match reaction.panel {
        PanelDraw::Frame(frame) => frame,
        draw => panic!("unexpected outcome {draw:?}"),
    };
    let activity = frame.activity.unwrap();
    assert_eq!(activity.width, 360);
    assert_eq!(activity.color, Config::default().colors.volume_bg);
    assert!(frame.restart_timeout);

    state.draw(Surface::Panel, 30);
    let reaction = state.clear_background_activity(1020);
    match reaction.panel {
        PanelDraw::Frame(frame) => {
            assert_eq!(frame.activity, None);
            assert!(!frame.restart_timeout);
        },
        draw => panic!("unexpected outcome {draw:?}"),
    }
}

#[test]
fn closed_terminates() {
    let mut state = state();
    state.closed();
    assert!(state.terminated);
}

#[test]
fn layout_shows_on_the_next_draw() {
    let mut state = open_state();
    state.draw(Surface::Drawer, 300);
    let layout = Layout { panel_height: 30, module_padding: 8, edge_padding: 0 };
    let reaction = state.set_config(Config { layout, ..Config::default() }, 400);
    assert_eq!(reaction.panel_height, Some(30));
    assert_eq!(state.panel.height, 30);
    assert_eq!(state.drawer.layout, layout);
    state.draw(Surface::Drawer, 416);
    let frame = match state.unstall(420).drawer {
        DrawerDraw::Frame(frame) => frame,
        draw => panic!("unexpected outcome {draw:?}"),
    };
    assert_eq!(frame.panel_height, 60);
    let slider = frame.modules[0].unwrap();
    assert_eq!((slider.cell.x, slider.cell.y, slider.cell.width), (8, 68, 704));

    // The same configuration again asks for no new height.
    let reaction = state.set_config(Config { layout, ..Config::default() }, 500);
    assert_eq!(reaction.panel_height, None);
    state.configure(Surface::Panel, Size::new(360, 30), 510);
    assert_eq!(state.panel.size, Size::new(720, 60));

    // The panel's band follows the layout as well.
    state.down(Surface::Drawer, 3, logical(300, 25), 600);
    assert_eq!(state.up(3, 610).tap_timer, TapTimer::Start { delay: 200 });
}

#[test]
fn module_list_can_be_replaced() {
    let mut state = open_state();
    state.down(Surface::Drawer, 5, logical(180, 100), 400);
    assert_eq!(state.drawer.touch_id, Some(5));
    let modules = vec![state.modules[7], state.modules[0]];
    state.draw(Surface::Drawer, 416);
    state.draw(Surface::Drawer, 432);
    let reaction = state.set_modules(modules.clone(), 450);
    assert_eq!(state.modules, modules);
    assert_eq!(state.drawer.touch_id, None);
    assert_eq!(state.drawer.touch_module, None);
    match reaction.drawer {
        DrawerDraw::Frame(frame) => {
            assert_eq!(frame.modules.len(), 2);
            // The flashlight toggle takes the first cell, the slider the row below.
            assert_eq!((frame.modules[0].unwrap().cell.x, frame.modules[0].unwrap().cell.y), (56, 96));
            assert_eq!((frame.modules[1].unwrap().cell.x, frame.modules[1].unwrap().cell.y), (56, 256));
        },
        draw => panic!("unexpected outcome {draw:?}"),
    }
    assert_eq!(state.up(5, 460).command, None);
}
