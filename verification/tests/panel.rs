use epitaph::config::Config;
use epitaph::geometry::{Fraction, ScaleFactor, Size};
use epitaph::module::brightness::Brightness;
use epitaph::module::registry::Module;
use epitaph::module::volume::Volume;
use epitaph::module::{Alignment, PanelModuleContent};
use epitaph::panel::{ActivityBar, Panel, PanelDraw, PanelRun};
use epitaph::stall::RenderDirtiness;
use epitaph::text::Svg;

fn modules() -> Vec<Module> {
    Module::all(Brightness { brightness: Fraction::one() })
}

fn panel() -> Panel {
    let mut panel = Panel::new();
    panel.set_scale_factor(ScaleFactor::new(240).unwrap());
    panel.reconfigure(360);
    panel
}

#[test]
fn panel_is_sized_by_width() {
    let mut panel = Panel::new();
    assert_eq!(panel.size, Size::new(0, 0));
    assert_eq!(panel.set_scale_factor(ScaleFactor::new(240).unwrap()), Size::new(0, 0));
    assert_eq!(panel.reconfigure(360), Size::new(360, 20));
    assert_eq!(panel.size, Size::new(720, 40));
    assert_eq!(panel.set_scale_factor(ScaleFactor::new(120).unwrap()), Size::new(360, 20));
    assert_eq!(panel.size, Size::new(360, 20));
}

#[test]
fn panel_requests_one_frame_at_a_time() {
    let mut panel = panel();
    assert!(panel.request_frame());
    assert!(!panel.request_frame());
}

#[test]
fn panel_without_size_is_never_drawn() {
    let config = Config::default();
    let modules = modules();
    let mut panel = Panel::new();
    panel.set_scale_factor(ScaleFactor::new(240).unwrap());
    panel.mark_dirty();
    for _ in 0..3 {
        assert_eq!(panel.draw_if_ready(&config, &modules), PanelDraw::Skipped);
        assert!(panel.render.stalled);
        assert!(!panel.frame_pending);
    }
    assert_eq!(panel.unstall(&config, &modules), PanelDraw::Skipped);
    assert_eq!(panel.render, RenderDirtiness { dirty: true, stalled: true });

    // Once the panel has a size, unstalling draws it exactly once.
    panel.reconfigure(360);
    match panel.unstall(&config, &modules) {
        PanelDraw::Frame(frame) => {
            assert_eq!(frame.size, Size::new(720, 40));
            assert_eq!(frame.logical, Size::new(360, 20));
        },
        draw => panic!("unexpected outcome {draw:?}"),
    }
    assert_eq!(panel.unstall(&config, &modules), PanelDraw::Skipped);
    assert_eq!(panel.render, RenderDirtiness { dirty: true, stalled: false });
}

#[test]
fn background_activity_shows_changed_module() {
    let config = Config::default();
    let mut modules = modules();
    let mut panel = panel();
    assert!(!panel.update_background_activity(&config, &modules));
    assert_eq!(panel.background_activity, None);
    assert_eq!(panel.last_background_activity.len(), modules.len());

    modules[10] = Module::Volume(Volume { volume: 25 });
    assert!(panel.update_background_activity(&config, &modules));
    assert_eq!(
        panel.background_activity,
        Some((config.colors.volume_bg, Fraction { num: 25, den: 100 }))
    );
    let frame = panel.draw(&config, &modules);
    assert_eq!(frame.activity, Some(ActivityBar { color: config.colors.volume_bg, width: 180 }));
    assert!(frame.restart_timeout);
    assert!(panel.frame_pending);

    // The bar stays until it is cleared, and the timer starts anew.
    assert!(panel.update_background_activity(&config, &modules));
    panel.clear_background_activity();
    assert!(!panel.update_background_activity(&config, &modules));
    assert_eq!(panel.draw(&config, &modules).activity, None);

    modules[10] = Module::Volume(Volume { volume: 150 });
    let frame = panel.draw(&config, &modules);
    assert_eq!(
        frame.activity,
        Some(ActivityBar { color: config.colors.volume_bad_bg, width: 360 })
    );
}

#[test]
fn background_activity_prefers_first_changed_module() {
    let config = Config::default();
    let mut panel = panel();
    let modules = vec![
        Module::Volume(Volume { volume: 10 }),
        Module::all(Brightness { brightness: Fraction::one() })[2],
        Module::Volume(Volume { volume: 120 }),
    ];
    assert!(panel.update_background_activity(&config, &modules));
    assert_eq!(
        panel.background_activity,
        Some((config.colors.volume_bg, Fraction { num: 10, den: 100 }))
    );
    assert_eq!(
        panel.last_background_activity,
        vec![Fraction { num: 10, den: 100 }, Fraction::zero(), Fraction { num: 20, den: 100 }]
    );

    // A shorter module list shortens the cache.
    assert!(panel.update_background_activity(&config, &modules[..1].to_vec()));
    assert_eq!(panel.last_background_activity.len(), 1);
}

#[test]
fn contents_are_grouped_by_alignment() {
    let modules = modules();
    let left = Panel::contents(&modules, Alignment::Left);
    assert_eq!(left.len(), 1);
    assert!(matches!(left[0], PanelModuleContent::Text(_)));
    let center = Panel::contents(&modules, Alignment::Center);
    assert_eq!(center.len(), 1);
    assert!(matches!(center[0], PanelModuleContent::Text(_)));
    let right = Panel::contents(&modules, Alignment::Right);
    assert_eq!(
        right,
        vec![
            PanelModuleContent::Svg(Svg::CellularDisabled),
            PanelModuleContent::Svg(Svg::WifiDisabled),
            PanelModuleContent::Svg(Svg::Battery100),
        ]
    );
    assert_eq!(Panel::contents(&vec![], Alignment::Left), vec![]);
}

#[test]
fn run_paddings_follow_scale() {
    let run = PanelRun::new(Size::new(720, 40), ScaleFactor::new(240).unwrap(), Alignment::Left);
    assert_eq!(run.module_padding(), 10);
    assert_eq!(run.edge_padding(), 10);
    let run = PanelRun::new(Size::new(720, 40), ScaleFactor::new(180).unwrap(), Alignment::Left);
    assert_eq!(run.module_padding(), 8);
}

#[test]
fn run_places_glyphs_by_advance() {
    let mut run = PanelRun::new(Size::new(360, 20), ScaleFactor::one(), Alignment::Left);
    assert_eq!(run.batch_string(&vec![7, 8, 0, 9]), vec![0, 7, 15, 15]);
    assert_eq!(run.width, 29);
    assert_eq!(run.batch_string(&vec![]), vec![]);
    assert_eq!(run.width, 34);
    assert_eq!(run.batch_string(&vec![-4, 6]), vec![34, 30]);
    assert_eq!(run.width, 41);
}

#[test]
fn run_places_icons() {
    let mut run = PanelRun::new(Size::new(720, 40), ScaleFactor::new(240).unwrap(), Alignment::Right);
    let icon = run.batch_svg(Svg::Battery100);
    assert_eq!(icon.svg, Svg::Battery100);
    assert_eq!(icon.size, (40, 14));
    assert_eq!((icon.x, icon.y), (0, 13));
    assert_eq!(run.width, 50);
    let icon = run.batch_svg(Svg::WifiDisabled);
    assert_eq!(icon.size, (40, 32));
    assert_eq!((icon.x, icon.y), (50, 4));
    assert_eq!(run.width, 100);
}

#[test]
fn run_is_aligned() {
    let scale = ScaleFactor::one();
    let size = Size::new(360, 20);
    for (alignment, offset) in
        [(Alignment::Left, 5), (Alignment::Center, 165), (Alignment::Right, 325)]
    {
        let mut run = PanelRun::new(size, scale, alignment);
        run.batch_string(&vec![10, 10, 10]);
        assert_eq!(run.width, 35);
        assert_eq!(run.draw(), offset);
    }
    // An empty run still has its padding trimmed.
    assert_eq!(PanelRun::new(size, scale, Alignment::Center).draw(), 182);
    assert_eq!(PanelRun::new(size, scale, Alignment::Right).draw(), 360);
}
