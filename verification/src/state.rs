//! Shell state and its event handlers.
//!
//! Every handler takes one event of the windowing system, together with the
//! time where it matters, and returns what the embedding program has to do
//! about it: frames to render, a buffer to detach, a timer to start or to
//! remove, and work for a device or the compositor.

use vstd::prelude::*;

use crate::config::Config;
use crate::drawer::frame::DrawerDraw;
use crate::drawer::positioner::MAX_MODULES;
use crate::drawer::touch::modules_wf;
use crate::drawer::Drawer;
use crate::geometry::{ScaleFactor, Size};
use crate::gesture::TouchSession;
use crate::module::registry::{Module, ModuleEvent};
use crate::module::Command;
use crate::panel::{Panel, PanelDraw};
use crate::stall::RenderDirtiness;

verus! {

/// Window that an event belongs to.
#[derive(Copy, Clone, PartialEq, Eq, Structural, Debug)]
pub enum Surface {
    Panel,
    Drawer,
    /// A surface that the shell does not own.
    Other,
}

/// Change of the timer that tells a tap from a double-tap.
#[derive(Copy, Clone, PartialEq, Eq, Structural, Debug)]
pub enum TapTimer {
    /// The timer stays as it is.
    Keep,
    /// The timer is removed.
    Cancel,
    /// The timer is started to expire after a delay in milliseconds.
    Start { delay: u64 },
}

/// What the embedding program has to do after an event.
#[derive(PartialEq, Eq, Debug)]
pub struct Reaction {
    /// Outcome for the drawer's window.
    pub drawer: DrawerDraw,
    /// Outcome for the panel's window.
    pub panel: PanelDraw,
    /// A frame callback has to be asked for on the drawer's window.
    pub request_frame: bool,
    /// Change of the single-tap timer.
    pub tap_timer: TapTimer,
    /// Work for a device or the compositor.
    pub command: Option<Command>,
    /// Height in logical pixels that the panel's window has to ask for.
    pub panel_height: Option<u32>,
}

impl Reaction {
    /// The reaction asks for nothing.
    pub open spec fn is_idle(&self) -> bool {
        &&& self.drawer is Skipped
        &&& self.panel is Skipped
        &&& !self.request_frame
        &&& self.tap_timer == TapTimer::Keep
        &&& self.command is None
        &&& self.panel_height is None
    }

    /// Reaction that asks for nothing.
    pub fn idle() -> (reaction: Self)
        ensures
            reaction.is_idle(),
    {
        Self {
            drawer: DrawerDraw::Skipped,
            panel: PanelDraw::Skipped,
            request_frame: false,
            tap_timer: TapTimer::Keep,
            command: None,
            panel_height: None,
        }
    }
}

/// Shell state.
#[derive(PartialEq, Eq, Debug)]
pub struct State {
    /// Modules in their display order.
    pub modules: Vec<Module>,
    /// The shell's windows were closed.
    pub terminated: bool,
    /// Touch point that drives the drawer.
    pub session: TouchSession,
    /// Height of the drawer's window in logical pixels.
    pub panel_height: Option<u32>,
    pub drawer: Drawer,
    pub panel: Panel,
    pub config: Config,
}

impl State {
    /// The state holds usable values.
    pub open spec fn wf(&self) -> bool {
        &&& self.drawer.wf()
        &&& self.panel.wf()
        &&& modules_wf(self.modules@)
        &&& self.modules.len() <= MAX_MODULES
    }

    /// The state `after` differs from this one in its windows at most.
    pub open spec fn keeps_but_windows(&self, after: State) -> bool {
        &&& after.modules@ == self.modules@
        &&& after.terminated == self.terminated
        &&& after.session == self.session
        &&& after.panel_height == self.panel_height
        &&& after.config == self.config
    }

    /// The state `after` and the reaction are what unstalling both windows
    /// at the time `now` leads to.
    pub open spec fn unstalls_to(&self, after: State, reaction: Reaction, now: u64) -> bool {
        &&& self.keeps_but_windows(after)
        &&& after.drawer == self.drawer.unstalled(now, self.session.drawer_opening)
        &&& self.drawer.unstalled_outcome(
            reaction.drawer,
            self.config,
            self.modules@,
            now,
            self.session.drawer_opening,
        )
        &&& self.panel.unstalls_to(after.panel, reaction.panel, self.config, self.modules@)
        &&& !reaction.request_frame
        &&& reaction.tap_timer == TapTimer::Keep
        &&& reaction.command is None
        &&& reaction.panel_height is None
    }

    /// The state `after` and the reaction are what unstalling the drawer
    /// at the time `now` leads to.
    pub open spec fn unstalls_drawer_to(&self, after: State, reaction: Reaction, now: u64) -> bool {
        &&& self.keeps_but_windows(after)
        &&& after.panel == self.panel
        &&& after.drawer == self.drawer.unstalled(now, self.session.drawer_opening)
        &&& self.drawer.unstalled_outcome(
            reaction.drawer,
            self.config,
            self.modules@,
            now,
            self.session.drawer_opening,
        )
        &&& reaction.panel is Skipped
    }

    /// Shell state with a list of modules, before any window is
    /// configured.
    pub fn new(modules: Vec<Module>, config: Config) -> (state: Self)
        requires
            modules_wf(modules@),
            modules.len() <= MAX_MODULES,
        ensures
            state.wf(),
            state.modules@ == modules@,
            state.config == config,
            !state.terminated,
            state.panel_height is None,
            state.session == TouchSession::initial(),
            state.drawer == (Drawer { layout: config.layout, ..Drawer::initial() }),
            !state.panel.frame_pending,
            state.panel.scale_factor.units == 120,
            state.panel.size == (Size::<u32> { width: 0, height: 0 }),
            state.panel.render == (RenderDirtiness { dirty: false, stalled: true }),
            state.panel.background_activity is None,
            state.panel.last_background_activity@.len() == 0,
            state.panel.height == config.layout.panel_height,
    {
        let mut drawer = Drawer::new();
        drawer.set_layout(config.layout);
        let mut panel = Panel::new();
        panel.set_height(config.layout.panel_height);
        Self {
            modules,
            terminated: false,
            session: TouchSession::new(),
            panel_height: None,
            drawer,
            panel,
            config,
        }
    }

    /// Draw window associated with the surface, at a frame callback.
    pub fn draw(&mut self, surface: Surface, now: u64) -> (reaction: Reaction)
        requires
            old(self).wf(),
        ensures
            final(self).wf(),
            old(self).keeps_but_windows(*final(self)),
            !reaction.request_frame,
            reaction.tap_timer == TapTimer::Keep,
            reaction.command is None,
            match surface {
                Surface::Panel => {
                    &&& final(self).drawer == old(self).drawer
                    &&& reaction.drawer is Skipped
                    &&& old(self).panel.draws_to(
                        final(self).panel,
                        reaction.panel,
                        old(self).config,
                        old(self).modules@,
                    )
                },
                Surface::Drawer => {
                    &&& final(self).panel == old(self).panel
                    &&& reaction.panel is Skipped
                    &&& final(self).drawer == old(self).drawer.used(
                        now,
                        old(self).session.drawer_opening,
                    )
                    &&& old(self).drawer.used_outcome(
                        reaction.drawer,
                        old(self).config,
                        old(self).modules@,
                        now,
                        old(self).session.drawer_opening,
                    )
                },
                Surface::Other => *final(self) == *old(self) && reaction.is_idle(),
            },
    {
        let mut reaction = Reaction::idle();
        match surface {
            Surface::Panel => {
                reaction.panel = self.panel.draw_if_ready(&self.config, &self.modules);
            },
            Surface::Drawer => {
                reaction.drawer =
                self.drawer.draw_if_ready(
                    &self.config,
                    &self.modules,
                    self.session.drawer_opening,
                    now,
                );
            },
            Surface::Other => {},
        }
        reaction
    }

    /// Unstall all renderers.
    pub fn unstall(&mut self, now: u64) -> (reaction: Reaction)
        requires
            old(self).wf(),
        ensures
            final(self).wf(),
            old(self).unstalls_to(*final(self), reaction, now),
    {
        let mut reaction = Reaction::idle();
        reaction.drawer =
        self.drawer.unstall(&self.config, &self.modules, self.session.drawer_opening, now);
        reaction.panel = self.panel.unstall(&self.config, &self.modules);
        reaction
    }

    /// Unstall the drawer's renderer.
    pub(crate) fn unstall_drawer(&mut self, now: u64) -> (reaction: Reaction)
        requires
            old(self).wf(),
        ensures
            final(self).wf(),
            old(self).unstalls_drawer_to(*final(self), reaction, now),
            !reaction.request_frame,
            reaction.tap_timer == TapTimer::Keep,
            reaction.command is None,
    {
        let mut reaction = Reaction::idle();
        reaction.drawer =
        self.drawer.unstall(&self.config, &self.modules, self.session.drawer_opening, now);
        reaction
    }

    /// Set drawer status without animation.
    ///
    /// An opened drawer is shown at its full offset. A closed one is
    /// hidden, and its buffer detached.
    pub fn set_drawer_status(&mut self, open: bool, now: u64) -> (reaction: Reaction)
        requires
            old(self).wf(),
        ensures
            final(self).wf(),
            old(self).keeps_but_windows(*final(self)),
            final(self).panel == old(self).panel,
            reaction.panel is Skipped,
            !reaction.request_frame,
            reaction.tap_timer == TapTimer::Keep,
            reaction.command is None,
            open ==> {
                let opened = Drawer {
                    offset: old(self).drawer.full_offset() as i64,
                    ..old(self).drawer
                };
                &&& final(self).drawer == opened.unstalled(now, old(self).session.drawer_opening)
                &&& opened.unstalled_outcome(
                    reaction.drawer,
                    old(self).config,
                    old(self).modules@,
                    now,
                    old(self).session.drawer_opening,
                )
            },
            !open ==> {
                &&& final(self).drawer == (Drawer { offset: 0, visible: false, ..old(self).drawer })
                &&& reaction.drawer is Hidden
            },
    {
        if open {
            // Show drawer on panel single-tap with drawer closed.
            self.drawer.set_status(true);
            self.unstall_drawer(now)
        } else {
            // Hide drawer on single-tap of panel or drawer handle.
            self.drawer.set_status(false);
            let mut reaction = Reaction::idle();
            reaction.drawer = DrawerDraw::Hidden;
            reaction
        }
    }

    /// Remove the panel's background activity bar.
    pub fn clear_background_activity(&mut self, now: u64) -> (reaction: Reaction)
        requires
            old(self).wf(),
        ensures
            final(self).wf(),
            old(self).keeps_but_windows(*final(self)),
            final(self).drawer == old(self).drawer.unstalled(now, old(self).session.drawer_opening),
            old(self).drawer.unstalled_outcome(
                reaction.drawer,
                old(self).config,
                old(self).modules@,
                now,
                old(self).session.drawer_opening,
            ),
            old(self).panel.unstalls_as(
                old(self).panel.scale_factor,
                old(self).panel.size,
                old(self).panel.height,
                None,
                final(self).panel,
                reaction.panel,
                old(self).config,
                old(self).modules@,
            ),
            !reaction.request_frame,
            reaction.command is None,
            reaction.tap_timer == TapTimer::Keep,
    {
        self.panel.clear_background_activity();
        self.unstall(now)
    }

    /// Handle the expiry of the single-tap timer at the time `now`.
    ///
    /// A tap that was cancelled in the meantime does nothing.
    pub fn tap_timeout(&mut self, now: u64) -> (reaction: Reaction)
        requires
            old(self).wf(),
        ensures
            final(self).wf(),
            final(self).session == (TouchSession { tap_timeout: None, ..old(self).session }),
            final(self).modules@ == old(self).modules@,
            final(self).panel == old(self).panel,
            final(self).config == old(self).config,
            reaction.command is None,
            reaction.tap_timer == TapTimer::Keep,
            match old(self).session.tap_timeout {
                None => final(self).drawer == old(self).drawer && reaction.is_idle(),
                Some(false) => {
                    &&& final(self).drawer == (Drawer {
                        offset: 0,
                        visible: false,
                        ..old(self).drawer
                    })
                    &&& reaction.drawer is Hidden
                },
                Some(true) => {
                    let opened = Drawer {
                        offset: old(self).drawer.full_offset() as i64,
                        ..old(self).drawer
                    };
                    &&& final(self).drawer == opened.unstalled(now, old(self).session.drawer_opening)
                    &&& opened.unstalled_outcome(
                        reaction.drawer,
                        old(self).config,
                        old(self).modules@,
                        now,
                        old(self).session.drawer_opening,
                    )
                },
            },
    {
        match self.session.timeout() {
            Some(open) => self.set_drawer_status(open, now),
            None => Reaction::idle(),
        }
    }

    /// Handle a change of a window's DPI scale factor.
    pub fn scale_factor_changed(&mut self, surface: Surface, factor: ScaleFactor, now: u64) -> (reaction:
        Reaction)
        requires
            old(self).wf(),
            factor.wf(),
        ensures
            final(self).wf(),
            old(self).keeps_but_windows(*final(self)),
            reaction.command is None,
            reaction.tap_timer == TapTimer::Keep,
            !reaction.request_frame,
            match surface {
                Surface::Panel => {
                    &&& final(self).drawer == old(self).drawer
                    &&& old(self).panel.unstalls_as(
                        factor,
                        old(self).panel.rescaled_size(factor),
                        old(self).panel.height,
                        old(self).panel.background_activity,
                        final(self).panel,
                        reaction.panel,
                        old(self).config,
                        old(self).modules@,
                    )
                    &&& reaction.drawer is Skipped
                },
                Surface::Drawer => {
                    let rescaled = old(self).drawer.rescaled(factor);
                    &&& final(self).panel == old(self).panel
                    &&& final(self).drawer == rescaled.unstalled(
                        now,
                        old(self).session.drawer_opening,
                    )
                    &&& rescaled.unstalled_outcome(
                        reaction.drawer,
                        old(self).config,
                        old(self).modules@,
                        now,
                        old(self).session.drawer_opening,
                    )
                    &&& reaction.panel is Skipped
                },
                Surface::Other => *final(self) == *old(self) && reaction.is_idle(),
            },
    {
        match surface {
            Surface::Panel => {
                self.panel.set_scale_factor(factor);
                let mut reaction = Reaction::idle();
                reaction.panel = self.panel.unstall(&self.config, &self.modules);
                reaction
            },
            Surface::Drawer => {
                self.drawer.set_scale_factor(factor);
                self.unstall_drawer(now)
            },
            Surface::Other => Reaction::idle(),
        }
    }

    /// Handle the configuration of a window with a size in logical pixels.
    pub fn configure(&mut self, surface: Surface, new_size: Size<u32>, now: u64) -> (reaction: Reaction)
        requires
            old(self).wf(),
        ensures
            final(self).wf(),
            final(self).modules@ == old(self).modules@,
            final(self).terminated == old(self).terminated,
            final(self).session == old(self).session,
            final(self).config == old(self).config,
            reaction.command is None,
            reaction.tap_timer == TapTimer::Keep,
            !reaction.request_frame,
            match surface {
                Surface::Panel => {
                    &&& final(self).drawer == old(self).drawer
                    &&& final(self).panel_height == old(self).panel_height
                    &&& old(self).panel.unstalls_as(
                        old(self).panel.scale_factor,
                        old(self).panel.scale_factor.scaled_size(
                            Size { width: new_size.width, height: old(self).panel.height },
                        ),
                        old(self).panel.height,
                        old(self).panel.background_activity,
                        final(self).panel,
                        reaction.panel,
                        old(self).config,
                        old(self).modules@,
                    )
                    &&& reaction.drawer is Skipped
                },
                Surface::Drawer => {
                    let resized = old(self).drawer.reconfigured(new_size);
                    &&& final(self).panel == old(self).panel
                    &&& final(self).panel_height == Some(new_size.height)
                    &&& final(self).drawer == resized.unstalled(now, old(self).session.drawer_opening)
                    &&& resized.unstalled_outcome(
                        reaction.drawer,
                        old(self).config,
                        old(self).modules@,
                        now,
                        old(self).session.drawer_opening,
                    )
                    &&& reaction.panel is Skipped
                },
                Surface::Other => *final(self) == *old(self) && reaction.is_idle(),
            },
    {
        match surface {
            Surface::Panel => {
                self.panel.reconfigure(new_size.width);
                let mut reaction = Reaction::idle();
                reaction.panel = self.panel.unstall(&self.config, &self.modules);
                reaction
            },
            Surface::Drawer => {
                self.panel_height = Some(new_size.height);
                self.drawer.reconfigure(new_size);
                self.unstall_drawer(now)
            },
            Surface::Other => Reaction::idle(),
        }
    }

    /// Handle the closing of one of the shell's windows.
    pub fn closed(&mut self)
        ensures
            final(self).terminated,
            final(self).modules@ == old(self).modules@,
            final(self).session == old(self).session,
            final(self).panel_height == old(self).panel_height,
            final(self).drawer == old(self).drawer,
            final(self).panel == old(self).panel,
            final(self).config == old(self).config,
    {
        self.terminated = true;
    }

    /// Take over a configuration that was loaded anew.
    ///
    /// The layout shows from the next frame on. A new height of the panel
    /// has to be asked for from the compositor.
    pub fn set_config(&mut self, config: Config, now: u64) -> (reaction: Reaction)
        requires
            old(self).wf(),
        ensures
            final(self).wf(),
            final(self).config == config,
            final(self).modules@ == old(self).modules@,
            final(self).terminated == old(self).terminated,
            final(self).session == old(self).session,
            final(self).panel_height == old(self).panel_height,
            ({
                let drawer = Drawer { layout: config.layout, ..old(self).drawer };
                &&& final(self).drawer == drawer.unstalled(now, old(self).session.drawer_opening)
                &&& drawer.unstalled_outcome(
                    reaction.drawer,
                    config,
                    old(self).modules@,
                    now,
                    old(self).session.drawer_opening,
                )
            }),
            old(self).panel.unstalls_as(
                old(self).panel.scale_factor,
                old(self).panel.size,
                config.layout.panel_height,
                old(self).panel.background_activity,
                final(self).panel,
                reaction.panel,
                config,
                old(self).modules@,
            ),
            reaction.panel_height == (if config.layout.panel_height != old(self).panel.height {
                Some(config.layout.panel_height)
            } else {
                None
            }),
            !reaction.request_frame,
            reaction.command is None,
            reaction.tap_timer == TapTimer::Keep,
    {
        let panel_height = if config.layout.panel_height != self.panel.height {
            Some(config.layout.panel_height)
        } else {
            None
        };
        self.config = config;
        self.drawer.set_layout(config.layout);
        let mut reaction = self.unstall(now);
        self.panel.set_height(config.layout.panel_height);
        reaction.panel_height = panel_height;
        reaction
    }

    /// Take over a list of modules that was loaded anew.
    ///
    /// The touch point that was held on a module lets go of it.
    pub fn set_modules(&mut self, modules: Vec<Module>, now: u64) -> (reaction: Reaction)
        requires
            old(self).wf(),
            modules_wf(modules@),
            modules.len() <= MAX_MODULES,
        ensures
            final(self).wf(),
            final(self).modules@ == modules@,
            final(self).config == old(self).config,
            final(self).terminated == old(self).terminated,
            final(self).session == old(self).session,
            final(self).panel_height == old(self).panel_height,
            ({
                let drawer = Drawer { touch_module: None, touch_id: None, ..old(self).drawer };
                &&& final(self).drawer == drawer.unstalled(now, old(self).session.drawer_opening)
                &&& drawer.unstalled_outcome(
                    reaction.drawer,
                    old(self).config,
                    modules@,
                    now,
                    old(self).session.drawer_opening,
                )
            }),
            old(self).panel.unstalls_to(final(self).panel, reaction.panel, old(self).config, modules@),
            reaction.panel_height is None,
            !reaction.request_frame,
            reaction.command is None,
            reaction.tap_timer == TapTimer::Keep,
    {
        self.modules = modules;
        self.drawer.touch_module = None;
        self.drawer.touch_id = None;
        self.unstall(now)
    }
}

/// Modules after each of them took note of an event.
pub open spec fn notified_modules(modules: Seq<Module>, event: ModuleEvent) -> Seq<Module> {
    Seq::new(modules.len(), |i: int| modules[i].notified(event))
}

/// An event changes what one of the first `count` modules shows.
pub open spec fn renewed(modules: Seq<Module>, event: ModuleEvent, count: int) -> bool {
    exists|i: int| 0 <= i < count && (#[trigger] modules[i]).renews(event)
}

impl State {
    /// Handle news from a background source of a module at the time `now`.
    ///
    /// The modules take note of the event. The windows are unstalled if it
    /// changes what one of them shows.
    pub fn notify(&mut self, event: ModuleEvent, now: u64) -> (reaction: Reaction)
        requires
            old(self).wf(),
        ensures
            final(self).wf(),
            final(self).modules@ == notified_modules(old(self).modules@, event),
            final(self).terminated == old(self).terminated,
            final(self).session == old(self).session,
            final(self).panel_height == old(self).panel_height,
            final(self).config == old(self).config,
            !reaction.request_frame,
            reaction.tap_timer == TapTimer::Keep,
            reaction.command is None,
            if renewed(old(self).modules@, event, old(self).modules.len() as int) {
                &&& final(self).drawer == old(self).drawer.unstalled(
                    now,
                    old(self).session.drawer_opening,
                )
                &&& old(self).drawer.unstalled_outcome(
                    reaction.drawer,
                    old(self).config,
                    final(self).modules@,
                    now,
                    old(self).session.drawer_opening,
                )
                &&& old(self).panel.unstalls_to(
                    final(self).panel,
                    reaction.panel,
                    old(self).config,
                    final(self).modules@,
                )
            } else {
                &&& final(self).drawer == old(self).drawer
                &&& final(self).panel == old(self).panel
                &&& reaction.drawer is Skipped
                &&& reaction.panel is Skipped
            },
    {
        let mut redraw = false;
        let mut i: usize = 0;
        while i < self.modules.len()
            invariant
                0 <= i <= self.modules.len(),
                self.modules.len() == old(self).modules.len(),
                forall|k: int| 0 <= k < i ==> self.modules@[k] == old(self).modules@[k].notified(event),
                forall|k: int| i <= k < self.modules.len() ==> self.modules@[k] == old(self).modules@[k],
                modules_wf(self.modules@),
                redraw == renewed(old(self).modules@, event, i as int),
                self.terminated == old(self).terminated,
                self.session == old(self).session,
                self.panel_height == old(self).panel_height,
                self.config == old(self).config,
                self.drawer == old(self).drawer,
                self.panel == old(self).panel,
                self.wf(),
            decreases self.modules.len() - i,
        {
            let mut module = self.modules[i];
            let renews = module.notify(event);
            self.modules.set(i, module);
            proof {
                if renews {
                    assert(old(self).modules@[i as int].renews(event));
                }
            }
            redraw = redraw || renews;
            i += 1;
        }
        assert(self.modules@ =~= notified_modules(old(self).modules@, event));
        if redraw {
            self.unstall(now)
        } else {
            Reaction::idle()
        }
    }
}

} // verus!
