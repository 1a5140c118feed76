//! Touch events of the shell.

use vstd::prelude::*;

use crate::drawer::Drawer;
use crate::geometry::Position;
use crate::gesture::Release;
use crate::module::Command;
use crate::state::{Reaction, State, Surface, TapTimer};

verus! {

impl State {
    /// Handle a touch point that goes down on a surface at a position in
    /// sub-pixel units.
    ///
    /// On the panel it shows the drawer and starts to open it, unless
    /// another touch point drives the drawer already. On the drawer it
    /// goes to the module that it hits, and starts to close the drawer if
    /// it hits none.
    pub fn down(&mut self, surface: Surface, id: i32, position: Position<i32>, now: u64) -> (reaction:
        Reaction)
        requires
            old(self).wf(),
        ensures
            final(self).wf(),
            final(self).terminated == old(self).terminated,
            final(self).panel_height == old(self).panel_height,
            final(self).config == old(self).config,
            !reaction.request_frame,
            reaction.tap_timer == TapTimer::Keep,
            match surface {
                Surface::Panel => if old(self).session.active_touch is None {
                    let shown = Drawer { visible: true, ..old(self).drawer };
                    &&& final(self).session == old(self).session.began(id, position, true)
                    &&& final(self).drawer == shown.drawn(now, old(self).session.drawer_opening)
                    &&& shown.outcome(
                        reaction.drawer,
                        old(self).config,
                        old(self).modules@,
                        now,
                        old(self).session.drawer_opening,
                    )
                    &&& final(self).modules@ == old(self).modules@
                    &&& final(self).panel == old(self).panel
                    &&& reaction.panel is Skipped
                    &&& reaction.command is None
                } else {
                    *final(self) == *old(self) && reaction.is_idle()
                },
                Surface::Drawer => {
                    let start = old(self).drawer.press_start(old(self).modules@, position);
                    let pressed = old(self).drawer.touch_pressed(old(self).modules@, id, position);
                    &&& final(self).modules@ == old(self).drawer.pressed_modules(
                        old(self).modules@,
                        position,
                    )
                    &&& reaction.command == start.command
                    &&& if !start.module_touched {
                        &&& final(self).session == old(self).session.began(id, position, false)
                        &&& final(self).drawer == old(self).drawer
                        &&& final(self).panel == old(self).panel
                        &&& reaction.drawer is Skipped
                        &&& reaction.panel is Skipped
                    } else if start.requires_redraw {
                        &&& final(self).session == old(self).session
                        &&& final(self).drawer == pressed.unstalled(
                            now,
                            old(self).session.drawer_opening,
                        )
                        &&& pressed.unstalled_outcome(
                            reaction.drawer,
                            old(self).config,
                            final(self).modules@,
                            now,
                            old(self).session.drawer_opening,
                        )
                        &&& old(self).panel.unstalls_to(
                            final(self).panel,
                            reaction.panel,
                            old(self).config,
                            final(self).modules@,
                        )
                    } else {
                        &&& final(self).session == old(self).session
                        &&& final(self).drawer == pressed
                        &&& final(self).panel == old(self).panel
                        &&& reaction.drawer is Skipped
                        &&& reaction.panel is Skipped
                    }
                },
                Surface::Other => *final(self) == *old(self) && reaction.is_idle(),
            },
    {
        match surface {
            Surface::Panel => {
                if self.session.active_touch.is_some() {
                    return Reaction::idle();
                }
                let mut reaction = Reaction::idle();
                reaction.drawer =
                self.drawer.show(&self.config, &self.modules, self.session.drawer_opening, now);
                self.session.begin(id, position, true);
                reaction
            },
            Surface::Drawer => {
                let touch_start = self.drawer.touch_down(id, position, &mut self.modules);

                // Check drawer touch status.
                if !touch_start.module_touched {
                    // Initiate closing drawer if no module was touched.
                    self.session.begin(id, position, false);
                    Reaction::idle()
                } else if touch_start.requires_redraw {
                    // Redraw if slider was touched.
                    let mut reaction = self.unstall(now);
                    reaction.command = touch_start.command;
                    reaction
                } else {
                    let mut reaction = Reaction::idle();
                    reaction.command = touch_start.command;
                    reaction
                }
            },
            Surface::Other => Reaction::idle(),
        }
    }

    /// Handle a touch point that is released at the time `now`.
    ///
    /// The touch point that drives the drawer ends a drag or a tap. Any
    /// other one goes to the module that it went down on.
    pub fn up(&mut self, id: i32, now: u64) -> (reaction: Reaction)
        requires
            old(self).wf(),
        ensures
            final(self).wf(),
            final(self).terminated == old(self).terminated,
            final(self).panel_height == old(self).panel_height,
            final(self).config == old(self).config,
            final(self).session == old(self).session.released(
                old(self).drawer,
                old(self).config.input,
                old(self).panel_height,
                id,
                now,
            ),
            match old(self).session.release(
                old(self).drawer,
                old(self).config.input,
                old(self).panel_height,
                id,
                now,
            ) {
                Release::Ignored => {
                    let update = old(self).drawer.release_update(old(self).modules@, id);
                    let released = old(self).drawer.touch_released(id);
                    &&& final(self).modules@ == old(self).drawer.released_modules(
                        old(self).modules@,
                        id,
                    )
                    &&& reaction.command == update.command
                    &&& reaction.tap_timer == TapTimer::Keep
                    &&& !reaction.request_frame
                    &&& if update.dirty {
                        &&& final(self).drawer == released.unstalled(
                            now,
                            old(self).session.drawer_opening,
                        )
                        &&& released.unstalled_outcome(
                            reaction.drawer,
                            old(self).config,
                            final(self).modules@,
                            now,
                            old(self).session.drawer_opening,
                        )
                        &&& old(self).panel.unstalls_to(
                            final(self).panel,
                            reaction.panel,
                            old(self).config,
                            final(self).modules@,
                        )
                    } else {
                        &&& final(self).drawer == released
                        &&& final(self).panel == old(self).panel
                        &&& reaction.drawer is Skipped
                        &&& reaction.panel is Skipped
                    }
                },
                Release::Animate => {
                    let started = Drawer {
                        last_animation_frame: Some(now),
                        offsetting: false,
                        frame_pending: true,
                        ..old(self).drawer
                    };
                    &&& final(self).modules@ == old(self).modules@
                    &&& final(self).panel == old(self).panel
                    &&& final(self).drawer == started.unstalled(now, old(self).session.drawer_opening)
                    &&& started.unstalled_outcome(
                        reaction.drawer,
                        old(self).config,
                        old(self).modules@,
                        now,
                        old(self).session.drawer_opening,
                    )
                    &&& reaction.panel is Skipped
                    &&& reaction.request_frame == !old(self).drawer.frame_pending
                    &&& reaction.tap_timer == TapTimer::Keep
                    &&& reaction.command is None
                },
                Release::DoubleTap { display_off } => {
                    &&& final(self).modules@ == old(self).modules@
                    &&& final(self).panel == old(self).panel
                    &&& final(self).drawer == old(self).drawer
                    &&& reaction.drawer is Skipped
                    &&& reaction.panel is Skipped
                    &&& !reaction.request_frame
                    &&& reaction.tap_timer == TapTimer::Cancel
                    &&& reaction.command == (if display_off {
                        Some(Command::DisplayOff)
                    } else {
                        None
                    })
                },
                Release::SingleTap { delay, open } => {
                    &&& final(self).modules@ == old(self).modules@
                    &&& final(self).panel == old(self).panel
                    &&& final(self).drawer == old(self).drawer
                    &&& reaction.drawer is Skipped
                    &&& reaction.panel is Skipped
                    &&& !reaction.request_frame
                    &&& reaction.tap_timer == (TapTimer::Start { delay })
                    &&& reaction.command is None
                },
                Release::Close => {
                    &&& final(self).modules@ == old(self).modules@
                    &&& final(self).panel == old(self).panel
                    &&& final(self).drawer == (Drawer {
                        offset: 0,
                        visible: false,
                        ..old(self).drawer
                    })
                    &&& reaction.drawer is Hidden
                    &&& reaction.panel is Skipped
                    &&& !reaction.request_frame
                    &&& reaction.tap_timer == TapTimer::Keep
                    &&& reaction.command is None
                },
                Release::Tap => {
                    &&& final(self).modules@ == old(self).modules@
                    &&& final(self).panel == old(self).panel
                    &&& final(self).drawer == old(self).drawer
                    &&& reaction.is_idle()
                },
            },
    {
        let release = self.session.up(&self.drawer, &self.config.input, self.panel_height, id, now);
        match release {
            // Handle module touch events.
            Release::Ignored => {
                let update = self.drawer.touch_up(id, &mut self.modules);
                let mut reaction = if update.dirty {
                    self.unstall(now)
                } else {
                    Reaction::idle()
                };
                reaction.command = update.command;
                reaction
            },
            // Handle drawer dragging.
            Release::Animate => {
                let request_frame = self.drawer.start_animation(now);
                let mut reaction = self.unstall_drawer(now);
                reaction.request_frame = request_frame;
                reaction
            },
            Release::DoubleTap { display_off } => {
                let mut reaction = Reaction::idle();

                // Remove delayed single-tap callback.
                reaction.tap_timer = TapTimer::Cancel;

                // Turn off display on panel double-tap.
                if display_off {
                    reaction.command = Some(Command::DisplayOff);
                }
                reaction
            },
            Release::SingleTap { delay, open: _ } => {
                // Stage delayed single-tap for taps on the top panel.
                let mut reaction = Reaction::idle();
                reaction.tap_timer = TapTimer::Start { delay };
                reaction
            },
            // Immediately close drawer, since handle has no double-tap.
            Release::Close => self.set_drawer_status(false, now),
            Release::Tap => Reaction::idle(),
        }
    }

    /// Handle a touch point that moves to a position in sub-pixel units.
    ///
    /// The touch point that drives the drawer drags it once it has left the
    /// range of a tap. Any other one moves the slider that it holds.
    pub fn motion(&mut self, id: i32, position: Position<i32>, now: u64) -> (reaction: Reaction)
        requires
            old(self).wf(),
        ensures
            final(self).wf(),
            final(self).terminated == old(self).terminated,
            final(self).panel_height == old(self).panel_height,
            final(self).config == old(self).config,
            !reaction.request_frame,
            reaction.tap_timer == TapTimer::Keep,
            old(self).session.active_touch == Some(id) ==> {
                let moved = old(self).session.moved(
                    old(self).drawer,
                    old(self).config.input,
                    id,
                    position,
                );
                &&& final(self).session == moved.0
                &&& final(self).modules@ == old(self).modules@
                &&& final(self).panel == old(self).panel
                &&& reaction.panel is Skipped
                &&& reaction.command is None
                &&& if old(self).session.drags(
                    old(self).drawer,
                    old(self).config.input,
                    id,
                    position,
                ) {
                    &&& final(self).drawer == moved.1.unstalled(now, old(self).session.drawer_opening)
                    &&& moved.1.unstalled_outcome(
                        reaction.drawer,
                        old(self).config,
                        old(self).modules@,
                        now,
                        old(self).session.drawer_opening,
                    )
                } else {
                    &&& final(self).drawer == old(self).drawer
                    &&& reaction.drawer is Skipped
                }
            },
            old(self).session.active_touch != Some(id) ==> {
                let update = old(self).drawer.motion_update(old(self).modules@, id, position);
                let moved = old(self).drawer.touch_moved(id, position);
                &&& final(self).session == old(self).session
                &&& final(self).modules@ == old(self).drawer.moved_modules(
                    old(self).modules@,
                    id,
                    position,
                )
                &&& reaction.command == update.command
                &&& if update.dirty {
                    &&& final(self).drawer == moved.unstalled(now, old(self).session.drawer_opening)
                    &&& moved.unstalled_outcome(
                        reaction.drawer,
                        old(self).config,
                        final(self).modules@,
                        now,
                        old(self).session.drawer_opening,
                    )
                    &&& old(self).panel.unstalls_to(
                        final(self).panel,
                        reaction.panel,
                        old(self).config,
                        final(self).modules@,
                    )
                } else {
                    &&& final(self).drawer == moved
                    &&& final(self).panel == old(self).panel
                    &&& reaction.drawer is Skipped
                    &&& reaction.panel is Skipped
                }
            },
    {
        if self.session.active_touch == Some(id) {
            let dragged = self.session.motion(&mut self.drawer, &self.config.input, id, position);
            if dragged {
                self.unstall_drawer(now)
            } else {
                Reaction::idle()
            }
        } else {
            let update = self.drawer.touch_motion(id, position, &mut self.modules);
            let mut reaction = if update.dirty {
                self.unstall(now)
            } else {
                Reaction::idle()
            };
            reaction.command = update.command;
            reaction
        }
    }
}

} // verus!
