//! Touches on the drawer's modules.

use vstd::prelude::*;

use crate::drawer::positioner::{kinds_of, ModuleHit, ModulePositioner, MAX_MODULES};
use crate::drawer::Drawer;
use crate::geometry::{Fraction, Position, PHYSICAL_UNITS};
use crate::module::registry::Module;
use crate::module::{Command, DrawerModule};

verus! {

/// Drawer touch start status.
#[derive(Copy, Clone, PartialEq, Eq, Debug)]
pub struct TouchStart {
    pub requires_redraw: bool,
    pub module_touched: bool,
    /// Work that the touched module asks for.
    pub command: Option<Command>,
}

/// Outcome of a touch point's motion or release.
#[derive(Copy, Clone, PartialEq, Eq, Debug)]
pub struct TouchUpdate {
    /// The drawer's content changed.
    pub dirty: bool,
    /// Work that the touched module asks for.
    pub command: Option<Command>,
}

/// Every module of the list holds usable values.
pub open spec fn modules_wf(modules: Seq<Module>) -> bool {
    forall|i: int| 0 <= i < modules.len() ==> (#[trigger] modules[i]).wf()
}

impl Drawer {
    /// Module that a touch at a position, given in sub-pixel units, goes
    /// down on.
    pub open spec fn touch_hit(&self, modules: Seq<Module>, position: Position<i32>) -> Option<
        ModuleHit,
    > {
        ModulePositioner::grid(self.size, self.scale_factor, self.layout).located(
            kinds_of(modules),
            self.scale_factor.scaled_position(position),
        )
    }

    /// Slider that the tracked touch point holds, if it holds one that has
    /// a width.
    pub open spec fn held_slider(&self, modules: Seq<Module>) -> Option<int> {
        match self.touch_module {
            Some(index) => if index < modules.len() && modules[index as int].drawer_kind() == Some(
                DrawerModule::Slider,
            ) && ModulePositioner::grid(self.size, self.scale_factor, self.layout).slider_size.width >= 1 {
                Some(index as int)
            } else {
                None
            },
            None => None,
        }
    }

    /// Value of a slider for a touch at a position in sub-pixel units: the
    /// share of the slider's width that lies left of the touch.
    pub open spec fn slider_value(&self, position: Position<i32>) -> Fraction {
        let positioner = ModulePositioner::grid(self.size, self.scale_factor, self.layout);
        ModulePositioner::share(
            positioner.edge_padding as int,
            positioner.slider_size.width as int,
            self.scale_factor.scaled_position(position).x as int,
        )
    }

    /// Module that the tracked touch point went down on, if it still
    /// exists.
    pub open spec fn held_module(&self, modules: Seq<Module>) -> Option<int> {
        match self.touch_module {
            Some(index) => if index < modules.len() {
                Some(index as int)
            } else {
                None
            },
            None => None,
        }
    }

    /// Drawer after a touch point went down at a position.
    pub open spec fn touch_pressed(&self, modules: Seq<Module>, id: i32, position: Position<i32>) -> Drawer {
        match self.touch_hit(modules, position) {
            Some(hit) => Drawer {
                touch_position: self.scale_factor.scaled_position(position),
                touch_id: Some(id),
                touch_module: Some(hit.index),
                ..*self
            },
            None => *self,
        }
    }

    /// Modules after a touch point went down at a position: a slider that
    /// is touched moves there.
    pub open spec fn pressed_modules(&self, modules: Seq<Module>, position: Position<i32>) -> Seq<
        Module,
    > {
        match self.touch_hit(modules, position) {
            Some(hit) => modules.update(hit.index as int, modules[hit.index as int].moved(hit.x)),
            None => modules,
        }
    }

    /// Status of a touch point that went down at a position.
    pub open spec fn press_start(&self, modules: Seq<Module>, position: Position<i32>) -> TouchStart {
        match self.touch_hit(modules, position) {
            Some(hit) => TouchStart {
                requires_redraw: modules[hit.index as int].drawer_kind() == Some(
                    DrawerModule::Slider,
                ),
                module_touched: true,
                command: modules[hit.index as int].move_command(hit.x),
            },
            None => TouchStart { requires_redraw: false, module_touched: false, command: None },
        }
    }

    /// Drawer after a touch point moved to a position.
    pub open spec fn touch_moved(&self, id: i32, position: Position<i32>) -> Drawer {
        if self.touch_id == Some(id) {
            Drawer { touch_position: self.scale_factor.scaled_position(position), ..*self }
        } else {
            *self
        }
    }

    /// Modules after a touch point moved to a position: the slider that it
    /// holds follows.
    pub open spec fn moved_modules(&self, modules: Seq<Module>, id: i32, position: Position<i32>) -> Seq<
        Module,
    > {
        if self.touch_id == Some(id) && self.held_slider(modules) is Some {
            let index = self.held_slider(modules)->0;
            modules.update(index, modules[index].moved(self.slider_value(position)))
        } else {
            modules
        }
    }

    /// Outcome of a touch point's motion to a position.
    pub open spec fn motion_update(&self, modules: Seq<Module>, id: i32, position: Position<i32>) -> TouchUpdate {
        if self.touch_id == Some(id) && self.held_slider(modules) is Some {
            let index = self.held_slider(modules)->0;
            let value = self.slider_value(position);
            TouchUpdate {
                dirty: !modules[index].moved(value).shown()->0.same(modules[index].shown()->0),
                command: modules[index].move_command(value),
            }
        } else {
            TouchUpdate { dirty: false, command: None }
        }
    }

    /// Drawer after a touch point was released.
    pub open spec fn touch_released(&self, id: i32) -> Drawer {
        if self.touch_id == Some(id) {
            Drawer { touch_module: None, touch_id: None, ..*self }
        } else {
            *self
        }
    }

    /// Modules after a touch point was released: the button that it went
    /// down on is pressed.
    pub open spec fn released_modules(&self, modules: Seq<Module>, id: i32) -> Seq<Module> {
        if self.touch_id == Some(id) && self.held_module(modules) is Some {
            let index = self.held_module(modules)->0;
            modules.update(index, modules[index].pressed())
        } else {
            modules
        }
    }

    /// Outcome of a touch point's release.
    pub open spec fn release_update(&self, modules: Seq<Module>, id: i32) -> TouchUpdate {
        if self.touch_id == Some(id) && self.held_module(modules) is Some {
            let module = modules[self.held_module(modules)->0];
            TouchUpdate {
                dirty: module.drawer_kind() is Some,
                command: if module.drawer_kind() == Some(DrawerModule::Toggle) {
                    module.press_command()
                } else {
                    module.release_command()
                },
            }
        } else {
            TouchUpdate { dirty: false, command: None }
        }
    }

    /// Handle touch press events.
    ///
    /// A touch on a module is tracked by the drawer and moves a slider
    /// there at once. A touch beside the modules leaves everything as it
    /// is: it is the caller's to use for dragging the drawer.
    pub fn touch_down(&mut self, id: i32, position: Position<i32>, modules: &mut Vec<Module>) -> (start:
        TouchStart)
        requires
            old(self).wf(),
            old(modules).len() <= MAX_MODULES,
            modules_wf(old(modules)@),
        ensures
            final(self).wf(),
            modules_wf(final(modules)@),
            final(modules).len() == old(modules).len(),
            kinds_of(final(modules)@) == kinds_of(old(modules)@),
            *final(self) == old(self).touch_pressed(old(modules)@, id, position),
            final(modules)@ == old(self).pressed_modules(old(modules)@, position),
            start == old(self).press_start(old(modules)@, position),
    {
        let touch_position = self.scale_factor.scale_touch(position);

        // Find touched module.
        let positioner = ModulePositioner::with_layout(self.size, self.scale_factor, self.layout);
        let hit = match positioner.module_position(modules, touch_position) {
            Some(hit) => hit,
            None => return TouchStart { requires_redraw: false, module_touched: false, command: None },
        };
        self.touch_position = touch_position;
        self.touch_id = Some(id);
        self.touch_module = Some(hit.index);

        // Update sliders.
        let mut module = modules[hit.index];
        let requires_redraw = match module.drawer_module() {
            Some(DrawerModule::Slider) => true,
            _ => false,
        };
        let command = module.set_value(hit.x);
        let ghost before = modules@;
        modules.set(hit.index, module);
        proof {
            assert(kinds_of(modules@) =~= kinds_of(before)) by {
                assert(module.drawer_kind() == before[hit.index as int].drawer_kind());
            }
        }

        TouchStart { requires_redraw, module_touched: true, command }
    }

    /// Handle touch motion events.
    ///
    /// The motion of the tracked touch point moves the slider that it
    /// holds. The drawer's content counts as changed only if the slider
    /// shows another value than before.
    pub fn touch_motion(&mut self, id: i32, position: Position<i32>, modules: &mut Vec<Module>) -> (update:
        TouchUpdate)
        requires
            old(self).wf(),
            modules_wf(old(modules)@),
        ensures
            final(self).wf(),
            modules_wf(final(modules)@),
            final(modules).len() == old(modules).len(),
            kinds_of(final(modules)@) == kinds_of(old(modules)@),
            *final(self) == old(self).touch_moved(id, position),
            final(modules)@ == old(self).moved_modules(old(modules)@, id, position),
            update == old(self).motion_update(old(modules)@, id, position),
    {
        if Some(id) != self.touch_id {
            return TouchUpdate { dirty: false, command: None };
        }
        self.touch_position = self.scale_factor.scale_touch(position);

        // Update slider position.
        let positioner = ModulePositioner::with_layout(self.size, self.scale_factor, self.layout);
        let index = match self.touch_module {
            Some(index) => index,
            None => return TouchUpdate { dirty: false, command: None },
        };
        if index >= modules.len() || positioner.slider_size.width < 1 {
            return TouchUpdate { dirty: false, command: None };
        }
        let mut module = modules[index];
        match module.drawer_module() {
            Some(DrawerModule::Slider) => {
                assert(PHYSICAL_UNITS == 30720);
                let relative_x = self.touch_position.x as i128 - (positioner.edge_padding as i128) * (
                PHYSICAL_UNITS as i128);
                let width = (positioner.slider_size.width as i128) * (PHYSICAL_UNITS as i128);
                let fractional_x = Fraction::clamped(relative_x, width);

                let old_value = module.value();
                let command = module.set_value(fractional_x);
                let new_value = module.value();
                let dirty = match (old_value, new_value) {
                    (Some(old_value), Some(new_value)) => !new_value.equals(&old_value),
                    _ => false,
                };
                let ghost before = modules@;
                modules.set(index, module);
                proof {
                    assert(kinds_of(modules@) =~= kinds_of(before)) by {
                        assert(module.drawer_kind() == before[index as int].drawer_kind());
                    }
                }

                TouchUpdate { dirty, command }
            },
            _ => TouchUpdate { dirty: false, command: None },
        }
    }

    /// Handle touch release events.
    ///
    /// The release of the tracked touch point presses the button that it
    /// went down on, or lets go of the slider.
    pub fn touch_up(&mut self, id: i32, modules: &mut Vec<Module>) -> (update: TouchUpdate)
        requires
            old(self).wf(),
            modules_wf(old(modules)@),
        ensures
            final(self).wf(),
            modules_wf(final(modules)@),
            final(modules).len() == old(modules).len(),
            kinds_of(final(modules)@) == kinds_of(old(modules)@),
            *final(self) == old(self).touch_released(id),
            final(modules)@ == old(self).released_modules(old(modules)@, id),
            update == old(self).release_update(old(modules)@, id),
    {
        if Some(id) != self.touch_id {
            return TouchUpdate { dirty: false, command: None };
        }
        let touch_module = self.touch_module;

        // Reset touch state.
        self.touch_module = None;
        self.touch_id = None;

        // Handle button toggles on touch up.
        let index = match touch_module {
            Some(index) => index,
            None => return TouchUpdate { dirty: false, command: None },
        };
        if index >= modules.len() {
            return TouchUpdate { dirty: false, command: None };
        }
        let mut module = modules[index];
        let update = match module.drawer_module() {
            Some(DrawerModule::Toggle) => TouchUpdate { dirty: true, command: module.toggle() },
            Some(DrawerModule::Slider) => TouchUpdate { dirty: true, command: module.on_touch_up() },
            None => TouchUpdate { dirty: false, command: None },
        };
        let ghost before = modules@;
        modules.set(index, module);
        proof {
            assert(kinds_of(modules@) =~= kinds_of(before)) by {
                assert(module.drawer_kind() == before[index as int].drawer_kind());
            }
        }

        update
    }
}

} // verus!
