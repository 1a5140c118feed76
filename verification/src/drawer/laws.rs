//! Laws of the drawer's animation and gestures.

use vstd::prelude::*;

use crate::config::Config;
use crate::drawer::positioner::{kinds_of, ModulePositioner, MAX_MODULES};
use crate::drawer::frame::DrawerDraw;
use crate::drawer::run::drawn_modules;
use crate::drawer::{Drawer, ANIMATION_SPEED};
use crate::geometry::{trunc_div, Position, ScaleFactor, PHYSICAL_UNITS};
use crate::module::registry::Module;
use crate::stall::{is_empty, RenderDirtiness};

verus! {

impl Drawer {
    /// Drawer after the first `count` animation steps at the given times.
    pub open spec fn animated_through(&self, times: Seq<u64>, opening: bool, count: int) -> Drawer
        decreases count,
    {
        if count <= 0 {
            *self
        } else {
            self.animated_through(times, opening, count - 1).animated(times[count - 1], opening)
        }
    }

    /// Offset at which a running animation ends: the full offset if its
    /// steps rise, zero if they fall.
    pub open spec fn animation_target(&self, opening: bool) -> int {
        if self.rises(opening) {
            self.full_offset()
        } else {
            0
        }
    }
}

impl Drawer {
    /// Drawer after a finger dragged it by the first `count` of the given
    /// distances.
    pub open spec fn dragged_through(&self, deltas: Seq<i64>, count: int) -> Drawer
        decreases count,
    {
        if count <= 0 {
            *self
        } else {
            self.dragged_through(deltas, count - 1).dragged(deltas[count - 1] as int)
        }
    }
}

/// Whatever a finger dragged the drawer by, the offset that is read for
/// rendering lies between zero and the full offset, and so do the rows of
/// pixels that the drawer covers.
pub proof fn lemma_render_offset_in_range(
    drawer: Drawer,
    deltas: Seq<i64>,
    now: u64,
    opening: bool,
)
    requires
        drawer.wf(),
    ensures
        ({
            let dragged = drawer.dragged_through(deltas, deltas.len() as int);
            let rendered = dragged.prepared(now, opening);
            &&& 0 <= dragged.render_offset() <= dragged.full_offset()
            &&& 0 <= rendered.offset <= rendered.full_offset()
            &&& rendered.full_offset() == drawer.full_offset()
            &&& 0 <= rendered.covered_rows() <= drawer.size.height
        }),
{
    lemma_drag_keeps_size(drawer, deltas, deltas.len() as int);
    let dragged = drawer.dragged_through(deltas, deltas.len() as int);
    let full = dragged.full_offset();
    assert(full >= 0) by (nonlinear_arith)
        requires
            full == (dragged.size.height * PHYSICAL_UNITS) / (dragged.scale_factor.units as int),
            dragged.size.height >= 0,
            dragged.scale_factor.units >= 1,
    ;
    let rendered = dragged.prepared(now, opening);
    assert(rendered.offset * rendered.scale_factor.units >= 0) by (nonlinear_arith)
        requires
            rendered.offset >= 0,
            rendered.scale_factor.units >= 1,
    ;
    let scaled = rendered.offset * rendered.scale_factor.units;
    assert((2 * scaled + PHYSICAL_UNITS) / (2 * PHYSICAL_UNITS) >= 0) by (nonlinear_arith)
        requires
            scaled >= 0,
            PHYSICAL_UNITS == 30720,
    ;
}

/// Dragging changes neither the size nor the scale factor of the drawer.
proof fn lemma_drag_keeps_size(drawer: Drawer, deltas: Seq<i64>, count: int)
    ensures
        drawer.dragged_through(deltas, count).size == drawer.size,
        drawer.dragged_through(deltas, count).scale_factor == drawer.scale_factor,
    decreases count,
{
    if count > 0 {
        lemma_drag_keeps_size(drawer, deltas, count - 1);
    }
}

/// The bounding boxes that are drawn for the modules are, module by module
/// and in the same order, the ones that a touch is tested against: a touch
/// goes to the first module in the modules' order whose drawn box covers
/// it.
pub proof fn lemma_hit_test_follows_render_order(
    positioner: ModulePositioner,
    scale: ScaleFactor,
    config: Config,
    modules: Seq<Module>,
    position: Position<i64>,
)
    requires
        positioner.wf(),
        positioner.columns >= 1,
        modules.len() <= MAX_MODULES,
    ensures
        ({
            let draws = drawn_modules(positioner, scale, config, modules);
            let x = trunc_div(position.x as int, PHYSICAL_UNITS as int);
            let y = trunc_div(position.y as int, PHYSICAL_UNITS as int);
            &&& draws.len() == modules.len()
            &&& forall|i: int|
                0 <= i < modules.len() ==> ((#[trigger] draws[i]) is Some
                    <==> modules[i].drawer_kind() is Some)
            &&& forall|i: int|
                0 <= i < modules.len() ==> (positioner.touched(kinds_of(modules), i, position) <==> (
                #[trigger] draws[i]) is Some && draws[i]->0.cell.covers(x, y))
            &&& match positioner.located(kinds_of(modules), position) {
                Some(hit) => {
                    &&& hit.index < modules.len()
                    &&& draws[hit.index as int] is Some
                    &&& draws[hit.index as int]->0.cell.covers(x, y)
                    &&& forall|j: int|
                        0 <= j < hit.index ==> !((#[trigger] draws[j]) is Some
                            && draws[j]->0.cell.covers(x, y))
                },
                None => forall|j: int|
                    0 <= j < modules.len() ==> !((#[trigger] draws[j]) is Some
                        && draws[j]->0.cell.covers(x, y)),
            }
        }),
{
    let kinds = kinds_of(modules);
    let draws = drawn_modules(positioner, scale, config, modules);
    let x = trunc_div(position.x as int, PHYSICAL_UNITS as int);
    let y = trunc_div(position.y as int, PHYSICAL_UNITS as int);
    assert forall|i: int| 0 <= i < modules.len() implies ((#[trigger] draws[i]) is Some
        <==> modules[i].drawer_kind() is Some) && (positioner.touched(kinds, i, position)
        <==> draws[i] is Some && draws[i]->0.cell.covers(x, y)) by {
        assert(kinds[i] == modules[i].drawer_kind());
        let cell = positioner.cell(kinds, i);
        assert(cell is Some <==> kinds[i] is Some);
        if cell is Some {
            assert(draws[i] == Some(
                crate::drawer::run::DrawerRun::drawn(positioner, scale, config, modules[i], cell->0),
            ));
            assert(draws[i]->0.cell == cell->0);
        }
    }
    lemma_first_touched_is_first(positioner, kinds, position, 0);
    if positioner.first_touched(kinds, position, 0) is Some {
        let index = positioner.first_touched(kinds, position, 0)->0;
        let hit = positioner.located(kinds, position)->0;
        assert(hit == positioner.hit_on(kinds, index, position));
        assert(hit.index as int == index);
    }
}

/// The first touched module from `from` on is touched, and no module
/// between `from` and it is.
proof fn lemma_first_touched_is_first(
    positioner: ModulePositioner,
    kinds: Seq<Option<crate::module::DrawerModule>>,
    position: Position<i64>,
    from: int,
)
    requires
        0 <= from <= kinds.len(),
    ensures
        match positioner.first_touched(kinds, position, from) {
            Some(index) => {
                &&& from <= index < kinds.len()
                &&& positioner.touched(kinds, index, position)
                &&& forall|j: int| from <= j < index ==> !positioner.touched(kinds, j, position)
            },
            None => forall|j: int| from <= j < kinds.len() ==> !positioner.touched(kinds, j, position),
        },
    decreases kinds.len() - from,
{
    if from < kinds.len() && !positioner.touched(kinds, from, position) {
        lemma_first_touched_is_first(positioner, kinds, position, from + 1);
    }
}

/// The times lie after `start` and each one after the one before.
pub open spec fn ticking(start: u64, times: Seq<u64>) -> bool {
    &&& forall|i: int| 0 <= i < times.len() ==> start < #[trigger] times[i]
    &&& forall|i: int, j: int| 0 <= i < j < times.len() ==> times[i] < times[j]
}

/// An animation step moves the offset towards zero while the offset is below
/// the threshold, and towards the full offset from the threshold on. It
/// never leaves the range from zero to the full offset, and a step that does
/// not end the animation leaves the offset on its side of the threshold.
pub proof fn lemma_animation_step_keeps_direction(drawer: Drawer, now: u64, opening: bool)
    requires
        drawer.wf(),
        drawer.last_animation_frame is Some,
    ensures
        ({
            let next = drawer.animated(now, opening);
            &&& 0 <= next.offset <= drawer.full_offset()
            &&& drawer.rises(opening) ==> next.offset >= drawer.offset || next.offset
                == drawer.full_offset()
            &&& !drawer.rises(opening) ==> next.offset <= drawer.offset || next.offset == 0
            &&& next.last_animation_frame is Some ==> next.rises(opening) == drawer.rises(opening)
            &&& next.last_animation_frame is None ==> next.offset == drawer.animation_target(opening)
            &&& next.full_offset() == drawer.full_offset()
        }),
{
    let full = drawer.full_offset();
    assert(full >= 0) by (nonlinear_arith)
        requires
            full == (drawer.size.height * crate::geometry::PHYSICAL_UNITS) / (
            drawer.scale_factor.units as int),
            drawer.size.height >= 0,
            drawer.scale_factor.units >= 1,
    ;
}

/// Repeated animation steps end the animation at exactly zero or the full
/// offset, whichever the first step moves towards, once enough steps were
/// taken to cover the full offset.
pub proof fn lemma_animation_converges(drawer: Drawer, opening: bool, times: Seq<u64>)
    requires
        drawer.wf(),
        drawer.last_animation_frame is Some,
        ticking(drawer.last_animation_frame->0, times),
        times.len() * ANIMATION_SPEED >= drawer.full_offset(),
        times.len() >= 1,
    ensures
        ({
            let end = drawer.animated_through(times, opening, times.len() as int);
            &&& end.last_animation_frame is None
            &&& end.offset == drawer.animation_target(opening)
            &&& !drawer.rises(opening) ==> !end.visible
        }),
{
    lemma_animation_progress(drawer, opening, times, times.len() as int);
}

/// After `count` steps the animation has either ended at its target, or
/// every step so far has covered its distance.
proof fn lemma_animation_progress(drawer: Drawer, opening: bool, times: Seq<u64>, count: int)
    requires
        drawer.wf(),
        drawer.last_animation_frame is Some,
        ticking(drawer.last_animation_frame->0, times),
        0 <= count <= times.len(),
    ensures
        ({
            let state = drawer.animated_through(times, opening, count);
            &&& state.wf()
            &&& state.full_offset() == drawer.full_offset()
            &&& state.last_animation_frame is None ==> {
                &&& count >= 1
                &&& state.offset == drawer.animation_target(opening)
                &&& !drawer.rises(opening) ==> !state.visible
            }
            &&& state.last_animation_frame matches Some(last) ==> {
                &&& last == (if count == 0 {
                    drawer.last_animation_frame->0
                } else {
                    times[count - 1]
                })
                &&& state.rises(opening) == drawer.rises(opening)
                &&& drawer.rises(opening) ==> state.offset >= drawer.offset + count
                    * ANIMATION_SPEED
                &&& !drawer.rises(opening) ==> state.offset <= drawer.offset - count
                    * ANIMATION_SPEED
                &&& count >= 1 ==> 0 < state.offset < drawer.full_offset()
                &&& count * ANIMATION_SPEED < drawer.full_offset() || count == 0
            }
        }),
    decreases count,
{
    let full = drawer.full_offset();
    assert(full >= 0) by (nonlinear_arith)
        requires
            full == (drawer.size.height * crate::geometry::PHYSICAL_UNITS) / (
            drawer.scale_factor.units as int),
            drawer.size.height >= 0,
            drawer.scale_factor.units >= 1,
    ;
    if count > 0 {
        lemma_animation_progress(drawer, opening, times, count - 1);
        let before = drawer.animated_through(times, opening, count - 1);
        let state = before.animated(times[count - 1], opening);
        assert(state == drawer.animated_through(times, opening, count));
        if before.last_animation_frame is Some {
            let last = before.last_animation_frame->0;
            let now = times[count - 1];
            assert(last < now) by {
                if count - 1 == 0 {
                } else {
                    assert(times[count - 2] < times[count - 1]);
                }
            }
            assert(Drawer::step(last, now) >= ANIMATION_SPEED);
        }
    }
}

/// A drawing opportunity that finds the drawer hidden or without area
/// submits no buffer and leaves the drawer stalled, hidden or without area
/// as before: so it is with every further opportunity.
pub proof fn lemma_drawer_stalls_while_not_ready(
    drawer: Drawer,
    draw: DrawerDraw,
    config: Config,
    modules: Seq<Module>,
    now: u64,
    opening: bool,
)
    requires
        !drawer.visible || is_empty(drawer.size),
        drawer.used_outcome(draw, config, modules, now, opening),
    ensures
        draw is Skipped,
        drawer.used(now, opening).render.stalled,
        drawer.used(now, opening).visible == drawer.visible,
        drawer.used(now, opening).size == drawer.size,
        drawer.used(now, opening).offset == drawer.offset,
{
}

/// A stalled drawer that has become visible and has an area uses exactly
/// one drawing opportunity when it is unstalled: it renders a frame at once
/// if it covers any row of pixels, and a second call right after renders
/// none unless the first one stalled again.
pub proof fn lemma_drawer_unstall_draws_once(
    drawer: Drawer,
    first: DrawerDraw,
    second: DrawerDraw,
    config: Config,
    modules: Seq<Module>,
    now: u64,
    opening: bool,
)
    requires
        drawer.wf(),
        drawer.render.stalled,
        drawer.visible,
        !is_empty(drawer.size),
        drawer.unstalled_outcome(first, config, modules, now, opening),
        drawer.unstalled(now, opening).unstalled_outcome(second, config, modules, now, opening),
    ensures
        ({
            let ready = Drawer { render: RenderDirtiness { dirty: false, stalled: false }, ..drawer };
            &&& drawer.unstalled(now, opening) == ready.drawn(now, opening)
            &&& first is Frame <==> ready.renders(now, opening)
            &&& first is Frame ==> second is Skipped && !drawer.unstalled(now, opening).render.stalled
        }),
{
}

} // verus!
