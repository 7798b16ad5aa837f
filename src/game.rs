use vstd::prelude::*;

use crate::error::EngineError;
use crate::grid::{valid_dimensions, Grid};
use crate::mapper::{cell_at, map_to_cell, Placement, Point};
use crate::rule::{all_dead, in_bounds, stepped, toggled};

verus! {

/// What the running screen asks of the screen that holds it after a click.
#[derive(Clone, Copy, Debug, PartialEq, Eq, Structural)]
pub enum GameSetupCallback {
    /// Stay on the running simulation.
    Stay,
    /// Leave the simulation and go back to the setup screen.
    Setup,
}

/// A running simulation: the grid, the rectangle it is drawn in, and the
/// last known pointer position.
pub struct GameOfLife {
    grid: Grid,
    area: Placement,
    pointer: Point,
}

impl GameOfLife {
    pub closed spec fn spec_grid(&self) -> Grid {
        self.grid
    }

    pub closed spec fn spec_area(&self) -> Placement {
        self.area
    }

    pub closed spec fn spec_pointer(&self) -> Point {
        self.pointer
    }

    pub open spec fn wf(&self) -> bool {
        self.spec_grid().wf()
    }

    /// The cell that a click would address now, if the pointer is on the
    /// grid's area.
    pub open spec fn spec_target(&self) -> Option<(int, int)> {
        cell_at(
            self.spec_pointer(),
            self.spec_area(),
            self.spec_grid().spec_width(),
            self.spec_grid().spec_height(),
        )
    }

    /// A simulation on a `width` by `height` grid of dead cells, drawn
    /// nowhere until `fill` places it, with the pointer at the origin.
    /// `ResourceExhausted` where a dimension is 0 or above `MAX_DIMENSION`.
    pub fn new(width: u32, height: u32) -> (r: Result<GameOfLife, EngineError>)
        ensures
            r is Ok <==> valid_dimensions(width as int, height as int),
            match r {
                Ok(g) => {
                    &&& g.wf()
                    &&& g.spec_grid().spec_width() == width
                    &&& g.spec_grid().spec_height() == height
                    &&& g.spec_grid()@ == all_dead((width * height) as nat)
                    &&& g.spec_area() == Placement { left: 0, top: 0, right: 0, bottom: 0 }
                    &&& g.spec_pointer() == Point { x: 0, y: 0 }
                },
                Err(e) => e == EngineError::ResourceExhausted,
            },
    {
        match Grid::allocate(width, height) {
            Ok(grid) => Ok(
                GameOfLife {
                    grid,
                    area: Placement { left: 0, top: 0, right: 0, bottom: 0 },
                    pointer: Point { x: 0, y: 0 },
                },
            ),
            Err(e) => Err(e),
        }
    }

    /// The grid being simulated.
    pub fn grid(&self) -> (r: &Grid)
        ensures
            *r == self.spec_grid(),
    {
        &self.grid
    }

    /// Advances the simulation by one generation.
    pub fn compute(&mut self)
        requires
            old(self).wf(),
        ensures
            final(self).wf(),
            final(self).spec_area() == old(self).spec_area(),
            final(self).spec_pointer() == old(self).spec_pointer(),
            final(self).spec_grid().spec_width() == old(self).spec_grid().spec_width(),
            final(self).spec_grid().spec_height() == old(self).spec_grid().spec_height(),
            final(self).spec_grid()@ == stepped(
                old(self).spec_grid()@,
                old(self).spec_grid().spec_width(),
                old(self).spec_grid().spec_height(),
            ),
    {
        self.grid.step();
    }

    /// Flips the cell `(x, y)`; `InvalidAddress`, with nothing changed, where
    /// it lies outside the grid.
    pub fn toggle(&mut self, x: i32, y: i32) -> (r: Result<(), EngineError>)
        requires
            old(self).wf(),
        ensures
            final(self).wf(),
            final(self).spec_area() == old(self).spec_area(),
            final(self).spec_pointer() == old(self).spec_pointer(),
            final(self).spec_grid().spec_width() == old(self).spec_grid().spec_width(),
            final(self).spec_grid().spec_height() == old(self).spec_grid().spec_height(),
            r is Ok <==> in_bounds(
                old(self).spec_grid().spec_width(),
                old(self).spec_grid().spec_height(),
                x as int,
                y as int,
            ),
            match r {
                Ok(_) => final(self).spec_grid()@ == toggled(
                    old(self).spec_grid()@,
                    old(self).spec_grid().spec_width(),
                    x as int,
                    y as int,
                ),
                Err(e) => e == EngineError::InvalidAddress && final(self).spec_grid()@ == old(
                    self,
                ).spec_grid()@,
            },
    {
        self.grid.toggle(x, y)
    }

    /// Places the grid in `area`, where it is drawn and where clicks are
    /// mapped to its cells.
    pub fn fill(&mut self, area: Placement)
        ensures
            final(self).spec_grid() == old(self).spec_grid(),
            final(self).spec_pointer() == old(self).spec_pointer(),
            final(self).spec_area() == area,
    {
        self.area = area;
    }

    /// Records where the pointer now is.
    pub fn pointer_moved(&mut self, pointer: Point)
        ensures
            final(self).spec_grid() == old(self).spec_grid(),
            final(self).spec_area() == old(self).spec_area(),
            final(self).spec_pointer() == pointer,
    {
        self.pointer = pointer;
    }

    /// The cell under the pointer, if the pointer is on the grid's area.
    pub fn pointer_cell(&self) -> (r: Option<(i32, i32)>)
        requires
            self.wf(),
        ensures
            match r {
                Some((c, row)) => {
                    &&& self.spec_target() == Some((c as int, row as int))
                    &&& in_bounds(
                        self.spec_grid().spec_width(),
                        self.spec_grid().spec_height(),
                        c as int,
                        row as int,
                    )
                },
                None => self.spec_target() is None,
            },
    {
        map_to_cell(self.pointer, self.area, self.grid.width(), self.grid.height())
    }

    /// Handles the release of the pointer on the running screen. A click on
    /// the exit control asks to go back to setup; a click on the step control
    /// advances one generation; a release over the grid then flips the cell
    /// under the pointer. Returns what to ask of the enclosing screen, and
    /// whether the grid changed and must be drawn again.
    pub fn left_up(&mut self, exit_clicked: bool, step_clicked: bool) -> (r: (
        GameSetupCallback,
        bool,
    ))
        requires
            old(self).wf(),
        ensures
            final(self).wf(),
            final(self).spec_area() == old(self).spec_area(),
            final(self).spec_pointer() == old(self).spec_pointer(),
            final(self).spec_grid().spec_width() == old(self).spec_grid().spec_width(),
            final(self).spec_grid().spec_height() == old(self).spec_grid().spec_height(),
            r.0 == (if exit_clicked {
                GameSetupCallback::Setup
            } else {
                GameSetupCallback::Stay
            }),
            ({
                let w = old(self).spec_grid().spec_width();
                let h = old(self).spec_grid().spec_height();
                let after_step = if step_clicked {
                    stepped(old(self).spec_grid()@, w, h)
                } else {
                    old(self).spec_grid()@
                };
                match old(self).spec_target() {
                    Some((c, row)) => final(self).spec_grid()@ == toggled(after_step, w, c, row)
                        && r.1,
                    None => final(self).spec_grid()@ == after_step && r.1 == step_clicked,
                }
            }),
    {
        let mut redraw = false;
        let callback = if exit_clicked {
            GameSetupCallback::Setup
        } else {
            GameSetupCallback::Stay
        };
        if step_clicked {
            self.compute();
            redraw = true;
        }
        if let Some((x, y)) = self.pointer_cell() {
            let toggled_ok = self.toggle(x, y);
            assert(toggled_ok is Ok);
            redraw = true;
        }
        (callback, redraw)
    }
}

} // verus!
