//! The cells that exist, the recorded cursor position, and what a frame or a
//! click does to them.
use vstd::prelude::*;
use crate::geometry::{is_hit, is_over_cell, Point};
use crate::grid::{grid_cells, layout_grid, Cell, CellColor, GridConfig};

verus! {

/// Relies on rand::random: draws a value from the thread-local generator.
/// Nothing is promised of the value.
pub assume_specification<T>[ rand::random::<T> ]() -> (r: T)
    where
        rand::distributions::Standard: rand::distributions::Distribution<T>,
;

/// The identifiers of the cells of `cells` that a cursor at `cursor` is over,
/// in the order the cells stand.
pub open spec fn hit_ids(cells: Seq<Cell>, cursor: Point, width: int) -> Seq<i32>
    decreases cells.len(),
{
    if cells.len() == 0 {
        Seq::empty()
    } else {
        let rest = hit_ids(cells.drop_last(), cursor, width);
        if is_hit(cursor, cells.last().position, width) {
            rest.push(cells.last().id)
        } else {
            rest
        }
    }
}

/// The cell that a click at `at` spawns when it is given identifier `id`:
/// black, placed where the click was.
pub open spec fn click_cell(id: i32, at: Point) -> Cell {
    Cell { id, position: at, color: CellColor::Black }
}

/// Whether a mouse button went down or came up.
#[derive(Clone, Copy, Debug, PartialEq, Eq, Structural)]
pub enum ButtonState {
    Pressed,
    Released,
}

/// Every cell there is, the width in whole units that they all share, and the
/// world position of the last click.
pub struct World {
    pub cells: Vec<Cell>,
    pub cell_width: u32,
    pub cursor: Point,
}

impl World {
    /// The world at startup: the cells of the grid, and the cursor at the
    /// origin.
    pub fn setup(cfg: &GridConfig) -> (r: World)
        requires
            cfg.wf(),
        ensures
            r.cells@ == grid_cells(*cfg),
            r.cell_width == cfg.width,
            r.cursor == Point::origin_spec(),
    {
        World { cells: layout_grid(cfg), cell_width: cfg.width as u32, cursor: Point::origin() }
    }

    /// The identifiers of the cells that the recorded cursor is over, in the
    /// order the cells stand. Only the x axis is compared.
    pub fn cells_under_cursor(&self) -> (r: Vec<i32>)
        ensures
            r@ == hit_ids(self.cells@, self.cursor, self.cell_width as int),
    {
        let mut ids: Vec<i32> = Vec::new();
        let mut k: usize = 0;
        while k < self.cells.len()
            invariant
                k <= self.cells@.len(),
                ids@ == hit_ids(self.cells@.subrange(0, k as int), self.cursor, self.cell_width as int),
            decreases self.cells@.len() - k,
        {
            let c = self.cells[k];
            assert(self.cells@.subrange(0, k + 1).drop_last() =~= self.cells@.subrange(0, k as int));
            if is_over_cell(self.cursor, c.position, self.cell_width) {
                ids.push(c.id);
            }
            k = k + 1;
        }
        assert(self.cells@.subrange(0, self.cells@.len() as int) =~= self.cells@);
        ids
    }

    /// Records a click at world position `at`: the cursor moves there, and one
    /// black cell with identifier `id` is added there.
    pub fn record_click(&mut self, at: Point, id: i32)
        ensures
            final(self).cursor == at,
            final(self).cell_width == old(self).cell_width,
            final(self).cells@ == old(self).cells@.push(click_cell(id, at)),
    {
        self.cursor = at;
        self.cells.push(Cell { id, position: at, color: CellColor::Black });
    }

    /// Handles a click at world position `at`, with a random identifier for
    /// the new cell: exactly one cell is added, black and placed at `at`, the
    /// others stay as they were, and the cursor moves to `at`.
    pub fn handle_click(&mut self, at: Point)
        ensures
            final(self).cursor == at,
            final(self).cell_width == old(self).cell_width,
            final(self).cells@.len() == old(self).cells@.len() + 1,
            final(self).cells@.drop_last() == old(self).cells@,
            final(self).cells@.last().position == at,
            final(self).cells@.last().color == CellColor::Black,
            final(self).cells@ == old(self).cells@.push(
                click_cell(final(self).cells@.last().id, at),
            ),
    {
        let id: i32 = rand::random::<i32>();
        self.record_click(at, id);
        assert(self.cells@.drop_last() =~= old(self).cells@);
    }

    /// Handles one mouse button event. A press whose cursor has a world
    /// position (`Some`) is a click there; a release, or a press outside the
    /// window, changes nothing.
    pub fn on_mouse_button(&mut self, state: ButtonState, world_pos: Option<Point>)
        ensures
            (state == ButtonState::Pressed && world_pos.is_some()) ==> {
                &&& final(self).cursor == world_pos.unwrap()
                &&& final(self).cell_width == old(self).cell_width
                &&& final(self).cells@ == old(self).cells@.push(
                    click_cell(final(self).cells@.last().id, world_pos.unwrap()),
                )
            },
            !(state == ButtonState::Pressed && world_pos.is_some()) ==> {
                &&& final(self).cursor == old(self).cursor
                &&& final(self).cell_width == old(self).cell_width
                &&& final(self).cells@ == old(self).cells@
            },
    {
        match state {
            ButtonState::Pressed => {
                if let Some(at) = world_pos {
                    self.handle_click(at);
                }
            },
            ButtonState::Released => {},
        }
    }
}

} // verus!
