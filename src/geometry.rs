//! Points in world coordinates and the hit test of a cell.
use vstd::prelude::*;

verus! {

/// Number of coordinate steps in one world unit: positions are held in
/// hundredths of a unit, so that every cell of a grid whose gutter is a whole
/// percentage lands exactly where its placement formula puts it.
pub const SCALE: i64 = 100;

/// A point in world coordinates, in hundredths of a world unit.
#[derive(Clone, Copy, Debug, PartialEq, Eq, Structural)]
pub struct Point {
    pub x: i64,
    pub y: i64,
}

impl Point {
    /// The world origin.
    pub open spec fn origin_spec() -> Point {
        Point { x: 0, y: 0 }
    }

    pub fn new(x: i64, y: i64) -> (r: Point)
        ensures
            r.x == x,
            r.y == y,
    {
        Point { x, y }
    }

    /// The point `(x, y)` given in whole world units.
    pub fn from_units(x: i32, y: i32) -> (r: Point)
        ensures
            r.x == SCALE * x,
            r.y == SCALE * y,
    {
        Point { x: SCALE * x as i64, y: SCALE * y as i64 }
    }

    /// The world origin, where the cursor rests before any click.
    pub fn origin() -> (r: Point)
        ensures
            r == Point::origin_spec(),
    {
        Point { x: 0, y: 0 }
    }
}

/// A cursor at `cursor` is over a cell whose stored position is `cell_pos`
/// and whose width is `width` whole world units when its x coordinate lies
/// in the half-open span `[cell_pos.x, cell_pos.x + width)`. The y axis is not
/// looked at.
pub open spec fn is_hit(cursor: Point, cell_pos: Point, width: int) -> bool {
    cell_pos.x <= cursor.x < cell_pos.x + SCALE * width
}

/// Whether a cursor at `cursor` is over the cell stored at `cell_pos`.
pub fn is_over_cell(cursor: Point, cell_pos: Point, width: u32) -> (r: bool)
    ensures
        r == is_hit(cursor, cell_pos, width as int),
{
    let span: i128 = (width as i128) * 100;
    assert(0 <= span <= 0xffff_ffff * 100 && span == SCALE * width) by (nonlinear_arith)
        requires
            span == width * 100,
            SCALE == 100,
            0 <= width <= 0xffff_ffff,
    ;
    let right: i128 = cell_pos.x as i128 + span;
    cell_pos.x <= cursor.x && (cursor.x as i128) < right
}

/// The span of a cell of positive width is closed on the left and open on the
/// right: a cursor at the cell's left edge is over it, one at the left edge
/// plus the width is not, nor is one anywhere left of the cell.
pub proof fn lemma_hit_edges(cursor: Point, cell_pos: Point, width: int)
    requires
        width > 0,
    ensures
        cursor.x == cell_pos.x ==> is_hit(cursor, cell_pos, width),
        cursor.x == cell_pos.x + SCALE * width ==> !is_hit(cursor, cell_pos, width),
        cursor.x < cell_pos.x ==> !is_hit(cursor, cell_pos, width),
{
}

} // verus!
