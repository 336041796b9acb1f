//! Placement and coloring of the cells of an N×N grid.
use vstd::prelude::*;
use vstd::arithmetic::div_mod::lemma_fundamental_div_mod_converse;
use crate::geometry::{Point, SCALE};

verus! {

/// Number of colors in the palette that the diagonal cells take theirs from.
pub const PALETTE_LEN: usize = 5;

/// The color of a cell.
#[derive(Clone, Copy, Debug, PartialEq, Eq, Structural)]
pub enum CellColor {
    Red,
    Blue,
    Green,
    Yellow,
    Orange,
    Black,
}

/// The palette, by index: red, blue, green, yellow, orange.
pub open spec fn palette(i: int) -> CellColor {
    if i == 0 {
        CellColor::Red
    } else if i == 1 {
        CellColor::Blue
    } else if i == 2 {
        CellColor::Green
    } else if i == 3 {
        CellColor::Yellow
    } else {
        CellColor::Orange
    }
}

/// The color at index `i` of the palette.
pub fn palette_color(i: usize) -> (r: CellColor)
    requires
        i < PALETTE_LEN,
    ensures
        r == palette(i as int),
{
    match i {
        0 => CellColor::Red,
        1 => CellColor::Blue,
        2 => CellColor::Green,
        3 => CellColor::Yellow,
        _ => CellColor::Orange,
    }
}

/// The shape of a grid: `size` cells per side, each `width` whole world units
/// wide, with successive cells `gutter_percent` percent of a width apart (150
/// puts half a width of gutter between neighbours).
#[derive(Clone, Copy, Debug, PartialEq, Eq, Structural)]
pub struct GridConfig {
    pub size: usize,
    pub width: u16,
    pub gutter_percent: u16,
}

impl GridConfig {
    /// Every diagonal cell has a palette color of its own.
    pub open spec fn wf(&self) -> bool {
        self.size <= PALETTE_LEN
    }
}

/// A cell: an identifier, the world position it was placed at, and its color.
#[derive(Clone, Copy, Debug, PartialEq, Eq, Structural)]
pub struct Cell {
    pub id: i32,
    pub position: Point,
    pub color: CellColor,
}

/// The shift that centers the grid, `W / 2 + (W * G - W)` for width `W` and
/// gutter `G = gutter_percent / 100`, in hundredths of a unit.
pub open spec fn grid_offset(cfg: GridConfig) -> int {
    50 * cfg.width + (cfg.width * cfg.gutter_percent - SCALE * cfg.width)
}

/// Coordinate of row or column `i`, `(W * i) * G - offset`, in hundredths of
/// a unit: exact, with nothing rounded.
pub open spec fn cell_coord(cfg: GridConfig, i: int) -> int {
    cfg.width * i * cfg.gutter_percent - grid_offset(cfg)
}

/// Color of cell `(i, j)`: palette color `i` on the diagonal, black elsewhere.
pub open spec fn grid_color(i: int, j: int) -> CellColor {
    if i == j {
        palette(i)
    } else {
        CellColor::Black
    }
}

/// Cell `(i, j)` of the grid: identifier `i`, placed at
/// `(cell_coord(i), cell_coord(j))`.
pub open spec fn grid_cell(cfg: GridConfig, i: int, j: int) -> Cell {
    Cell {
        id: i as i32,
        position: Point { x: cell_coord(cfg, i) as i64, y: cell_coord(cfg, j) as i64 },
        color: grid_color(i, j),
    }
}

/// Where cell `(i, j)` stands in the list of grid cells: row by row.
pub open spec fn grid_index(n: int, i: int, j: int) -> int {
    i * n + j
}

/// All the cells of the grid, `(0, 0)`, `(0, 1)`, ... `(n - 1, n - 1)`.
pub open spec fn grid_cells(cfg: GridConfig) -> Seq<Cell> {
    Seq::new(
        (cfg.size * cfg.size) as nat,
        |k: int| grid_cell(cfg, k / (cfg.size as int), k % (cfg.size as int)),
    )
}

proof fn lemma_coord_bounds(cfg: GridConfig, i: int)
    requires
        0 <= i <= PALETTE_LEN,
    ensures
        0 <= cfg.width * i <= 5 * 0xffff,
        0 <= cfg.width * i * cfg.gutter_percent <= 5 * 0xffff * 0xffff,
        0 <= cfg.width * cfg.gutter_percent <= 0xffff * 0xffff,
        -0x1_0000_0000_0000 <= cell_coord(cfg, i) <= 0x1_0000_0000_0000,
{
    let w = cfg.width as int;
    let g = cfg.gutter_percent as int;
    assert(0 <= w * i <= 5 * 0xffff) by (nonlinear_arith)
        requires
            0 <= w <= 0xffff,
            0 <= i <= 5,
    ;
    assert(0 <= w * i * g <= 5 * 0xffff * 0xffff) by (nonlinear_arith)
        requires
            0 <= w <= 0xffff,
            0 <= g <= 0xffff,
            0 <= i <= 5,
    ;
    assert(0 <= w * g <= 0xffff * 0xffff) by (nonlinear_arith)
        requires
            0 <= w <= 0xffff,
            0 <= g <= 0xffff,
    ;
}

/// Coordinate of row or column `i` of the grid, in hundredths of a unit.
pub fn grid_coord(cfg: &GridConfig, i: usize) -> (r: i64)
    requires
        i <= PALETTE_LEN,
    ensures
        r == cell_coord(*cfg, i as int),
{
    proof {
        lemma_coord_bounds(*cfg, i as int);
    }
    let w = cfg.width as i64;
    let g = cfg.gutter_percent as i64;
    let along: i64 = w * (i as i64) * g;
    let offset: i64 = 50 * w + (w * g - SCALE * w);
    along - offset
}

/// Color of cell `(i, j)`.
pub fn cell_color(i: usize, j: usize) -> (r: CellColor)
    requires
        i == j ==> i < PALETTE_LEN,
    ensures
        r == grid_color(i as int, j as int),
        i == j ==> r == palette(i as int),
        i != j ==> r == CellColor::Black,
{
    if i != j {
        CellColor::Black
    } else {
        palette_color(i)
    }
}

/// Cell `(i, j)` of the grid.
pub fn make_grid_cell(cfg: &GridConfig, i: usize, j: usize) -> (r: Cell)
    requires
        i < PALETTE_LEN,
        j < PALETTE_LEN,
    ensures
        r == grid_cell(*cfg, i as int, j as int),
{
    let x = grid_coord(cfg, i);
    let y = grid_coord(cfg, j);
    Cell { id: i as i32, position: Point { x, y }, color: cell_color(i, j) }
}

/// The cells of the grid, row by row: `size * size` of them.
pub fn layout_grid(cfg: &GridConfig) -> (r: Vec<Cell>)
    requires
        cfg.wf(),
    ensures
        r@ == grid_cells(*cfg),
{
    let n = cfg.size;
    let mut cells: Vec<Cell> = Vec::new();
    let mut i: usize = 0;
    while i < n
        invariant
            n == cfg.size,
            n <= PALETTE_LEN,
            i <= n,
            cells@.len() == i * n,
            forall|k: int|
                0 <= k < cells@.len() ==> #[trigger] cells@[k] == grid_cell(
                    *cfg,
                    k / (n as int),
                    k % (n as int),
                ),
        decreases n - i,
    {
        let mut j: usize = 0;
        while j < n
            invariant
                n == cfg.size,
                n <= PALETTE_LEN,
                i < n,
                j <= n,
                cells@.len() == i * n + j,
                forall|k: int|
                    0 <= k < cells@.len() ==> #[trigger] cells@[k] == grid_cell(
                        *cfg,
                        k / (n as int),
                        k % (n as int),
                    ),
            decreases n - j,
        {
            proof {
                lemma_fundamental_div_mod_converse(
                    grid_index(n as int, i as int, j as int),
                    n as int,
                    i as int,
                    j as int,
                );
            }
            let c = make_grid_cell(cfg, i, j);
            cells.push(c);
            j = j + 1;
        }
        assert(i * n + n == (i + 1) * n) by (nonlinear_arith);
        i = i + 1;
    }
    assert(cells@ =~= grid_cells(*cfg));
    cells
}

/// Cell `(i, j)` of a laid-out grid stands at index `i * size + j`; it is
/// placed at `(cell_coord(i), cell_coord(j))`, and its color is palette
/// color `i` on the diagonal and black everywhere else.
pub proof fn lemma_grid_cell_at(cfg: GridConfig, i: int, j: int)
    requires
        cfg.wf(),
        0 <= i < cfg.size,
        0 <= j < cfg.size,
    ensures
        0 <= grid_index(cfg.size as int, i, j) < grid_cells(cfg).len(),
        grid_cells(cfg)[grid_index(cfg.size as int, i, j)] == grid_cell(cfg, i, j),
        grid_cells(cfg)[grid_index(cfg.size as int, i, j)].position.x == cell_coord(cfg, i),
        grid_cells(cfg)[grid_index(cfg.size as int, i, j)].position.y == cell_coord(cfg, j),
        i == j ==> grid_cells(cfg)[grid_index(cfg.size as int, i, j)].color == palette(i),
        i != j ==> grid_cells(cfg)[grid_index(cfg.size as int, i, j)].color == CellColor::Black,
{
    let n = cfg.size as int;
    assert(0 <= i * n + j < n * n) by (nonlinear_arith)
        requires
            0 <= i < n,
            0 <= j < n,
    ;
    lemma_fundamental_div_mod_converse(grid_index(n, i, j), n, i, j);
    lemma_coord_bounds(cfg, i);
    lemma_coord_bounds(cfg, j);
}

/// Neighbouring rows (and columns) of a grid stand exactly `W * G` apart,
/// `width * gutter_percent` hundredths of a unit, and further rows stand
/// further along.
pub proof fn lemma_neighbour_spacing(cfg: GridConfig, i: int)
    ensures
        cell_coord(cfg, i + 1) - cell_coord(cfg, i) == cfg.width * cfg.gutter_percent,
        cfg.width > 0 && cfg.gutter_percent > 0 ==> cell_coord(cfg, i) < cell_coord(cfg, i + 1),
{
    let w = cfg.width as int;
    let g = cfg.gutter_percent as int;
    assert(w * (i + 1) * g - w * i * g == w * g) by (nonlinear_arith);
    assert(w > 0 && g > 0 ==> w * g > 0) by (nonlinear_arith);
}

/// Laying out a grid twice with the same configuration gives the same cells,
/// in the same order, at the same positions and with the same colors.
pub proof fn lemma_layout_deterministic(cfg: GridConfig, first: Seq<Cell>, second: Seq<Cell>)
    requires
        first == grid_cells(cfg),
        second == grid_cells(cfg),
    ensures
        first.len() == second.len(),
        forall|k: int|
            0 <= k < first.len() ==> (#[trigger] first[k]).position == second[k].position
                && first[k].color == second[k].color && first[k].id == second[k].id,
{
}

} // verus!
