use cell_grid::geometry::{is_over_cell, Point, SCALE};
use cell_grid::grid::{
    cell_color, grid_coord, layout_grid, make_grid_cell, palette_color, Cell, CellColor,
    GridConfig, PALETTE_LEN,
};

fn original_config() -> GridConfig {
    GridConfig { size: 2, width: 50, gutter_percent: 150 }
}

#[test]
fn two_by_two_grid_positions() {
    let cells = layout_grid(&original_config());
    assert_eq!(cells.len(), 4);
    assert_eq!(cells[0].position, Point::from_units(-50, -50));
    assert_eq!(cells[1].position, Point::from_units(-50, 25));
    assert_eq!(cells[2].position, Point::from_units(25, -50));
    assert_eq!(cells[3].position, Point::from_units(25, 25));
}

#[test]
fn grid_coord_formula() {
    let cfg = original_config();
    assert_eq!(SCALE, 100);
    assert_eq!(grid_coord(&cfg, 0), -5000);
    assert_eq!(grid_coord(&cfg, 1), 2500);
    assert_eq!(grid_coord(&cfg, 4), 25000);
    // width 10, no gutter: offset 5 + 0, 10 apart
    let tight = GridConfig { size: 3, width: 10, gutter_percent: 100 };
    assert_eq!(grid_coord(&tight, 0), -500);
    assert_eq!(grid_coord(&tight, 2), 1500);
}

#[test]
fn grid_coord_odd_width_is_exact() {
    // offset 25.5 + (76.5 - 51) = 51; cell 1 at 76.5 - 51 = 25.5
    let cfg = GridConfig { size: 2, width: 51, gutter_percent: 150 };
    assert_eq!(grid_coord(&cfg, 0), -5100);
    assert_eq!(grid_coord(&cfg, 1), 2550);
}

#[test]
fn grid_coord_sub_unit_spacing() {
    // W * G = 0.01: neighbours stand one hundredth apart
    let cfg = GridConfig { size: 3, width: 1, gutter_percent: 1 };
    let cells = layout_grid(&cfg);
    assert_eq!(grid_coord(&cfg, 1) - grid_coord(&cfg, 0), 1);
    assert_eq!(grid_coord(&cfg, 2) - grid_coord(&cfg, 1), 1);
    for a in 0..cells.len() {
        for b in 0..a {
            assert_ne!(cells[a].position, cells[b].position);
        }
    }
}

#[test]
fn grid_coord_largest_values() {
    let cfg = GridConfig { size: 5, width: u16::MAX, gutter_percent: u16::MAX };
    let w = u16::MAX as i64;
    let g = u16::MAX as i64;
    let offset = 50 * w + (w * g - 100 * w);
    for i in 0..5usize {
        assert_eq!(grid_coord(&cfg, i), w * i as i64 * g - offset);
        if i > 0 {
            assert_eq!(grid_coord(&cfg, i) - grid_coord(&cfg, i - 1), w * g);
        }
    }
}

#[test]
fn diagonal_and_off_diagonal_colors() {
    let cfg = GridConfig { size: 5, width: 50, gutter_percent: 150 };
    let cells = layout_grid(&cfg);
    assert_eq!(cells.len(), 25);
    for i in 0..5usize {
        for j in 0..5usize {
            let c = cells[i * 5 + j];
            if i == j {
                assert_eq!(c.color, palette_color(i));
            } else {
                assert_eq!(c.color, CellColor::Black);
            }
            assert_eq!(c.id, i as i32);
        }
    }
}

#[test]
fn palette_order() {
    assert_eq!(PALETTE_LEN, 5);
    assert_eq!(palette_color(0), CellColor::Red);
    assert_eq!(palette_color(1), CellColor::Blue);
    assert_eq!(palette_color(2), CellColor::Green);
    assert_eq!(palette_color(3), CellColor::Yellow);
    assert_eq!(palette_color(4), CellColor::Orange);
    assert_eq!(cell_color(3, 3), CellColor::Yellow);
    assert_eq!(cell_color(3, 1), CellColor::Black);
    assert_eq!(cell_color(0, 7), CellColor::Black);
    assert_eq!(cell_color(9, 2), CellColor::Black);
}

#[test]
fn grid_cell_fields() {
    let c = make_grid_cell(&original_config(), 1, 0);
    assert_eq!(c, Cell { id: 1, position: Point::from_units(25, -50), color: CellColor::Black });
}

#[test]
fn empty_grid() {
    let cells = layout_grid(&GridConfig { size: 0, width: 50, gutter_percent: 150 });
    assert!(cells.is_empty());
}

#[test]
fn layout_twice_is_identical() {
    let cfg = GridConfig { size: 4, width: 30, gutter_percent: 125 };
    let first = layout_grid(&cfg);
    let second = layout_grid(&cfg);
    assert_eq!(first, second);
}

#[test]
fn hit_test_edges() {
    let pos = Point::from_units(-50, -50);
    assert!(is_over_cell(Point::from_units(-50, -50), pos, 50));
    assert!(is_over_cell(Point::new(-1, 0), pos, 50));
    assert!(!is_over_cell(Point::from_units(0, -50), pos, 50));
    assert!(!is_over_cell(Point::new(-5001, -5000), pos, 50));
    // the y axis is not compared
    assert!(is_over_cell(Point::from_units(-30, 1000), pos, 50));
}

#[test]
fn hit_test_at_extremes() {
    let pos = Point::new(i64::MAX - 10, 0);
    assert!(is_over_cell(Point::new(i64::MAX, 0), pos, u32::MAX));
    assert!(!is_over_cell(Point::new(i64::MIN, 0), pos, u32::MAX));
    assert!(!is_over_cell(Point::new(5, 0), Point::new(5, 0), 0));
}

#[test]
fn from_units_scales() {
    assert_eq!(Point::from_units(100, -200), Point::new(10000, -20000));
    assert_eq!(Point::from_units(i32::MIN, i32::MAX).x, i32::MIN as i64 * 100);
}
