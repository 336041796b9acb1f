//! A grid of colored square cells in integer world coordinates: where the
//! cells of an N×N grid are placed and colored, which cells a cursor is over,
//! and the cells spawned where the mouse is clicked.
pub mod geometry;
pub mod grid;
pub mod world;
