//! Geometry of an analog clock face, in exact arithmetic.
//!
//! The crate turns a wall-clock reading into the directions of the hour and
//! minute hands and into the ordered list of shapes that make up one frame of
//! the dial: tick marks, hands and hub. Directions are exact fractions of a
//! turn and lengths are whole percentages, so every result is pinned down by
//! its contract. A renderer scales the shapes to its window and evaluates the
//! trigonometry.

pub mod angle;
pub mod face;
pub mod hands;
pub mod shapes;
pub mod style;
pub mod ticks;
pub mod wall_clock;
