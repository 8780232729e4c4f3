//! Stacked bar charts, from data to an SVG document, in exact arithmetic.
//!
//! A chart goes through three steps. `process_chart_data` checks the data
//! and lays it out: it picks the colours, the interval of the value axis and
//! its range, and returns a `RenderData`. `build_scene` places every bar,
//! label and legend entry on the canvas and returns a `Scene`.
//! `Scene::to_element` turns the scene into an element of the `svg` crate.
//! `render_chart` does the last two steps in one, `run` all three.
//!
//! No number here is a floating-point number. A value of the chart is an
//! `i64` that counts millionths, a length or coordinate an integer that
//! counts thousandths of a pixel, a hue a `u64` that counts `1 / HUE_ONE` of
//! the colour wheel. Where a quotient is not whole it is rounded down. So
//! every contract states the exact result, and Verus proves that the code
//! computes it without overflow.

pub mod axis;
pub mod color;
pub mod data;
pub mod document;
pub mod geometry;
pub mod layout;
pub mod logger;
pub mod markup;
pub mod random;
pub mod scene;
pub mod text;
pub mod tool;
