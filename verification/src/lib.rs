//! Layout engine for round instrument gauges.
//!
//! The engine works out what a gauge looks like and records it as drawing
//! operations in whole numbers; a renderer turns the record into pixels.
//! Lengths are thousandths of a pixel, values thousandths of a unit, ratios
//! thousandths, and angles exact fractions of a millionth of a turn.

pub use crate::tick::Tick;
pub use crate::util::ellipse::Ellipse;

pub mod angle;
pub mod canvas;
pub mod needle;
pub mod pin;
pub mod round;
pub mod series;
pub mod style;
pub mod tick;
pub mod util;
