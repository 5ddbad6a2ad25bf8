//! Measures taken from the drawing surface, and the points of an ellipse.

pub mod ellipse;
pub mod frame;
