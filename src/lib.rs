//! State and per-frame rules of a freehand-drawing canvas: pointer samples
//! become polylines, leaving the canvas starts a new one, and only polylines
//! of two or more points are drawn.

pub mod painting;
pub mod point;
pub mod viewer;

pub use point::{Hover, Point};
pub use viewer::{MandelbrotViewerApp, StrokeStyle};
