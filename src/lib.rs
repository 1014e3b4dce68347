//! Viewport transform and node-layout geometry for a node-graph canvas.
//!
//! Layout works on integer coordinates. The viewport's pan and zoom are exact
//! rationals that share one denominator, so zooming about a point keeps that
//! point fixed with no rounding at all.
pub mod geometry;
pub mod node;
pub mod viewport;
