//! Scale-to-fit geometry for a fixed-size canvas drawn onto a resizable
//! surface: the uniform scale factor, the letterbox padding that centres the
//! canvas, and the mapping of a pointer position back onto canvas pixels.
//!
//! All quantities are exact: sizes are whole pixels and derived values are
//! fractions (`Ratio`), so the laws in `laws` hold without rounding error.

pub mod canvas;
pub mod laws;
pub mod ratio;

pub use canvas::Canvas2D;
pub use ratio::Ratio;
