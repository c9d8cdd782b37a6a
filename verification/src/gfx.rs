//! Geometry for drawing.

pub mod coords;
pub mod legacy;
pub mod line;
pub mod vec;
