//! Memory management.

pub mod slab;
