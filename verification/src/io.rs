//! Input devices.

pub mod hid;
