//! The file system layer.

pub mod filesys;
