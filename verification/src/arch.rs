//! Encodings of the x86-64 architecture: page tables and descriptors.

pub mod apic;
pub mod cpu;
pub mod page;
