//! Verified core of a small multiprocessor kernel.
//!
//! The heart of the crate is the thread scheduler in [`task`]: three run
//! queues, one local scheduler per processor, registries of threads and
//! processes, software timers and the interrupt-level discipline that guards
//! them. The scheduler is written as an explicit state that every operation
//! takes and returns; what touches the machine (saving registers, reading the
//! clock, waiting) is handed to the caller as a value to act on. Each
//! operation is specified as a function on the mathematical view of that
//! state, keeps the invariant of the state, and is proved to do so.
//!
//! Around it stand the plain-data helpers of the kernel: geometry ([`gfx`]),
//! the encodings of the processor's paging and descriptor tables ([`arch`]),
//! paths and open files ([`fs`]), the slab allocator ([`mem`]), the items of
//! device report descriptors ([`io`]), and the terminal ([`ui`]).

pub mod arch;
pub mod fs;
pub mod gfx;
pub mod io;
pub mod mem;
pub mod sync;
pub mod task;
pub mod text;
pub mod ui;
