//! Threads, processes, timers and the scheduler that dispatches them.
//!
//! - [`priority`], [`irql`], [`timer`], [`thread`], [`process`], [`executor`]:
//!   the values the scheduler is made of.
//! - [`scheduler`]: the scheduler's state. [`model`]: its mathematical view,
//!   the invariant, and what each basic step does to the view.
//! - [`boot`], [`dispatch`], [`lifecycle`], [`timer_thread`], [`statistics`],
//!   [`report`]: the operations.
//! - [`laws`], [`consistency`]: what the operations guarantee together.

pub mod boot;
pub mod consistency;
pub mod dispatch;
pub mod executor;
pub mod irql;
pub mod laws;
pub mod lifecycle;
pub mod model;
pub mod priority;
pub mod process;
pub mod report;
pub mod scheduler;
pub mod statistics;
pub mod thread;
pub mod timer;
pub mod timer_thread;
