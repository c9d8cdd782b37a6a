//! What the user sees: the terminal and the texts of the status displays.

pub mod format;
pub mod terminal;
