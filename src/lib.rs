//! Interactive controller for a live process table: filtering, selection and
//! scrolling, a transient notification, and the mode state machine that turns
//! key presses into state changes and actions.

pub mod bindings;
pub mod cli;
pub mod filter;
pub mod json;
pub mod port;
pub mod process;
pub mod scan;
pub mod state;
pub mod text;
pub mod tui;
pub mod viewport;
