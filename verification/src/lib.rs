//! Navigation state machine and stack-trace handling for a terminal
//! inspector of a shell's execution state.

pub mod event;
pub mod exit;
pub mod key_bindings;
pub mod keys;
pub mod list;
pub mod order;
pub mod screen;
pub mod shell;
pub mod state;
pub mod text;
pub mod trace;
pub mod vars;
