//! Guards over shared devices.

pub mod terminal_guard;
