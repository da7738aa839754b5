//! Keyboard and mouse input on its way to the host.

pub mod keymap;
pub mod mapper;
