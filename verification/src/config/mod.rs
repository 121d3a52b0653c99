//! Configuration: key bindings, settings and themes.

pub mod default_keys;
pub mod keymap;
pub mod settings;
pub mod theme;
