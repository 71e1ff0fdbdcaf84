//! Key dispatch and window focus for a terminal music player.
pub mod keymap;
pub mod model;
pub mod ui;
pub mod window;
pub mod player;
