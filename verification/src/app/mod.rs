pub mod actions;
pub mod config;
pub mod state;
pub mod keybindings;
