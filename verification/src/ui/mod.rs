//! Dialog logic and key input shared by the terminal front ends.

pub mod keys;
pub mod dialog;
pub mod tty;
pub mod tui;
pub mod detect;
