//! The widgets of the screen.

pub mod input;
