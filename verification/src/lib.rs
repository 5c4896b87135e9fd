//! A keyboard-driven todo list: the list with its selection cursor, the text
//! inputs, the focus ring that joins them, and the screen state machine that
//! routes each key press.

pub mod app;
pub mod focus;
pub mod ident;
pub mod screen;
pub mod store;
pub mod text;
pub mod widgets;
