//! Core of a POSIX terminal toolkit: a generational arena, a decoder from raw
//! tty bytes to key events, an anchor layout engine and the buffered,
//! capability-driven output of a terminal session.

pub mod arena;
pub mod input;
pub mod tty;
pub mod ui;
