//! The engine of a terminal viewer for archived logs: which severities are
//! shown, where the visible window stands, what the archive is asked, and what
//! each key press does to that state. Reading keys, querying the archive and
//! drawing are left to the program around this library.

pub mod app;
pub mod filter;
pub mod input;
pub mod logs;
pub mod text;
pub mod ui;
pub mod view;
