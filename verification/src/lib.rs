//! Runs the two checkers of KiCad, the electrical rules checker of the
//! schematic editor and the design rules checker of the board editor, by
//! walking through the windows of the editor and reading the report that the
//! checker writes.
//!
//! The library decides and the caller acts. A [`session::Session`] tells the
//! caller what to do next: start a program, search for a window, send a key,
//! pause, look for the report. The caller reports what came of it, and the
//! session goes on from there until it gives the result of the run.

pub mod event;
pub mod gui;
pub mod input;
pub mod poller;
pub mod process;
pub mod report;
pub mod session;
pub mod text;
pub mod timeouts;
pub mod window;
pub mod workflow;
