//! A verified core for a small command-line task list.
//!
//! The crate holds the task store, the four commands that act on it and the
//! lines they report. Reading and writing the backing file, parsing the
//! command line and printing are left to the program built around it.

pub mod command;
pub mod decimal;
pub mod laws;
pub mod report;
pub mod store;
pub mod style;
pub mod task;
pub mod words;
