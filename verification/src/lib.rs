//! A task tracker built on a thermal picture of a task's life: a task is put
//! on ice until a thaw date, melts when that date arrives, is worked on once
//! melted, and evaporates when it is done.
//!
//! The crate holds the rules of that life cycle, the reading of date
//! specifications, the sweep that melts what is due, and what each command
//! does to a collection of tasks, each with a contract that Verus proves.
//! Calendar arithmetic is chrono's. Files, the clock and the command line are
//! the caller's: the library works on the values it is handed.

pub mod cli;
pub mod commands;
pub mod config;
pub mod date;
pub mod error;
pub mod models;
pub mod render;
pub mod state;
pub mod storage;
