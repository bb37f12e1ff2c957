//! The commands of the tracker, as values.

use vstd::prelude::*;

verus! {

/// One request to the tracker. Dates are date specifications: `3d`, `1w` or
/// `2026-03-01`.
#[derive(Debug)]
#[allow(inconsistent_fields)]
pub enum Commands {
    /// Add a task. With a thaw date it starts iced, without one melted.
    Add {
        title: String,
        description: Option<String>,
        thaw_date: Option<String>,
        due_date: Option<String>,
    },
    /// Change the texts or the dates of a task.
    Edit {
        id: u32,
        title: Option<String>,
        description: Option<String>,
        thaw_date: Option<String>,
        due_date: Option<String>,
    },
    /// Show one task.
    Show { id: u32 },
    /// List the melting and melted tasks, or the iced ones, or all.
    List { iced: bool, all: bool },
    /// Make a melting or iced task ready to be worked on.
    Warm { id: u32 },
    /// Complete a melted or iced task.
    Burn { id: u32 },
    /// Take the completion of a task back.
    Cool { id: u32 },
    /// Put a task on ice, until the thaw date or for the default time.
    Freeze { id: u32, thaw_date: Option<String> },
}

/// A command line, read.
#[derive(Debug)]
pub struct Cli {
    pub command: Commands,
}

} // verus!
