use vstd::prelude::*;

verus! {

/// A command of the to-do program.
#[derive(Clone, Debug, PartialEq)]
pub enum Command {
    /// List every item.
    List,
    /// List the completed items.
    ListCompleted,
    /// Show the item with this id.
    Get { id: u32 },
    /// Add an item with this title.
    Add { title: String },
    /// Change the title and/or the completion flag of the item with this id.
    Edit { id: u32, title: Option<String>, completed: Option<bool> },
    /// Mark the item with this id as completed.
    Complete { id: u32 },
    /// Remove the item with this id.
    Delete { id: u32 },
}

/// The program's arguments: where the list is stored and what to do with it.
#[derive(Debug, PartialEq)]
pub struct Cli {
    pub store_path: String,
    pub command: Command,
}

} // verus!
