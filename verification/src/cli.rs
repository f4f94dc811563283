//! The command line: the commands and their arguments.  Reading them from
//! the process arguments is done by the program around the library.
use crate::commands::setup::SetupCommand;
use vstd::prelude::*;

verus! {

#[derive(Debug, Clone, PartialEq, Eq)]
pub struct Cli {
    pub command: Option<Command>,
}

#[derive(Debug, Clone, PartialEq, Eq)]
pub enum Command {
    Setup { target: SetupCommand },
    Attach { session: Option<String>, new_session: Option<String> },
    Status,
    Doctor,
    Session { action: SessionAction },
    Sync { action: SyncAction },
    Daemon { target: DaemonAction },
}

#[derive(Debug, Clone, PartialEq, Eq)]
pub enum SessionAction {
    List,
    New { name: String },
    Pin { name: String },
    Unpin { name: String },
}

#[derive(Debug, Clone, PartialEq, Eq)]
pub enum SyncAction {
    Add { name: String, local: String, remote: String },
    List,
    Status,
}

#[derive(Debug, Clone, Copy, PartialEq, Eq, Structural)]
pub enum DaemonAction {
    Server,
    Client,
}

} // verus!
