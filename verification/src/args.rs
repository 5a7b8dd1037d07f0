//! What the process is asked to do when it is started.

use vstd::prelude::*;

verus! {

/// What the process does.
#[derive(Debug, Clone, PartialEq, Eq)]
pub enum Command {
    /// Register the commands with the platform: for one guild, or for all.
    RegisterCommands { guild_id: Option<String> },
    /// Serve the gateway.
    Run,
}

/// The command line, read.
#[derive(Debug, Clone, PartialEq, Eq)]
pub struct Cli {
    /// The command that was given, if any.
    pub command: Option<Command>,
}

impl Cli {
    /// The command to carry out: the one given, or serving the gateway.
    pub fn command(&self) -> (command: Command)
        ensures
            command == (match self.command {
                Some(given) => given,
                None => Command::Run,
            }),
    {
        match &self.command {
            Some(Command::RegisterCommands { guild_id }) => Command::RegisterCommands {
                guild_id: guild_id.clone(),
            },
            Some(Command::Run) => Command::Run,
            None => Command::Run,
        }
    }
}

} // verus!
