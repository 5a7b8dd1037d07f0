//! Commands: routing by name, and one handler for each command.

pub mod ai;
pub mod code;
pub mod math;

use vstd::prelude::*;
use crate::error::Error;
use crate::models::interaction::CommandInteraction;
use crate::text::same_text;

verus! {

/// The commands that the gateway handles.
#[derive(Debug, Clone, Copy, PartialEq, Eq, Structural)]
pub enum CommandKind {
    Math,
    Ai,
    Code,
}

/// The handler registered under a command's name, if there is one. Names are
/// compared exactly, letter case included.
pub open spec fn registered_command(name: Seq<char>) -> Option<CommandKind> {
    if name == "math"@ {
        Some(CommandKind::Math)
    } else if name == "ai"@ {
        Some(CommandKind::Ai)
    } else if name == "code"@ {
        Some(CommandKind::Code)
    } else {
        None
    }
}

/// Routes a command to its handler, or fails with the name that no handler
/// is registered under.
pub fn handle_interaction(interaction: &CommandInteraction) -> (routed: Result<CommandKind, Error>)
    ensures
        match routed {
            Ok(kind) => registered_command(interaction.name@) == Some(kind),
            Err(error) => registered_command(interaction.name@) is None && error
                == Error::UnknownCommand(interaction.name),
        },
{
    let name = interaction.name.as_str();
    if same_text(name, "math") {
        Ok(CommandKind::Math)
    } else if same_text(name, "ai") {
        Ok(CommandKind::Ai)
    } else if same_text(name, "code") {
        Ok(CommandKind::Code)
    } else {
        Err(Error::UnknownCommand(interaction.name.clone()))
    }
}

} // verus!
