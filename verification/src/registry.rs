//! Registering the commands with the platform. The entry point that the
//! platform already knows is removed first, then the entry point and the three
//! commands are registered afresh.

use vstd::prelude::*;
use crate::handlers::commands::ai::{is_ai_command, AiCommand};
use crate::handlers::commands::code::{is_code_command, CodeCommand};
use crate::handlers::commands::math::{is_math_command, MathCommand};
use crate::models::registration::{offered_everywhere, CommandSpec, CommandType};

verus! {

/// A command that the platform already knows.
#[derive(Debug, Clone, Copy)]
pub struct RegisteredCommand {
    pub id: u64,
    pub kind: CommandType,
}

/// The first entry point among the commands, if there is one.
pub open spec fn first_entry_point(commands: Seq<RegisteredCommand>) -> Option<u64>
    decreases commands.len(),
{
    if commands.len() == 0 {
        None
    } else if commands[0].kind == CommandType::PrimaryEntryPoint {
        Some(commands[0].id)
    } else {
        first_entry_point(commands.drop_first())
    }
}

/// The command to remove before registering: the first entry point that the
/// platform already knows.
pub fn stale_entry_point(commands: &Vec<RegisteredCommand>) -> (stale: Option<u64>)
    ensures
        stale == first_entry_point(commands@),
{
    let mut i: usize = 0;
    assert(commands@.subrange(0, commands@.len() as int) =~= commands@);
    while i < commands.len()
        invariant
            i <= commands.len(),
            first_entry_point(commands@) == first_entry_point(
                commands@.subrange(i as int, commands@.len() as int),
            ),
        decreases commands.len() - i,
    {
        let ghost rest = commands@.subrange(i as int, commands@.len() as int);
        assert(rest[0] == commands@[i as int]);
        if commands[i].kind == CommandType::PrimaryEntryPoint {
            return Some(commands[i].id);
        }
        assert(rest.drop_first() =~= commands@.subrange(i + 1, commands@.len() as int));
        i = i + 1;
    }
    assert(commands@.subrange(i as int, commands@.len() as int) =~= Seq::<RegisteredCommand>::empty());
    None
}

/// Whether `command` is the entry point as it is registered: it launches the
/// activity and takes no options.
pub open spec fn is_entry_point(command: CommandSpec) -> bool {
    &&& command.name@ == "launch"@
    &&& command.description@ == "Launch the Liege activity"@
    &&& command.kind == CommandType::PrimaryEntryPoint
    &&& command.launches_activity
    &&& offered_everywhere(command)
    &&& command.options@.len() == 0
}

/// The entry point, which launches the activity.
pub fn entry_point_command() -> (command: CommandSpec)
    ensures
        is_entry_point(command),
{
    let mut command = CommandSpec::new("launch", "Launch the Liege activity");
    command.kind = CommandType::PrimaryEntryPoint;
    command.launches_activity = true;
    command
}

/// The commands to register, in order and each in full: the entry point,
/// then math, code and ai.
pub fn register_commands() -> (commands: Vec<CommandSpec>)
    ensures
        commands@.len() == 4,
        is_entry_point(commands@[0]),
        is_math_command(commands@[1]),
        is_code_command(commands@[2]),
        is_ai_command(commands@[3]),
{
    let mut commands: Vec<CommandSpec> = Vec::new();
    commands.push(entry_point_command());
    commands.push(MathCommand::command());
    commands.push(CodeCommand::command());
    commands.push(AiCommand::command());
    commands
}

} // verus!
