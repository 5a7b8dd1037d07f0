//! How a command is described to the platform when it is registered.

use vstd::prelude::*;

verus! {

/// How a command is started.
#[derive(Debug, Clone, Copy, PartialEq, Eq, Structural)]
pub enum CommandType {
    /// Typed into the chat.
    ChatInput,
    /// The application's entry point, which launches its activity.
    PrimaryEntryPoint,
    /// Any other kind.
    Other,
}

/// Where an application can be installed for a command to be offered.
#[derive(Debug, Clone, Copy, PartialEq, Eq, Structural)]
pub enum InstallationContext {
    Guild,
    User,
}

/// Where a command can be used.
#[derive(Debug, Clone, Copy, PartialEq, Eq, Structural)]
pub enum InteractionContext {
    Guild,
    BotDm,
    PrivateChannel,
}

/// The kind of value that an option takes.
#[derive(Debug, Clone, Copy, PartialEq, Eq, Structural)]
pub enum CommandOptionType {
    String,
    SubCommand,
}

/// A value that the user can pick for an option, and the name it is shown under.
#[derive(Debug, Clone, PartialEq, Eq)]
pub struct Choice {
    pub name: String,
    pub value: String,
}

/// An option of a command or of a subcommand.
#[derive(Debug, Clone, PartialEq, Eq)]
pub struct OptionSpec {
    pub kind: CommandOptionType,
    pub name: String,
    pub description: String,
    pub required: bool,
    pub choices: Vec<Choice>,
    /// The options of a subcommand; empty for any other option.
    pub options: Vec<SubOptionSpec>,
}

/// An option of a subcommand.
#[derive(Debug, Clone, PartialEq, Eq)]
pub struct SubOptionSpec {
    pub kind: CommandOptionType,
    pub name: String,
    pub description: String,
    pub required: bool,
}

/// A command as it is registered.
#[derive(Debug, Clone, PartialEq, Eq)]
pub struct CommandSpec {
    pub name: String,
    pub kind: CommandType,
    pub description: String,
    /// Whether the platform itself launches the activity for this command.
    pub launches_activity: bool,
    pub integration_types: Vec<InstallationContext>,
    pub contexts: Vec<InteractionContext>,
    pub options: Vec<OptionSpec>,
}

/// Whether the command is offered wherever the application is installed and
/// can be used everywhere.
pub open spec fn offered_everywhere(command: CommandSpec) -> bool {
    &&& command.integration_types@ == seq![InstallationContext::Guild, InstallationContext::User]
    &&& command.contexts@ == seq![
        InteractionContext::Guild,
        InteractionContext::BotDm,
        InteractionContext::PrivateChannel,
    ]
}

/// Whether the option is a text option with these texts and no choices.
pub open spec fn is_text_option(
    option: OptionSpec,
    name: Seq<char>,
    description: Seq<char>,
    required: bool,
) -> bool {
    &&& option.kind == CommandOptionType::String
    &&& option.name@ == name
    &&& option.description@ == description
    &&& option.required == required
    &&& option.options@.len() == 0
}

/// Whether the option is a subcommand with these texts whose one option is a
/// required text named `prompt`.
pub open spec fn is_prompt_subcommand(
    option: OptionSpec,
    name: Seq<char>,
    description: Seq<char>,
    prompt_description: Seq<char>,
) -> bool {
    &&& option.kind == CommandOptionType::SubCommand
    &&& option.name@ == name
    &&& option.description@ == description
    &&& !option.required
    &&& option.choices@.len() == 0
    &&& option.options@.len() == 1
    &&& option.options@[0].kind == CommandOptionType::String
    &&& option.options@[0].name@ == "prompt"@
    &&& option.options@[0].description@ == prompt_description
    &&& option.options@[0].required
}

/// Whether the choice has this name and this value.
pub open spec fn is_choice(choice: Choice, name: Seq<char>, value: Seq<char>) -> bool {
    choice.name@ == name && choice.value@ == value
}

impl CommandSpec {
    /// A command typed into the chat, offered everywhere, without options yet.
    pub fn new(name: &str, description: &str) -> (command: CommandSpec)
        ensures
            command.name@ == name@,
            command.description@ == description@,
            command.kind == CommandType::ChatInput,
            !command.launches_activity,
            offered_everywhere(command),
            command.options@.len() == 0,
    {
        let mut integration_types: Vec<InstallationContext> = Vec::new();
        integration_types.push(InstallationContext::Guild);
        integration_types.push(InstallationContext::User);
        let mut contexts: Vec<InteractionContext> = Vec::new();
        contexts.push(InteractionContext::Guild);
        contexts.push(InteractionContext::BotDm);
        contexts.push(InteractionContext::PrivateChannel);
        let command = CommandSpec {
            name: name.to_owned(),
            kind: CommandType::ChatInput,
            description: description.to_owned(),
            launches_activity: false,
            integration_types,
            contexts,
            options: Vec::new(),
        };
        assert(command.integration_types@ =~= seq![
            InstallationContext::Guild,
            InstallationContext::User,
        ]);
        assert(command.contexts@ =~= seq![
            InteractionContext::Guild,
            InteractionContext::BotDm,
            InteractionContext::PrivateChannel,
        ]);
        command
    }

    /// The same command with `option` after its other options.
    pub fn add_option(self, option: OptionSpec) -> (command: CommandSpec)
        ensures
            command.options@ == self.options@.push(option),
            command == (CommandSpec { options: command.options, ..self }),
    {
        let mut command = self;
        command.options.push(option);
        command
    }
}

impl OptionSpec {
    /// A text option without choices.
    pub fn text(name: &str, description: &str, required: bool) -> (option: OptionSpec)
        ensures
            is_text_option(option, name@, description@, required),
            option.choices@.len() == 0,
    {
        OptionSpec {
            kind: CommandOptionType::String,
            name: name.to_owned(),
            description: description.to_owned(),
            required,
            choices: Vec::new(),
            options: Vec::new(),
        }
    }

    /// The same option with one more value to pick.
    pub fn add_string_choice(self, name: &str, value: &str) -> (option: OptionSpec)
        ensures
            option.choices@.len() == self.choices@.len() + 1,
            forall|i: int| 0 <= i < self.choices@.len() ==> option.choices@[i] == self.choices@[i],
            is_choice(option.choices@[self.choices@.len() as int], name@, value@),
            option == (OptionSpec { choices: option.choices, ..self }),
    {
        let mut option = self;
        option.choices.push(Choice { name: name.to_owned(), value: value.to_owned() });
        option
    }

    /// A subcommand whose one option is a required text named `prompt`.
    pub fn prompt_subcommand(name: &str, description: &str, prompt_description: &str) -> (option:
        OptionSpec)
        ensures
            is_prompt_subcommand(option, name@, description@, prompt_description@),
    {
        let mut options: Vec<SubOptionSpec> = Vec::new();
        options.push(
            SubOptionSpec {
                kind: CommandOptionType::String,
                name: "prompt".to_owned(),
                description: prompt_description.to_owned(),
                required: true,
            },
        );
        OptionSpec {
            kind: CommandOptionType::SubCommand,
            name: name.to_owned(),
            description: description.to_owned(),
            required: false,
            choices: Vec::new(),
            options,
        }
    }
}

} // verus!
