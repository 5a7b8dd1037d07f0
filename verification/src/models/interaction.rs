//! Inbound events, as far as the gateway reads them. An event is read once
//! from the authenticated body of a request and never changed afterwards.

use vstd::prelude::*;

verus! {

/// An option inside a subcommand.
#[derive(Debug, Clone, PartialEq, Eq)]
pub struct NestedOption {
    pub name: String,
    /// The option's value, if it is text.
    pub text: Option<String>,
}

/// The value of a command's option.
#[derive(Debug, Clone, PartialEq, Eq)]
pub enum OptionValue {
    /// A text.
    String(String),
    /// A subcommand with its own options.
    SubCommand(Vec<NestedOption>),
    /// Any other kind of value.
    Other,
}

/// An option of a command, as the user filled it in.
#[derive(Debug, Clone, PartialEq, Eq)]
pub struct CommandOption {
    pub name: String,
    pub value: OptionValue,
}

/// A user invoked a command.
#[derive(Debug, Clone, PartialEq, Eq)]
pub struct CommandInteraction {
    /// The number of this invocation.
    pub id: u64,
    /// The number of the user who invoked the command.
    pub user_id: u64,
    /// The command's name.
    pub name: String,
    /// The options in the order in which the platform sent them.
    pub options: Vec<CommandOption>,
}

/// A field of a submitted form.
#[derive(Debug, Clone, PartialEq, Eq)]
pub enum ModalComponent {
    /// A text field with what the user wrote in it, if anything.
    InputText(Option<String>),
    /// Any other kind of field.
    Other,
}

/// A user submitted a form.
#[derive(Debug, Clone, PartialEq, Eq)]
pub struct ModalInteraction {
    /// The number of this submission.
    pub id: u64,
    /// The correlation identifier that the form was opened with.
    pub custom_id: String,
    /// The rows of the form, each with its fields.
    pub rows: Vec<Vec<ModalComponent>>,
}

/// An inbound event.
#[derive(Debug, Clone, PartialEq, Eq)]
pub enum Interaction {
    /// The platform checks that the endpoint is alive.
    Ping,
    /// A user invoked a command.
    Command(CommandInteraction),
    /// A user used a button or a menu of an earlier message.
    Component,
    /// A user submitted a form.
    Modal(ModalInteraction),
    /// Any other event.
    Other,
}

} // verus!
