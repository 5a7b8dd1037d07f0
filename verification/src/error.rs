//! What can go wrong while an event is handled, and how it is told to the user.

use vstd::prelude::*;
use vstd::string::StringExecFns;
use crate::models::custom_id::CustomIdError;

verus! {

/// A failure of a handler. None of them ends the process: each is turned into
/// a message for the user who sent the event.
#[derive(Debug, Clone, PartialEq, Eq)]
pub enum Error {
    /// No handler is registered under the command's name.
    UnknownCommand(String),
    /// No handler is registered under the form's name.
    UnknownModal(String),
    /// A correlation identifier could not be read or written.
    CustomId(CustomIdError),
    /// The math command came without an expression.
    MissingExpression,
    /// The math command's expression is not text.
    ExpressionNotText,
    /// The code command came without a language.
    MissingLanguage,
    /// The code command's language is not text.
    LanguageNotText,
    /// The code form's identifier carries no language.
    MissingModalLanguage,
    /// The code form has no row.
    MissingCodeRow,
    /// The code form's first row is empty.
    MissingCodeComponent,
    /// The code form's first field is no filled-in text field.
    CodeNotText,
    /// The ai command came without a subcommand.
    MissingSubcommand,
    /// The ai command's first option is no subcommand.
    NotSubcommand,
    /// The ai command has no subcommand of this name.
    InvalidSubcommand(String),
    /// The subcommand came without a prompt.
    MissingPrompt,
    /// The subcommand's prompt is not text.
    PromptNotText,
    /// The image service sent neither an address nor a picture.
    NoImage,
    /// The picture that the image service sent could not be read; with the reason.
    DataUrl(String),
    /// A collaborator failed; with its own description of the failure.
    Collaborator(String),
}

impl Error {
    /// The failure in words, as the user is told.
    pub open spec fn message_text(self) -> Seq<char> {
        match self {
            Error::UnknownCommand(name) => "Command with name '"@ + name@ + "' not found"@,
            Error::UnknownModal(id) => "Modal with ID '"@ + id@ + "' not found"@,
            Error::CustomId(error) => error.message_text(),
            Error::MissingExpression => "Failed to get expression"@,
            Error::ExpressionNotText => "Failed to get expression value as string"@,
            Error::MissingLanguage => "Failed to get language"@,
            Error::LanguageNotText => "Failed to get language value as string"@,
            Error::MissingModalLanguage => "Failed to get language from custom id"@,
            Error::MissingCodeRow => "Failed to get code action row"@,
            Error::MissingCodeComponent => "Failed to get code component"@,
            Error::CodeNotText => "Failed to get code input"@,
            Error::MissingSubcommand => "Failed to get subcommand"@,
            Error::NotSubcommand => "Failed to get option value as subcommand"@,
            Error::InvalidSubcommand(name) => "Invalid subcommand name "@ + name@,
            Error::MissingPrompt => "Failed to get prompt"@,
            Error::PromptNotText => "Failed to get prompt as string"@,
            Error::NoImage => "No image URL or data URL"@,
            Error::DataUrl(reason) => "Failed to parse data URL: "@ + reason@,
            Error::Collaborator(description) => description@,
        }
    }

    /// The failure in words, as the user is told.
    pub fn message(&self) -> (text: String)
        ensures
            text@ == self.message_text(),
    {
        match self {
            Error::UnknownCommand(name) => {
                let mut text = "Command with name '".to_owned();
                text.append(name.as_str());
                text.append("' not found");
                text
            },
            Error::UnknownModal(id) => {
                let mut text = "Modal with ID '".to_owned();
                text.append(id.as_str());
                text.append("' not found");
                text
            },
            Error::CustomId(error) => error.message(),
            Error::MissingExpression => "Failed to get expression".to_owned(),
            Error::ExpressionNotText => "Failed to get expression value as string".to_owned(),
            Error::MissingLanguage => "Failed to get language".to_owned(),
            Error::LanguageNotText => "Failed to get language value as string".to_owned(),
            Error::MissingModalLanguage => "Failed to get language from custom id".to_owned(),
            Error::MissingCodeRow => "Failed to get code action row".to_owned(),
            Error::MissingCodeComponent => "Failed to get code component".to_owned(),
            Error::CodeNotText => "Failed to get code input".to_owned(),
            Error::MissingSubcommand => "Failed to get subcommand".to_owned(),
            Error::NotSubcommand => "Failed to get option value as subcommand".to_owned(),
            Error::InvalidSubcommand(name) => {
                let mut text = "Invalid subcommand name ".to_owned();
                text.append(name.as_str());
                text
            },
            Error::MissingPrompt => "Failed to get prompt".to_owned(),
            Error::PromptNotText => "Failed to get prompt as string".to_owned(),
            Error::NoImage => "No image URL or data URL".to_owned(),
            Error::DataUrl(reason) => {
                let mut text = "Failed to parse data URL: ".to_owned();
                text.append(reason.as_str());
                text
            },
            Error::Collaborator(description) => description.clone(),
        }
    }
}

} // verus!
