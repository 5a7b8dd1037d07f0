//! The math command: evaluates an expression and shows the result.

use vstd::prelude::*;
use vstd::string::StringExecFns;
use crate::error::Error;
use crate::models::interaction::{CommandInteraction, CommandOption, OptionValue};
use crate::models::registration::{is_text_option, offered_everywhere, CommandSpec};
use crate::models::registration::{CommandType, OptionSpec};
use crate::models::reply::{Color, Embed, ResponsePattern};

verus! {

/// The handler of the math command.
pub struct MathCommand;

/// The expression that a math command asks about: the text of its first
/// option.
pub open spec fn expression_of(options: Seq<CommandOption>) -> Result<Seq<char>, Error> {
    if options.len() == 0 {
        Err(Error::MissingExpression)
    } else {
        match options[0].value {
            OptionValue::String(expression) => Ok(expression@),
            _ => Err(Error::ExpressionNotText),
        }
    }
}

/// The text shown for an expression and what evaluating it gave.
pub open spec fn math_description(expression: Seq<char>, evaluation: Result<String, String>) -> Seq<
    char,
> {
    "**Expression:**\n```\n"@ + expression + "\n```\n**"@ + (match evaluation {
        Ok(_) => "Result"@,
        Err(_) => "Error"@,
    }) + "**:\n```"@ + (match evaluation {
        Ok(value) => value@,
        Err(reason) => reason@,
    })
        + "\n```\n-# For more information on how to use this command, [view the documentation](<https://numbat.dev/doc/>)"@
}

impl MathCommand {
    /// How the command answers: evaluating is quick, so the first answer is
    /// the final one.
    pub fn pattern() -> (pattern: ResponsePattern)
        ensures
            pattern == ResponsePattern::Immediate,
    {
        ResponsePattern::Immediate
    }

    /// Reads the expression to evaluate out of the command.
    pub fn handle_command(interaction: &CommandInteraction) -> (expression: Result<String, Error>)
        ensures
            match expression {
                Ok(text) => expression_of(interaction.options@) == Ok::<Seq<char>, Error>(text@),
                Err(error) => expression_of(interaction.options@) == Err::<Seq<char>, Error>(error),
            },
    {
        if interaction.options.len() == 0 {
            return Err(Error::MissingExpression);
        }
        match &interaction.options[0].value {
            OptionValue::String(expression) => Ok(expression.clone()),
            _ => Err(Error::ExpressionNotText),
        }
    }

    /// The reply to a math command: the expression with its result in green,
    /// or with the reason why it has none in red.
    pub fn respond(expression: &str, evaluation: &Result<String, String>) -> (embed: Embed)
        ensures
            embed.color == (if evaluation is Ok {
                Color::Fooyoo
            } else {
                Color::Red
            }),
            embed.title is None,
            embed.footer is None,
            embed.description@ == math_description(expression@, *evaluation),
    {
        let mut description = "**Expression:**\n```\n".to_owned();
        description.append(expression);
        description.append("\n```\n**");
        let color = match evaluation {
            Ok(value) => {
                description.append("Result");
                description.append("**:\n```");
                description.append(value.as_str());
                Color::Fooyoo
            },
            Err(reason) => {
                description.append("Error");
                description.append("**:\n```");
                description.append(reason.as_str());
                Color::Red
            },
        };
        description.append(
            "\n```\n-# For more information on how to use this command, [view the documentation](<https://numbat.dev/doc/>)",
        );
        Embed { color, title: None, description, footer: None }
    }
}

/// Whether `command` is the math command as it is registered: one text
/// option, the expression.
pub open spec fn is_math_command(command: CommandSpec) -> bool {
    &&& command.name@ == "math"@
    &&& command.description@ == "Evaluate a math expression"@
    &&& command.kind == CommandType::ChatInput
    &&& !command.launches_activity
    &&& offered_everywhere(command)
    &&& command.options@.len() == 1
    &&& is_text_option(command.options@[0], "expression"@, "The expression to evaluate"@, false)
    &&& command.options@[0].choices@.len() == 0
}

impl MathCommand {
    /// How the math command is registered: one text option, the expression.
    pub fn command() -> (command: CommandSpec)
        ensures
            is_math_command(command),
    {
        CommandSpec::new("math", "Evaluate a math expression").add_option(
            OptionSpec::text("expression", "The expression to evaluate", false),
        )
    }
}

} // verus!
