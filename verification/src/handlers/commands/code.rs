//! The code command: runs a program and shows what it printed. A command that
//! comes without the program opens a form to write it in.

use vstd::prelude::*;
use vstd::string::StringExecFns;
use crate::error::Error;
use crate::handlers::modals::code::{code_modal_id, is_code_modal, CodeModal};
use crate::models::api::code::{ExecuteFile, ExecuteRequest, ExecuteResponse};
use crate::models::interaction::{CommandInteraction, CommandOption, OptionValue};
use crate::models::registration::{is_choice, is_text_option, offered_everywhere};
use crate::models::registration::{CommandSpec, CommandType, OptionSpec};
use crate::lifecycle::Worked;
use crate::models::reply::{Color, Embed, Followup, ModalSpec, ResponsePattern};
use crate::text::{push_signed_decimal, signed_decimal};

verus! {

/// The handler of the code command.
pub struct CodeCommand;

/// What the code command does first.
#[derive(Debug, Clone, PartialEq, Eq)]
pub enum CodeStep {
    /// Answer with this form, in which the user writes the program.
    OpenModal(ModalSpec),
    /// Acknowledge the command, then send this request to the execution service.
    Execute(ExecuteRequest),
}

impl CodeStep {
    /// How the step answers the event: the form is the answer itself, an
    /// execution is acknowledged first and answered when it is over.
    pub fn pattern(&self) -> (pattern: ResponsePattern)
        ensures
            pattern == (match *self {
                CodeStep::OpenModal(_) => ResponsePattern::Immediate,
                CodeStep::Execute(_) => ResponsePattern::Deferred,
            }),
    {
        match self {
            CodeStep::OpenModal(_) => ResponsePattern::Immediate,
            CodeStep::Execute(_) => ResponsePattern::Deferred,
        }
    }
}

/// The language that a code command names: the text of its first option.
pub open spec fn language_of(options: Seq<CommandOption>) -> Result<Seq<char>, Error> {
    if options.len() == 0 {
        Err(Error::MissingLanguage)
    } else {
        match options[0].value {
            OptionValue::String(language) => Ok(language@),
            _ => Err(Error::LanguageNotText),
        }
    }
}

/// The program that a code command carries: the text of its second option,
/// if it has one and that is text.
pub open spec fn program_of(options: Seq<CommandOption>) -> Option<Seq<char>> {
    if options.len() < 2 {
        None
    } else {
        match options[1].value {
            OptionValue::String(code) => Some(code@),
            _ => None,
        }
    }
}

/// Whether the request asks to run the one unnamed file `code` in any
/// version of `language`, with nothing else set.
pub open spec fn runs(request: ExecuteRequest, language: Seq<char>, code: Seq<char>) -> bool {
    &&& request.language@ == language
    &&& request.version@ == "*"@
    &&& request.files@.len() == 1
    &&& request.files@[0].name is None
    &&& request.files@[0].content@ == code
    &&& request.files@[0].encoding is None
    &&& request.stdin is None
    &&& request.args is None
    &&& request.run_timeout is None
    &&& request.compile_timeout is None
    &&& request.compile_memory_limit is None
    &&& request.run_memory_limit is None
}

/// The request that runs `code` in any version of `language`.
pub fn execute_request(language: &str, code: &str) -> (request: ExecuteRequest)
    ensures
        runs(request, language@, code@),
{
    ExecuteRequest::new().language(language).version("*").add_file(
        ExecuteFile::new().content(code),
    )
}

/// Whether the compilation stage ended with an exit code other than zero.
pub open spec fn compile_failed(response: ExecuteResponse) -> bool {
    response.compile is Some && response.compile->0.code is Some && response.compile->0.code->0
        != 0
}

/// What is shown of an execution: of a failed compilation its output, or its
/// exit code if it printed nothing; otherwise the output of the run, or a
/// hint if it printed nothing.
pub open spec fn shown_output(response: ExecuteResponse) -> Seq<char> {
    if compile_failed(response) {
        let compile = response.compile->0;
        if compile.output@.len() == 0 {
            "[Exited with code "@ + signed_decimal(compile.code->0 as int) + "]"@
        } else {
            compile.output@
        }
    } else if response.run.output@.len() == 0 {
        "No output, try logging the expression."@
    } else {
        response.run.output@
    }
}

/// Whether `embed` is the reply to an execution: a failed compilation in red,
/// anything else in green, with what is shown of it between code fences and
/// the language and its version underneath.
pub open spec fn is_reply_to(embed: Embed, response: ExecuteResponse) -> bool {
    &&& embed.color == (if compile_failed(response) {
        Color::Red
    } else {
        Color::Fooyoo
    })
    &&& embed.title is Some
    &&& embed.title->0@ == (if compile_failed(response) {
        "Compile Error"@
    } else {
        "Output"@
    })
    &&& embed.description@ == "```\n"@ + shown_output(response) + "\n```"@
    &&& embed.footer is Some
    &&& embed.footer->0@ == "Language: "@ + response.language@ + " "@ + response.version@
}

impl CodeCommand {
    /// Decides what the command does first. A command with a program is
    /// executed; one without opens the form, which carries the language in
    /// its correlation identifier.
    pub fn handle_command(interaction: &CommandInteraction) -> (step: Result<CodeStep, Error>)
        ensures
            match step {
                Ok(CodeStep::Execute(request)) => language_of(interaction.options@) is Ok
                    && program_of(interaction.options@) is Some && runs(
                    request,
                    language_of(interaction.options@)->Ok_0,
                    program_of(interaction.options@)->0,
                ),
                Ok(CodeStep::OpenModal(modal)) => language_of(interaction.options@) is Ok
                    && program_of(interaction.options@) is None && is_code_modal(
                    modal,
                    seq![language_of(interaction.options@)->Ok_0],
                ),
                Err(error) => match language_of(interaction.options@) {
                    Err(missing) => error == missing,
                    Ok(language) => program_of(interaction.options@) is None && code_modal_id(
                        seq![language],
                    ) == Err::<Seq<char>, Error>(error),
                },
            },
    {
        if interaction.options.len() == 0 {
            return Err(Error::MissingLanguage);
        }
        let language = match &interaction.options[0].value {
            OptionValue::String(language) => language,
            _ => {
                return Err(Error::LanguageNotText);
            },
        };
        if interaction.options.len() >= 2 {
            match &interaction.options[1].value {
                OptionValue::String(code) => {
                    return Ok(CodeStep::Execute(execute_request(language.as_str(), code.as_str())));
                },
                _ => {},
            }
        }
        let mut data: Vec<String> = Vec::new();
        data.push(language.clone());
        assert(crate::text::views(data@) =~= seq![language@]);
        match CodeModal::modal(data) {
            Ok(modal) => Ok(CodeStep::OpenModal(modal)),
            Err(error) => Err(error),
        }
    }

    /// The reply to an execution: a failed compilation in red, anything else
    /// in green, each with the language and its version underneath.
    pub fn respond(response: &ExecuteResponse) -> (embed: Embed)
        ensures
            is_reply_to(embed, *response),
    {
        let mut footer = "Language: ".to_owned();
        footer.append(response.language.as_str());
        footer.append(" ");
        footer.append(response.version.as_str());
        let mut description = "```\n".to_owned();
        let failed_code: Option<isize> = match &response.compile {
            Some(compile) => match compile.code {
                Some(code) => if code != 0 {
                    Some(code)
                } else {
                    None
                },
                None => None,
            },
            None => None,
        };
        match (&response.compile, failed_code) {
            (Some(compile), Some(code)) => {
                if compile.output.as_str().is_empty() {
                    description.append("[Exited with code ");
                    push_signed_decimal(&mut description, code as i64);
                    description.append("]");
                } else {
                    description.append(compile.output.as_str());
                }
                description.append("\n```");
                assert(compile_failed(*response));
                assert(description@ =~= "```\n"@ + shown_output(*response) + "\n```"@);
                Embed {
                    color: Color::Red,
                    title: Some("Compile Error".to_owned()),
                    description,
                    footer: Some(footer),
                }
            },
            _ => {
                if response.run.output.as_str().is_empty() {
                    description.append("No output, try logging the expression.");
                } else {
                    description.append(response.run.output.as_str());
                }
                description.append("\n```");
                assert(!compile_failed(*response));
                assert(description@ =~= "```\n"@ + shown_output(*response) + "\n```"@);
                Embed {
                    color: Color::Fooyoo,
                    title: Some("Output".to_owned()),
                    description,
                    footer: Some(footer),
                }
            },
        }
    }
}

impl CodeCommand {
    /// What comes of an execution: from the service's answer one message, the
    /// reply to the execution; from its failure that failure and no message.
    pub fn executed(answer: Result<ExecuteResponse, Error>) -> (work: Result<Worked, Error>)
        ensures
            match answer {
                Ok(response) => {
                    &&& work is Ok
                    &&& work->Ok_0.failure is None
                    &&& work->Ok_0.messages@.len() == 1
                    &&& work->Ok_0.messages@[0] matches Followup::Embed(embed) && is_reply_to(
                        embed,
                        response,
                    )
                },
                Err(error) => work == Err::<Worked, Error>(error),
            },
    {
        match answer {
            Ok(response) => Ok(Worked::message(Followup::Embed(CodeCommand::respond(&response)))),
            Err(error) => Err(error),
        }
    }
}

/// Whether `command` is the code command as it is registered: the language,
/// picked from five, and optionally the program.
pub open spec fn is_code_command(command: CommandSpec) -> bool {
    &&& command.name@ == "code"@
    &&& command.description@ == "Execute code"@
    &&& command.kind == CommandType::ChatInput
    &&& !command.launches_activity
    &&& offered_everywhere(command)
    &&& command.options@.len() == 2
    &&& is_text_option(command.options@[0], "language"@, "Programming language to use"@, true)
    &&& command.options@[0].choices@.len() == 5
    &&& is_choice(command.options@[0].choices@[0], "JavaScript"@, "js"@)
    &&& is_choice(command.options@[0].choices@[1], "C++"@, "cpp"@)
    &&& is_choice(command.options@[0].choices@[2], "Shell (bash)"@, "bash"@)
    &&& is_choice(command.options@[0].choices@[3], "Rust"@, "rust"@)
    &&& is_choice(command.options@[0].choices@[4], "Python"@, "python"@)
    &&& is_text_option(command.options@[1], "code"@, "The code to execute"@, false)
    &&& command.options@[1].choices@.len() == 0
}

impl CodeCommand {
    /// How the code command is registered: the language, picked from five,
    /// and optionally the program.
    pub fn command() -> (command: CommandSpec)
        ensures
            is_code_command(command),
    {
        CommandSpec::new("code", "Execute code").add_option(
            OptionSpec::text(
                "language",
                "Programming language to use",
                true,
            ).add_string_choice("JavaScript", "js").add_string_choice(
                "C++",
                "cpp",
            ).add_string_choice("Shell (bash)", "bash").add_string_choice(
                "Rust",
                "rust",
            ).add_string_choice("Python", "python"),
        ).add_option(OptionSpec::text("code", "The code to execute", false))
    }
}

} // verus!
