//! The ai command: a conversation with a text model, or a picture from an
//! image model.

use vstd::prelude::*;
use vstd::string::StringExecFns;
use crate::error::Error;
use crate::models::api::ai::{GenerateImageRequest, GenerateImageResponse, GenerateTextMessage};
use crate::models::api::ai::{GenerateTextMessageRole, GenerateTextRequest};
use crate::models::interaction::{CommandInteraction, CommandOption, NestedOption, OptionValue};
use crate::models::registration::{is_prompt_subcommand, offered_everywhere, CommandSpec};
use crate::models::registration::{CommandType, OptionSpec};
use crate::lifecycle::Worked;
use crate::models::reply::{Followup, ResponsePattern};
use crate::text::{join, join_text, same_text, truncate_text, truncated, views};

verus! {

/// The handler of the ai command.
pub struct AiCommand;

/// The model that conversations are continued with.
pub const TEXT_MODEL: &'static str = "perplexity-sonar-pro";

/// The model that pictures are drawn with.
pub const IMAGE_MODEL: &'static str = "flux-1-schnell";

/// What the text model is told before the user's prompt.
pub const SYSTEM_PROMPT: &'static str = "You are Liege, a friendly and helpful chatbot designed to assist users with various inquiries. Your responses should be:\n\n1. **Concise & Relevant** - Provide clear, direct answers without unnecessary elaboration.  \n2. **Under 200 words** - Ensure every response stays within this limit. Trim excess details if needed.  \n3. **Engaging & Polite** - Maintain a friendly and professional tone.\n4. **Accurate & Informative** - Base your answers on verified information, avoiding speculation.  \n\nIf a user request requires a longer response, summarize the key points.";

/// The user who gets no pictures.
pub const REFUSED_USER: u64 = 778659522054717460;

/// What the refused user is told.
pub const REFUSED_USER_REPLY: &'static str = "u are a doo doo head";

/// What a user is told whose prompt the image service does not accept.
pub const REFUSED_PROMPT_REPLY: &'static str = "Sorry, you can't generate that.";

/// The status with which the image service refuses a prompt.
pub const BAD_REQUEST: u16 = 400;

/// What stands in for an answer that the text model left empty.
pub const EMPTY_RESPONSE: &'static str = "[empty response]";

/// The most bytes that a reply may take.
pub const REPLY_LIMIT: usize = 2000;

/// The name under which a picture is attached.
pub const IMAGE_FILE_NAME: &'static str = "image.jpg";

/// What the ai command does after it has acknowledged the event.
#[derive(Debug, Clone, PartialEq, Eq)]
pub enum AiStep {
    /// Send this request to the text service.
    GenerateText(GenerateTextRequest),
    /// Send this request to the image service.
    GenerateImage(GenerateImageRequest),
    /// Answer with this text and do nothing else.
    Reply(String),
}

/// The subcommand of an ai command: the name and the options of its first
/// option, which has to be a subcommand.
pub open spec fn subcommand_of(options: Seq<CommandOption>) -> Result<
    (Seq<char>, Seq<NestedOption>),
    Error,
> {
    if options.len() == 0 {
        Err(Error::MissingSubcommand)
    } else {
        match options[0].value {
            OptionValue::SubCommand(nested) => Ok((options[0].name@, nested@)),
            _ => Err(Error::NotSubcommand),
        }
    }
}

/// The prompt of a subcommand: the text of its first option.
pub open spec fn prompt_of(options: Seq<NestedOption>) -> Result<Seq<char>, Error> {
    if options.len() == 0 {
        Err(Error::MissingPrompt)
    } else {
        match options[0].text {
            Some(prompt) => Ok(prompt@),
            None => Err(Error::PromptNotText),
        }
    }
}

/// Whether the request asks the text model to answer `prompt`, after the
/// standing instructions and at once.
pub open spec fn asks_text(request: GenerateTextRequest, prompt: Seq<char>) -> bool {
    &&& request.model@ == TEXT_MODEL@
    &&& request.messages@.len() == 2
    &&& request.messages@[0].role == GenerateTextMessageRole::System
    &&& request.messages@[0].content@ == SYSTEM_PROMPT@
    &&& request.messages@[1].role == GenerateTextMessageRole::User
    &&& request.messages@[1].content@ == prompt
    &&& request.predefined_messages@.len() == 0
    &&& !request.stream
}

/// Whether the request asks the image model to draw `prompt`.
pub open spec fn asks_image(request: GenerateImageRequest, prompt: Seq<char>) -> bool {
    &&& request.source@ == IMAGE_MODEL@
    &&& request.prompt@ == prompt
}

/// What a picture subcommand of `user_id` with these options leads to.
pub open spec fn image_step_matches(
    step: Result<AiStep, Error>,
    user_id: u64,
    options: Seq<NestedOption>,
) -> bool {
    match prompt_of(options) {
        Err(error) => step == Err::<AiStep, Error>(error),
        Ok(prompt) => match step {
            Ok(AiStep::Reply(text)) => user_id == REFUSED_USER && text@ == REFUSED_USER_REPLY@,
            Ok(AiStep::GenerateImage(request)) => user_id != REFUSED_USER && asks_image(
                request,
                prompt,
            ),
            _ => false,
        },
    }
}

/// What a text subcommand with these options leads to.
pub open spec fn text_step_matches(step: Result<AiStep, Error>, options: Seq<NestedOption>) -> bool {
    match prompt_of(options) {
        Err(error) => step == Err::<AiStep, Error>(error),
        Ok(prompt) => match step {
            Ok(AiStep::GenerateText(request)) => asks_text(request, prompt),
            _ => false,
        },
    }
}

impl AiCommand {
    /// How the command answers: the event is acknowledged before anything of
    /// it is read, so every failure of the command comes after the
    /// acknowledgment.
    pub fn pattern() -> (pattern: ResponsePattern)
        ensures
            pattern == ResponsePattern::Deferred,
    {
        ResponsePattern::Deferred
    }

    /// Decides what the command does once the event is acknowledged: the
    /// subcommand `text` asks the text model, `image` the image model.
    pub fn handle_command(interaction: &CommandInteraction) -> (step: Result<AiStep, Error>)
        ensures
            match subcommand_of(interaction.options@) {
                Err(error) => step == Err::<AiStep, Error>(error),
                Ok((name, nested)) => if name == "text"@ {
                    text_step_matches(step, nested)
                } else if name == "image"@ {
                    image_step_matches(step, interaction.user_id, nested)
                } else {
                    step == Err::<AiStep, Error>(
                        Error::InvalidSubcommand(interaction.options@[0].name),
                    )
                },
            },
    {
        if interaction.options.len() == 0 {
            return Err(Error::MissingSubcommand);
        }
        let first = &interaction.options[0];
        let nested = match &first.value {
            OptionValue::SubCommand(nested) => nested,
            _ => {
                return Err(Error::NotSubcommand);
            },
        };
        if same_text(first.name.as_str(), "text") {
            AiCommand::run_text(nested)
        } else if same_text(first.name.as_str(), "image") {
            AiCommand::run_image(interaction.user_id, nested)
        } else {
            Err(Error::InvalidSubcommand(first.name.clone()))
        }
    }

    /// The request that a text subcommand sends to the text service.
    pub fn run_text(options: &Vec<NestedOption>) -> (step: Result<AiStep, Error>)
        ensures
            text_step_matches(step, options@),
    {
        if options.len() == 0 {
            return Err(Error::MissingPrompt);
        }
        match &options[0].text {
            None => Err(Error::PromptNotText),
            Some(prompt) => Ok(
                AiStep::GenerateText(
                    GenerateTextRequest::new().model(TEXT_MODEL).add_message(
                        GenerateTextMessage::new(GenerateTextMessageRole::System, SYSTEM_PROMPT),
                    ).add_message(
                        GenerateTextMessage::new(GenerateTextMessageRole::User, prompt.as_str()),
                    ),
                ),
            ),
        }
    }

    /// What a picture subcommand does: the refused user gets a fixed reply,
    /// everyone else a request to the image service.
    pub fn run_image(user_id: u64, options: &Vec<NestedOption>) -> (step: Result<AiStep, Error>)
        ensures
            image_step_matches(step, user_id, options@),
    {
        if options.len() == 0 {
            return Err(Error::MissingPrompt);
        }
        match &options[0].text {
            None => Err(Error::PromptNotText),
            Some(prompt) => {
                if user_id == REFUSED_USER {
                    Ok(AiStep::Reply(REFUSED_USER_REPLY.to_owned()))
                } else {
                    Ok(
                        AiStep::GenerateImage(
                            GenerateImageRequest::new().source(IMAGE_MODEL).prompt(prompt.as_str()),
                        ),
                    )
                }
            },
        }
    }
}

/// The pattern of a footnote that names its source: a number in square
/// brackets, a title in square brackets and an address in round brackets.
pub const FOOTNOTE_LINK: &'static str = "\\[[0-9]+\\] \\[.+\\]\\((.+)\\)";

/// The pattern of the list of footnotes at the end of an answer.
pub const FOOTNOTE_LIST: &'static str = "\\n\\n\\n> \\[0\\][\\S\\s]*$";

/// The pattern of a footnote mark inside the text.
pub const FOOTNOTE_MARK: &'static str = "\\[[0-9]+\\]";

/// What a line of references begins with.
pub const REFERENCES_LEAD: &'static str = "\n-# > References: ";

/// For each match of `pattern` in `haystack`, in order, the text of capture
/// group `group` if that group took part in the match; or why the pattern
/// is not accepted.
pub uninterp spec fn regex_captures(pattern: Seq<char>, group: nat, haystack: Seq<char>) -> Result<Seq<Option<Seq<char>>>, Seq<char>>;

/// `haystack` with every match of `pattern` replaced by `replacement`; or why
/// the pattern is not accepted.
pub uninterp spec fn regex_replaced(pattern: Seq<char>, haystack: Seq<char>, replacement: Seq<char>) -> Result<Seq<char>, Seq<char>>;

/// The host of an address, if it has one, and the address as it is written
/// out again; nothing if the text is no address.
pub uninterp spec fn url_parts(input: Seq<char>) -> Option<(Option<Seq<char>>, Seq<char>)>;

/// The bytes that a data address holds; or the kind of fault that it has.
pub uninterp spec fn data_url_bytes(input: Seq<char>) -> Result<Seq<u8>, Seq<char>>;

/// An address, taken apart.
#[derive(Debug, Clone, PartialEq, Eq)]
pub struct Link {
    /// The host, if the address has one.
    pub host: Option<String>,
    /// The address as it is written out again.
    pub text: String,
}

/// The texts that a list of optional strings holds.
pub open spec fn option_views(items: Seq<Option<String>>) -> Seq<Option<Seq<char>>> {
    items.map_values(
        |item: Option<String>|
            match item {
                Some(text) => Some(text@),
                None => None,
            },
    )
}

/// Compiles the pattern with `regex::Regex::new` and walks the matches of
/// `regex::Regex::captures_iter`, taking the text of one capture group from
/// each with `regex::Captures::get`. Trusted: the outcome is a function of the
/// pattern, the group's number and the haystack alone; a pattern that is not
/// accepted gives the error's text.
#[verifier::external_body]
fn captures_of(pattern: &str, group: usize, haystack: &str) -> (found: Result<
    Vec<Option<String>>,
    String,
>)
    ensures
        match found {
            Ok(texts) => regex_captures(pattern@, group as nat, haystack@) == Ok::<
                Seq<Option<Seq<char>>>,
                Seq<char>,
            >(option_views(texts@)),
            Err(reason) => regex_captures(pattern@, group as nat, haystack@) == Err::<
                Seq<Option<Seq<char>>>,
                Seq<char>,
            >(reason@),
        },
{
    match regex::Regex::new(pattern) {
        Ok(regex) => Ok(
            regex.captures_iter(haystack).map(
                |found| found.get(group).map(|part| part.as_str().to_owned()),
            ).collect(),
        ),
        Err(error) => Err(format!("{error}")),
    }
}

/// Compiles the pattern with `regex::Regex::new` and replaces its matches
/// with `regex::Regex::replace_all`. Trusted: the outcome is a function of the
/// pattern, the haystack and the replacement alone; a pattern that is not
/// accepted gives the error's text.
#[verifier::external_body]
fn replace_all(pattern: &str, haystack: &str, replacement: &str) -> (replaced: Result<
    String,
    String,
>)
    ensures
        match replaced {
            Ok(text) => regex_replaced(pattern@, haystack@, replacement@) == Ok::<
                Seq<char>,
                Seq<char>,
            >(text@),
            Err(reason) => regex_replaced(pattern@, haystack@, replacement@) == Err::<
                Seq<char>,
                Seq<char>,
            >(reason@),
        },
{
    match regex::Regex::new(pattern) {
        Ok(regex) => Ok(regex.replace_all(haystack, replacement).into_owned()),
        Err(error) => Err(format!("{error}")),
    }
}

/// Reads an address with `reqwest::Url::parse` and takes its host with
/// `host_str` and its text with `as_str`. Trusted: the outcome is a function
/// of the input alone.
#[verifier::external_body]
fn parse_link(input: &str) -> (link: Option<Link>)
    ensures
        match link {
            Some(link) => url_parts(input@) == Some(
                (
                    match link.host {
                        Some(host) => Some(host@),
                        None => None,
                    },
                    link.text@,
                ),
            ),
            None => url_parts(input@) is None,
        },
{
    match reqwest::Url::parse(input) {
        Ok(url) => Some(
            Link { host: url.host_str().map(|host| host.to_owned()), text: url.as_str().to_owned() },
        ),
        Err(_) => None,
    }
}

/// Reads a data address with `dataurl::DataUrl::parse` and takes its bytes
/// with `into_data`. Trusted: the outcome is a function of the input alone; an
/// input that is not accepted gives the error's name.
#[verifier::external_body]
fn parse_data_url(input: &str) -> (data: Result<Vec<u8>, String>)
    ensures
        match data {
            Ok(bytes) => data_url_bytes(input@) == Ok::<Seq<u8>, Seq<char>>(bytes@),
            Err(reason) => data_url_bytes(input@) == Err::<Seq<u8>, Seq<char>>(reason@),
        },
{
    match dataurl::DataUrl::parse(input) {
        Ok(url) => Ok(url.into_data()),
        Err(error) => Err(format!("{error:?}")),
    }
}

/// How an address is shown among the references: its host as the text of a
/// link to it. An address without a host is not shown.
pub open spec fn link_label(link: Option<(Option<Seq<char>>, Seq<char>)>) -> Option<Seq<char>> {
    match link {
        Some((Some(host), text)) => Some("["@ + host + "](<"@ + text + ">)"@),
        _ => None,
    }
}

/// The labels of the addresses among `captures` that can be read and have a
/// host, in order.
pub open spec fn reference_labels(captures: Seq<Option<Seq<char>>>) -> Seq<Seq<char>>
    decreases captures.len(),
{
    if captures.len() == 0 {
        Seq::<Seq<char>>::empty()
    } else {
        let before = reference_labels(captures.drop_last());
        match captures.last() {
            Some(address) => match link_label(url_parts(address)) {
                Some(label) => before.push(label),
                None => before,
            },
            None => before,
        }
    }
}

/// The reply made of an answer's text and the labels of its sources: the
/// text, then a line of references if there are any, cut to the limit.
pub open spec fn finished_reply(text: Seq<char>, labels: Seq<Seq<char>>) -> Seq<char> {
    let sources = join(labels, ", "@);
    truncated(
        if sources.len() == 0 {
            text
        } else {
            text + REFERENCES_LEAD@ + sources
        },
        REPLY_LIMIT as nat,
    )
}

/// The reply to a text subcommand, from what the text model answered: the
/// answer without its list of footnotes and without footnote marks, then the
/// sources that the footnotes named.
pub open spec fn text_reply_of(content: Option<Seq<char>>) -> Result<Seq<char>, Seq<char>> {
    let raw = match content {
        Some(text) => text,
        None => EMPTY_RESPONSE@,
    };
    match regex_captures(FOOTNOTE_LINK@, 1, raw) {
        Err(reason) => Err(reason),
        Ok(captures) => match regex_replaced(FOOTNOTE_LIST@, raw, ""@) {
            Err(reason) => Err(reason),
            Ok(without_list) => match regex_replaced(FOOTNOTE_MARK@, without_list, ""@) {
                Err(reason) => Err(reason),
                Ok(text) => Ok(finished_reply(text, reference_labels(captures))),
            },
        },
    }
}

impl AiCommand {
    /// How an address is shown among the references.
    pub fn reference_label(link: &Option<Link>) -> (label: Option<String>)
        ensures
            match label {
                Some(text) => link is Some && link->0.host is Some && text@ == "["@
                    + link->0.host->0@ + "](<"@ + link->0.text@ + ">)"@,
                None => link is None || link->0.host is None,
            },
    {
        match link {
            Some(Link { host: Some(host), text }) => {
                let mut label = "[".to_owned();
                label.append(host.as_str());
                label.append("](<");
                label.append(text.as_str());
                label.append(">)");
                Some(label)
            },
            _ => None,
        }
    }

    /// The labels of the addresses that can be read and have a host, in order.
    pub fn references(captures: &Vec<Option<String>>) -> (labels: Vec<String>)
        ensures
            views(labels@) == reference_labels(option_views(captures@)),
    {
        let mut labels: Vec<String> = Vec::new();
        let mut i: usize = 0;
        assert(option_views(captures@).subrange(0, 0) =~= Seq::<Option<Seq<char>>>::empty());
        assert(views(labels@) =~= Seq::<Seq<char>>::empty());
        while i < captures.len()
            invariant
                i <= captures.len(),
                views(labels@) == reference_labels(option_views(captures@).subrange(0, i as int)),
            decreases captures.len() - i,
        {
            let ghost upto = option_views(captures@).subrange(0, i + 1);
            assert(upto.drop_last() =~= option_views(captures@).subrange(0, i as int));
            assert(upto.last() == option_views(captures@)[i as int]);
            match &captures[i] {
                Some(address) => {
                    let link = parse_link(address.as_str());
                    match AiCommand::reference_label(&link) {
                        Some(label) => {
                            assert(views(labels@.push(label)) =~= views(labels@).push(label@));
                            labels.push(label);
                        },
                        None => {},
                    }
                },
                None => {},
            }
            i = i + 1;
        }
        assert(option_views(captures@).subrange(0, captures.len() as int) =~= option_views(
            captures@,
        ));
        labels
    }

    /// The reply made of an answer's text and the labels of its sources.
    pub fn finish_reply(text: String, labels: &Vec<String>) -> (reply: String)
        ensures
            reply@ == finished_reply(text@, views(labels@)),
    {
        let sources = join_text(labels, ", ");
        let mut reply = text;
        if !sources.as_str().is_empty() {
            reply.append(REFERENCES_LEAD);
            reply.append(sources.as_str());
        }
        truncate_text(reply.as_str(), REPLY_LIMIT)
    }

    /// The reply to a text subcommand, from what the text model answered. It
    /// fails only if one of the footnote patterns is not accepted, and then
    /// with the reason.
    pub fn text_reply(content: Option<String>) -> (reply: Result<String, Error>)
        ensures
            match reply {
                Ok(text) => text_reply_of(
                    match content {
                        Some(answer) => Some(answer@),
                        None => None,
                    },
                ) == Ok::<Seq<char>, Seq<char>>(text@),
                Err(Error::Collaborator(reason)) => text_reply_of(
                    match content {
                        Some(answer) => Some(answer@),
                        None => None,
                    },
                ) == Err::<Seq<char>, Seq<char>>(reason@),
                Err(_) => false,
            },
    {
        let raw = match content {
            Some(text) => text,
            None => EMPTY_RESPONSE.to_owned(),
        };
        let captures = match captures_of(FOOTNOTE_LINK, 1, raw.as_str()) {
            Ok(captures) => captures,
            Err(reason) => {
                return Err(Error::Collaborator(reason));
            },
        };
        let without_list = match replace_all(FOOTNOTE_LIST, raw.as_str(), "") {
            Ok(text) => text,
            Err(reason) => {
                return Err(Error::Collaborator(reason));
            },
        };
        let text = match replace_all(FOOTNOTE_MARK, without_list.as_str(), "") {
            Ok(text) => text,
            Err(reason) => {
                return Err(Error::Collaborator(reason));
            },
        };
        let labels = AiCommand::references(&captures);
        Ok(AiCommand::finish_reply(text, &labels))
    }
}

/// Whether `sent` is what follows the image service's answer: the picture's
/// address if the answer has one, then the picture itself if the answer has
/// one; and whether `failure` is the fault of a picture that cannot be read.
pub open spec fn follows_image(
    response: GenerateImageResponse,
    sent: Seq<Followup>,
    failure: Option<Error>,
) -> bool {
    let addressed: int = if response.image_url is Some {
        1
    } else {
        0
    };
    &&& response.image_url is Some ==> sent.len() >= 1 && (sent[0] matches Followup::Content(text)
        && text@ == response.image_url->0@)
    &&& match response.data_url {
        None => sent.len() == addressed && failure is None,
        Some(address) => match data_url_bytes(address@) {
            Ok(bytes) => sent.len() == addressed + 1 && failure is None && (
            sent[addressed] matches Followup::File(data, name) && data@ == bytes && name@
                == IMAGE_FILE_NAME@),
            Err(reason) => sent.len() == addressed && (failure matches Some(Error::DataUrl(text))
                && text@ == reason),
        },
    }
}

impl AiCommand {
    /// What a user is told when the image service answers with a failure:
    /// that the prompt is not accepted, if the status says so; for any other
    /// failure nothing, and the failure is the handler's.
    pub fn image_refusal(status: Option<u16>) -> (reply: Option<String>)
        ensures
            reply is Some <==> status == Some(BAD_REQUEST),
            reply is Some ==> reply->0@ == REFUSED_PROMPT_REPLY@,
    {
        match status {
            Some(code) => if code == BAD_REQUEST {
                Some(REFUSED_PROMPT_REPLY.to_owned())
            } else {
                None
            },
            None => None,
        }
    }

    /// The message that carries a picture, from what reading its data address
    /// gave.
    pub fn attachment(data: Result<Vec<u8>, String>) -> (made: Result<Followup, Error>)
        ensures
            match data {
                Ok(bytes) => made matches Ok(Followup::File(held, name)) && held@ == bytes@
                    && name@ == IMAGE_FILE_NAME@,
                Err(reason) => made matches Err(Error::DataUrl(text)) && text@ == reason@,
            },
    {
        match data {
            Ok(bytes) => Ok(Followup::File(bytes, IMAGE_FILE_NAME.to_owned())),
            Err(reason) => Err(Error::DataUrl(reason)),
        }
    }

    /// What comes of the image service's answer: the messages to send, in
    /// order, and the failure to tell after them if the picture cannot be read.
    pub fn image_followups(response: &GenerateImageResponse) -> (plan: Worked)
        ensures
            follows_image(*response, plan.messages@, plan.failure),
    {
        let mut sent: Vec<Followup> = Vec::new();
        match &response.image_url {
            Some(address) => {
                sent.push(Followup::Content(address.clone()));
            },
            None => {},
        }
        match &response.data_url {
            None => Worked { messages: sent, failure: None },
            Some(address) => match AiCommand::attachment(parse_data_url(address.as_str())) {
                Ok(file) => {
                    sent.push(file);
                    Worked { messages: sent, failure: None }
                },
                Err(error) => Worked { messages: sent, failure: Some(error) },
            },
        }
    }

    /// What comes of the text model's answer: one message, the reply.
    pub fn text_followup(content: Option<String>) -> (work: Result<Worked, Error>)
        ensures
            match work {
                Ok(worked) => worked.failure is None && worked.messages@.len() == 1 && (
                worked.messages@[0] matches Followup::Content(text) && text_reply_of(
                    match content {
                        Some(answer) => Some(answer@),
                        None => None,
                    },
                ) == Ok::<Seq<char>, Seq<char>>(text@)),
                Err(Error::Collaborator(reason)) => text_reply_of(
                    match content {
                        Some(answer) => Some(answer@),
                        None => None,
                    },
                ) == Err::<Seq<char>, Seq<char>>(reason@),
                Err(_) => false,
            },
    {
        match AiCommand::text_reply(content) {
            Ok(text) => Ok(Worked::message(Followup::Content(text))),
            Err(error) => Err(error),
        }
    }
}

/// Whether `command` is the ai command as it is registered: the subcommands
/// `text` and `image`, each with a prompt.
pub open spec fn is_ai_command(command: CommandSpec) -> bool {
    &&& command.name@ == "ai"@
    &&& command.description@ == "Liege AI"@
    &&& command.kind == CommandType::ChatInput
    &&& !command.launches_activity
    &&& offered_everywhere(command)
    &&& command.options@.len() == 2
    &&& is_prompt_subcommand(
        command.options@[0],
        "text"@,
        "Chat with Liege"@,
        "Prompt for the AI"@,
    )
    &&& is_prompt_subcommand(
        command.options@[1],
        "image"@,
        "Generate an image"@,
        "Prompt for generating the image"@,
    )
}

impl AiCommand {
    /// How the ai command is registered.
    pub fn command() -> (command: CommandSpec)
        ensures
            is_ai_command(command),
    {
        CommandSpec::new("ai", "Liege AI").add_option(
            OptionSpec::prompt_subcommand("text", "Chat with Liege", "Prompt for the AI"),
        ).add_option(
            OptionSpec::prompt_subcommand(
                "image",
                "Generate an image",
                "Prompt for generating the image",
            ),
        )
    }
}

} // verus!
