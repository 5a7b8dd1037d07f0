//! The ai endpoint: a conversation with a text model, answered piece by
//! piece, or a picture from an image model, for a signed-in client.

use vstd::prelude::*;
use crate::error::Error;
use crate::handlers::commands::ai::{asks_image, IMAGE_MODEL};
use crate::models::api::ai::{GenerateImageRequest, GenerateImageResponse, GenerateTextMessage};
use crate::models::api::ai::{GenerateTextMessageRole, GenerateTextRequest};
use crate::models::api::ai::GenerateTextStreamResponse;
use crate::text::same_text;

verus! {

/// What kind of model a client asks.
#[derive(Debug, Clone, Copy, PartialEq, Eq, Structural)]
pub enum AiModelType {
    Text,
    Image,
}

/// An earlier message of the conversation.
#[derive(Debug, Clone, PartialEq, Eq)]
pub enum AiHistoryMessage {
    /// What the user said.
    User(String),
    /// What the model answered.
    Bot(String),
}

/// What a client sends.
#[derive(Debug, Clone, PartialEq, Eq)]
pub struct AiRequest {
    pub model_type: AiModelType,
    pub prompt: String,
    pub history: Option<Vec<AiHistoryMessage>>,
}

/// The answer to a picture request.
#[derive(Debug, Clone, PartialEq, Eq)]
pub struct AiImageResponse {
    pub image_url: String,
}

/// One event of the answer to a conversation.
#[derive(Debug, Clone, PartialEq, Eq)]
pub enum AiEvent {
    /// The answer is complete.
    Done,
    /// The next piece of the answer.
    Response(String),
}

/// The model that the endpoint continues conversations with.
pub const STREAM_MODEL: &'static str = "llama-3-8b-instruct";

/// The data of the message with which the text service ends an answer.
pub const DONE: &'static str = "[DONE]";

/// What the client is told when no picture can be had.
pub const IMAGE_FAILURE: &'static str = "Failed to generate image";

/// What the client is told when no answer can be had.
pub const TEXT_FAILURE: &'static str = "Failed to generate text";

/// What the endpoint asks of the services behind it.
#[derive(Debug, Clone, PartialEq, Eq)]
pub enum AiTask {
    /// Send this request to the image service and answer with the address.
    Image(GenerateImageRequest),
    /// Send this request to the text service and pass its events on.
    Text(GenerateTextRequest),
}

/// The role and the text of an earlier message, as the text service takes them.
pub open spec fn history_entry(message: AiHistoryMessage) -> (GenerateTextMessageRole, Seq<char>) {
    match message {
        AiHistoryMessage::User(content) => (GenerateTextMessageRole::User, content@),
        AiHistoryMessage::Bot(content) => (GenerateTextMessageRole::Assistant, content@),
    }
}

/// Whether `messages` are the earlier messages in order, each under its
/// role, and then the prompt as a message of the user.
pub open spec fn continues(
    messages: Seq<GenerateTextMessage>,
    history: Seq<AiHistoryMessage>,
    prompt: Seq<char>,
) -> bool {
    &&& messages.len() == history.len() + 1
    &&& forall|i: int|
        0 <= i < history.len() ==> ((#[trigger] messages[i]).role, messages[i].content@)
            == history_entry(history[i])
    &&& messages[history.len() as int].role == GenerateTextMessageRole::User
    &&& messages[history.len() as int].content@ == prompt
}

/// The messages that the text service is sent: the earlier ones, then the prompt.
pub fn conversation(history: &Vec<AiHistoryMessage>, prompt: &str) -> (messages: Vec<
    GenerateTextMessage,
>)
    ensures
        continues(messages@, history@, prompt@),
{
    let mut messages: Vec<GenerateTextMessage> = Vec::new();
    let mut i: usize = 0;
    while i < history.len()
        invariant
            i <= history.len(),
            messages@.len() == i,
            forall|k: int|
                0 <= k < i ==> ((#[trigger] messages@[k]).role, messages@[k].content@)
                    == history_entry(history@[k]),
        decreases history.len() - i,
    {
        let message = match &history[i] {
            AiHistoryMessage::User(content) => GenerateTextMessage::new(
                GenerateTextMessageRole::User,
                content.as_str(),
            ),
            AiHistoryMessage::Bot(content) => GenerateTextMessage::new(
                GenerateTextMessageRole::Assistant,
                content.as_str(),
            ),
        };
        messages.push(message);
        i = i + 1;
    }
    messages.push(GenerateTextMessage::new(GenerateTextMessageRole::User, prompt));
    messages
}

/// The request for a streamed answer to a conversation.
pub fn generate_text(messages: Vec<GenerateTextMessage>) -> (request: GenerateTextRequest)
    ensures
        request.model@ == STREAM_MODEL@,
        request.messages == messages,
        request.predefined_messages@.len() == 0,
        request.stream,
{
    GenerateTextRequest::new().model(STREAM_MODEL).messages(messages).stream(true)
}

/// The request for a picture of `prompt`.
pub fn generate_image(prompt: &str) -> (request: GenerateImageRequest)
    ensures
        asks_image(request, prompt@),
{
    GenerateImageRequest::new().source(IMAGE_MODEL).prompt(prompt)
}

/// Decides what the endpoint asks of the services behind it. A client that
/// sends no history has an empty one.
pub fn post(body: &AiRequest) -> (task: AiTask)
    ensures
        match task {
            AiTask::Image(request) => body.model_type == AiModelType::Image && asks_image(
                request,
                body.prompt@,
            ),
            AiTask::Text(request) => body.model_type == AiModelType::Text && request.model@
                == STREAM_MODEL@ && request.stream && request.predefined_messages@.len() == 0
                && continues(
                request.messages@,
                match body.history {
                    Some(history) => history@,
                    None => Seq::<AiHistoryMessage>::empty(),
                },
                body.prompt@,
            ),
        },
{
    match body.model_type {
        AiModelType::Image => AiTask::Image(generate_image(body.prompt.as_str())),
        AiModelType::Text => {
            let messages = match &body.history {
                Some(history) => conversation(history, body.prompt.as_str()),
                None => {
                    let none: Vec<AiHistoryMessage> = Vec::new();
                    conversation(&none, body.prompt.as_str())
                },
            };
            AiTask::Text(generate_text(messages))
        },
    }
}

/// Where the picture of an answer is: at its address if it has one, else in
/// its data address; an answer with neither is a failure.
pub fn image_address(response: GenerateImageResponse) -> (address: Result<String, Error>)
    ensures
        address == (match response.image_url {
            Some(url) => Ok::<String, Error>(url),
            None => match response.data_url {
                Some(url) => Ok::<String, Error>(url),
                None => Err::<String, Error>(Error::NoImage),
            },
        }),
{
    match response.image_url {
        Some(url) => Ok(url),
        None => match response.data_url {
            Some(url) => Ok(url),
            None => Err(Error::NoImage),
        },
    }
}

/// What arrives on the stream from the text service.
#[derive(Debug, Clone, PartialEq, Eq)]
pub enum StreamEvent {
    /// The stream is open.
    Open,
    /// A message with its data.
    Message(String),
    /// The stream failed.
    Failed,
}

/// What the endpoint does with something that arrived on the stream.
#[derive(Debug, Clone, PartialEq, Eq)]
pub enum StreamStep {
    /// Pass nothing on.
    Skip,
    /// Pass this event on.
    Emit(AiEvent),
    /// Read this data as a piece of the answer, then pass on what
    /// [`stream_piece`] says.
    Read(String),
}

/// Decides what to do with something that arrived on the stream: only
/// messages are passed on, the one that ends the answer as `Done`.
pub fn stream_step(event: StreamEvent) -> (step: StreamStep)
    ensures
        match event {
            StreamEvent::Message(data) => if data@ == DONE@ {
                step matches StreamStep::Emit(AiEvent::Done)
            } else {
                step matches StreamStep::Read(text) && text == data
            },
            _ => step is Skip,
        },
{
    match event {
        StreamEvent::Message(data) => {
            if same_text(data.as_str(), DONE) {
                StreamStep::Emit(AiEvent::Done)
            } else {
                StreamStep::Read(data)
            }
        },
        _ => StreamStep::Skip,
    }
}

/// The event for a message's data once it has been read: the piece that it
/// holds, or nothing if it holds none.
pub fn stream_piece(read: Option<GenerateTextStreamResponse>) -> (event: Option<AiEvent>)
    ensures
        match read {
            Some(piece) => event matches Some(AiEvent::Response(text)) && text == piece.response,
            None => event is None,
        },
{
    match read {
        Some(piece) => Some(AiEvent::Response(piece.response)),
        None => None,
    }
}

} // verus!
