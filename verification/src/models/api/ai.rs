//! The text and image generation service: what is sent to it and what it answers.

use vstd::prelude::*;

verus! {

/// Who a message of a conversation is from.
#[derive(Debug, Clone, Copy, PartialEq, Eq, Structural)]
pub enum GenerateTextMessageRole {
    User,
    System,
    Assistant,
    Tool,
}

/// One message of a conversation.
#[derive(Debug, Clone, PartialEq, Eq)]
pub struct GenerateTextMessage {
    pub role: GenerateTextMessageRole,
    pub content: String,
}

impl GenerateTextMessage {
    /// A message from `role` that says `content`.
    pub fn new(role: GenerateTextMessageRole, content: &str) -> (message: GenerateTextMessage)
        ensures
            message.role == role,
            message.content@ == content@,
    {
        GenerateTextMessage { role, content: content.to_owned() }
    }
}

/// A conversation to continue, and the model to continue it with.
#[derive(Debug, Clone, PartialEq, Eq)]
pub struct GenerateTextRequest {
    pub model: String,
    pub messages: Vec<GenerateTextMessage>,
    pub predefined_messages: Vec<String>,
    pub stream: bool,
}

impl GenerateTextRequest {
    /// A request with no model, no messages and no streaming.
    pub fn new() -> (request: GenerateTextRequest)
        ensures
            request.model@ == Seq::<char>::empty(),
            request.messages@ == Seq::<GenerateTextMessage>::empty(),
            request.predefined_messages@ == Seq::<String>::empty(),
            !request.stream,
    {
        GenerateTextRequest {
            model: String::new(),
            messages: Vec::new(),
            predefined_messages: Vec::new(),
            stream: false,
        }
    }

    /// The same request for the given model.
    pub fn model(self, model: &str) -> (request: GenerateTextRequest)
        ensures
            request.model@ == model@,
            request == (GenerateTextRequest { model: request.model, ..self }),
    {
        let mut request = self;
        request.model = model.to_owned();
        request
    }

    /// The same request with `message` after its other messages.
    pub fn add_message(self, message: GenerateTextMessage) -> (request: GenerateTextRequest)
        ensures
            request.messages@ == self.messages@.push(message),
            request == (GenerateTextRequest { messages: request.messages, ..self }),
    {
        let mut request = self;
        request.messages.push(message);
        request
    }

    /// The same request with `messages` in place of its messages.
    pub fn messages(self, messages: Vec<GenerateTextMessage>) -> (request: GenerateTextRequest)
        ensures
            request == (GenerateTextRequest { messages, ..self }),
    {
        let mut request = self;
        request.messages = messages;
        request
    }

    /// The same request with the given names of predefined messages.
    pub fn predefined_messages(self, predefined_messages: Vec<String>) -> (request:
        GenerateTextRequest)
        ensures
            request == (GenerateTextRequest { predefined_messages, ..self }),
    {
        let mut request = self;
        request.predefined_messages = predefined_messages;
        request
    }

    /// The same request, answered piece by piece or at once.
    pub fn stream(self, stream: bool) -> (request: GenerateTextRequest)
        ensures
            request == (GenerateTextRequest { stream, ..self }),
    {
        let mut request = self;
        request.stream = stream;
        request
    }
}

/// The service's answer to a conversation, given at once.
#[derive(Debug, Clone, PartialEq, Eq)]
pub struct GenerateTextResponse {
    pub response: Option<String>,
}

/// One piece of an answer that the service gives piece by piece.
#[derive(Debug, Clone, PartialEq, Eq)]
pub struct GenerateTextStreamResponse {
    pub response: String,
}

/// A picture to draw, and the model to draw it with.
#[derive(Debug, Clone, PartialEq, Eq)]
pub struct GenerateImageRequest {
    pub source: String,
    pub prompt: String,
}

impl GenerateImageRequest {
    /// A request with no model and no prompt.
    pub fn new() -> (request: GenerateImageRequest)
        ensures
            request.source@ == Seq::<char>::empty(),
            request.prompt@ == Seq::<char>::empty(),
    {
        GenerateImageRequest { source: String::new(), prompt: String::new() }
    }

    /// The same request for the given model.
    pub fn source(self, source: &str) -> (request: GenerateImageRequest)
        ensures
            request.source@ == source@,
            request.prompt == self.prompt,
    {
        GenerateImageRequest { source: source.to_owned(), prompt: self.prompt }
    }

    /// The same request with the given prompt.
    pub fn prompt(self, prompt: &str) -> (request: GenerateImageRequest)
        ensures
            request.prompt@ == prompt@,
            request.source == self.source,
    {
        GenerateImageRequest { source: self.source, prompt: prompt.to_owned() }
    }
}

/// The service's answer to a picture request: where the picture is, or the
/// picture itself written as a data address.
#[derive(Debug, Clone, PartialEq, Eq)]
pub struct GenerateImageResponse {
    pub image_url: Option<String>,
    pub data_url: Option<String>,
}

} // verus!
