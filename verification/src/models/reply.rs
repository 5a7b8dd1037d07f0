//! What the gateway sends back to the platform, as plain values.

use vstd::prelude::*;

verus! {

/// How a handler answers an event. The platform wants an answer within a few
/// seconds; a message after an acknowledgment may come minutes later.
#[derive(Debug, Clone, Copy, PartialEq, Eq, Structural)]
pub enum ResponsePattern {
    /// The first answer is the final one.
    Immediate,
    /// The event is acknowledged at once; the result follows in a message of
    /// its own when the work is done.
    Deferred,
}

/// The colour of the bar beside an embedded block.
#[derive(Debug, Clone, Copy, PartialEq, Eq, Structural)]
pub enum Color {
    /// The green of a success.
    Fooyoo,
    /// The red of a failure.
    Red,
}

/// An embedded block of a message.
#[derive(Debug, Clone, PartialEq, Eq)]
pub struct Embed {
    pub color: Color,
    pub title: Option<String>,
    pub description: String,
    pub footer: Option<String>,
}

/// How a text field of a form looks.
#[derive(Debug, Clone, Copy, PartialEq, Eq, Structural)]
pub enum InputTextStyle {
    Short,
    Paragraph,
}

/// A text field of a form to open.
#[derive(Debug, Clone, PartialEq, Eq)]
pub struct InputTextSpec {
    pub style: InputTextStyle,
    pub label: String,
    pub custom_id: String,
    pub required: bool,
}

/// A form to open, one text field in each row.
#[derive(Debug, Clone, PartialEq, Eq)]
pub struct ModalSpec {
    pub custom_id: String,
    pub title: String,
    pub fields: Vec<InputTextSpec>,
}

/// A message sent after an event was acknowledged.
#[derive(Debug, Clone, PartialEq, Eq)]
pub enum Followup {
    /// A text.
    Content(String),
    /// An embedded block.
    Embed(Embed),
    /// A file with its name.
    File(Vec<u8>, String),
}

} // verus!
