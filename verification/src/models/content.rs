//! The content that flows between a user, a model and its tools.

use vstd::prelude::*;

verus! {

/// Who produced a piece of content.
#[derive(Clone, Copy, Debug, PartialEq, Eq, Structural)]
pub enum Role {
    User,
    Assistant,
    System,
    Tool,
}

/// A request from the model to run a tool.
#[derive(Clone, Debug, PartialEq, Eq)]
pub struct ToolCall {
    pub id: String,
    pub name: String,
    pub arguments: String,
}

/// What a tool answered to a call.
#[derive(Clone, Debug, PartialEq, Eq)]
pub struct ToolResponse {
    pub tool_call_id: String,
    pub output: String,
}

/// One part of a piece of content.
#[derive(Clone, Debug, PartialEq, Eq)]
pub enum ContentPart {
    Text(String),
    ToolCall(ToolCall),
    ToolResponse(ToolResponse),
}

/// A piece of content: its parts, in order.
#[derive(Clone, Debug, PartialEq, Eq)]
pub struct Content {
    pub parts: Vec<ContentPart>,
}

impl Content {
    /// Content made of one text part.
    pub fn from_text(text: &str) -> (content: Content)
        ensures
            content.parts@.len() == 1,
            content.parts@[0] matches ContentPart::Text(t) && t@ == text@,
    {
        let mut parts: Vec<ContentPart> = Vec::new();
        parts.push(ContentPart::Text(text.to_owned()));
        Content { parts }
    }

    /// The parts of this content, in order.
    pub fn parts(&self) -> (parts: &[ContentPart])
        ensures
            parts@ == self.parts@,
    {
        self.parts.as_slice()
    }

    /// Gives up this content for its parts.
    pub fn into_parts(self) -> (parts: Vec<ContentPart>)
        ensures
            parts == self.parts,
    {
        self.parts
    }
}

} // verus!
