//! What a skill hands back to the agent runtime.

use vstd::prelude::*;
use crate::models::Content;

verus! {

/// A named output of a skill.
#[derive(Clone, Debug, PartialEq, Eq)]
pub struct Artifact {
    pub name: String,
    pub content: Content,
}

impl Artifact {
    /// An artifact whose content is one text part.
    pub fn from_text(name: &str, text: &str) -> (artifact: Artifact)
        ensures
            artifact.name@ == name@,
            artifact.content.parts@.len() == 1,
            artifact.content.parts@[0] matches crate::models::ContentPart::Text(t) && t@ == text@,
    {
        Artifact { name: name.to_owned(), content: Content::from_text(text) }
    }

    /// The name of this artifact.
    pub fn name(&self) -> (name: &str)
        ensures
            name@ == self.name@,
    {
        self.name.as_str()
    }

    /// The content of this artifact.
    pub fn content(&self) -> (content: &Content)
        ensures
            *content == self.content,
    {
        &self.content
    }
}

/// The mark that a skill leaves when it waits for more input. The state that
/// the skill needs to resume is kept by the runtime that owns the skill.
#[derive(Clone, Copy, Debug, PartialEq, Eq)]
pub struct SkillSlot;

impl SkillSlot {
    /// Opens a slot; the value handed in is the skill's own resumption state,
    /// which stays with the runtime.
    pub fn new<T>(_state: T) -> SkillSlot {
        SkillSlot
    }
}

/// What a skill answers to a new request.
#[derive(Clone, Debug, PartialEq, Eq)]
pub enum OnRequestResult {
    InputRequired { message: Content, slot: SkillSlot },
    Completed { message: Option<Content>, artifacts: Vec<Artifact> },
    Failed { error: Content },
    Rejected { reason: Content },
}

/// What a skill answers to input that it asked for.
#[derive(Clone, Debug, PartialEq, Eq)]
pub enum OnInputResult {
    InputRequired { message: Content, slot: SkillSlot },
    Completed { message: Option<Content>, artifacts: Vec<Artifact> },
    Failed { error: Content },
}

} // verus!
