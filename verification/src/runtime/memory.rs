//! What the agent keeps in long-term memory.

use vstd::prelude::*;

verus! {

/// Where a remembered piece of text came from.
#[derive(Clone, Debug, PartialEq, Eq)]
pub enum ContentSource {
    /// A fact about the user, saved on purpose, with an optional category.
    UserFact { category: Option<String> },
}

/// A piece of text to remember, with its source.
#[derive(Clone, Debug, PartialEq, Eq)]
pub struct MemoryContent {
    pub text: String,
    pub source: ContentSource,
}

} // verus!
