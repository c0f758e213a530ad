//! Save memory tool for storing user facts.
//!
//! Running the tool awaits the memory service between two decisions, so the
//! decisions stand here as two steps: `SaveMemoryTool::plan` reads the call's
//! arguments and says what to store (or answers at once), and `finish_save`
//! turns what the service answered into the tool's result.

use std::sync::Arc;
use vstd::prelude::*;
use crate::runtime::context::AuthContext;
use crate::runtime::memory::{ContentSource, MemoryContent};
use crate::tools::{
    FunctionDeclaration, ParameterProperty, ParametersSchema, ToolArgs, text_arg,
};

verus! {

/// The most bytes of UTF-8 text that one save may store.
pub const MAX_CONTENT_LENGTH: usize = 4000;

/// The number of bytes in the UTF-8 encoding of `text`, as the `usize` that
/// `str::len` reports (a text in memory never has more bytes than a `usize`
/// can count).
pub open spec fn utf8_len(text: Seq<char>) -> usize {
    vstd::utf8::encode_utf8(text).len() as usize
}

/// What the tool answers to the model.
#[derive(Clone, Debug, PartialEq, Eq)]
pub enum SaveMemoryResult {
    /// The fact was stored under `id`, in `category` if one was given.
    Saved { id: String, category: Option<String> },
    /// Nothing was stored, for the reason in `message`.
    Error { message: String },
}

/// The next step of a save: answer at once, or store a piece of memory and
/// answer once the memory service has replied.
#[derive(Clone, Debug, PartialEq, Eq)]
pub enum SaveAction {
    Reply(SaveMemoryResult),
    Store(MemoryContent),
}

/// `action` is what a call with the text argument `content` and the category
/// argument `category` leads to: a missing text and a text of more than
/// `MAX_CONTENT_LENGTH` bytes are refused with their messages, and any other
/// text is stored as a user fact in the given category.
pub open spec fn is_save_action_for(
    action: SaveAction,
    content: Option<String>,
    category: Option<String>,
) -> bool {
    match content {
        None => action matches SaveAction::Reply(SaveMemoryResult::Error { message })
            && message@ == "Missing required argument: content"@,
        Some(text) => if utf8_len(text@) > MAX_CONTENT_LENGTH {
            action matches SaveAction::Reply(SaveMemoryResult::Error { message })
                && message@ == "Content too long. Maximum 4000 characters."@
        } else {
            action == SaveAction::Store(
                MemoryContent { text, source: ContentSource::UserFact { category } },
            )
        },
    }
}

/// `result` is what the tool answers once the memory service has answered
/// `outcome` to a save in `category`: the new memory's identifier, or the
/// service's error after a fixed prefix.
pub open spec fn is_save_result_for(
    result: SaveMemoryResult,
    category: Option<String>,
    outcome: Result<String, String>,
) -> bool {
    match outcome {
        Ok(id) => result == (SaveMemoryResult::Saved { id, category }),
        Err(error) => result matches SaveMemoryResult::Error { message }
            && message@ == "Failed to save: "@ + error@,
    }
}

/// A save that goes ahead stores exactly the text it was given, never more
/// than `MAX_CONTENT_LENGTH` bytes of it, and once the service has stored it
/// under `id` the tool answers with that `id` and the category it was given.
pub proof fn lemma_save_round_trip(
    text: String,
    category: Option<String>,
    action: SaveAction,
    id: String,
    result: SaveMemoryResult,
)
    requires
        is_save_action_for(action, Some(text), category),
        (action is Store),
        is_save_result_for(result, category, Ok(id)),
    ensures
        action == SaveAction::Store(
            (MemoryContent { text, source: (ContentSource::UserFact { category }) }),
        ),
        utf8_len(text@) <= MAX_CONTENT_LENGTH,
        result == (SaveMemoryResult::Saved { id, category }),
{
}

/// For ASCII text the byte limit is a limit on characters: such a text is
/// refused as too long exactly when it has more than `MAX_CONTENT_LENGTH`
/// characters.
pub proof fn lemma_ascii_limit_counts_characters(
    text: String,
    category: Option<String>,
    action: SaveAction,
)
    requires
        vstd::utf8::is_ascii_chars(text@),
        text@.len() <= usize::MAX,
        is_save_action_for(action, Some(text), category),
    ensures
        (action is Reply) <==> text@.len() > MAX_CONTENT_LENGTH,
{
    vstd::utf8::is_ascii_chars_encode_utf8(text@);
}

/// Decides the first step of a save from the call's text and category.
pub fn begin_save(content: Option<String>, category: Option<String>) -> (action: SaveAction)
    ensures
        is_save_action_for(action, content, category),
{
    let text_content = match content {
        Some(c) => c,
        None => {
            return SaveAction::Reply(
                SaveMemoryResult::Error {
                    message: "Missing required argument: content".to_owned(),
                },
            );
        },
    };
    if text_content.as_str().len() > MAX_CONTENT_LENGTH {
        return SaveAction::Reply(
            SaveMemoryResult::Error {
                message: "Content too long. Maximum 4000 characters.".to_owned(),
            },
        );
    }
    SaveAction::Store(
        MemoryContent { text: text_content, source: ContentSource::UserFact { category } },
    )
}

/// Turns what the memory service answered to a save in `category` into the
/// tool's result.
pub fn finish_save(category: Option<String>, outcome: Result<String, String>) -> (result:
    SaveMemoryResult)
    ensures
        is_save_result_for(result, category, outcome),
{
    match outcome {
        Ok(id) => SaveMemoryResult::Saved { id, category },
        Err(error) => {
            let mut message = "Failed to save: ".to_owned();
            message.append(error.as_str());
            SaveMemoryResult::Error { message }
        },
    }
}

/// Tool for agents to save important facts to long-term memory.
///
/// The agent remembers user preferences, facts or insights that should be
/// recalled in future conversations.
pub struct SaveMemoryTool<S: ?Sized> {
    memory_service: Arc<S>,
    auth_context: AuthContext,
}

impl<S: ?Sized> SaveMemoryTool<S> {
    /// The memory service that this tool stores into.
    pub closed spec fn bound_service(self) -> Arc<S> {
        self.memory_service
    }

    /// The auth context that this tool stores under.
    pub closed spec fn bound_auth_context(self) -> AuthContext {
        self.auth_context
    }

    /// Creates a new save memory tool with the given memory service and auth context.
    pub fn new(memory_service: Arc<S>, auth_context: AuthContext) -> (tool: Self)
        ensures
            tool.bound_service() == memory_service,
            tool.bound_auth_context() == auth_context,
    {
        SaveMemoryTool { memory_service, auth_context }
    }

    /// The memory service that this tool stores into.
    pub fn memory_service(&self) -> (service: &Arc<S>)
        ensures
            *service == self.bound_service(),
    {
        &self.memory_service
    }

    /// The auth context that this tool stores under.
    pub fn auth_context(&self) -> (context: &AuthContext)
        ensures
            *context == self.bound_auth_context(),
    {
        &self.auth_context
    }

    /// The name under which a model calls this tool.
    pub fn name(&self) -> (name: &'static str)
        ensures
            name@ == "save_memory"@,
    {
        "save_memory"
    }

    /// What this tool does, as a model reads it.
    pub fn description(&self) -> (description: &'static str)
        ensures
            description@ == "Save important user information to long-term memory. Use this to remember user preferences, facts, or insights that should be recalled in future conversations."@,
    {
        "Save important user information to long-term memory. Use this to remember user preferences, facts, or insights that should be recalled in future conversations."
    }

    /// The declaration of this tool: a required string `content` and an
    /// optional string `category`.
    pub fn declaration(&self) -> (declaration: FunctionDeclaration)
        ensures
            declaration.name@ == "save_memory"@,
            declaration.description@ == "Save important user information to long-term memory. Use this to remember user preferences, facts, or insights that should be recalled in future conversations."@,
            declaration.parameters.properties@.len() == 2,
            declaration.parameters.properties@[0].name@ == "content"@,
            declaration.parameters.properties@[0].value_type@ == "string"@,
            declaration.parameters.properties@[0].description@
                == "The information to remember. Be specific and include context."@,
            declaration.parameters.properties@[1].name@ == "category"@,
            declaration.parameters.properties@[1].value_type@ == "string"@,
            declaration.parameters.properties@[1].description@
                == "Category for organization (e.g., 'preferences', 'facts')"@,
            declaration.parameters.required@.len() == 1,
            declaration.parameters.required@[0]@ == "content"@,
    {
        let mut properties: Vec<ParameterProperty> = Vec::new();
        properties.push(
            ParameterProperty::new(
                "content",
                "string",
                "The information to remember. Be specific and include context.",
            ),
        );
        properties.push(
            ParameterProperty::new(
                "category",
                "string",
                "Category for organization (e.g., 'preferences', 'facts')",
            ),
        );
        let mut required: Vec<String> = Vec::new();
        required.push("content".to_owned());
        FunctionDeclaration::new(
            self.name(),
            self.description(),
            ParametersSchema { properties, required },
        )
    }

    /// Reads a call's arguments and decides the first step of the save: the
    /// `content` and `category` arguments count where they are JSON strings,
    /// and every other argument is ignored.
    pub fn plan(&self, args: &ToolArgs) -> (action: SaveAction)
        ensures
            is_save_action_for(
                action,
                text_arg(args.entries@, "content"@),
                text_arg(args.entries@, "category"@),
            ),
    {
        let content = args.text("content");
        let category = args.text("category");
        begin_save(content, category)
    }
}

/// Two first steps of a save are the same: the same error text, or the same
/// piece of memory to store.
pub open spec fn same_save_action(a: SaveAction, b: SaveAction) -> bool {
    match (a, b) {
        (
            SaveAction::Reply(SaveMemoryResult::Error { message: m1 }),
            SaveAction::Reply(SaveMemoryResult::Error { message: m2 }),
        ) => m1@ == m2@,
        _ => a == b,
    }
}

/// A call's arguments decide the first step of a save through the texts of
/// `content` and `category` alone: calls that agree on those two texts (or on
/// their absence; a value that is not a JSON string counts as absent) take the
/// same step, whatever other arguments they carry.
pub proof fn lemma_plan_reads_only_content_and_category(
    args1: ToolArgs,
    args2: ToolArgs,
    action1: SaveAction,
    action2: SaveAction,
)
    requires
        text_arg(args1.entries@, "content"@) == text_arg(args2.entries@, "content"@),
        text_arg(args1.entries@, "category"@) == text_arg(args2.entries@, "category"@),
        is_save_action_for(
            action1,
            text_arg(args1.entries@, "content"@),
            text_arg(args1.entries@, "category"@),
        ),
        is_save_action_for(
            action2,
            text_arg(args2.entries@, "content"@),
            text_arg(args2.entries@, "category"@),
        ),
    ensures
        same_save_action(action1, action2),
{
}

/// A call without a `content` string is refused as missing its content, and
/// nothing is stored.
pub proof fn lemma_plan_without_content(args: ToolArgs, action: SaveAction)
    requires
        text_arg(args.entries@, "content"@) is None,
        is_save_action_for(
            action,
            text_arg(args.entries@, "content"@),
            text_arg(args.entries@, "category"@),
        ),
    ensures
        action matches SaveAction::Reply(SaveMemoryResult::Error { message })
            && message@ == "Missing required argument: content"@,
{
}

/// A call whose `content` string has at most `MAX_CONTENT_LENGTH` bytes is
/// stored as it is, as a user fact in the call's category string (none if the
/// category is absent or not a string).
pub proof fn lemma_plan_stores_valid_content(args: ToolArgs, text: String, action: SaveAction)
    requires
        text_arg(args.entries@, "content"@) == Some(text),
        utf8_len(text@) <= MAX_CONTENT_LENGTH,
        is_save_action_for(
            action,
            text_arg(args.entries@, "content"@),
            text_arg(args.entries@, "category"@),
        ),
    ensures
        action == SaveAction::Store(
            (MemoryContent {
                text,
                source: (ContentSource::UserFact { category: text_arg(args.entries@, "category"@) }),
            }),
        ),
{
}

} // verus!
