//! Tools that an agent can call, and how a tool describes itself to a model.

pub mod memory;

use vstd::prelude::*;

verus! {

/// One argument of a tool call, as far as the tools read it: a JSON string,
/// or any other JSON value.
#[derive(Clone, Debug, PartialEq, Eq)]
pub enum JsonArg {
    Text(String),
    Other,
}

/// The arguments of a tool call: JSON values by name. Where a name occurs
/// more than once, the first entry counts.
#[derive(Clone, Debug, PartialEq, Eq)]
pub struct ToolArgs {
    pub entries: Vec<(String, JsonArg)>,
}

/// The value that `entries` bind to `key`: that of the first entry named `key`.
pub open spec fn arg_lookup(entries: Seq<(String, JsonArg)>, key: Seq<char>) -> Option<JsonArg>
    decreases entries.len(),
{
    if entries.len() == 0 {
        None
    } else if entries[0].0@ == key {
        Some(entries[0].1)
    } else {
        arg_lookup(entries.drop_first(), key)
    }
}

/// The text that `entries` bind to `key`, if they bind it to a JSON string.
pub open spec fn text_arg(entries: Seq<(String, JsonArg)>, key: Seq<char>) -> Option<String> {
    match arg_lookup(entries, key) {
        Some(JsonArg::Text(text)) => Some(text),
        _ => None,
    }
}

/// The value bound to `key` is that of the first entry named `key`, whatever
/// entries with other names (and whatever values) come before it.
pub proof fn lemma_lookup_finds_first_entry_named(
    entries: Seq<(String, JsonArg)>,
    key: Seq<char>,
    i: int,
)
    requires
        0 <= i < entries.len(),
        entries[i].0@ == key,
        forall|j: int| 0 <= j < i ==> #[trigger] entries[j].0@ != key,
    ensures
        arg_lookup(entries, key) == Some(entries[i].1),
        text_arg(entries, key) == (match entries[i].1 {
            JsonArg::Text(text) => Some(text),
            JsonArg::Other => None,
        }),
    decreases i,
{
    if i > 0 {
        let rest = entries.drop_first();
        assert(entries[0].0@ != key);
        assert forall|j: int| 0 <= j < i - 1 implies #[trigger] rest[j].0@ != key by {
            assert(rest[j] == entries[j + 1]);
        }
        assert(rest[i - 1] == entries[i]);
        lemma_lookup_finds_first_entry_named(rest, key, i - 1);
    }
}

/// No value is bound to a key that no entry is named.
pub proof fn lemma_lookup_absent_name(entries: Seq<(String, JsonArg)>, key: Seq<char>)
    requires
        forall|j: int| 0 <= j < entries.len() ==> #[trigger] entries[j].0@ != key,
    ensures
        arg_lookup(entries, key) is None,
        text_arg(entries, key) is None,
    decreases entries.len(),
{
    if entries.len() > 0 {
        let rest = entries.drop_first();
        assert(entries[0].0@ != key);
        assert forall|j: int| 0 <= j < rest.len() implies #[trigger] rest[j].0@ != key by {
            assert(rest[j] == entries[j + 1]);
        }
        lemma_lookup_absent_name(rest, key);
    }
}

impl ToolArgs {
    /// No arguments at all.
    pub fn new() -> (args: ToolArgs)
        ensures
            args.entries@.len() == 0,
    {
        ToolArgs { entries: Vec::new() }
    }

    /// Adds the argument `key` with `value` after those already present.
    pub fn push(&mut self, key: String, value: JsonArg)
        ensures
            final(self).entries@ == old(self).entries@.push((key, value)),
    {
        self.entries.push((key, value));
    }

    /// The text of the argument `key`, if it is a JSON string.
    pub fn text(&self, key: &str) -> (text: Option<String>)
        ensures
            text == text_arg(self.entries@, key@),
    {
        let n = self.entries.len();
        let wanted = key.to_owned();
        let mut i: usize = 0;
        assert(self.entries@.skip(0) =~= self.entries@);
        while i < n
            invariant
                n == self.entries@.len(),
                wanted@ == key@,
                i <= n,
                arg_lookup(self.entries@, key@) == arg_lookup(self.entries@.skip(i as int), key@),
            decreases n - i,
        {
            proof {
                let rest = self.entries@.skip(i as int);
                assert(rest[0] == self.entries@[i as int]);
                assert(rest.drop_first() =~= self.entries@.skip(i + 1));
            }
            let entry = &self.entries[i];
            if entry.0 == wanted {
                return match &entry.1 {
                    JsonArg::Text(t) => Some(t.clone()),
                    JsonArg::Other => None,
                };
            }
            i = i + 1;
        }
        None
    }
}

/// One parameter of a tool: its name, its JSON type and what it is for.
#[derive(Clone, Debug, PartialEq, Eq)]
pub struct ParameterProperty {
    pub name: String,
    pub value_type: String,
    pub description: String,
}

/// The JSON schema of a tool's arguments: an object with these properties,
/// of which those named in `required` must be present.
#[derive(Clone, Debug, PartialEq, Eq)]
pub struct ParametersSchema {
    pub properties: Vec<ParameterProperty>,
    pub required: Vec<String>,
}

/// How a tool presents itself to a model: its name, what it does and the
/// arguments it takes.
#[derive(Clone, Debug, PartialEq, Eq)]
pub struct FunctionDeclaration {
    pub name: String,
    pub description: String,
    pub parameters: ParametersSchema,
}

impl ParameterProperty {
    /// A parameter named `name` of JSON type `value_type`.
    pub fn new(name: &str, value_type: &str, description: &str) -> (property: ParameterProperty)
        ensures
            property.name@ == name@,
            property.value_type@ == value_type@,
            property.description@ == description@,
    {
        ParameterProperty {
            name: name.to_owned(),
            value_type: value_type.to_owned(),
            description: description.to_owned(),
        }
    }
}

impl FunctionDeclaration {
    /// The declaration of a tool named `name`.
    pub fn new(name: &str, description: &str, parameters: ParametersSchema) -> (declaration:
        FunctionDeclaration)
        ensures
            declaration.name@ == name@,
            declaration.description@ == description@,
            declaration.parameters == parameters,
    {
        FunctionDeclaration {
            name: name.to_owned(),
            description: description.to_owned(),
            parameters,
        }
    }
}

} // verus!
