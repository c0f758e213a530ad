//! Conversions from the runtime's content and artifacts to A2A protocol messages.

use vstd::prelude::*;
use crate::agent::Artifact;
use crate::models::{Content, ContentPart, Role};
use crate::protocol::{
    Artifact as A2AArtifact, Message as A2AMessage, Part as A2APart, PartContent,
    ProtocolRole, protocol_role_number,
};

verus! {

/// The texts of the text parts among `parts`, in order; other parts have no
/// protocol form and are left out.
pub open spec fn text_parts(parts: Seq<ContentPart>) -> Seq<String>
    decreases parts.len(),
{
    if parts.len() == 0 {
        Seq::empty()
    } else {
        let rest = text_parts(parts.drop_last());
        match parts.last() {
            ContentPart::Text(text) => rest.push(text),
            _ => rest,
        }
    }
}

/// `part` is the protocol form of a text part holding `text`.
pub open spec fn is_text_part(part: A2APart, text: String) -> bool {
    &&& part.content == Some(PartContent::Text(text))
    &&& part.filename@ == Seq::<char>::empty()
    &&& part.media_type@ == "text/plain"@
}

/// `parts` are the protocol forms of the texts `texts`, one for one, in order.
pub open spec fn are_text_parts(parts: Seq<A2APart>, texts: Seq<String>) -> bool {
    &&& parts.len() == texts.len()
    &&& forall|i: int| 0 <= i < parts.len() ==> #[trigger] is_text_part(parts[i], texts[i])
}

/// The protocol form of one content part: a text part for text, nothing for
/// tool calls and tool responses.
pub open spec fn is_protocol_part_of(out: Option<A2APart>, part: ContentPart) -> bool {
    match part {
        ContentPart::Text(text) => out matches Some(p) && is_text_part(p, text),
        _ => out is None,
    }
}

/// The protocol role of a sender: users stay users, every other sender is the agent.
pub open spec fn protocol_role_of(role: Role) -> ProtocolRole {
    match role {
        Role::User => ProtocolRole::User,
        _ => ProtocolRole::Agent,
    }
}

/// The text of an optional identifier, the empty text when it is absent.
pub open spec fn text_or_empty(id: Option<&str>) -> Seq<char> {
    match id {
        Some(s) => s@,
        None => Seq::empty(),
    }
}

/// `c` is a digit or a lower-case letter from `a` to `f`.
pub open spec fn is_lower_hex_digit(c: char) -> bool {
    ('0' <= c && c <= '9') || ('a' <= c && c <= 'f')
}

/// `s` is the hyphenated lower-case text of a random (version 4, RFC 4122
/// variant) UUID.
pub open spec fn is_uuid_v4_text(s: Seq<char>) -> bool {
    &&& s.len() == 36
    &&& forall|i: int|
        0 <= i < 36 ==> if i == 8 || i == 13 || i == 18 || i == 23 {
            s[i] == '-'
        } else {
            is_lower_hex_digit(#[trigger] s[i])
        }
    &&& s[14] == '4'
    &&& (s[19] == '8' || s[19] == '9' || s[19] == 'a' || s[19] == 'b')
}

/// Everything of `message` but its identifier is what converting `content`
/// from `role` within the given context and task gives.
pub open spec fn is_message_of(
    message: A2AMessage,
    context_id: Option<&str>,
    task_id: Option<&str>,
    role: Role,
    content: Content,
) -> bool {
    &&& message.role == protocol_role_number(protocol_role_of(role))
    &&& message.context_id@ == text_or_empty(context_id)
    &&& message.task_id@ == text_or_empty(task_id)
    &&& are_text_parts(message.parts@, text_parts(content.parts@))
    &&& message.extensions@.len() == 0
    &&& message.reference_task_ids@.len() == 0
}

/// `out` is the protocol form of `artifact`.
pub open spec fn is_artifact_of(out: A2AArtifact, artifact: Artifact) -> bool {
    &&& out.artifact_id == artifact.name
    &&& out.name == artifact.name
    &&& out.description@ == Seq::<char>::empty()
    &&& are_text_parts(out.parts@, text_parts(artifact.content.parts@))
    &&& out.extensions@.len() == 0
}

/// Each part is converted on its own: the texts kept from two runs of parts
/// side by side are those kept from each, side by side.
pub proof fn lemma_text_parts_concat(a: Seq<ContentPart>, b: Seq<ContentPart>)
    ensures
        text_parts(a + b) == text_parts(a) + text_parts(b),
    decreases b.len(),
{
    if b.len() == 0 {
        assert(a + b =~= a);
        assert(text_parts(a) + text_parts(b) =~= text_parts(a));
    } else {
        assert((a + b).drop_last() =~= a + b.drop_last());
        assert((a + b).last() == b.last());
        lemma_text_parts_concat(a, b.drop_last());
        match b.last() {
            ContentPart::Text(t) => {
                assert(text_parts(a) + text_parts(b.drop_last()).push(t) =~= (text_parts(a)
                    + text_parts(b.drop_last())).push(t));
            },
            _ => {},
        }
    }
}

/// A single text part keeps its text; a single tool call or tool response
/// keeps nothing.
pub proof fn lemma_text_parts_single(part: ContentPart)
    ensures
        text_parts(seq![part]) == (match part {
            ContentPart::Text(text) => seq![text],
            _ => Seq::<String>::empty(),
        }),
{
    assert(seq![part].drop_last() =~= Seq::<ContentPart>::empty());
    assert(seq![part].last() == part);
    assert(text_parts(Seq::<ContentPart>::empty()) =~= Seq::<String>::empty());
    match part {
        ContentPart::Text(text) => {
            assert(Seq::<String>::empty().push(text) =~= seq![text]);
        },
        _ => {},
    }
}

/// Conversion never adds parts, and keeps every part of content made of text
/// alone.
pub proof fn lemma_text_parts_count(parts: Seq<ContentPart>)
    ensures
        text_parts(parts).len() <= parts.len(),
        (forall|i: int| 0 <= i < parts.len() ==> #[trigger] parts[i] is Text) ==> text_parts(
            parts,
        ).len() == parts.len(),
    decreases parts.len(),
{
    if parts.len() > 0 {
        lemma_text_parts_count(parts.drop_last());
        if forall|i: int| 0 <= i < parts.len() ==> #[trigger] parts[i] is Text {
            assert forall|i: int| 0 <= i < parts.drop_last().len() implies #[trigger] parts.drop_last()[i] is Text by {
                assert(parts.drop_last()[i] == parts[i]);
            }
            assert(parts[parts.len() - 1] is Text);
        }
    }
}

impl ContentPart {
    /// The protocol form of this part, if it has one.
    pub fn to_a2a_part(&self) -> (out: Option<A2APart>)
        ensures
            is_protocol_part_of(out, *self),
    {
        match self {
            ContentPart::Text(text) => Some(
                A2APart {
                    content: Some(PartContent::Text(text.clone())),
                    filename: String::new(),
                    media_type: "text/plain".to_owned(),
                },
            ),
            _ => None,
        }
    }

    /// Gives up this part for its protocol form, if it has one.
    pub fn into_a2a_part(self) -> (out: Option<A2APart>)
        ensures
            is_protocol_part_of(out, self),
    {
        self.to_a2a_part()
    }
}

/// The protocol forms of the parts that have one, in order.
pub fn parts_to_a2a(parts: &[ContentPart]) -> (out: Vec<A2APart>)
    ensures
        are_text_parts(out@, text_parts(parts@)),
{
    let mut out: Vec<A2APart> = Vec::new();
    let n = parts.len();
    for i in 0..n
        invariant
            n == parts@.len(),
            are_text_parts(out@, text_parts(parts@.take(i as int))),
    {
        let converted = parts[i].to_a2a_part();
        proof {
            assert(parts@.take(i + 1).drop_last() =~= parts@.take(i as int));
            assert(parts@.take(i + 1).last() == parts@[i as int]);
        }
        match converted {
            Some(p) => {
                out.push(p);
            },
            None => {},
        }
        proof {
            let texts = text_parts(parts@.take(i + 1));
            assert forall|k: int| 0 <= k < out@.len() implies #[trigger] is_text_part(
                out@[k],
                texts[k],
            ) by {}
        }
    }
    proof {
        assert(parts@.take(n as int) =~= parts@);
    }
    out
}

/// The text of an optional identifier, the empty text when it is absent.
fn id_or_empty(id: Option<&str>) -> (text: String)
    ensures
        text@ == text_or_empty(id),
{
    match id {
        Some(s) => s.to_owned(),
        None => String::new(),
    }
}

/// Trusted: `uuid::Uuid::new_v4`, rendered by `Uuid`'s `Display` impl through
/// `to_string`. The contract claims that the text is a hyphenated lower-case
/// random UUID; which one comes out is left open.
#[verifier::external_body]
fn new_message_id() -> (id: String)
    ensures
        is_uuid_v4_text(id@),
{
    uuid::Uuid::new_v4().to_string()
}

/// The protocol message with identifier `message_id` that carries `content`
/// from `role` within the given context and task.
pub fn assemble_a2a_message(
    message_id: String,
    context_id: Option<&str>,
    task_id: Option<&str>,
    role: Role,
    content: Content,
) -> (message: A2AMessage)
    ensures
        message.message_id == message_id,
        is_message_of(message, context_id, task_id, role, content),
{
    let parts = parts_to_a2a(content.parts());
    let proto_role = match role {
        Role::User => ProtocolRole::User,
        Role::Assistant | Role::System | Role::Tool => ProtocolRole::Agent,
    };
    A2AMessage {
        message_id,
        role: proto_role.number(),
        context_id: id_or_empty(context_id),
        task_id: id_or_empty(task_id),
        parts,
        reference_task_ids: Vec::new(),
        extensions: Vec::new(),
    }
}

/// Creates an A2A message from runtime content under a fresh random identifier.
pub fn create_a2a_message(
    context_id: Option<&str>,
    task_id: Option<&str>,
    role: Role,
    content: Content,
) -> (message: A2AMessage)
    ensures
        is_uuid_v4_text(message.message_id@),
        is_message_of(message, context_id, task_id, role, content),
{
    assemble_a2a_message(new_message_id(), context_id, task_id, role, content)
}

/// Converts a runtime artifact to its protocol form.
pub fn artifact_to_a2a(artifact: &Artifact) -> (out: A2AArtifact)
    ensures
        is_artifact_of(out, *artifact),
{
    let parts = parts_to_a2a(artifact.content().parts());
    A2AArtifact {
        artifact_id: artifact.name.clone(),
        parts,
        name: artifact.name.clone(),
        description: String::new(),
        extensions: Vec::new(),
    }
}

/// Converts runtime artifacts to their protocol forms, one for one, in order.
pub fn artifacts_to_a2a(artifacts: &[Artifact]) -> (out: Vec<A2AArtifact>)
    ensures
        out@.len() == artifacts@.len(),
        forall|i: int| 0 <= i < out@.len() ==> #[trigger] is_artifact_of(out@[i], artifacts@[i]),
{
    let mut out: Vec<A2AArtifact> = Vec::new();
    let n = artifacts.len();
    for i in 0..n
        invariant
            n == artifacts@.len(),
            out@.len() == i,
            forall|k: int| 0 <= k < i ==> #[trigger] is_artifact_of(out@[k], artifacts@[k]),
    {
        out.push(artifact_to_a2a(&artifacts[i]));
    }
    out
}

} // verus!
