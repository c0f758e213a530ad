use a2a_types::Role as A2ARole;
use radkit_core::agent::Artifact;
use radkit_core::models::utils::{
    artifact_to_a2a, artifacts_to_a2a, assemble_a2a_message, create_a2a_message, parts_to_a2a,
};
use radkit_core::models::{Content, ContentPart, Role, ToolCall, ToolResponse};
use radkit_core::protocol::{PartContent, ProtocolRole};

#[test]
fn create_a2a_message_maps_roles_and_parts() {
    let content = Content::from_text("Hello");
    let message =
        create_a2a_message(Some("ctx-1"), Some("task-2"), Role::User, content.clone());

    assert_eq!(message.context_id, "ctx-1");
    assert_eq!(message.task_id, "task-2");
    assert_eq!(message.role, A2ARole::User as i32);
    assert_eq!(message.parts.len(), content.parts().len());
}

#[test]
fn artifact_conversion_preserves_name_and_parts() {
    let artifact = Artifact::from_text("notes.txt", "example");
    let converted = artifact_to_a2a(&artifact);
    assert_eq!(converted.artifact_id, "notes.txt");
    assert_eq!(converted.name, "notes.txt");
    assert_eq!(converted.parts.len(), artifact.content().parts().len());

    let multiple = artifacts_to_a2a(&[artifact.clone(), artifact]);
    assert_eq!(multiple.len(), 2);
}

fn mixed_content() -> Content {
    Content {
        parts: vec![
            ContentPart::Text("first".to_string()),
            ContentPart::ToolCall(ToolCall {
                id: "c1".to_string(),
                name: "lookup".to_string(),
                arguments: "{}".to_string(),
            }),
            ContentPart::Text("second".to_string()),
            ContentPart::ToolResponse(ToolResponse {
                tool_call_id: "c1".to_string(),
                output: "ok".to_string(),
            }),
        ],
    }
}

#[test]
fn only_text_parts_are_converted_in_order() {
    let parts = parts_to_a2a(mixed_content().parts());
    assert_eq!(parts.len(), 2);
    assert_eq!(parts[0].content, Some(PartContent::Text("first".to_string())));
    assert_eq!(parts[1].content, Some(PartContent::Text("second".to_string())));
    for part in &parts {
        assert_eq!(part.filename, "");
        assert_eq!(part.media_type, "text/plain");
    }
}

#[test]
fn tool_parts_have_no_protocol_form() {
    let call = ContentPart::ToolCall(ToolCall {
        id: "x".to_string(),
        name: "y".to_string(),
        arguments: "z".to_string(),
    });
    assert!(call.into_a2a_part().is_none());
    let text = ContentPart::Text("hi".to_string());
    let part = text.into_a2a_part().unwrap();
    assert_eq!(part.content, Some(PartContent::Text("hi".to_string())));
}

#[test]
fn every_non_user_role_becomes_agent() {
    for role in [Role::Assistant, Role::System, Role::Tool] {
        let m = assemble_a2a_message("id".to_string(), None, None, role, Content::from_text("a"));
        assert_eq!(m.role, A2ARole::Agent as i32);
        assert_eq!(m.role, ProtocolRole::Agent.number());
    }
    let m = assemble_a2a_message("id".to_string(), None, None, Role::User, Content::from_text("a"));
    assert_eq!(m.role, 1);
}

#[test]
fn missing_ids_become_empty() {
    let m = assemble_a2a_message("m-1".to_string(), None, None, Role::User, mixed_content());
    assert_eq!(m.message_id, "m-1");
    assert_eq!(m.context_id, "");
    assert_eq!(m.task_id, "");
    assert_eq!(m.parts.len(), 2);
    assert!(m.extensions.is_empty());
    assert!(m.reference_task_ids.is_empty());
}

#[test]
fn message_ids_are_fresh_v4_uuids() {
    let a = create_a2a_message(None, None, Role::User, Content::from_text("a"));
    let b = create_a2a_message(None, None, Role::User, Content::from_text("a"));
    assert_ne!(a.message_id, b.message_id);
    let id: Vec<char> = a.message_id.chars().collect();
    assert_eq!(id.len(), 36);
    for (i, c) in id.iter().enumerate() {
        if i == 8 || i == 13 || i == 18 || i == 23 {
            assert_eq!(*c, '-');
        } else {
            assert!(c.is_ascii_digit() || ('a'..='f').contains(c));
        }
    }
    assert_eq!(id[14], '4');
    assert!(['8', '9', 'a', 'b'].contains(&id[19]));
}

#[test]
fn artifacts_keep_order_and_drop_tool_parts() {
    let first = Artifact::from_text("one", "1");
    let second = Artifact { name: "two".to_string(), content: mixed_content() };
    let out = artifacts_to_a2a(&[first, second]);
    assert_eq!(out.len(), 2);
    assert_eq!(out[0].artifact_id, "one");
    assert_eq!(out[1].name, "two");
    assert_eq!(out[1].parts.len(), 2);
    assert_eq!(out[1].description, "");
    assert!(out[1].extensions.is_empty());
    assert!(artifacts_to_a2a(&[]).is_empty());
}
