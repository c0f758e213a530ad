use std::sync::Arc;

use radkit_core::runtime::context::AuthContext;
use radkit_core::runtime::memory::{ContentSource, MemoryContent};
use radkit_core::tools::memory::save_memory::{
    begin_save, finish_save, SaveAction, SaveMemoryResult, MAX_CONTENT_LENGTH,
};
use radkit_core::tools::memory::{MemoryToolset, SaveMemoryTool};
use radkit_core::tools::{JsonArg, ToolArgs};

fn tool() -> SaveMemoryTool<String> {
    SaveMemoryTool::new(Arc::new("service".to_string()), AuthContext::new("my-app", "user123"))
}

fn error_of(action: SaveAction) -> String {
    match action {
        SaveAction::Reply(SaveMemoryResult::Error { message }) => message,
        other => panic!("expected an error, got {other:?}"),
    }
}

#[test]
fn missing_content_is_refused() {
    assert_eq!(error_of(begin_save(None, None)), "Missing required argument: content");
}

#[test]
fn content_at_the_limit_is_stored() {
    let text = "a".repeat(MAX_CONTENT_LENGTH);
    let action = begin_save(Some(text.clone()), Some("facts".to_string()));
    assert_eq!(
        action,
        SaveAction::Store(MemoryContent {
            text,
            source: ContentSource::UserFact { category: Some("facts".to_string()) },
        })
    );
}

#[test]
fn content_over_the_limit_is_refused() {
    let text = "a".repeat(MAX_CONTENT_LENGTH + 1);
    assert_eq!(
        error_of(begin_save(Some(text), None)),
        "Content too long. Maximum 4000 characters."
    );
}

#[test]
fn the_limit_counts_bytes() {
    let two_byte = "\u{e9}".repeat(2000);
    assert!(matches!(begin_save(Some(two_byte), None), SaveAction::Store(_)));
    let too_many = "\u{e9}".repeat(2001);
    assert_eq!(too_many.chars().count(), 2001);
    assert!(matches!(begin_save(Some(too_many), None), SaveAction::Reply(_)));
}

#[test]
fn service_answers_become_results() {
    assert_eq!(
        finish_save(Some("prefs".to_string()), Ok("mem-1".to_string())),
        SaveMemoryResult::Saved { id: "mem-1".to_string(), category: Some("prefs".to_string()) }
    );
    assert_eq!(
        finish_save(None, Err("disk full".to_string())),
        SaveMemoryResult::Error { message: "Failed to save: disk full".to_string() }
    );
}

fn args(entries: &[(&str, JsonArg)]) -> ToolArgs {
    let mut args = ToolArgs::new();
    for (k, v) in entries {
        args.push(k.to_string(), v.clone());
    }
    args
}

fn text(s: &str) -> JsonArg {
    JsonArg::Text(s.to_string())
}

#[test]
fn plan_reads_string_arguments() {
    let a = args(&[("content", text("likes tea")), ("category", text("preferences"))]);
    assert_eq!(
        tool().plan(&a),
        SaveAction::Store(MemoryContent {
            text: "likes tea".to_string(),
            source: ContentSource::UserFact { category: Some("preferences".to_string()) },
        })
    );
}

#[test]
fn plan_ignores_non_string_arguments() {
    let a = args(&[("content", JsonArg::Other)]);
    assert_eq!(error_of(tool().plan(&a)), "Missing required argument: content");

    let a = args(&[("content", text("x")), ("category", JsonArg::Other)]);
    assert_eq!(
        tool().plan(&a),
        SaveAction::Store(MemoryContent {
            text: "x".to_string(),
            source: ContentSource::UserFact { category: None },
        })
    );
    assert_eq!(error_of(tool().plan(&ToolArgs::new())), "Missing required argument: content");
}

#[test]
fn plan_ignores_extra_arguments_and_takes_the_first_binding() {
    let plain = args(&[("content", text("x"))]);
    let noisy = args(&[
        ("mood", text("happy")),
        ("content", text("x")),
        ("category", JsonArg::Other),
        ("content", text("ignored")),
    ]);
    assert_eq!(tool().plan(&plain), tool().plan(&noisy));
    assert_eq!(noisy.text("content"), Some("x".to_string()));
    assert_eq!(noisy.text("category"), None);
    assert_eq!(noisy.text("absent"), None);
}

#[test]
fn save_tool_describes_itself() {
    let t = tool();
    assert_eq!(t.name(), "save_memory");
    assert!(t.description().starts_with("Save important user information to long-term memory."));
    let decl = t.declaration();
    assert_eq!(decl.name, "save_memory");
    assert_eq!(decl.description, t.description());
    assert_eq!(decl.parameters.properties.len(), 2);
    assert_eq!(decl.parameters.properties[0].name, "content");
    assert_eq!(decl.parameters.properties[0].value_type, "string");
    assert_eq!(decl.parameters.properties[1].name, "category");
    assert_eq!(decl.parameters.required, vec!["content".to_string()]);
}

#[test]
fn save_tool_keeps_its_service_and_context() {
    let service = Arc::new(7u32);
    let t = SaveMemoryTool::new(Arc::clone(&service), AuthContext::new("app", "u"));
    assert!(Arc::ptr_eq(t.memory_service(), &service));
    assert_eq!(t.auth_context(), &AuthContext::new("app", "u"));
}

#[test]
fn toolset_shares_one_service_and_context() {
    let service: Arc<dyn std::any::Any> = Arc::new(5i64);
    let auth = AuthContext::new("my-app", "user123");
    let set = MemoryToolset::new(Arc::clone(&service), auth.clone());
    assert!(Arc::ptr_eq(set.load_memory().memory_service(), &service));
    assert!(Arc::ptr_eq(set.save_memory().memory_service(), &service));
    assert!(Arc::ptr_eq(set.search_knowledge().memory_service(), &service));
    assert_eq!(set.load_memory().auth_context(), &auth);
    assert_eq!(set.save_memory().auth_context(), &auth);
    assert_eq!(set.search_knowledge().auth_context(), &auth);
    assert_eq!(Arc::strong_count(&service), 4);
}

#[test]
fn auth_context_clone_is_equal() {
    let a = AuthContext::new("x", "y");
    assert_eq!(a.clone(), a);
    assert_eq!(a.app_name, "x");
    assert_eq!(a.user_name, "y");
}
