pub mod content;
pub mod utils;

pub use content::{Content, ContentPart, Role, ToolCall, ToolResponse};
