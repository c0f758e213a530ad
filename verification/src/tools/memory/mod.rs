//! Memory tools for agent access to long-term memory.
//!
//! - `LoadMemoryTool`: search past conversations and user facts
//! - `SaveMemoryTool`: store important user information
//! - `SearchKnowledgeTool`: search documents and the knowledge base
//! - `MemoryToolset`: all three, over one memory service and one auth context

pub mod load_memory;
pub mod save_memory;
pub mod search_knowledge;

pub use load_memory::LoadMemoryTool;
pub use save_memory::SaveMemoryTool;
pub use search_knowledge::SearchKnowledgeTool;

use std::sync::Arc;
use vstd::prelude::*;
use crate::runtime::context::AuthContext;

verus! {

/// Trusted: `Arc::clone`. The contract claims that the new pointer denotes the
/// same service value as the old one (spec equality of `Arc` compares what
/// they point to). That both share one allocation is true of `Arc::clone` but
/// is not stated.
#[verifier::external_body]
pub(crate) fn share_service<S: ?Sized>(service: &Arc<S>) -> (shared: Arc<S>)
    ensures
        shared == *service,
{
    Arc::clone(service)
}

/// Toolset providing memory and knowledge access to agents: `load_memory`,
/// `save_memory` and `search_knowledge`.
pub struct MemoryToolset<S: ?Sized> {
    load_memory: LoadMemoryTool<S>,
    save_memory: SaveMemoryTool<S>,
    search_knowledge: SearchKnowledgeTool<S>,
}

impl<S: ?Sized> MemoryToolset<S> {
    /// The load tool of this set.
    pub closed spec fn loader(self) -> LoadMemoryTool<S> {
        self.load_memory
    }

    /// The save tool of this set.
    pub closed spec fn saver(self) -> SaveMemoryTool<S> {
        self.save_memory
    }

    /// The knowledge search tool of this set.
    pub closed spec fn searcher(self) -> SearchKnowledgeTool<S> {
        self.search_knowledge
    }

    /// Creates a memory toolset over the given memory service and auth context.
    ///
    /// The auth context is captured at construction time and used for all tool
    /// invocations.
    pub fn new(memory_service: Arc<S>, auth_context: AuthContext) -> (toolset: Self)
        ensures
            toolset.loader().bound_service() == memory_service,
            toolset.loader().bound_auth_context() == auth_context,
            toolset.saver().bound_service() == memory_service,
            toolset.saver().bound_auth_context() == auth_context,
            toolset.searcher().bound_service() == memory_service,
            toolset.searcher().bound_auth_context() == auth_context,
    {
        MemoryToolset {
            load_memory: LoadMemoryTool::new(share_service(&memory_service), auth_context.clone()),
            save_memory: SaveMemoryTool::new(share_service(&memory_service), auth_context.clone()),
            search_knowledge: SearchKnowledgeTool::new(memory_service, auth_context),
        }
    }

    /// The load tool of this set.
    pub fn load_memory(&self) -> (tool: &LoadMemoryTool<S>)
        ensures
            *tool == self.loader(),
    {
        &self.load_memory
    }

    /// The save tool of this set.
    pub fn save_memory(&self) -> (tool: &SaveMemoryTool<S>)
        ensures
            *tool == self.saver(),
    {
        &self.save_memory
    }

    /// The knowledge search tool of this set.
    pub fn search_knowledge(&self) -> (tool: &SearchKnowledgeTool<S>)
        ensures
            *tool == self.searcher(),
    {
        &self.search_knowledge
    }
}

} // verus!
