use std::sync::Arc;
use vstd::prelude::*;
use crate::runtime::context::AuthContext;

verus! {

/// Tool for agents to search past conversations and user facts in long-term memory.
pub struct LoadMemoryTool<S: ?Sized> {
    memory_service: Arc<S>,
    auth_context: AuthContext,
}

impl<S: ?Sized> LoadMemoryTool<S> {
    /// The memory service that this tool works on.
    pub closed spec fn bound_service(self) -> Arc<S> {
        self.memory_service
    }

    /// The auth context that this tool acts under.
    pub closed spec fn bound_auth_context(self) -> AuthContext {
        self.auth_context
    }

    /// Creates the tool with the given memory service and auth context.
    pub fn new(memory_service: Arc<S>, auth_context: AuthContext) -> (tool: Self)
        ensures
            tool.bound_service() == memory_service,
            tool.bound_auth_context() == auth_context,
    {
        LoadMemoryTool { memory_service, auth_context }
    }

    /// The memory service that this tool works on.
    pub fn memory_service(&self) -> (service: &Arc<S>)
        ensures
            *service == self.bound_service(),
    {
        &self.memory_service
    }

    /// The auth context that this tool acts under.
    pub fn auth_context(&self) -> (context: &AuthContext)
        ensures
            *context == self.bound_auth_context(),
    {
        &self.auth_context
    }
}

} // verus!
