//! The per-node context: the identity under which this node acts.
//!
//! The context is constructed explicitly and passed by reference — never
//! process-wide mutable state.

use vstd::prelude::*;
use crate::entry::AgentId;

verus! {

/// What every component of a node may know about the node itself.
#[derive(Debug, PartialEq)]
pub struct Context {
    /// The agent this node acts as.
    pub agent_id: AgentId,
}

impl Clone for Context {
    fn clone(&self) -> (r: Self)
        ensures
            r == *self,
    {
        Context { agent_id: self.agent_id.clone() }
    }
}

impl Context {
    /// A context for the given agent.
    pub fn new(agent_id: AgentId) -> (r: Self)
        ensures
            r == (Context { agent_id }),
    {
        Context { agent_id }
    }
}

} // verus!
