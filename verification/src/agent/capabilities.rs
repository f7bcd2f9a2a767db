//! What an agent runtime reports about itself.
use vstd::prelude::*;

use crate::tools::catalog::{tool_name, ToolRegistry};

verus! {

/// An agent's identity and the tools it may use.
#[derive(Debug, Clone)]
pub struct AgentCapabilities {
    /// Agent identifier.
    pub agent_id: String,
    /// Human-readable description.
    pub description: String,
    /// Names of the tools this agent has access to.
    pub tool_names: Vec<String>,
}

impl AgentCapabilities {
    /// The capabilities of the built-in agent loop: its id, its
    /// description, and the names of its registry's tools in name order.
    pub fn of_loop(agent_id: &str, registry: &ToolRegistry) -> (r: Self)
        requires
            registry.wf(),
        ensures
            r.agent_id@ == agent_id@,
            r.description@ == "Built-in Rust agent loop"@,
            r.tool_names@.len() == registry.view().len(),
            forall|i: int|
                0 <= i < r.tool_names@.len() ==> (#[trigger] r.tool_names@[i])@ == tool_name(registry.view()[i]),
    {
        let defs = registry.definitions();
        let mut names: Vec<String> = Vec::new();
        let mut i: usize = 0;
        while i < defs.len()
            invariant
                i <= defs@.len(),
                names@.len() == i,
                forall|k: int| 0 <= k < i ==> (#[trigger] names@[k])@ == defs@[k].name@,
            decreases defs@.len() - i,
        {
            names.push(defs[i].name.clone());
            i = i + 1;
        }
        AgentCapabilities {
            agent_id: String::from_str(agent_id),
            description: String::from_str("Built-in Rust agent loop"),
            tool_names: names,
        }
    }
}

} // verus!
