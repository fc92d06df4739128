//! The editor's own state: which node is active, the definitions that it
//! offers, and the function nodes with their evaluations.
use std::collections::HashMap;
use vstd::prelude::*;

use crate::app::register_math::MathOperation;
use crate::graph_core::registry::{EvaluationRegistry, NodeRegistry as FunctionRegistry};
use crate::registry::NodeRegistry;
use crate::GraphState;

pub mod register_math;
pub mod vulkan;

verus! {

broadcast use vstd::std_specs::hash::group_hash_axioms;

/// The editor's state apart from its drawing: the active node, the
/// registry of the editor's node definitions, and the function nodes of the
/// evaluation model with the evaluation of each.
pub struct App {
    pub user_state: GraphState,
    pub node_registry: NodeRegistry,
    pub function_registry: FunctionRegistry,
    pub evaluation_registry: EvaluationRegistry<MathOperation>,
}

impl Default for App {
    /// No active node and no registered definition.
    fn default() -> (app: Self)
        ensures
            app.user_state.active_node is None,
            app.node_registry@ == Map::<u128, crate::definition::NodeDefinition>::empty(),
            app.function_registry@ == Map::<u128, crate::graph_core::definition::NodeDefinition>::empty(),
            app.evaluation_registry.evaluation_definitions@ == Map::<u128, MathOperation>::empty(),
    {
        Self {
            user_state: GraphState { active_node: None },
            node_registry: NodeRegistry { node_definitions: HashMap::new() },
            function_registry: FunctionRegistry::new(),
            evaluation_registry: EvaluationRegistry::new(),
        }
    }
}

} // verus!
