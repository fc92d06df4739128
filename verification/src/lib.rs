//! A node-graph editor model: port and node definitions, registries of
//! definitions, node and port instances, graphs of connected instances and
//! the executable graph nodes, with their behaviour stated and proved.
use vstd::prelude::*;

pub mod app;
mod collections;
pub mod definition;
pub mod eval_registry;
pub mod graph_core;
pub mod ids;
pub mod instance;
pub mod math_nodes;
pub mod node_definition;
pub mod node_graph;
pub mod node_instance;
pub mod node_registry;
pub mod port_definition;
pub mod port_instance;
pub mod print_node;
pub mod registry;
pub mod start_node;

verus! {

/// What a click on a node's activity button asks of the editor: make that
/// node the active one, or have no active node.
#[derive(Debug, Clone, Copy, PartialEq, Eq, Structural)]
pub enum UserResponse {
    SetActiveNode(u64),
    ClearActiveNode,
}

/// The editor state shared with the node widgets: the active node, if any,
/// named by the 64-bit value of its key in the graph.
pub struct GraphState {
    pub active_node: Option<u64>,
}

/// Whether `node_id` is the active node of `active_node`.
pub open spec fn node_is_active(active_node: Option<u64>, node_id: u64) -> bool {
    active_node == Some(node_id)
}

/// The response of a click on the button of `node_id`: an inactive node
/// asks to become active, the active node asks that none be.
pub open spec fn click_response(active_node: Option<u64>, node_id: u64) -> UserResponse {
    if node_is_active(active_node, node_id) {
        UserResponse::ClearActiveNode
    } else {
        UserResponse::SetActiveNode(node_id)
    }
}

/// The active node once `response` is applied.
pub open spec fn after_response(active_node: Option<u64>, response: UserResponse) -> Option<u64> {
    match response {
        UserResponse::SetActiveNode(node_id) => Some(node_id),
        UserResponse::ClearActiveNode => None,
    }
}

impl GraphState {
    /// Whether `node_id` is the active node.
    pub fn is_active(&self, node_id: u64) -> (active: bool)
        ensures
            active == node_is_active(self.active_node, node_id),
    {
        match self.active_node {
            Some(id) => id == node_id,
            None => false,
        }
    }

    /// The response that the button of `node_id` gives when clicked.
    pub fn response_on_click(&self, node_id: u64) -> (response: UserResponse)
        ensures
            response == click_response(self.active_node, node_id),
    {
        if !self.is_active(node_id) {
            UserResponse::SetActiveNode(node_id)
        } else {
            UserResponse::ClearActiveNode
        }
    }

    /// Applies a response: sets the active node, or clears it.
    pub fn apply_response(&mut self, response: &UserResponse)
        ensures
            final(self).active_node == after_response(old(self).active_node, *response),
    {
        match response {
            UserResponse::SetActiveNode(node) => self.active_node = Some(*node),
            UserResponse::ClearActiveNode => self.active_node = None,
        }
    }
}

/// A click on a node's button toggles that node: an inactive node becomes
/// the active one, the active node becomes inactive, and after the click
/// no other node is active.
pub proof fn lemma_click_toggles_node(active_node: Option<u64>, node_id: u64, other: u64)
    requires
        other != node_id,
    ensures
        node_is_active(after_response(active_node, click_response(active_node, node_id)), node_id)
            == !node_is_active(active_node, node_id),
        !node_is_active(after_response(active_node, click_response(active_node, node_id)), other),
{
}

} // verus!
