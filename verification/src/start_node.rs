//! The node at which an execution chain starts.
use vstd::prelude::*;

use crate::graph_core::{AnyGraphNode, GraphNode};

verus! {

/// The start of an execution chain: it does nothing itself and hands on to
/// its successor.
pub struct StartNode {
    pub next: Option<Box<AnyGraphNode>>,
}

impl StartNode {
    /// A start node without a successor.
    pub fn new() -> (node: Self)
        ensures
            node.next is None,
    {
        StartNode { next: None }
    }

    /// Handing on leaves the start node as it was.
    pub fn propagate(&mut self)
        ensures
            *final(self) == *old(self),
    {
    }
}

impl GraphNode for StartNode {
    open spec fn can_execute(&self) -> bool {
        true
    }

    /// Running the start node leaves it as it was.
    open spec fn executes_to(&self, after: &Self) -> bool {
        *after == *self
    }

    open spec fn next_spec(&self) -> Option<Box<AnyGraphNode>> {
        self.next
    }

    fn execute_node(&mut self) {
    }

    fn next_node(&self) -> (next: &Option<Box<AnyGraphNode>>) {
        &self.next
    }
}

} // verus!
