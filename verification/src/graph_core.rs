//! The evaluation model of node graphs: definitions, instances, graphs and
//! registries, and the executable graph nodes, each of which holds the node
//! that runs after it.
use vstd::prelude::*;

use crate::math_nodes::{AddNode, SubtractNode};
use crate::print_node::PrintNode;
use crate::start_node::StartNode;

pub mod definition;
pub mod instance;
pub mod node_graph;
pub mod registry;

verus! {

/// A node of an execution chain. Running it updates its own ports;
/// `next_node` is the node that runs after it.
pub trait GraphNode {
    /// Running the node from this state stays within the range of its
    /// values.
    spec fn can_execute(&self) -> bool;

    /// `after` is the state of the node once it ran from this state.
    spec fn executes_to(&self, after: &Self) -> bool;

    /// The node that runs after this one.
    spec fn next_spec(&self) -> Option<Box<AnyGraphNode>>;

    /// Runs the node.
    fn execute_node(&mut self)
        requires
            old(self).can_execute(),
        ensures
            old(self).executes_to(&*final(self)),
    ;

    /// The node that runs after this one.
    fn next_node(&self) -> (next: &Option<Box<AnyGraphNode>>)
        ensures
            *next == self.next_spec(),
    ;
}

/// A port of an executable node: the value it holds, if any.
pub struct GraphNodePort<T> {
    pub value: Option<T>,
}

/// Any of the executable nodes, as the successor of another.
pub enum AnyGraphNode {
    Start(StartNode),
    Add(AddNode),
    Subtract(SubtractNode),
    Print(PrintNode),
}

impl GraphNode for AnyGraphNode {
    open spec fn can_execute(&self) -> bool {
        match self {
            AnyGraphNode::Start(n) => n.can_execute(),
            AnyGraphNode::Add(n) => n.can_execute(),
            AnyGraphNode::Subtract(n) => n.can_execute(),
            AnyGraphNode::Print(n) => n.can_execute(),
        }
    }

    open spec fn executes_to(&self, after: &Self) -> bool {
        match (self, after) {
            (AnyGraphNode::Start(n), AnyGraphNode::Start(m)) => n.executes_to(m),
            (AnyGraphNode::Add(n), AnyGraphNode::Add(m)) => n.executes_to(m),
            (AnyGraphNode::Subtract(n), AnyGraphNode::Subtract(m)) => n.executes_to(m),
            (AnyGraphNode::Print(n), AnyGraphNode::Print(m)) => n.executes_to(m),
            _ => false,
        }
    }

    open spec fn next_spec(&self) -> Option<Box<AnyGraphNode>> {
        match self {
            AnyGraphNode::Start(n) => n.next_spec(),
            AnyGraphNode::Add(n) => n.next_spec(),
            AnyGraphNode::Subtract(n) => n.next_spec(),
            AnyGraphNode::Print(n) => n.next_spec(),
        }
    }

    fn execute_node(&mut self) {
        match self {
            AnyGraphNode::Start(n) => n.execute_node(),
            AnyGraphNode::Add(n) => n.execute_node(),
            AnyGraphNode::Subtract(n) => n.execute_node(),
            AnyGraphNode::Print(n) => n.execute_node(),
        }
    }

    fn next_node(&self) -> (next: &Option<Box<AnyGraphNode>>) {
        match self {
            AnyGraphNode::Start(n) => n.next_node(),
            AnyGraphNode::Add(n) => n.next_node(),
            AnyGraphNode::Subtract(n) => n.next_node(),
            AnyGraphNode::Print(n) => n.next_node(),
        }
    }
}

} // verus!
