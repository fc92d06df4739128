//! The handlers that run the nodes of each definition of the data-flow
//! model.
use vstd::prelude::*;

use crate::node_definition::NodeDefId;

verus! {

/// The handler of each node definition, under its identifier. A handler is
/// a value of type `F`, such as a function that updates a node instance
/// from the graph.
pub struct EvalRegistry<F> {
    pub exec_handlers: Vec<(NodeDefId, F)>,
}

impl<F> EvalRegistry<F> {
    /// A registry without handlers.
    pub fn new() -> (registry: Self)
        ensures
            registry.exec_handlers@.len() == 0,
    {
        Self { exec_handlers: Vec::new() }
    }
}

} // verus!
