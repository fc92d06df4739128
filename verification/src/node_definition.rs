//! Node definitions of the data-flow model.
use vstd::prelude::*;

use crate::port_definition::PortDefinition;

verus! {

/// Whether a node takes part in execution flow, is a pure computation, or
/// stands for a variable.
#[derive(Debug, Clone, Copy, PartialEq, Eq, Structural)]
pub enum NodeKind {
    Exec,
    Pure,
    Variable,
}

/// The identifier of a node definition.
#[derive(Eq, PartialEq, Hash, Clone, Copy, Debug)]
pub struct NodeDefId(pub &'static str);

/// A node template: data ports, and the number of its execution-flow ports
/// (which carry no value, so a count is all they need).
#[derive(Debug)]
pub struct NodeDefinition {
    pub id: NodeDefId,
    pub name: String,
    pub kind: NodeKind,
    pub input_ports: Vec<PortDefinition>,
    pub output_ports: Vec<PortDefinition>,
    pub exec_in_count: usize,
    pub exec_out_count: usize,
}

} // verus!
