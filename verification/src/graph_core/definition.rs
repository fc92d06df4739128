//! Port and node definitions of the evaluation model, where every port is
//! either a data port or an execution-flow port.
use vstd::prelude::*;

use crate::graph_core::instance::PortValue;
use crate::ids::{is_v4_uuid, new_v4_id};

verus! {

/// Whether a port carries data or execution flow.
#[derive(Eq, PartialEq, Debug, Clone, Copy, Structural)]
pub enum PortKind {
    Exec,
    Data,
}

/// The type of the value that a port carries.
#[derive(Clone, Eq, PartialEq, Copy, Debug, Structural)]
pub enum PortType {
    String,
    Int,
    Float,
    Bool,
    Exec,
}

/// A named port of a given kind and type.
pub struct PortDefinition {
    pub name: String,
    pub port_kind: PortKind,
    pub port_type: PortType,
}

impl PortDefinition {
    /// A port with the given name, type and kind.
    pub fn new(name: String, port_type: PortType, port_kind: PortKind) -> (port: Self)
        ensures
            port.name == name,
            port.port_kind == port_kind,
            port.port_type == port_type,
    {
        Self { name, port_kind, port_type }
    }
}

impl Clone for PortDefinition {
    fn clone(&self) -> (port: Self)
        ensures
            port == *self,
    {
        PortDefinition { name: self.name.clone(), port_kind: self.port_kind, port_type: self.port_type }
    }
}

/// The kind of a node.
#[derive(Clone, Copy, PartialEq, Eq, Debug, Structural)]
pub enum NodeType {
    Function,
}

/// Identifier of a node definition: the 128-bit value of a UUID.
#[derive(Hash, Eq, PartialEq, Debug, Clone, Copy, Structural)]
pub struct NodeDefinitionId(pub u128);

/// What a node definition is as a value.
pub struct NodeDefinitionView {
    pub name: Seq<char>,
    pub node_type: NodeType,
    pub node_definition_id: NodeDefinitionId,
    pub input_ports: Seq<PortDefinition>,
    pub output_ports: Seq<PortDefinition>,
}

/// A node template: name, kind, identifier and ports.
pub struct NodeDefinition {
    pub name: String,
    pub node_type: NodeType,
    pub node_definition_id: NodeDefinitionId,
    pub input_ports: Vec<PortDefinition>,
    pub output_ports: Vec<PortDefinition>,
}

impl View for NodeDefinition {
    type V = NodeDefinitionView;

    open spec fn view(&self) -> NodeDefinitionView {
        NodeDefinitionView {
            name: self.name@,
            node_type: self.node_type,
            node_definition_id: self.node_definition_id,
            input_ports: self.input_ports@,
            output_ports: self.output_ports@,
        }
    }
}

impl NodeDefinition {
    /// A definition with the given name, kind and ports, under a fresh
    /// random identifier.
    pub fn new(
        name: String,
        node_type: NodeType,
        input_ports: Vec<PortDefinition>,
        output_ports: Vec<PortDefinition>,
    ) -> (definition: Self)
        ensures
            definition.name == name,
            definition.node_type == node_type,
            definition.input_ports == input_ports,
            definition.output_ports == output_ports,
            is_v4_uuid(definition.node_definition_id.0),
    {
        Self {
            name,
            node_type,
            node_definition_id: NodeDefinitionId(new_v4_id()),
            input_ports,
            output_ports,
        }
    }
}

impl Clone for NodeDefinition {
    fn clone(&self) -> (copy: Self)
        ensures
            copy@ == self@,
    {
        NodeDefinition {
            name: self.name.clone(),
            node_type: self.node_type,
            node_definition_id: self.node_definition_id,
            input_ports: crate::collections::clone_exact(&self.input_ports),
            output_ports: crate::collections::clone_exact(&self.output_ports),
        }
    }
}

/// Identifier of a variable definition: the 128-bit value of a UUID.
#[derive(Hash, Eq, PartialEq, Debug, Clone, Copy, Structural)]
pub struct VariableDefinitionId(pub u128);

/// A named, typed variable and its current value.
pub struct VariableDefinition {
    pub name: String,
    pub variable_definition_id: VariableDefinitionId,
    pub variable_type: PortType,
    pub variable_value: PortValue,
}

} // verus!
