//! Port and node definitions of the editor: the templates from which the
//! nodes of a graph are made.
use vstd::prelude::*;

use vstd::std_specs::cmp::PartialEqSpec;

use crate::ids::{is_v4_uuid, new_v4_id};

verus! {

/// Identifier of a node definition: the 128-bit value of a UUID.
pub type NodeDefinitionId = u128;

/// The type of the value that a port carries.
#[derive(PartialEq, Eq, Clone, Copy, Debug, Structural)]
pub enum PortType {
    String,
    Int,
    Float,
    Bool,
    Exec,
    VkCreateInfo,
    VkInstance,
    VkStructureType,
    VkApplicationInfo,
    VkPhysicalDevice,
    VecVkPhysicalDevice,
}

/// A named, typed port of a node definition.
#[derive(Eq)]
pub struct PortDefinition {
    pub name: String,
    pub port_type: PortType,
}

impl PortDefinition {
    /// A port with the given name and type.
    pub fn new(name: String, port_type: PortType) -> (port: Self)
        ensures
            port.name == name,
            port.port_type == port_type,
    {
        Self { name, port_type }
    }

    /// The unnamed execution-flow port.
    pub fn exec() -> (port: Self)
        ensures
            port.name@ == Seq::<char>::empty(),
            port.port_type == PortType::Exec,
    {
        Self { name: String::new(), port_type: PortType::Exec }
    }
}

impl Clone for PortDefinition {
    fn clone(&self) -> (port: Self)
        ensures
            port == *self,
    {
        PortDefinition { name: self.name.clone(), port_type: self.port_type }
    }
}

impl PartialEq for PortDefinition {
    fn eq(&self, other: &Self) -> (same: bool) {
        self.port_type == other.port_type
    }
}

impl vstd::std_specs::cmp::PartialEqSpecImpl for PortDefinition {
    open spec fn obeys_eq_spec() -> bool {
        true
    }

    open spec fn eq_spec(&self, other: &Self) -> bool {
        self.port_type == other.port_type
    }
}

/// Two port definitions compare equal exactly when their types agree,
/// whatever their names; this comparison is reflexive, symmetric and
/// transitive.
pub proof fn lemma_port_definition_eq_is_type_equivalence(
    a: PortDefinition,
    b: PortDefinition,
    c: PortDefinition,
)
    ensures
        a.eq_spec(&b) <==> a.port_type == b.port_type,
        a.eq_spec(&a),
        a.eq_spec(&b) ==> b.eq_spec(&a),
        a.eq_spec(&b) && b.eq_spec(&c) ==> a.eq_spec(&c),
{
}

/// What a node definition is as a value: its name, its identifier and its
/// two port lists.
pub struct NodeDefinitionView {
    pub name: Seq<char>,
    pub definition_id: NodeDefinitionId,
    pub input_ports: Seq<PortDefinition>,
    pub output_ports: Seq<PortDefinition>,
}

/// A node template: its name, its identifier and its input and output ports.
pub struct NodeDefinition {
    pub name: String,
    pub definition_id: NodeDefinitionId,
    pub input_ports: Vec<PortDefinition>,
    pub output_ports: Vec<PortDefinition>,
}

impl View for NodeDefinition {
    type V = NodeDefinitionView;

    open spec fn view(&self) -> NodeDefinitionView {
        NodeDefinitionView {
            name: self.name@,
            definition_id: self.definition_id,
            input_ports: self.input_ports@,
            output_ports: self.output_ports@,
        }
    }
}

impl NodeDefinition {
    /// A definition with the given name and ports, under a fresh random
    /// identifier.
    pub fn new(
        name: String,
        input_ports: Vec<PortDefinition>,
        output_ports: Vec<PortDefinition>,
    ) -> (definition: Self)
        ensures
            definition.name == name,
            definition.input_ports == input_ports,
            definition.output_ports == output_ports,
            is_v4_uuid(definition.definition_id),
    {
        Self { name: name, definition_id: new_v4_id(), input_ports: input_ports, output_ports: output_ports }
    }
}

impl Clone for NodeDefinition {
    fn clone(&self) -> (copy: Self)
        ensures
            copy@ == self@,
    {
        NodeDefinition {
            name: self.name.clone(),
            definition_id: self.definition_id,
            input_ports: crate::collections::clone_exact(&self.input_ports),
            output_ports: crate::collections::clone_exact(&self.output_ports),
        }
    }
}

} // verus!
