//! Nodes placed in the editor's graph, and the values of their ports.
use vstd::prelude::*;

use crate::definition::{NodeDefinition, NodeDefinitionId, PortDefinition, PortType};

verus! {

/// A node of the graph: its name and the definition it was made from.
pub struct NodeInstance {
    pub name: String,
    pub definition_id: NodeDefinitionId,
}

/// The value held by a port. A `Float` is held as the IEEE-754 bit pattern
/// of its `f32`.
pub enum PortValue {
    String(String),
    Int(i32),
    Float(u32),
    Bool(bool),
    NoValue,
}

/// A port of a node in the graph: its name and its current value.
pub struct PortInstance {
    pub name: String,
    pub port_value: PortValue,
}

/// `value` is the value that a fresh port of type `port_type` starts with:
/// an empty string, zero, `0.0`, `false`, or no value for the execution-flow
/// and Vulkan types.
pub open spec fn is_initial_value(value: PortValue, port_type: PortType) -> bool {
    match port_type {
        PortType::String => value matches PortValue::String(s) && s@ == Seq::<char>::empty(),
        PortType::Int => value == PortValue::Int(0),
        PortType::Float => value == PortValue::Float(0),
        PortType::Bool => value == PortValue::Bool(false),
        _ => value == PortValue::NoValue,
    }
}

impl PortInstance {
    /// A port made from its definition: the definition's name, and the
    /// initial value of its type.
    pub fn from_definition(value: &PortDefinition) -> (port: Self)
        ensures
            port.name@ == value.name@,
            is_initial_value(port.port_value, value.port_type),
    {
        Self {
            name: value.name.clone(),
            port_value: match value.port_type {
                PortType::String => PortValue::String(String::new()),
                PortType::Int => PortValue::Int(0),
                PortType::Float => PortValue::Float(0),
                PortType::Bool => PortValue::Bool(false),
                _ => PortValue::NoValue,
            },
        }
    }
}

impl Default for PortInstance {
    /// An unnamed port without a value.
    fn default() -> (port: Self)
        ensures
            port.name@ == Seq::<char>::empty(),
            port.port_value == PortValue::NoValue,
    {
        Self { name: String::new(), port_value: PortValue::NoValue }
    }
}

impl NodeDefinition {
    /// The node that this definition places in the graph: its name and its
    /// identifier.
    pub fn user_data(&self) -> (node: NodeInstance)
        ensures
            node.name@ == self.name@,
            node.definition_id == self.definition_id,
    {
        NodeInstance { name: self.name.clone(), definition_id: self.definition_id }
    }
}

impl PortDefinition {
    /// The colour, as red, green and blue, in which ports of this type are
    /// drawn.
    pub fn data_type_color(&self) -> (rgb: (u8, u8, u8))
        ensures
            rgb == port_type_color(self.port_type),
    {
        match self.port_type {
            PortType::String => (38, 109, 211),
            PortType::Int => (38, 109, 211),
            PortType::Float => (38, 109, 211),
            PortType::Bool => (38, 109, 211),
            PortType::Exec => (255, 255, 255),
            PortType::VkCreateInfo => (109, 38, 211),
            PortType::VkInstance => (211, 38, 211),
            PortType::VkStructureType => (100, 50, 211),
            PortType::VkApplicationInfo => (123, 45, 67),
            PortType::VkPhysicalDevice => (89, 101, 112),
            PortType::VecVkPhysicalDevice => (131, 41, 51),
        }
    }
}

/// The drawing colour of each port type.
pub open spec fn port_type_color(port_type: PortType) -> (u8, u8, u8) {
    match port_type {
        PortType::String | PortType::Int | PortType::Float | PortType::Bool => (38, 109, 211),
        PortType::Exec => (255, 255, 255),
        PortType::VkCreateInfo => (109, 38, 211),
        PortType::VkInstance => (211, 38, 211),
        PortType::VkStructureType => (100, 50, 211),
        PortType::VkApplicationInfo => (123, 45, 67),
        PortType::VkPhysicalDevice => (89, 101, 112),
        PortType::VecVkPhysicalDevice => (131, 41, 51),
    }
}

} // verus!
