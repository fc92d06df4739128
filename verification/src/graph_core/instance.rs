//! Node and port instances of the evaluation model.
use std::collections::HashMap;
use vstd::prelude::*;
use vstd::std_specs::iter::IteratorSpec;

use crate::graph_core::definition::{NodeDefinition, NodeDefinitionId, PortDefinition, PortKind, PortType};
use crate::ids::{is_v4_uuid, new_v4_id};

verus! {

broadcast use vstd::std_specs::hash::group_hash_axioms;

/// The value held by a port. A `Float` is held as the IEEE-754 bit pattern
/// of its `f32`.
pub enum PortValue {
    String(String),
    Int(i32),
    Float(u32),
    Bool(bool),
    Exec,
    NoValue,
}

impl Default for PortValue {
    /// No value.
    fn default() -> (value: Self)
        ensures
            value == PortValue::NoValue,
    {
        PortValue::NoValue
    }
}

/// `value` is the value that a fresh port of type `port_type` starts with:
/// an empty string, zero, `0.0`, `true`, or the execution-flow marker.
pub open spec fn is_initial_value(value: PortValue, port_type: PortType) -> bool {
    match port_type {
        PortType::String => value matches PortValue::String(s) && s@ == Seq::<char>::empty(),
        PortType::Int => value == PortValue::Int(0),
        PortType::Float => value == PortValue::Float(0),
        PortType::Bool => value == PortValue::Bool(true),
        PortType::Exec => value == PortValue::Exec,
    }
}

impl PortValue {
    /// The initial value of a port of the given type.
    pub fn from_port_type(port_type: &PortType) -> (value: Self)
        ensures
            is_initial_value(value, *port_type),
    {
        match port_type {
            PortType::String => Self::String(String::new()),
            PortType::Int => Self::Int(0),
            PortType::Float => Self::Float(0),
            PortType::Bool => Self::Bool(true),
            PortType::Exec => Self::Exec,
        }
    }
}

/// Identifier of a port instance: the 128-bit value of a UUID.
#[derive(Hash, Eq, PartialEq, Debug, Clone, Copy, Structural)]
pub struct PortInstanceId(pub u128);

/// Identifier of a node instance: the 128-bit value of a UUID.
#[derive(Hash, Eq, PartialEq, Debug, Clone, Copy, Structural)]
pub struct NodeInstanceId(pub u128);

/// A port of a node in the graph.
pub struct PortInstance {
    pub name: String,
    pub port_kind: PortKind,
    pub node_instance_id: NodeInstanceId,
    pub port_instance_id: PortInstanceId,
    pub port_value: PortValue,
}

/// `port` is a port of node `node_instance_id` made from `definition`: its
/// name and kind, and the initial value of its type.
pub open spec fn port_made_from(
    port: PortInstance,
    node_instance_id: NodeInstanceId,
    definition: PortDefinition,
) -> bool {
    &&& port.name@ == definition.name@
    &&& port.port_kind == definition.port_kind
    &&& port.node_instance_id == node_instance_id
    &&& is_initial_value(port.port_value, definition.port_type)
    &&& is_v4_uuid(port.port_instance_id.0)
}

impl PortInstance {
    /// A port of node `node_instance_id` made from its definition, under a
    /// fresh random identifier.
    pub fn new(node_instance_id: NodeInstanceId, port_definition: &PortDefinition) -> (port: Self)
        ensures
            port_made_from(port, node_instance_id, *port_definition),
    {
        Self {
            name: port_definition.name.clone(),
            port_kind: port_definition.port_kind,
            node_instance_id: node_instance_id,
            port_instance_id: PortInstanceId(new_v4_id()),
            port_value: PortValue::from_port_type(&port_definition.port_type),
        }
    }
}

/// A node of the graph with its ports, each keyed by the value of its
/// identifier.
pub struct NodeInstance {
    pub name: String,
    pub node_definition_id: NodeDefinitionId,
    pub node_instance_id: NodeInstanceId,
    pub input_values: HashMap<u128, PortInstance>,
    pub output_values: HashMap<u128, PortInstance>,
}

/// The map that results from inserting `ports` in order, each under the
/// value of its identifier (a later port replaces an earlier one with the
/// same identifier).
pub open spec fn ports_by_id(ports: Seq<PortInstance>) -> Map<u128, PortInstance>
    decreases ports.len(),
{
    if ports.len() == 0 {
        Map::empty()
    } else {
        ports_by_id(ports.drop_last()).insert(ports.last().port_instance_id.0, ports.last())
    }
}

/// `map` holds the ports made, one per definition of `definitions` and in
/// that order, for node `node_instance_id`.
pub open spec fn ports_made_from(
    map: Map<u128, PortInstance>,
    node_instance_id: NodeInstanceId,
    definitions: Seq<PortDefinition>,
) -> bool {
    exists|ports: Seq<PortInstance>|
        {
            &&& ports.len() == definitions.len()
            &&& forall|i: int|
                0 <= i < ports.len() ==> port_made_from(
                    #[trigger] ports[i],
                    node_instance_id,
                    definitions[i],
                )
            &&& map == ports_by_id(ports)
        }
}

fn make_ports(node_instance_id: NodeInstanceId, definitions: &Vec<PortDefinition>) -> (map:
    HashMap<u128, PortInstance>)
    ensures
        ports_made_from(map@, node_instance_id, definitions@),
{
    let mut map: HashMap<u128, PortInstance> = HashMap::new();
    let ghost mut ports: Seq<PortInstance> = Seq::empty();
    let mut i: usize = 0;
    while i < definitions.len()
        invariant
            i <= definitions.len(),
            ports.len() == i,
            forall|j: int|
                0 <= j < i ==> port_made_from(#[trigger] ports[j], node_instance_id, definitions@[j]),
            map@ == ports_by_id(ports),
        decreases definitions.len() - i,
    {
        let port_instance = PortInstance::new(node_instance_id, &definitions[i]);
        proof {
            let next = ports.push(port_instance);
            assert(next.drop_last() =~= ports);
            ports = next;
        }
        map.insert(port_instance.port_instance_id.0, port_instance);
        i = i + 1;
    }
    proof {
        assert(ports_made_from(map@, node_instance_id, definitions@));
    }
    map
}

/// The answer of a search of `map` for a port named `name`: some port of
/// that name, by identifier, where there is one, and no port where there is
/// none.
pub open spec fn finds_port_named(
    found: Option<PortInstanceId>,
    map: Map<u128, PortInstance>,
    name: Seq<char>,
) -> bool {
    match found {
        Some(id) => map.contains_key(id.0) && map[id.0].name@ == name,
        None => forall|k: u128| #[trigger] map.contains_key(k) ==> map[k].name@ != name,
    }
}

fn find_port_by_name(map: &HashMap<u128, PortInstance>, name: &String) -> (found: Option<
    PortInstanceId,
>)
    ensures
        finds_port_named(found, map@, name@),
{
    let ghost pairs = vstd::std_specs::hash::spec_hash_map_iter(map).remaining();
    for entry in it: map.iter()
        invariant
            it.seq() == pairs,
            forall|i: int| 0 <= i < it.index() ==> (*(#[trigger] pairs[i]).1).name@ != name@,
    {
        let (id, instance) = entry;
        if instance.name == *name {
            return Some(PortInstanceId(*id));
        }
    }
    proof {
        assert forall|k: u128| #[trigger] map@.contains_key(k) implies map@[k].name@ != name@ by {
            assert(pairs.contains((&k, &map@[k])));
        }
    }
    None
}

impl NodeInstance {
    /// Some input port named `name`, by identifier, or `None` where the node
    /// has none.
    pub fn get_input_by_name(&self, name: String) -> (found: Option<PortInstanceId>)
        ensures
            finds_port_named(found, self.input_values@, name@),
    {
        find_port_by_name(&self.input_values, &name)
    }

    /// Some output port named `name`, by identifier, or `None` where the
    /// node has none.
    pub fn get_output_by_name(&self, name: String) -> (found: Option<PortInstanceId>)
        ensures
            finds_port_named(found, self.output_values@, name@),
    {
        find_port_by_name(&self.output_values, &name)
    }

    /// A node made from its definition under a fresh random identifier, with
    /// one port made for each input and each output port of the definition.
    pub fn from_definition(node_definition: &NodeDefinition) -> (node: Self)
        ensures
            node.name@ == node_definition.name@,
            node.node_definition_id == node_definition.node_definition_id,
            is_v4_uuid(node.node_instance_id.0),
            ports_made_from(node.input_values@, node.node_instance_id, node_definition.input_ports@),
            ports_made_from(node.output_values@, node.node_instance_id, node_definition.output_ports@),
    {
        let node_instance_id = NodeInstanceId(new_v4_id());
        let input_values = make_ports(node_instance_id, &node_definition.input_ports);
        let output_values = make_ports(node_instance_id, &node_definition.output_ports);
        Self {
            name: node_definition.name.clone(),
            node_definition_id: node_definition.node_definition_id,
            node_instance_id,
            input_values,
            output_values,
        }
    }
}

/// What a click on a node's activity button asks of the editor.
#[derive(Clone, Copy, Debug, PartialEq, Eq, Structural)]
pub enum MyResponse {
    SetActiveNode(u64),
    ClearActiveNode,
}

} // verus!
