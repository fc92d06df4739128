//! A graph of node instances and the connections between their ports.
use std::collections::HashMap;
use vstd::prelude::*;

use crate::graph_core::definition::PortType;
use crate::graph_core::instance::{NodeInstance, NodeInstanceId, PortInstance, PortInstanceId};

verus! {

broadcast use vstd::std_specs::hash::group_hash_axioms;

/// A port of the graph: the node it belongs to and its own identifier.
pub type PortAddress = (NodeInstanceId, PortInstanceId);

/// The connections held by a table of targets keyed by the value of the
/// source's node identifier and then by the value of its port identifier.
pub open spec fn nested_as_map(table: Map<u128, HashMap<u128, PortAddress>>) -> Map<
    PortAddress,
    PortAddress,
> {
    Map::new(
        |from: PortAddress| table.contains_key(from.0.0) && table[from.0.0]@.contains_key(from.1.0),
        |from: PortAddress| table[from.0.0]@[from.1.0],
    )
}

/// The data connections of a graph: for each source port, the port it
/// feeds, kept by the source's node and then by its port.
pub struct DataConnection(HashMap<u128, HashMap<u128, PortAddress>>);

/// The execution-flow connections of a graph, kept like the data
/// connections.
pub struct ExecConnection(HashMap<u128, HashMap<u128, PortAddress>>);

impl View for DataConnection {
    type V = Map<PortAddress, PortAddress>;

    closed spec fn view(&self) -> Map<PortAddress, PortAddress> {
        nested_as_map(self.0@)
    }
}

impl View for ExecConnection {
    type V = Map<PortAddress, PortAddress>;

    closed spec fn view(&self) -> Map<PortAddress, PortAddress> {
        nested_as_map(self.0@)
    }
}

impl DataConnection {
    /// No connection.
    fn new() -> (connections: Self)
        ensures
            connections@ == Map::<PortAddress, PortAddress>::empty(),
    {
        let connections = DataConnection(HashMap::new());
        assert(connections@ =~= Map::<PortAddress, PortAddress>::empty());
        connections
    }

    /// The port that `from` feeds, if any.
    pub fn get(&self, from: PortAddress) -> (to: Option<PortAddress>)
        ensures
            to == self@.get(from),
    {
        match self.0.get(&from.0.0) {
            Some(targets) => match targets.get(&from.1.0) {
                Some(to) => Some(*to),
                None => None,
            },
            None => None,
        }
    }

    /// Connects `from` to `to`, replacing the connection that `from` had.
    pub fn insert(&mut self, from: PortAddress, to: PortAddress)
        ensures
            final(self)@ == old(self)@.insert(from, to),
    {
        let ghost before = self.0@;
        let mut targets = match self.0.remove(&from.0.0) {
            Some(targets) => targets,
            None => HashMap::new(),
        };
        let ghost old_targets = targets@;
        assert(before.contains_key(from.0.0) ==> old_targets == before[from.0.0]@);
        assert(!before.contains_key(from.0.0) ==> old_targets == Map::<u128, PortAddress>::empty());
        targets.insert(from.1.0, to);
        self.0.insert(from.0.0, targets);
        proof {
            let after = self.0@;
            assert(after == before.insert(from.0.0, targets));
            assert forall|p: PortAddress| #[trigger] nested_as_map(after).contains_key(p)
                <==> nested_as_map(before).insert(from, to).contains_key(p) by {
                if p.0.0 == from.0.0 && p.1.0 == from.1.0 {
                    assert(p == from);
                }
                if p == from {
                } else if p.0.0 == from.0.0 {
                    assert(p.1.0 != from.1.0);
                }
            }
            assert forall|p: PortAddress| #[trigger] nested_as_map(after).contains_key(p)
                implies nested_as_map(after)[p] == nested_as_map(before).insert(from, to)[p] by {
                if p.0.0 == from.0.0 && p.1.0 == from.1.0 {
                    assert(p == from);
                }
            }
            assert(nested_as_map(after) =~= nested_as_map(before).insert(from, to));
        }
    }
}

impl ExecConnection {
    /// No connection.
    fn new() -> (connections: Self)
        ensures
            connections@ == Map::<PortAddress, PortAddress>::empty(),
    {
        let connections = ExecConnection(HashMap::new());
        assert(connections@ =~= Map::<PortAddress, PortAddress>::empty());
        connections
    }
}

/// A graph: its nodes, by the value of their identifiers, and the
/// connections between their ports.
pub struct NodeGraph {
    pub nodes: HashMap<u128, NodeInstance>,
    pub data_connections: DataConnection,
    pub exec_connections: ExecConnection,
}

/// The address of a port: its node and its own identifier.
pub open spec fn address_of(port: PortInstance) -> PortAddress {
    (port.node_instance_id, port.port_instance_id)
}

/// A connection reads back as it was made: once `from` is connected to
/// `to`, `from` feeds `to`, and every other port feeds what it fed before.
pub proof fn lemma_connection_reads_back(
    connections: Map<PortAddress, PortAddress>,
    from: PortAddress,
    to: PortAddress,
    other: PortAddress,
)
    requires
        other != from,
    ensures
        connections.insert(from, to).get(from) == Some(to),
        connections.insert(from, to).get(other) == connections.get(other),
{
}

impl NodeGraph {
    /// A graph without nodes or connections.
    pub fn new() -> (graph: Self)
        ensures
            graph.nodes@ == Map::<u128, NodeInstance>::empty(),
            graph.data_connections@ == Map::<PortAddress, PortAddress>::empty(),
            graph.exec_connections@ == Map::<PortAddress, PortAddress>::empty(),
    {
        Self {
            nodes: HashMap::new(),
            data_connections: DataConnection::new(),
            exec_connections: ExecConnection::new(),
        }
    }

    /// Adds a node under the value of its identifier, replacing the node
    /// that had it.
    pub fn insert(&mut self, node_instance: NodeInstance)
        ensures
            final(self).nodes@ == old(self).nodes@.insert(
                node_instance.node_instance_id.0,
                node_instance,
            ),
            final(self).data_connections@ == old(self).data_connections@,
            final(self).exec_connections@ == old(self).exec_connections@,
    {
        self.nodes.insert(node_instance.node_instance_id.0, node_instance);
    }

    /// Connects the data output `from_port` to `to_port`, replacing the
    /// connection that `from_port` had.
    pub fn connect_data(&mut self, from_port: &PortInstance, to_port: &PortInstance)
        ensures
            final(self).nodes@ == old(self).nodes@,
            final(self).data_connections@ == old(self).data_connections@.insert(
                address_of(*from_port),
                address_of(*to_port),
            ),
            final(self).exec_connections@ == old(self).exec_connections@,
    {
        self.data_connections.insert(
            (from_port.node_instance_id, from_port.port_instance_id),
            (to_port.node_instance_id, to_port.port_instance_id),
        );
    }

    /// Records an execution-flow connection from `from_port` to `to_port`.
    /// The connection is kept among the data connections, replacing the one
    /// that `from_port` had there; the execution connections stay as they
    /// were.
    pub fn connect_exec(&mut self, from_port: &PortInstance, to_port: &PortInstance)
        ensures
            final(self).nodes@ == old(self).nodes@,
            final(self).data_connections@ == old(self).data_connections@.insert(
                address_of(*from_port),
                address_of(*to_port),
            ),
            final(self).exec_connections@ == old(self).exec_connections@,
    {
        self.data_connections.insert(
            (from_port.node_instance_id, from_port.port_instance_id),
            (to_port.node_instance_id, to_port.port_instance_id),
        );
    }
}

impl PortType {
    /// The colour, as red, green and blue, in which ports of this type are
    /// drawn: the same blue for every type.
    pub fn data_type_color(&self) -> (rgb: (u8, u8, u8))
        ensures
            rgb == (38u8, 109u8, 211u8),
    {
        match self {
            PortType::String => (38, 109, 211),
            PortType::Int => (38, 109, 211),
            PortType::Float => (38, 109, 211),
            PortType::Bool => (38, 109, 211),
            PortType::Exec => (38, 109, 211),
        }
    }

    /// The name under which the type is shown.
    pub fn name(&self) -> (name: &'static str)
        ensures
            name@ == port_type_name(*self),
    {
        match self {
            PortType::String => "String",
            PortType::Int => "Int",
            PortType::Float => "Float",
            PortType::Bool => "Bool",
            PortType::Exec => "Exec",
        }
    }
}

/// The name under which each port type is shown.
pub open spec fn port_type_name(port_type: PortType) -> Seq<char> {
    match port_type {
        PortType::String => "String"@,
        PortType::Int => "Int"@,
        PortType::Float => "Float"@,
        PortType::Bool => "Bool"@,
        PortType::Exec => "Exec"@,
    }
}

} // verus!
