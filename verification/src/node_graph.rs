//! A graph of the data-flow model: its nodes and the connections between
//! their ports.
use std::collections::HashMap;
use vstd::prelude::*;

use crate::node_instance::{NodeInstance, NodeInstanceId};
use crate::port_instance::PortInstanceId;

verus! {

broadcast use vstd::std_specs::hash::group_hash_axioms;

/// A port of the graph: the node it belongs to and its own identifier.
pub type PortAddress = (NodeInstanceId, PortInstanceId);

/// The connections held by a table of targets keyed by the value of the
/// source's node identifier and then by the value of its port identifier.
pub closed spec fn nested_as_map(table: Map<u128, HashMap<u128, PortAddress>>) -> Map<
    PortAddress,
    PortAddress,
> {
    Map::new(
        |from: PortAddress| table.contains_key(from.0@) && table[from.0@]@.contains_key(from.1@),
        |from: PortAddress| table[from.0@]@[from.1@],
    )
}

/// The data connections of a graph, each from a source port to the port it
/// feeds, kept by the source's node and then by its port.
pub struct DataConnection(HashMap<u128, HashMap<u128, PortAddress>>);

/// The execution-flow connections of a graph, kept like the data
/// connections.
pub struct ExecConnection(HashMap<u128, HashMap<u128, PortAddress>>);

impl View for DataConnection {
    type V = Map<PortAddress, PortAddress>;

    closed spec fn view(&self) -> Map<PortAddress, PortAddress> {
        nested_as_map(self.0@)
    }
}

impl View for ExecConnection {
    type V = Map<PortAddress, PortAddress>;

    closed spec fn view(&self) -> Map<PortAddress, PortAddress> {
        nested_as_map(self.0@)
    }
}

/// A graph: its nodes, by the value of their identifiers, and the
/// connections between their ports.
pub struct NodeGraph {
    pub nodes: HashMap<u128, NodeInstance>,
    pub data_connections: DataConnection,
    pub exec_connections: ExecConnection,
}

impl NodeGraph {
    /// A graph without nodes or connections.
    pub fn new() -> (graph: Self)
        ensures
            graph.nodes@ == Map::<u128, NodeInstance>::empty(),
            graph.data_connections@ == Map::<PortAddress, PortAddress>::empty(),
            graph.exec_connections@ == Map::<PortAddress, PortAddress>::empty(),
    {
        let graph = Self {
            nodes: HashMap::new(),
            data_connections: DataConnection(HashMap::new()),
            exec_connections: ExecConnection(HashMap::new()),
        };
        assert(graph.data_connections@ =~= Map::<PortAddress, PortAddress>::empty());
        assert(graph.exec_connections@ =~= Map::<PortAddress, PortAddress>::empty());
        graph
    }
}

} // verus!
