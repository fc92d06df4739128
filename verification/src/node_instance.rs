//! Node instances of the data-flow model.
use vstd::prelude::*;

use crate::ids::{is_v4_uuid, new_v4_id};
use crate::node_definition::{NodeDefId, NodeDefinition};
use crate::port_definition::PortDefinition;
use crate::port_instance::{DataPortInstance, ExecPortInstance};

verus! {

/// Identifier of a node instance: the 128-bit value of a UUID.
#[derive(Eq, PartialEq, Hash, Clone, Copy, Debug, Structural)]
pub struct NodeInstanceId(pub(crate) u128);

impl View for NodeInstanceId {
    type V = u128;

    closed spec fn view(&self) -> u128 {
        self.0
    }
}

impl NodeInstanceId {
    fn new() -> (id: Self)
        ensures
            is_v4_uuid(id@),
    {
        NodeInstanceId(new_v4_id())
    }
}

/// A node of a graph: the definition it was made from, and one port for
/// each port of that definition.
#[derive(Debug)]
pub struct NodeInstance {
    pub id: NodeInstanceId,
    pub def_id: NodeDefId,
    pub input_ports: Vec<DataPortInstance>,
    pub output_ports: Vec<DataPortInstance>,
    pub exec_in_ports: Vec<ExecPortInstance>,
    pub exec_out_ports: Vec<ExecPortInstance>,
}

/// `ports` are, one for one and in order, valueless ports made from
/// `definitions`.
pub open spec fn data_ports_made_from(
    ports: Seq<DataPortInstance>,
    definitions: Seq<PortDefinition>,
) -> bool {
    &&& ports.len() == definitions.len()
    &&& forall|i: int|
        0 <= i < ports.len() ==> (#[trigger] ports[i]).def_id == definitions[i].id
            && ports[i].value is None && is_v4_uuid(ports[i].id@)
}

fn make_data_ports(definitions: &Vec<PortDefinition>) -> (ports: Vec<DataPortInstance>)
    ensures
        data_ports_made_from(ports@, definitions@),
{
    let mut ports: Vec<DataPortInstance> = Vec::new();
    let mut i: usize = 0;
    while i < definitions.len()
        invariant
            i <= definitions.len(),
            data_ports_made_from(ports@, definitions@.take(i as int)),
        decreases definitions.len() - i,
    {
        ports.push(DataPortInstance::new(definitions[i].id.clone()));
        i = i + 1;
    }
    assert(definitions@.take(i as int) =~= definitions@);
    ports
}

fn make_exec_ports(count: usize) -> (ports: Vec<ExecPortInstance>)
    ensures
        ports.len() == count,
        forall|i: int| 0 <= i < count ==> is_v4_uuid((#[trigger] ports@[i]).id_spec()@),
{
    let mut ports: Vec<ExecPortInstance> = Vec::new();
    let mut i: usize = 0;
    while i < count
        invariant
            i <= count,
            ports.len() == i,
            forall|j: int| 0 <= j < i ==> is_v4_uuid((#[trigger] ports@[j]).id_spec()@),
        decreases count - i,
    {
        ports.push(ExecPortInstance::new());
        i = i + 1;
    }
    ports
}

impl NodeInstance {
    /// A node made from `def` under a fresh random identifier: one
    /// valueless data port per data port of `def`, in order, and as many
    /// execution-flow ports as `def` counts.
    pub fn from_def(def: &NodeDefinition) -> (node: Self)
        ensures
            node.def_id == def.id,
            is_v4_uuid(node.id@),
            data_ports_made_from(node.input_ports@, def.input_ports@),
            data_ports_made_from(node.output_ports@, def.output_ports@),
            node.exec_in_ports.len() == def.exec_in_count,
            node.exec_out_ports.len() == def.exec_out_count,
            forall|i: int|
                0 <= i < def.exec_in_count ==> is_v4_uuid((#[trigger] node.exec_in_ports@[i]).id_spec()@),
            forall|i: int|
                0 <= i < def.exec_out_count ==> is_v4_uuid((#[trigger] node.exec_out_ports@[i]).id_spec()@),
    {
        NodeInstance {
            id: NodeInstanceId::new(),
            def_id: def.id.clone(),
            input_ports: make_data_ports(&def.input_ports),
            output_ports: make_data_ports(&def.output_ports),
            exec_in_ports: make_exec_ports(def.exec_in_count),
            exec_out_ports: make_exec_ports(def.exec_out_count),
        }
    }
}

} // verus!
