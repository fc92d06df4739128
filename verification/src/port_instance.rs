//! Port instances of the data-flow model.
use vstd::prelude::*;

use crate::ids::{is_v4_uuid, new_v4_id};
use crate::port_definition::PortDefId;

verus! {

/// The value held by a data port. A `Float` is held as the IEEE-754 bit
/// pattern of its `f32`.
#[derive(Debug, Clone, Copy, PartialEq, Eq, Structural)]
pub enum PortValue {
    Float(u32),
    UInt(u32),
    Bool(bool),
}

/// Identifier of a port instance: the 128-bit value of a UUID.
#[derive(Eq, PartialEq, Hash, Clone, Copy, Debug, Structural)]
pub struct PortInstanceId(pub(crate) u128);

impl View for PortInstanceId {
    type V = u128;

    closed spec fn view(&self) -> u128 {
        self.0
    }
}

impl PortInstanceId {
    fn new() -> (id: Self)
        ensures
            is_v4_uuid(id@),
    {
        PortInstanceId(new_v4_id())
    }
}

/// A data port of a node: its identifier, the definition it was made from,
/// and its value, if it holds one.
#[derive(Debug)]
pub struct DataPortInstance {
    pub id: PortInstanceId,
    pub def_id: PortDefId,
    pub value: Option<PortValue>,
}

impl DataPortInstance {
    /// A port made from definition `def_id`, under a fresh random
    /// identifier, without a value.
    pub fn new(def_id: PortDefId) -> (port: Self)
        ensures
            port.def_id == def_id,
            port.value is None,
            is_v4_uuid(port.id@),
    {
        DataPortInstance { id: PortInstanceId::new(), def_id, value: None }
    }
}

/// An execution-flow port of a node.
#[derive(Debug)]
pub struct ExecPortInstance {
    id: PortInstanceId,
}

impl ExecPortInstance {
    /// The port's identifier.
    pub closed spec fn id_spec(&self) -> PortInstanceId {
        self.id
    }

    /// An execution-flow port under a fresh random identifier.
    pub fn new() -> (port: Self)
        ensures
            is_v4_uuid(port.id_spec()@),
    {
        ExecPortInstance { id: PortInstanceId::new() }
    }
}

} // verus!
