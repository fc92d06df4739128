//! Port definitions of the data-flow model: each port has a fixed
//! identifier within its node definition.
use vstd::prelude::*;

verus! {

/// The type of the value that a data port carries.
#[derive(Debug, Clone, Copy, PartialEq, Eq, Structural)]
pub enum PortType {
    Float,
    UInt,
    Bool,
}

/// The identifier of a port definition.
#[derive(Eq, PartialEq, Hash, Clone, Copy, Debug)]
pub struct PortDefId(pub &'static str);

/// A data port: its identifier, its name and its type.
#[derive(Debug)]
pub struct PortDefinition {
    pub id: PortDefId,
    pub name: String,
    pub port_type: PortType,
}

} // verus!
