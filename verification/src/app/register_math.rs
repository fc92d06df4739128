//! The integer arithmetic function nodes and their evaluations.
use vstd::prelude::*;

use crate::app::App;
use crate::graph_core::definition::{NodeDefinition, NodeType, PortDefinition, PortKind, PortType};
use crate::graph_core::instance::{NodeInstance, PortInstance, PortValue};
use crate::ids::is_v4_uuid;

verus! {

broadcast use vstd::std_specs::hash::group_hash_axioms;

/// The operation that a binary integer node computes.
#[derive(Clone, Copy, PartialEq, Eq, Debug, Structural)]
pub enum MathOperation {
    Add,
    Subtract,
    Multiply,
    Divide,
}

/// `a / b` rounded toward zero.
pub open spec fn truncated_quotient(a: int, b: int) -> int {
    let q = (if a < 0 { -a } else { a }) / (if b < 0 { -b } else { b });
    if (a < 0) == (b < 0) {
        q
    } else {
        -q
    }
}

/// The exact result of `op` on `a` and `b`; none for a division by zero.
pub open spec fn exact_result(op: MathOperation, a: int, b: int) -> Option<int> {
    match op {
        MathOperation::Add => Some(a + b),
        MathOperation::Subtract => Some(a - b),
        MathOperation::Multiply => Some(a * b),
        MathOperation::Divide => if b == 0 {
            None
        } else {
            Some(truncated_quotient(a, b))
        },
    }
}

/// Whether `x` lies in the range of `i32`.
pub open spec fn fits_i32(x: int) -> bool {
    i32::MIN <= x <= i32::MAX
}

/// The map holds a port under `k` named `name`.
pub open spec fn has_port_at(map: Map<u128, PortInstance>, k: u128, name: Seq<char>) -> bool {
    map.contains_key(k) && map[k].name@ == name
}

/// The map holds a port named `name`.
pub open spec fn has_port_named(map: Map<u128, PortInstance>, name: Seq<char>) -> bool {
    exists|k: u128| #[trigger] has_port_at(map, k, name)
}

/// The map holds exactly one port named `name`, under `k`.
pub open spec fn only_port_named(map: Map<u128, PortInstance>, k: u128, name: Seq<char>) -> bool {
    &&& has_port_at(map, k, name)
    &&& forall|j: u128| #[trigger] has_port_at(map, j, name) ==> j == k
}

/// `port` with its value replaced by `value`.
pub open spec fn with_value(port: PortInstance, value: PortValue) -> PortInstance {
    PortInstance {
        name: port.name,
        port_kind: port.port_kind,
        node_instance_id: port.node_instance_id,
        port_instance_id: port.port_instance_id,
        port_value: value,
    }
}

/// The outcome of a successful evaluation of `op` on `before`: inputs `A`
/// and `B` hold integers `a` and `b`, and output `Out` now holds the exact
/// result of `op` on them.
pub open spec fn evaluated_to(
    op: MathOperation,
    before: NodeInstance,
    after_outputs: Map<u128, PortInstance>,
) -> bool {
    exists|ka: u128, kb: u128, ko: u128|
        {
            &&& #[trigger] has_port_at(before.input_values@, ka, "A"@)
            &&& #[trigger] has_port_at(before.input_values@, kb, "B"@)
            &&& #[trigger] has_port_at(before.output_values@, ko, "Out"@)
            &&& before.input_values@[ka].port_value matches PortValue::Int(a)
            &&& before.input_values@[kb].port_value matches PortValue::Int(b)
            &&& exact_result(op, a as int, b as int) matches Some(x)
            &&& fits_i32(x)
            &&& after_outputs == before.output_values@.insert(
                ko,
                with_value(before.output_values@[ko], PortValue::Int(x as i32)),
            )
        }
}

/// `node`'s only input named `A` is under `ka` and its only input named
/// `B` under `kb`; both hold integers, and `op` on them has a result in the
/// range of `i32`.
pub open spec fn evaluable_at(op: MathOperation, node: NodeInstance, ka: u128, kb: u128) -> bool {
    &&& only_port_named(node.input_values@, ka, "A"@)
    &&& only_port_named(node.input_values@, kb, "B"@)
    &&& node.input_values@[ka].port_value matches PortValue::Int(a)
    &&& node.input_values@[kb].port_value matches PortValue::Int(b)
    &&& exact_result(op, a as int, b as int) matches Some(x)
    &&& fits_i32(x)
}

/// The inputs on which the evaluation of `op` does not panic: one input
/// named `A` and one named `B`, both holding integers whose result under
/// `op` is defined and fits in an `i32`, and an output named `Out`.
pub open spec fn can_evaluate(op: MathOperation, node: NodeInstance) -> bool {
    &&& exists|ka: u128, kb: u128| #[trigger] evaluable_at(op, node, ka, kb)
    &&& has_port_named(node.output_values@, "Out"@)
}

impl MathOperation {
    /// The result of the operation on `a` and `b` as an `i32`: the exact
    /// result (a quotient rounded toward zero), or `None` for a division by
    /// zero or an exact result outside the range of `i32`.
    pub fn apply(&self, a: i32, b: i32) -> (result: Option<i32>)
        ensures
            match result {
                Some(r) => exact_result(*self, a as int, b as int) == Some(r as int),
                None => match exact_result(*self, a as int, b as int) {
                    Some(x) => !fits_i32(x),
                    None => true,
                },
            },
    {
        match self {
            MathOperation::Add => a.checked_add(b),
            MathOperation::Subtract => a.checked_sub(b),
            MathOperation::Multiply => a.checked_mul(b),
            MathOperation::Divide => a.checked_div(b),
        }
    }

    /// Evaluates the operation on a node: reads the integers at its inputs
    /// `A` and `B` and writes the result to its output `Out`, leaving all else
    /// as it was. A node without these ports, an input that holds no integer,
    /// a zero divisor and a result outside the range of `i32` are left out:
    /// evaluating on them panics.
    pub fn evaluate(&self, node_instance: &mut NodeInstance)
        requires
            can_evaluate(*self, *old(node_instance)),
        ensures
            final(node_instance).name == old(node_instance).name,
            final(node_instance).node_definition_id == old(node_instance).node_definition_id,
            final(node_instance).node_instance_id == old(node_instance).node_instance_id,
            final(node_instance).input_values@ == old(node_instance).input_values@,
            evaluated_to(*self, *old(node_instance), final(node_instance).output_values@),
    {
        let ghost (ka, kb) = choose|ka: u128, kb: u128| #[trigger] evaluable_at(*self, *node_instance, ka, kb);
        let a_id = match node_instance.get_input_by_name("A".to_owned()) {
            Some(id) => id,
            None => {
                assert(has_port_at(node_instance.input_values@, ka, "A"@));
                return;
            },
        };
        let b_id = match node_instance.get_input_by_name("B".to_owned()) {
            Some(id) => id,
            None => {
                assert(has_port_at(node_instance.input_values@, kb, "B"@));
                return;
            },
        };
        let out_id = match node_instance.get_output_by_name("Out".to_owned()) {
            Some(id) => id,
            None => {
                proof {
                    let ko = choose|ko: u128| #[trigger] has_port_at(node_instance.output_values@, ko, "Out"@);
                    assert(has_port_at(node_instance.output_values@, ko, "Out"@));
                }
                return;
            },
        };
        assert(has_port_at(node_instance.input_values@, a_id.0, "A"@));
        assert(has_port_at(node_instance.input_values@, b_id.0, "B"@));
        assert(has_port_at(node_instance.output_values@, out_id.0, "Out"@));
        assert(a_id.0 == ka && b_id.0 == kb);
        let a: i32 = match node_instance.input_values.get(&a_id.0) {
            Some(port) => match &port.port_value {
                PortValue::Int(v) => *v,
                _ => return,
            },
            None => return,
        };
        let b: i32 = match node_instance.input_values.get(&b_id.0) {
            Some(port) => match &port.port_value {
                PortValue::Int(v) => *v,
                _ => return,
            },
            None => return,
        };
        let r: i32 = match self.apply(a, b) {
            Some(r) => r,
            None => return,
        };
        let ghost before = node_instance.output_values@;
        match node_instance.output_values.remove(&out_id.0) {
            Some(mut port) => {
                port.port_value = PortValue::Int(r);
                node_instance.output_values.insert(out_id.0, port);
                assert(node_instance.output_values@ =~= before.insert(
                    out_id.0,
                    with_value(before[out_id.0], PortValue::Int(r)),
                ));
            },
            None => {},
        }
    }
}

/// A binary integer function node named `name`: data inputs `A` and `B`
/// and data output `Out`, all of type `Int`.
pub open spec fn is_binary_int_function_node(d: NodeDefinition, name: Seq<char>) -> bool {
    &&& d.name@ == name
    &&& d.node_type == NodeType::Function
    &&& d.input_ports@.len() == 2
    &&& d.input_ports@[0].name@ == "A"@
    &&& d.input_ports@[0].port_type == PortType::Int
    &&& d.input_ports@[0].port_kind == PortKind::Data
    &&& d.input_ports@[1].name@ == "B"@
    &&& d.input_ports@[1].port_type == PortType::Int
    &&& d.input_ports@[1].port_kind == PortKind::Data
    &&& d.output_ports@.len() == 1
    &&& d.output_ports@[0].name@ == "Out"@
    &&& d.output_ports@[0].port_type == PortType::Int
    &&& d.output_ports@[0].port_kind == PortKind::Data
    &&& is_v4_uuid(d.node_definition_id.0)
}

fn binary_int_function_node(name: String) -> (d: NodeDefinition)
    ensures
        is_binary_int_function_node(d, name@),
{
    NodeDefinition::new(
        name,
        NodeType::Function,
        vec![
            PortDefinition::new("A".to_owned(), PortType::Int, PortKind::Data),
            PortDefinition::new("B".to_owned(), PortType::Int, PortKind::Data),
        ],
        vec![PortDefinition::new("Out".to_owned(), PortType::Int, PortKind::Data)],
    )
}

impl App {
    /// Registers the four integer arithmetic function nodes `Add`,
    /// `Subtract`, `Multiply` and `Divide`, in this order, each under its own
    /// fresh identifier, together with the evaluation of each. They are
    /// function nodes of the evaluation model, whose definitions carry the
    /// node type and the port kinds, so they go to the function registry; the
    /// editor's registry stays as it was.
    pub fn register_math_nodes(&mut self)
        ensures
            final(self).user_state == old(self).user_state,
            final(self).node_registry@ == old(self).node_registry@,
            exists|a: NodeDefinition, s: NodeDefinition, m: NodeDefinition, d: NodeDefinition|
                {
                    &&& is_binary_int_function_node(a, "Add"@)
                    &&& is_binary_int_function_node(s, "Subtract"@)
                    &&& is_binary_int_function_node(m, "Multiply"@)
                    &&& is_binary_int_function_node(d, "Divide"@)
                    &&& final(self).function_registry@ == old(self).function_registry@.insert(
                        a.node_definition_id.0,
                        a,
                    ).insert(s.node_definition_id.0, s).insert(m.node_definition_id.0, m).insert(
                        d.node_definition_id.0,
                        d,
                    )
                    &&& final(self).evaluation_registry.evaluation_definitions@ == old(
                        self,
                    ).evaluation_registry.evaluation_definitions@.insert(
                        a.node_definition_id.0,
                        MathOperation::Add,
                    ).insert(s.node_definition_id.0, MathOperation::Subtract).insert(
                        m.node_definition_id.0,
                        MathOperation::Multiply,
                    ).insert(d.node_definition_id.0, MathOperation::Divide)
                },
    {
        let add_node = binary_int_function_node("Add".to_owned());
        let ghost a = add_node;
        let add_id = add_node.node_definition_id;
        self.function_registry.register_node(add_node);
        self.evaluation_registry.register_evaluation(add_id, MathOperation::Add);

        let subtract_node = binary_int_function_node("Subtract".to_owned());
        let ghost s = subtract_node;
        let subtract_id = subtract_node.node_definition_id;
        self.function_registry.register_node(subtract_node);
        self.evaluation_registry.register_evaluation(subtract_id, MathOperation::Subtract);

        let multiply_node = binary_int_function_node("Multiply".to_owned());
        let ghost m = multiply_node;
        let multiply_id = multiply_node.node_definition_id;
        self.function_registry.register_node(multiply_node);
        self.evaluation_registry.register_evaluation(multiply_id, MathOperation::Multiply);

        let divide_node = binary_int_function_node("Divide".to_owned());
        let ghost d = divide_node;
        let divide_id = divide_node.node_definition_id;
        self.function_registry.register_node(divide_node);
        self.evaluation_registry.register_evaluation(divide_id, MathOperation::Divide);
        assert(is_binary_int_function_node(a, "Add"@) && is_binary_int_function_node(s, "Subtract"@)
            && is_binary_int_function_node(m, "Multiply"@) && is_binary_int_function_node(d, "Divide"@));
    }
}

} // verus!
