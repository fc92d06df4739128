//! Executable integer nodes: addition and subtraction of two inputs.
use vstd::prelude::*;

use crate::graph_core::{AnyGraphNode, GraphNode, GraphNodePort};

verus! {

/// Subtracts input `b` from input `a`.
pub struct SubtractNode {
    pub next: Option<Box<AnyGraphNode>>,
    pub input_a: GraphNodePort<i32>,
    pub input_b: GraphNodePort<i32>,
    pub output: GraphNodePort<i32>,
}

impl GraphNode for SubtractNode {
    /// The difference of two present inputs fits in an `i32`.
    open spec fn can_execute(&self) -> bool {
        (self.input_a.value is Some && self.input_b.value is Some) ==> i32::MIN <= self.input_a.value->0
            - self.input_b.value->0 <= i32::MAX
    }

    /// The output holds `a - b` where both inputs hold a value and is kept
    /// otherwise; the inputs and the successor stay as they were.
    open spec fn executes_to(&self, after: &Self) -> bool {
        &&& after.input_a == self.input_a
        &&& after.input_b == self.input_b
        &&& after.next == self.next
        &&& match (self.input_a.value, self.input_b.value) {
            (Some(a), Some(b)) => after.output.value matches Some(r) && r == a - b,
            _ => after.output.value == self.output.value,
        }
    }

    open spec fn next_spec(&self) -> Option<Box<AnyGraphNode>> {
        self.next
    }

    fn execute_node(&mut self) {
        if self.input_a.value.is_some() && self.input_b.value.is_some() {
            self.output.value = Some(self.input_a.value.unwrap() - self.input_b.value.unwrap())
        }
    }

    fn next_node(&self) -> (next: &Option<Box<AnyGraphNode>>) {
        &self.next
    }
}

/// Adds inputs `a` and `b`.
pub struct AddNode {
    pub next: Option<Box<AnyGraphNode>>,
    pub input_a: GraphNodePort<i32>,
    pub input_b: GraphNodePort<i32>,
    pub output: GraphNodePort<i32>,
}

impl GraphNode for AddNode {
    /// The sum of two present inputs fits in an `i32`.
    open spec fn can_execute(&self) -> bool {
        (self.input_a.value is Some && self.input_b.value is Some) ==> i32::MIN <= self.input_a.value->0
            + self.input_b.value->0 <= i32::MAX
    }

    /// The output holds `a + b` where both inputs hold a value and is kept
    /// otherwise; the inputs and the successor stay as they were.
    open spec fn executes_to(&self, after: &Self) -> bool {
        &&& after.input_a == self.input_a
        &&& after.input_b == self.input_b
        &&& after.next == self.next
        &&& match (self.input_a.value, self.input_b.value) {
            (Some(a), Some(b)) => after.output.value matches Some(r) && r == a + b,
            _ => after.output.value == self.output.value,
        }
    }

    open spec fn next_spec(&self) -> Option<Box<AnyGraphNode>> {
        self.next
    }

    fn execute_node(&mut self) {
        if self.input_a.value.is_some() && self.input_b.value.is_some() {
            self.output.value = Some(self.input_a.value.unwrap() + self.input_b.value.unwrap())
        }
    }

    fn next_node(&self) -> (next: &Option<Box<AnyGraphNode>>) {
        &self.next
    }
}

/// A subtract node that ran with inputs `a` and `b` holds at its output the
/// number that, added to `b`, gives `a`.
pub proof fn lemma_subtract_node_output_is_difference(
    before: SubtractNode,
    after: SubtractNode,
    a: i32,
    b: i32,
)
    requires
        before.executes_to(&after),
        before.input_a.value == Some(a),
        before.input_b.value == Some(b),
    ensures
        after.output.value is Some,
        after.output.value->0 + b == a,
{
}

/// Subtraction is antisymmetric: two subtract nodes that ran on the same
/// inputs in swapped order hold opposite outputs, which differ unless the
/// inputs are equal.
pub proof fn lemma_subtract_node_is_antisymmetric(
    first: SubtractNode,
    first_after: SubtractNode,
    second: SubtractNode,
    second_after: SubtractNode,
    x: i32,
    y: i32,
)
    requires
        first.executes_to(&first_after),
        second.executes_to(&second_after),
        first.input_a.value == Some(x),
        first.input_b.value == Some(y),
        second.input_a.value == Some(y),
        second.input_b.value == Some(x),
    ensures
        first_after.output.value is Some && second_after.output.value is Some,
        first_after.output.value->0 == -second_after.output.value->0,
        x != y ==> first_after.output.value != second_after.output.value,
{
}

/// An add node that ran with inputs `a` and `b` holds at its output the
/// number that, less `b`, gives `a`, for inputs of either sign.
pub proof fn lemma_add_node_output_is_sum(before: AddNode, after: AddNode, a: i32, b: i32)
    requires
        before.executes_to(&after),
        before.input_a.value == Some(a),
        before.input_b.value == Some(b),
    ensures
        after.output.value is Some,
        after.output.value->0 - b == a,
        b < 0 ==> after.output.value->0 < a,
        b > 0 ==> after.output.value->0 > a,
{
}

/// Addition is commutative: two add nodes that ran on the same inputs in
/// swapped order hold the same output.
pub proof fn lemma_add_node_is_commutative(
    first: AddNode,
    first_after: AddNode,
    second: AddNode,
    second_after: AddNode,
    x: i32,
    y: i32,
)
    requires
        first.executes_to(&first_after),
        second.executes_to(&second_after),
        first.input_a.value == Some(x),
        first.input_b.value == Some(y),
        second.input_a.value == Some(y),
        second.input_b.value == Some(x),
    ensures
        first_after.output.value is Some,
        first_after.output.value == second_after.output.value,
{
}

} // verus!
