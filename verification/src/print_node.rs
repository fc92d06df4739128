//! The executable node that prints its input.
use std::io::Write;
use vstd::prelude::*;

use crate::graph_core::{AnyGraphNode, GraphNode, GraphNodePort};

verus! {

/// Writes `text` and a line break to standard output with `writeln!` on
/// `std::io::stdout()`. Nothing is promised of the output; an error in
/// writing is dropped.
#[verifier::external_body]
fn print_line(text: &String) {
    let _ = writeln!(std::io::stdout(), "{}", text);
}

/// Prints the text at its input, if there is one.
pub struct PrintNode {
    pub input_value: GraphNodePort<String>,
    pub next: Option<Box<AnyGraphNode>>,
}

impl GraphNode for PrintNode {
    open spec fn can_execute(&self) -> bool {
        true
    }

    /// Printing leaves the node as it was.
    open spec fn executes_to(&self, after: &Self) -> bool {
        *after == *self
    }

    open spec fn next_spec(&self) -> Option<Box<AnyGraphNode>> {
        self.next
    }

    fn execute_node(&mut self) {
        if let Some(v) = &self.input_value.value {
            print_line(v);
        }
    }

    fn next_node(&self) -> (next: &Option<Box<AnyGraphNode>>) {
        &self.next
    }
}

} // verus!
