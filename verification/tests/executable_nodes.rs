use vulkan_graph::graph_core::{AnyGraphNode, GraphNode, GraphNodePort};
use vulkan_graph::math_nodes::{AddNode, SubtractNode};
use vulkan_graph::print_node::PrintNode;
use vulkan_graph::start_node::StartNode;

fn add(a: Option<i32>, b: Option<i32>) -> AddNode {
    AddNode {
        next: None,
        input_a: GraphNodePort { value: a },
        input_b: GraphNodePort { value: b },
        output: GraphNodePort { value: None },
    }
}

#[test]
fn add_node_adds_present_inputs() {
    let mut node = add(Some(2), Some(40));
    node.execute_node();
    assert_eq!(node.output.value, Some(42));
    assert_eq!(node.input_a.value, Some(2));
}

#[test]
fn add_node_waits_for_both_inputs() {
    let mut node = add(Some(2), None);
    node.output.value = Some(7);
    node.execute_node();
    assert_eq!(node.output.value, Some(7));
}

#[test]
fn subtract_node_subtracts_b_from_a() {
    let mut node = SubtractNode {
        next: None,
        input_a: GraphNodePort { value: Some(5) },
        input_b: GraphNodePort { value: Some(8) },
        output: GraphNodePort { value: None },
    };
    node.execute_node();
    assert_eq!(node.output.value, Some(-3));
    node.input_b.value = None;
    node.input_a.value = Some(100);
    node.execute_node();
    assert_eq!(node.output.value, Some(-3));
}

#[test]
fn start_node_hands_on_to_its_successor() {
    let mut start = StartNode::new();
    assert!(start.next_node().is_none());
    start.next = Some(Box::new(AnyGraphNode::Add(add(Some(1), Some(1)))));
    start.execute_node();
    start.propagate();
    let mut next = start.next.take().unwrap();
    next.execute_node();
    match *next {
        AnyGraphNode::Add(n) => assert_eq!(n.output.value, Some(2)),
        _ => panic!("the successor is the add node"),
    }
}

#[test]
fn chained_nodes_run_in_turn() {
    let sub = SubtractNode {
        next: None,
        input_a: GraphNodePort { value: Some(1) },
        input_b: GraphNodePort { value: Some(1) },
        output: GraphNodePort { value: None },
    };
    let mut first = add(Some(3), Some(4));
    first.next = Some(Box::new(AnyGraphNode::Subtract(sub)));
    let mut chain = AnyGraphNode::Add(first);
    chain.execute_node();
    assert!(chain.next_node().is_some());
    let AnyGraphNode::Add(mut n) = chain else { panic!("the chain starts with the add node") };
    assert_eq!(n.output.value, Some(7));
    let mut next = n.next.take().unwrap();
    next.execute_node();
    let AnyGraphNode::Subtract(s) = *next else { panic!("the successor is the subtract node") };
    assert_eq!(s.output.value, Some(0));
}

#[test]
fn print_node_leaves_itself_unchanged() {
    let mut node = PrintNode { input_value: GraphNodePort { value: Some("hello".to_owned()) }, next: None };
    node.execute_node();
    assert_eq!(node.input_value.value.as_deref(), Some("hello"));
    let mut empty = PrintNode { input_value: GraphNodePort { value: None }, next: None };
    empty.execute_node();
    assert!(empty.next_node().is_none());
}
