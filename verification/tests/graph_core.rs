use std::collections::HashMap;

use vulkan_graph::graph_core::definition::{
    NodeDefinition, NodeDefinitionId, NodeType, PortDefinition, PortKind, PortType,
    VariableDefinition,
};
use vulkan_graph::graph_core::instance::{
    MyResponse, NodeInstance, NodeInstanceId, PortInstance, PortValue,
};
use vulkan_graph::graph_core::node_graph::NodeGraph;
use vulkan_graph::graph_core::registry::{EvaluationRegistry, NodeRegistry};

fn add_definition() -> NodeDefinition {
    NodeDefinition::new(
        "Add".to_owned(),
        NodeType::Function,
        vec![
            PortDefinition::new("A".to_owned(), PortType::Int, PortKind::Data),
            PortDefinition::new("B".to_owned(), PortType::Int, PortKind::Data),
        ],
        vec![PortDefinition::new("Out".to_owned(), PortType::Int, PortKind::Data)],
    )
}

#[test]
fn core_port_definition_new_keeps_its_parts() {
    let port = PortDefinition::new("A".to_owned(), PortType::Bool, PortKind::Exec);
    assert_eq!(port.name, "A");
    assert_eq!(port.port_kind, PortKind::Exec);
    assert!(port.port_type == PortType::Bool);
}

#[test]
fn initial_port_values_by_type() {
    assert!(matches!(PortValue::from_port_type(&PortType::String), PortValue::String(s) if s.is_empty()));
    assert!(matches!(PortValue::from_port_type(&PortType::Int), PortValue::Int(0)));
    assert!(matches!(PortValue::from_port_type(&PortType::Float), PortValue::Float(0)));
    assert!(matches!(PortValue::from_port_type(&PortType::Bool), PortValue::Bool(true)));
    assert!(matches!(PortValue::from_port_type(&PortType::Exec), PortValue::Exec));
    assert!(matches!(PortValue::default(), PortValue::NoValue));
}

#[test]
fn port_instance_new_belongs_to_its_node() {
    let node = NodeInstanceId(42);
    let definition = PortDefinition::new("Out".to_owned(), PortType::Int, PortKind::Data);
    let a = PortInstance::new(node, &definition);
    let b = PortInstance::new(node, &definition);
    assert_eq!(a.name, "Out");
    assert_eq!(a.node_instance_id, node);
    assert_eq!(a.port_kind, PortKind::Data);
    assert!(matches!(a.port_value, PortValue::Int(0)));
    assert_ne!(a.port_instance_id, b.port_instance_id);
}

#[test]
fn node_instance_has_a_port_per_definition_port() {
    let definition = add_definition();
    let node = NodeInstance::from_definition(&definition);
    assert_eq!(node.name, "Add");
    assert_eq!(node.node_definition_id, definition.node_definition_id);
    assert_eq!(node.input_values.len(), 2);
    assert_eq!(node.output_values.len(), 1);
    for (key, port) in node.input_values.iter().chain(node.output_values.iter()) {
        assert_eq!(*key, port.port_instance_id.0);
        assert_eq!(port.node_instance_id, node.node_instance_id);
    }
}

#[test]
fn ports_are_found_by_name() {
    let node = NodeInstance::from_definition(&add_definition());
    let a = node.get_input_by_name("A".to_owned()).unwrap();
    assert_eq!(node.input_values[&a.0].name, "A");
    let b = node.get_input_by_name("B".to_owned()).unwrap();
    assert_ne!(a, b);
    let out = node.get_output_by_name("Out".to_owned()).unwrap();
    assert_eq!(node.output_values[&out.0].name, "Out");
    assert_eq!(node.get_input_by_name("Out".to_owned()), None);
    assert_eq!(node.get_output_by_name("A".to_owned()), None);
}

#[test]
fn graph_holds_inserted_nodes_and_connections() {
    let mut graph = NodeGraph::new();
    let first = NodeInstance::from_definition(&add_definition());
    let second = NodeInstance::from_definition(&add_definition());
    let out = first.get_output_by_name("Out".to_owned()).unwrap();
    let a = second.get_input_by_name("A".to_owned()).unwrap();
    let b = second.get_input_by_name("B".to_owned()).unwrap();
    let from = (first.node_instance_id, out);
    let to_a = (second.node_instance_id, a);
    let to_b = (second.node_instance_id, b);
    graph.connect_data(&first.output_values[&out.0], &second.input_values[&a.0]);
    assert_eq!(graph.data_connections.get(from), Some(to_a));
    graph.connect_data(&first.output_values[&out.0], &second.input_values[&b.0]);
    assert_eq!(graph.data_connections.get(from), Some(to_b));
    assert_eq!(graph.data_connections.get(to_a), None);
    let first_id = first.node_instance_id;
    graph.insert(first);
    graph.insert(second);
    assert_eq!(graph.nodes.len(), 2);
    assert_eq!(graph.nodes[&first_id.0].name, "Add");
}

#[test]
fn exec_connections_are_kept_with_the_data_connections() {
    let mut graph = NodeGraph::new();
    let port = |node: u128, id: u128| PortInstance {
        name: String::new(),
        port_kind: PortKind::Exec,
        node_instance_id: NodeInstanceId(node),
        port_instance_id: vulkan_graph::graph_core::instance::PortInstanceId(id),
        port_value: PortValue::Exec,
    };
    graph.connect_exec(&port(1, 10), &port(2, 20));
    assert_eq!(
        graph.data_connections.get((NodeInstanceId(1), vulkan_graph::graph_core::instance::PortInstanceId(10))),
        Some((NodeInstanceId(2), vulkan_graph::graph_core::instance::PortInstanceId(20)))
    );
}

#[test]
fn core_port_type_names_and_colours() {
    assert_eq!(PortType::String.name(), "String");
    assert_eq!(PortType::Int.name(), "Int");
    assert_eq!(PortType::Float.name(), "Float");
    assert_eq!(PortType::Bool.name(), "Bool");
    assert_eq!(PortType::Exec.name(), "Exec");
    assert_eq!(PortType::Exec.data_type_color(), (38, 109, 211));
}

#[test]
fn registry_finds_definitions_by_name() {
    let mut registry = NodeRegistry::new();
    let add = add_definition();
    let add_id = add.node_definition_id;
    registry.register_node(add);
    assert_eq!(registry.find_by_name("Add".to_owned()), Some(add_id));
    assert_eq!(registry.find_by_name("Subtract".to_owned()), None);
    assert_eq!(registry.all_kinds().len(), 1);
    assert_eq!(registry.clone().all_kinds()[0].name, "Add");
}

#[test]
fn registering_the_same_id_replaces() {
    let mut registry = NodeRegistry::new();
    let add = add_definition();
    let mut renamed = add.clone();
    renamed.name = "Plus".to_owned();
    registry.register_node(add);
    registry.register_node(renamed);
    assert_eq!(registry.node_definitions.len(), 1);
    assert_eq!(registry.find_by_name("Add".to_owned()), None);
    assert!(registry.find_by_name("Plus".to_owned()).is_some());
}

fn double_first_int(node: &mut NodeInstance, _variables: &mut HashMap<u128, VariableDefinition>) {
    for port in node.output_values.values_mut() {
        port.port_value = PortValue::Int(2);
    }
}

#[test]
fn evaluations_are_registered_by_definition() {
    let mut registry: EvaluationRegistry<fn(&mut NodeInstance, &mut HashMap<u128, VariableDefinition>)> =
        EvaluationRegistry::new();
    assert!(registry.evaluation_definitions.is_empty());
    let id = NodeDefinitionId(5);
    registry.register_evaluation(id, double_first_int);
    let mut node = NodeInstance::from_definition(&add_definition());
    let mut variables = HashMap::new();
    (registry.evaluation_definitions[&5])(&mut node, &mut variables);
    assert!(node.output_values.values().all(|p| matches!(p.port_value, PortValue::Int(2))));
}

#[test]
fn my_response_compares_by_value() {
    assert_eq!(MyResponse::SetActiveNode(3), MyResponse::SetActiveNode(3));
    assert_ne!(MyResponse::SetActiveNode(3), MyResponse::ClearActiveNode);
}
