use vulkan_graph::eval_registry::EvalRegistry;
use vulkan_graph::node_definition::{NodeDefId, NodeDefinition, NodeKind};
use vulkan_graph::node_graph::NodeGraph;
use vulkan_graph::node_instance::NodeInstance;
use vulkan_graph::node_registry::NodeRegistry;
use vulkan_graph::port_definition::{PortDefId, PortDefinition, PortType};
use vulkan_graph::port_instance::{DataPortInstance, ExecPortInstance};

fn multiply() -> NodeDefinition {
    NodeDefinition {
        id: NodeDefId("math.multiply"),
        name: "Multiply".to_owned(),
        kind: NodeKind::Pure,
        input_ports: vec![
            PortDefinition { id: PortDefId("a"), name: "A".to_owned(), port_type: PortType::UInt },
            PortDefinition { id: PortDefId("b"), name: "B".to_owned(), port_type: PortType::UInt },
        ],
        output_ports: vec![PortDefinition {
            id: PortDefId("out"),
            name: "Out".to_owned(),
            port_type: PortType::UInt,
        }],
        exec_in_count: 1,
        exec_out_count: 2,
    }
}

#[test]
fn data_port_starts_without_value() {
    let a = DataPortInstance::new(PortDefId("a"));
    let b = DataPortInstance::new(PortDefId("a"));
    assert_eq!(a.def_id, PortDefId("a"));
    assert!(a.value.is_none());
    assert_ne!(a.id, b.id);
    let _ = ExecPortInstance::new();
}

#[test]
fn node_instance_mirrors_its_definition() {
    let def = multiply();
    let node = NodeInstance::from_def(&def);
    assert_eq!(node.def_id, NodeDefId("math.multiply"));
    assert_eq!(node.input_ports.len(), 2);
    assert_eq!(node.input_ports[0].def_id, PortDefId("a"));
    assert_eq!(node.input_ports[1].def_id, PortDefId("b"));
    assert_eq!(node.output_ports.len(), 1);
    assert_eq!(node.output_ports[0].def_id, PortDefId("out"));
    assert!(node.input_ports.iter().all(|p| p.value.is_none()));
    assert_eq!(node.exec_in_ports.len(), 1);
    assert_eq!(node.exec_out_ports.len(), 2);
    assert_ne!(node.input_ports[0].id, node.input_ports[1].id);
    assert_ne!(node.id, NodeInstance::from_def(&def).id);
}

#[test]
fn registry_keeps_one_definition_per_id() {
    let mut registry = NodeRegistry::new();
    registry.register_node(multiply());
    let mut other = multiply();
    other.name = "Times".to_owned();
    registry.register_node(other);
    let mut add = multiply();
    add.id = NodeDefId("math.add");
    registry.register_node(add);
    assert_eq!(registry.node_definitions.len(), 2);
    assert_eq!(registry.node_definitions[0].0, NodeDefId("math.multiply"));
    assert_eq!(registry.node_definitions[0].1.name, "Times");
    assert_eq!(registry.node_definitions[1].0, NodeDefId("math.add"));
}

#[test]
fn new_graph_and_eval_registry_are_empty() {
    let graph = NodeGraph::new();
    assert!(graph.nodes.is_empty());
    let handlers: EvalRegistry<fn(&mut NodeInstance, &NodeGraph)> = EvalRegistry::new();
    assert!(handlers.exec_handlers.is_empty());
}
