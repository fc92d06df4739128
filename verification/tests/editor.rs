use vulkan_graph::app::App;
use vulkan_graph::definition::{NodeDefinition, PortDefinition, PortType};
use vulkan_graph::instance::{PortInstance, PortValue};
use vulkan_graph::registry::NodeRegistry;
use vulkan_graph::{GraphState, UserResponse};

fn names_of(registry: &NodeRegistry) -> Vec<String> {
    let mut names: Vec<String> = registry
        .all_kinds()
        .iter()
        .map(|d| d.name.clone())
        .collect();
    names.sort();
    names
}

#[test]
fn port_definition_new_keeps_name_and_type() {
    let port = PortDefinition::new("Engine Name".to_owned(), PortType::String);
    assert_eq!(port.name, "Engine Name");
    assert!(port.port_type == PortType::String);
}

#[test]
fn exec_port_is_unnamed() {
    let port = PortDefinition::exec();
    assert_eq!(port.name, "");
    assert!(port.port_type == PortType::Exec);
}

#[test]
fn port_definitions_compare_by_type_only() {
    let a = PortDefinition::new("A".to_owned(), PortType::Int);
    let b = PortDefinition::new("B".to_owned(), PortType::Int);
    let c = PortDefinition::new("A".to_owned(), PortType::Float);
    assert!(a == b);
    assert!(a != c);
    assert!(a == a.clone());
}

#[test]
fn node_definitions_get_distinct_version_4_ids() {
    let a = NodeDefinition::new("X".to_owned(), vec![], vec![]);
    let b = NodeDefinition::new("X".to_owned(), vec![], vec![]);
    assert_ne!(a.definition_id, b.definition_id);
    for id in [a.definition_id, b.definition_id] {
        assert_eq!((id >> 76) & 0xf, 4);
        assert_eq!((id >> 62) & 0x3, 2);
    }
}

#[test]
fn node_definition_clone_keeps_everything() {
    let a = NodeDefinition::new(
        "Add".to_owned(),
        vec![PortDefinition::new("A".to_owned(), PortType::Int)],
        vec![PortDefinition::exec()],
    );
    let b = a.clone();
    assert_eq!(b.name, "Add");
    assert_eq!(b.definition_id, a.definition_id);
    assert_eq!(b.input_ports.len(), 1);
    assert_eq!(b.input_ports[0].name, "A");
    assert!(b.output_ports[0].port_type == PortType::Exec);
}

#[test]
fn default_app_is_empty() {
    let app = App::default();
    assert!(app.user_state.active_node.is_none());
    assert!(app.node_registry.node_definitions.is_empty());
}

#[test]
fn vulkan_nodes_are_registered() {
    let mut app = App::default();
    app.register_vulkan_nodes();
    assert_eq!(
        names_of(&app.node_registry),
        vec![
            "VkApplicationInfo",
            "VkInstanceCreateInfo",
            "vkCreateInstance",
            "vkEnumeratePhysicalDevices"
        ]
    );
    let kinds = app.node_registry.all_kinds();
    let info = kinds.iter().find(|d| d.name == "VkApplicationInfo").unwrap();
    assert_eq!(info.input_ports.len(), 6);
    assert_eq!(info.input_ports[1].name, "Application Name");
    assert!(info.input_ports[1].port_type == PortType::String);
    assert!(info.output_ports[0].port_type == PortType::VkApplicationInfo);
    let create = kinds.iter().find(|d| d.name == "vkCreateInstance").unwrap();
    assert!(create.input_ports[0].port_type == PortType::Exec);
    assert_eq!(create.input_ports[0].name, "");
    assert!(create.output_ports[1].port_type == PortType::VkInstance);
    let enumerate = kinds
        .iter()
        .find(|d| d.name == "vkEnumeratePhysicalDevices")
        .unwrap();
    assert!(enumerate.output_ports[1].port_type == PortType::VecVkPhysicalDevice);
}

#[test]
fn math_nodes_leave_the_editor_registry_alone() {
    let mut app = App::default();
    app.register_vulkan_nodes();
    app.register_math_nodes();
    assert_eq!(app.node_registry.all_kinds().len(), 4);
    assert_eq!(app.function_registry.node_definitions.len(), 4);
    assert_eq!(app.evaluation_registry.evaluation_definitions.len(), 4);
}

#[test]
fn click_toggles_the_active_node() {
    let mut state = GraphState { active_node: None };
    assert!(!state.is_active(7));
    let response = state.response_on_click(7);
    assert_eq!(response, UserResponse::SetActiveNode(7));
    state.apply_response(&response);
    assert_eq!(state.active_node, Some(7));
    assert!(state.is_active(7));
    assert!(!state.is_active(8));
    let response = state.response_on_click(7);
    assert_eq!(response, UserResponse::ClearActiveNode);
    state.apply_response(&response);
    assert_eq!(state.active_node, None);
}

#[test]
fn clicking_another_node_moves_activity() {
    let mut state = GraphState { active_node: Some(3) };
    let response = state.response_on_click(9);
    assert_eq!(response, UserResponse::SetActiveNode(9));
    state.apply_response(&response);
    assert!(state.is_active(9));
    assert!(!state.is_active(3));
}

#[test]
fn port_instances_start_with_the_initial_value_of_their_type() {
    let cases = [
        (PortType::String, "s"),
        (PortType::Int, "i"),
        (PortType::Float, "f"),
        (PortType::Bool, "b"),
        (PortType::Exec, "e"),
        (PortType::VkInstance, "v"),
    ];
    for (port_type, name) in cases {
        let port = PortInstance::from_definition(&PortDefinition::new(name.to_owned(), port_type));
        assert_eq!(port.name, name);
        match (port_type, &port.port_value) {
            (PortType::String, PortValue::String(s)) => assert_eq!(s, ""),
            (PortType::Int, PortValue::Int(0)) => {}
            (PortType::Float, PortValue::Float(bits)) => assert_eq!(f32::from_bits(*bits), 0.0),
            (PortType::Bool, PortValue::Bool(false)) => {}
            (PortType::Exec, PortValue::NoValue) => {}
            (PortType::VkInstance, PortValue::NoValue) => {}
            _ => panic!("unexpected initial value"),
        }
    }
}

#[test]
fn default_port_instance_is_unnamed_and_empty() {
    let port = PortInstance::default();
    assert_eq!(port.name, "");
    assert!(matches!(port.port_value, PortValue::NoValue));
}

#[test]
fn user_data_names_the_definition() {
    let d = NodeDefinition::new("Add".to_owned(), vec![], vec![]);
    let node = d.user_data();
    assert_eq!(node.name, "Add");
    assert_eq!(node.definition_id, d.definition_id);
}

#[test]
fn port_colours_follow_the_type() {
    let colour = |t| PortDefinition::new("p".to_owned(), t).data_type_color();
    assert_eq!(colour(PortType::Int), (38, 109, 211));
    assert_eq!(colour(PortType::Exec), (255, 255, 255));
    assert_eq!(colour(PortType::VkCreateInfo), (109, 38, 211));
    assert_eq!(colour(PortType::VkInstance), (211, 38, 211));
    assert_eq!(colour(PortType::VkStructureType), (100, 50, 211));
    assert_eq!(colour(PortType::VkApplicationInfo), (123, 45, 67));
    assert_eq!(colour(PortType::VkPhysicalDevice), (89, 101, 112));
    assert_eq!(colour(PortType::VecVkPhysicalDevice), (131, 41, 51));
}
