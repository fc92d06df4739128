use vulkan_graph::app::register_math::MathOperation;
use vulkan_graph::app::App;
use vulkan_graph::graph_core::definition::{NodeType, PortKind, PortType};
use vulkan_graph::graph_core::instance::{NodeInstance, PortValue};

fn set_input(node: &mut NodeInstance, name: &str, value: PortValue) {
    let id = node.get_input_by_name(name.to_owned()).unwrap();
    node.input_values.get_mut(&id.0).unwrap().port_value = value;
}

fn output(node: &NodeInstance) -> &PortValue {
    let id = node.get_output_by_name("Out".to_owned()).unwrap();
    &node.output_values[&id.0].port_value
}

fn math_app() -> App {
    let mut app = App::default();
    app.register_math_nodes();
    app
}

fn run(app: &App, name: &str, a: PortValue, b: PortValue) -> NodeInstance {
    let id = app.function_registry.find_by_name(name.to_owned()).unwrap();
    let definition = &app.function_registry.node_definitions[&id.0];
    let mut node = NodeInstance::from_definition(definition);
    set_input(&mut node, "A", a);
    set_input(&mut node, "B", b);
    let operation = app.evaluation_registry.evaluation_definitions[&id.0];
    operation.evaluate(&mut node);
    node
}

#[test]
fn math_nodes_are_registered_with_kinds() {
    let app = math_app();
    let mut names: Vec<String> = app.function_registry.all_kinds().iter().map(|d| d.name.clone()).collect();
    names.sort();
    assert_eq!(names, vec!["Add", "Divide", "Multiply", "Subtract"]);
    for d in app.function_registry.all_kinds() {
        assert_eq!(d.node_type, NodeType::Function);
        assert_eq!(d.input_ports.len(), 2);
        assert_eq!(d.input_ports[0].name, "A");
        assert_eq!(d.input_ports[1].name, "B");
        assert_eq!(d.output_ports.len(), 1);
        assert_eq!(d.output_ports[0].name, "Out");
        for p in d.input_ports.iter().chain(d.output_ports.iter()) {
            assert!(p.port_type == PortType::Int);
            assert_eq!(p.port_kind, PortKind::Data);
        }
    }
    assert!(app.node_registry.node_definitions.is_empty());
}

#[test]
fn each_math_node_has_its_operation() {
    let app = math_app();
    for (name, op) in [
        ("Add", MathOperation::Add),
        ("Subtract", MathOperation::Subtract),
        ("Multiply", MathOperation::Multiply),
        ("Divide", MathOperation::Divide),
    ] {
        let id = app.function_registry.find_by_name(name.to_owned()).unwrap();
        assert_eq!(app.evaluation_registry.evaluation_definitions[&id.0], op);
    }
}

#[test]
fn math_nodes_evaluate_seven_and_three() {
    let app = math_app();
    for (name, expected) in [("Add", 10), ("Subtract", 4), ("Multiply", 21), ("Divide", 2)] {
        let node = run(&app, name, PortValue::Int(7), PortValue::Int(3));
        assert!(matches!(output(&node), PortValue::Int(v) if *v == expected), "{name}");
    }
}

#[test]
fn division_truncates_toward_zero() {
    let app = math_app();
    let node = run(&app, "Divide", PortValue::Int(-7), PortValue::Int(2));
    assert!(matches!(output(&node), PortValue::Int(-3)));
    assert_eq!(MathOperation::Divide.apply(7, -2), Some(-3));
}

#[test]
fn undefined_results_have_no_value() {
    assert_eq!(MathOperation::Divide.apply(7, 0), None);
    assert_eq!(MathOperation::Divide.apply(i32::MIN, -1), None);
    assert_eq!(MathOperation::Add.apply(i32::MAX, 1), None);
    assert_eq!(MathOperation::Multiply.apply(1 << 16, 1 << 16), None);
    assert_eq!(MathOperation::Subtract.apply(i32::MIN, 1), None);
    assert_eq!(MathOperation::Add.apply(-4, 9), Some(5));
}

#[test]
fn evaluation_leaves_inputs_alone() {
    let app = math_app();
    let node = run(&app, "Subtract", PortValue::Int(i32::MIN), PortValue::Int(-1));
    assert!(matches!(output(&node), PortValue::Int(v) if *v == i32::MIN + 1));
    let a = node.get_input_by_name("A".to_owned()).unwrap();
    assert!(matches!(node.input_values[&a.0].port_value, PortValue::Int(i32::MIN)));
}
