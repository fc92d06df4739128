# vulkan_graph

A node-graph editor for building Vulkan programs out of nodes, with its model
verified by Verus.

- `src/` is the verified library. It holds three models side by side:
  - `definition`, `instance`, `registry`, `app` (with `app::vulkan` and
    `app::register_math`) and the `GraphState`/`UserResponse` pair in
    `lib.rs`: the model that the editor window draws (`app::register_math`
    registers the arithmetic function nodes of the evaluation model below,
    with their verified evaluations);
  - `graph_core` and its submodules: definitions with port kinds, node
    instances with their ports by identifier, graphs with data and
    execution connections, registries of definitions and evaluations, and
    the executable chain nodes (`math_nodes`, `print_node`, `start_node`);
  - `node_definition`, `port_definition`, `node_instance`, `port_instance`,
    `node_registry`, `node_graph` and `eval_registry`: the data-flow model
    with fixed port identifiers.
  Identifiers are the 128-bit values of random version-4 UUIDs (`ids`).
- `app/` is the editor window: eframe and egui_node_graph2 glue that wraps
  the library's types and implements the graph editor's traits on them.
- `tests/` exercise the library on concrete values.
