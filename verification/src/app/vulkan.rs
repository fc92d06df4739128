//! The Vulkan node definitions that the editor registers.
use vstd::prelude::*;

use crate::app::App;
use crate::definition::{NodeDefinition, PortDefinition, PortType};
use vstd::std_specs::cmp::PartialEqSpec;

verus! {

broadcast use vstd::std_specs::hash::group_hash_axioms;

/// `ports` are, in order, ports with these names and types.
pub open spec fn ports_are(ports: Seq<PortDefinition>, shape: Seq<(Seq<char>, PortType)>) -> bool {
    &&& ports.len() == shape.len()
    &&& forall|i: int|
        0 <= i < ports.len() ==> (#[trigger] ports[i]).name@ == shape[i].0 && ports[i].port_type
            == shape[i].1
}

/// `d` has this name and these input and output ports.
pub open spec fn definition_is(
    d: NodeDefinition,
    name: Seq<char>,
    inputs: Seq<(Seq<char>, PortType)>,
    outputs: Seq<(Seq<char>, PortType)>,
) -> bool {
    &&& d.name@ == name
    &&& ports_are(d.input_ports@, inputs)
    &&& ports_are(d.output_ports@, outputs)
}

/// The `VkApplicationInfo` node: the fields of the structure in, the
/// structure out.
pub open spec fn is_application_info_node(d: NodeDefinition) -> bool {
    definition_is(
        d,
        "VkApplicationInfo"@,
        seq![
            ("sType"@, PortType::VkStructureType),
            ("Application Name"@, PortType::String),
            ("Application Version"@, PortType::Int),
            ("Engine Name"@, PortType::String),
            ("Engine Version"@, PortType::Int),
            ("API Version"@, PortType::Int),
        ],
        seq![("VkApplicationInfo"@, PortType::VkApplicationInfo)],
    )
}

/// The `VkInstanceCreateInfo` node.
pub open spec fn is_instance_create_info_node(d: NodeDefinition) -> bool {
    definition_is(
        d,
        "VkInstanceCreateInfo"@,
        seq![
            ("sType"@, PortType::VkStructureType),
            ("Application Info"@, PortType::VkApplicationInfo),
        ],
        seq![("VkCreateInfo"@, PortType::VkCreateInfo)],
    )
}

/// The `vkCreateInstance` node: execution flow and create-info in,
/// execution flow and instance out.
pub open spec fn is_create_instance_node(d: NodeDefinition) -> bool {
    definition_is(
        d,
        "vkCreateInstance"@,
        seq![(Seq::<char>::empty(), PortType::Exec), ("VkCreateInfo"@, PortType::VkCreateInfo)],
        seq![(Seq::<char>::empty(), PortType::Exec), ("VkInstance"@, PortType::VkInstance)],
    )
}

/// The `vkEnumeratePhysicalDevices` node: execution flow and instance in,
/// execution flow and the list of physical devices out.
pub open spec fn is_enumerate_physical_devices_node(d: NodeDefinition) -> bool {
    definition_is(
        d,
        "vkEnumeratePhysicalDevices"@,
        seq![(Seq::<char>::empty(), PortType::Exec), ("VkInstance"@, PortType::VkInstance)],
        seq![
            (Seq::<char>::empty(), PortType::Exec),
            ("VkPhysicalDevices"@, PortType::VecVkPhysicalDevice),
        ],
    )
}

/// Registering four definitions under fresh identifiers keeps every earlier
/// one: where the four identifiers differ from each other and from every
/// registered identifier, the registry grows by four and every earlier
/// definition stays under its identifier. (Identifiers are drawn at random,
/// so a draw that repeats a registered identifier replaces that definition.)
pub proof fn lemma_fresh_registrations_keep_earlier<V>(
    registered: Map<u128, V>,
    ka: u128,
    a: V,
    kb: u128,
    b: V,
    kc: u128,
    c: V,
    kd: u128,
    d: V,
)
    requires
        registered.dom().finite(),
        ka != kb && ka != kc && ka != kd && kb != kc && kb != kd && kc != kd,
        !registered.contains_key(ka),
        !registered.contains_key(kb),
        !registered.contains_key(kc),
        !registered.contains_key(kd),
    ensures
        registered.insert(ka, a).insert(kb, b).insert(kc, c).insert(kd, d).len() == registered.len() + 4,
        forall|k: u128|
            #[trigger] registered.contains_key(k) ==> registered.insert(ka, a).insert(kb, b).insert(
                kc,
                c,
            ).insert(kd, d).contains_key(k) && registered.insert(ka, a).insert(kb, b).insert(kc, c).insert(
                kd,
                d,
            )[k] == registered[k],
{
    let r1 = registered.insert(ka, a);
    let r2 = r1.insert(kb, b);
    let r3 = r2.insert(kc, c);
    assert(r1.len() == registered.len() + 1);
    assert(r2.len() == r1.len() + 1);
    assert(r3.len() == r2.len() + 1);
    assert(r3.insert(kd, d).len() == r3.len() + 1);
}

/// The Vulkan nodes connect in a chain: each structure that a node takes is
/// produced, with a port of the same type, by the node before it. The
/// application info feeds the instance create info, that feeds the creation
/// of the instance, whose instance and execution flow feed the enumeration of
/// physical devices. Ports of different structures do not connect.
pub proof fn lemma_vulkan_nodes_connect_in_a_chain(
    info: NodeDefinition,
    create_info: NodeDefinition,
    create: NodeDefinition,
    enumerate: NodeDefinition,
)
    requires
        is_application_info_node(info),
        is_instance_create_info_node(create_info),
        is_create_instance_node(create),
        is_enumerate_physical_devices_node(enumerate),
    ensures
        info.output_ports@[0].eq_spec(&create_info.input_ports@[1]),
        create_info.output_ports@[0].eq_spec(&create.input_ports@[1]),
        create.output_ports@[1].eq_spec(&enumerate.input_ports@[1]),
        create.output_ports@[0].eq_spec(&enumerate.input_ports@[0]),
        !info.output_ports@[0].eq_spec(&create.input_ports@[1]),
        !create_info.output_ports@[0].eq_spec(&create_info.input_ports@[1]),
        !create_info.output_ports@[0].eq_spec(&enumerate.input_ports@[1]),
        !info.output_ports@[0].eq_spec(&info.input_ports@[0]),
        !create_info.input_ports@[0].eq_spec(&create_info.input_ports@[1]),
{
    assert(info.output_ports@[0].port_type == PortType::VkApplicationInfo);
    assert(create_info.input_ports@[0].port_type == PortType::VkStructureType);
    assert(create_info.input_ports@[1].port_type == PortType::VkApplicationInfo);
    assert(create_info.output_ports@[0].port_type == PortType::VkCreateInfo);
    assert(create.input_ports@[1].port_type == PortType::VkCreateInfo);
    assert(create.output_ports@[0].port_type == PortType::Exec);
    assert(create.output_ports@[1].port_type == PortType::VkInstance);
    assert(enumerate.input_ports@[0].port_type == PortType::Exec);
    assert(enumerate.input_ports@[1].port_type == PortType::VkInstance);
    assert(info.input_ports@[0].port_type == PortType::VkStructureType);
}

impl App {
    /// Registers the four Vulkan nodes, each under its own fresh identifier,
    /// in this order: application info, instance create info, create
    /// instance, enumerate physical devices.
    pub fn register_vulkan_nodes(&mut self)
        ensures
            final(self).user_state == old(self).user_state,
            final(self).function_registry@ == old(self).function_registry@,
            final(self).evaluation_registry.evaluation_definitions@ == old(
                self,
            ).evaluation_registry.evaluation_definitions@,
            exists|a: NodeDefinition, b: NodeDefinition, c: NodeDefinition, d: NodeDefinition|
                {
                    &&& is_application_info_node(a)
                    &&& is_instance_create_info_node(b)
                    &&& is_create_instance_node(c)
                    &&& is_enumerate_physical_devices_node(d)
                    &&& final(self).node_registry@ == old(self).node_registry@.insert(
                        a.definition_id,
                        a,
                    ).insert(b.definition_id, b).insert(c.definition_id, c).insert(
                        d.definition_id,
                        d,
                    )
                },
    {
        let ghost before = self.node_registry@;
        self.register_application_info_node();
        let ghost a = choose|a: NodeDefinition|
            is_application_info_node(a) && self.node_registry@ == before.insert(a.definition_id, a);
        let ghost after_a = self.node_registry@;
        self.register_instance_create_info_node();
        let ghost b = choose|b: NodeDefinition|
            is_instance_create_info_node(b) && self.node_registry@ == after_a.insert(b.definition_id, b);
        let ghost after_b = self.node_registry@;
        self.register_create_instance_node();
        let ghost c = choose|c: NodeDefinition|
            is_create_instance_node(c) && self.node_registry@ == after_b.insert(c.definition_id, c);
        let ghost after_c = self.node_registry@;
        self.register_enumerate_physical_devices_node();
        let ghost d = choose|d: NodeDefinition|
            is_enumerate_physical_devices_node(d) && self.node_registry@ == after_c.insert(d.definition_id, d);
        assert(is_application_info_node(a) && is_instance_create_info_node(b)
            && is_create_instance_node(c) && is_enumerate_physical_devices_node(d));
    }

    fn register_application_info_node(&mut self)
        ensures
            final(self).user_state == old(self).user_state,
            final(self).function_registry@ == old(self).function_registry@,
            final(self).evaluation_registry.evaluation_definitions@ == old(
                self,
            ).evaluation_registry.evaluation_definitions@,
            exists|a: NodeDefinition|
                is_application_info_node(a) && final(self).node_registry@ == old(
                    self,
                ).node_registry@.insert(a.definition_id, a),
    {
        let application_info_node = NodeDefinition::new(
            "VkApplicationInfo".to_owned(),
            vec![
                PortDefinition::new("sType".to_owned(), PortType::VkStructureType),
                PortDefinition::new("Application Name".to_owned(), PortType::String),
                PortDefinition::new("Application Version".to_owned(), PortType::Int),
                PortDefinition::new("Engine Name".to_owned(), PortType::String),
                PortDefinition::new("Engine Version".to_owned(), PortType::Int),
                PortDefinition::new("API Version".to_owned(), PortType::Int),
            ],
            vec![PortDefinition::new("VkApplicationInfo".to_owned(), PortType::VkApplicationInfo)],
        );
        assert(is_application_info_node(application_info_node));
        let id = application_info_node.definition_id;
        self.node_registry.node_definitions.insert(id, application_info_node);
    }

    fn register_instance_create_info_node(&mut self)
        ensures
            final(self).user_state == old(self).user_state,
            final(self).function_registry@ == old(self).function_registry@,
            final(self).evaluation_registry.evaluation_definitions@ == old(
                self,
            ).evaluation_registry.evaluation_definitions@,
            exists|b: NodeDefinition|
                is_instance_create_info_node(b) && final(self).node_registry@ == old(
                    self,
                ).node_registry@.insert(b.definition_id, b),
    {
        let instance_create_info_node = NodeDefinition::new(
            "VkInstanceCreateInfo".to_owned(),
            vec![
                PortDefinition::new("sType".to_owned(), PortType::VkStructureType),
                PortDefinition::new("Application Info".to_owned(), PortType::VkApplicationInfo),
            ],
            vec![PortDefinition::new("VkCreateInfo".to_owned(), PortType::VkCreateInfo)],
        );
        assert(is_instance_create_info_node(instance_create_info_node));
        let id = instance_create_info_node.definition_id;
        self.node_registry.node_definitions.insert(id, instance_create_info_node);
    }

    fn register_create_instance_node(&mut self)
        ensures
            final(self).user_state == old(self).user_state,
            final(self).function_registry@ == old(self).function_registry@,
            final(self).evaluation_registry.evaluation_definitions@ == old(
                self,
            ).evaluation_registry.evaluation_definitions@,
            exists|c: NodeDefinition|
                is_create_instance_node(c) && final(self).node_registry@ == old(
                    self,
                ).node_registry@.insert(c.definition_id, c),
    {
        let create_instance_node = NodeDefinition::new(
            "vkCreateInstance".to_owned(),
            vec![
                PortDefinition::exec(),
                PortDefinition::new("VkCreateInfo".to_owned(), PortType::VkCreateInfo),
            ],
            vec![
                PortDefinition::exec(),
                PortDefinition::new("VkInstance".to_owned(), PortType::VkInstance),
            ],
        );
        assert(is_create_instance_node(create_instance_node));
        let id = create_instance_node.definition_id;
        self.node_registry.node_definitions.insert(id, create_instance_node);
    }

    fn register_enumerate_physical_devices_node(&mut self)
        ensures
            final(self).user_state == old(self).user_state,
            final(self).function_registry@ == old(self).function_registry@,
            final(self).evaluation_registry.evaluation_definitions@ == old(
                self,
            ).evaluation_registry.evaluation_definitions@,
            exists|d: NodeDefinition|
                is_enumerate_physical_devices_node(d) && final(self).node_registry@ == old(
                    self,
                ).node_registry@.insert(d.definition_id, d),
    {
        let enumerate_physical_devices_node = NodeDefinition::new(
            "vkEnumeratePhysicalDevices".to_owned(),
            vec![
                PortDefinition::exec(),
                PortDefinition::new("VkInstance".to_owned(), PortType::VkInstance),
            ],
            vec![
                PortDefinition::exec(),
                PortDefinition::new("VkPhysicalDevices".to_owned(), PortType::VecVkPhysicalDevice),
            ],
        );
        assert(is_enumerate_physical_devices_node(enumerate_physical_devices_node));
        let id = enumerate_physical_devices_node.definition_id;
        self.node_registry.node_definitions.insert(id, enumerate_physical_devices_node);
    }
}

} // verus!
