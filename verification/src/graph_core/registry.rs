//! Registries of the evaluation model: node definitions, and the evaluation
//! of each definition.
use std::collections::HashMap;
use vstd::prelude::*;
use vstd::std_specs::iter::IteratorSpec;

use crate::graph_core::definition::{NodeDefinition, NodeDefinitionId, NodeDefinitionView};

verus! {

broadcast use vstd::std_specs::hash::group_hash_axioms;

/// The node definitions, each under the value of its identifier.
pub struct NodeRegistry {
    pub node_definitions: HashMap<u128, NodeDefinition>,
}

impl View for NodeRegistry {
    type V = Map<u128, NodeDefinition>;

    open spec fn view(&self) -> Map<u128, NodeDefinition> {
        self.node_definitions@
    }
}

/// The answer of a search of `m` for a definition named `name`: the
/// identifier of some definition of that name where there is one, and
/// `None` where there is none.
pub open spec fn finds_definition_named(
    found: Option<NodeDefinitionId>,
    m: Map<u128, NodeDefinition>,
    name: Seq<char>,
) -> bool {
    match found {
        Some(id) => m.contains_key(id.0) && m[id.0].name@ == name,
        None => forall|k: u128| #[trigger] m.contains_key(k) ==> m[k].name@ != name,
    }
}

/// Whether some definition of `m` is named `name`.
pub open spec fn has_definition_named(m: Map<u128, NodeDefinition>, name: Seq<char>) -> bool {
    exists|k: u128| #[trigger] m.contains_key(k) && m[k].name@ == name
}

/// `kinds` lists the definitions of `m` one by one: each key of `m` once, in
/// some order, and its definition at that place.
pub open spec fn lists_each_definition_once(
    kinds: Seq<NodeDefinitionView>,
    m: Map<u128, NodeDefinition>,
) -> bool {
    exists|keys: Seq<u128>|
        #![trigger keys.to_set()]
        {
            &&& keys.no_duplicates()
            &&& keys.to_set() == m.dom()
            &&& kinds.len() == keys.len()
            &&& forall|i: int| 0 <= i < keys.len() ==> kinds[i] == #[trigger] m[keys[i]]@
        }
}

impl NodeRegistry {
    /// An empty registry.
    pub fn new() -> (registry: Self)
        ensures
            registry@ == Map::<u128, NodeDefinition>::empty(),
    {
        Self { node_definitions: HashMap::new() }
    }

    /// Registers a definition under the value of its identifier, replacing
    /// the definition that had it.
    pub fn register_node(&mut self, node_definition: NodeDefinition)
        ensures
            final(self)@ == old(self)@.insert(
                node_definition.node_definition_id.0,
                node_definition,
            ),
    {
        self.node_definitions.insert(node_definition.node_definition_id.0, node_definition);
    }

    /// The identifier of some definition named `name`, or `None` where no
    /// definition has that name.
    pub fn find_by_name(&self, name: String) -> (found: Option<NodeDefinitionId>)
        ensures
            finds_definition_named(found, self@, name@),
            found is Some <==> has_definition_named(self@, name@),
    {
        let ghost pairs = vstd::std_specs::hash::spec_hash_map_iter(&self.node_definitions).remaining();
        for entry in it: self.node_definitions.iter()
            invariant
                it.seq() == pairs,
                forall|i: int| 0 <= i < it.index() ==> (*(#[trigger] pairs[i]).1).name@ != name@,
        {
            let (id, definition) = entry;
            if definition.name == name {
                return Some(NodeDefinitionId(*id));
            }
        }
        proof {
            assert forall|k: u128| #[trigger] self@.contains_key(k) implies self@[k].name@ != name@ by {
                assert(pairs.contains((&k, &self@[k])));
            }
        }
        None
    }

    /// Every registered definition, each once, in the order in which the map
    /// is walked.
    pub fn all_kinds(&self) -> (kinds: Vec<NodeDefinition>)
        ensures
            lists_each_definition_once(kinds@.map_values(|d: NodeDefinition| d@), self@),
    {
        let mut kinds: Vec<NodeDefinition> = Vec::new();
        let ghost m = self@;
        let ghost pairs = vstd::std_specs::hash::spec_hash_map_iter(&self.node_definitions).remaining();
        for entry in it: self.node_definitions.iter()
            invariant
                it.seq() == pairs,
                pairs.no_duplicates(),
                kinds.len() == it.index(),
                forall|i: int| 0 <= i < it.index() ==> #[trigger] kinds@[i]@ == (*it.seq()[i].1)@,
        {
            let (_, definition) = entry;
            kinds.push(definition.clone());
        }
        proof {
            let keys = crate::collections::lemma_walk_visits_each_key_once(m, pairs);
            let views = kinds@.map_values(|d: NodeDefinition| d@);
            assert forall|i: int| 0 <= i < keys.len() implies views[i] == #[trigger] m[keys[i]]@ by {
                assert(m[keys[i]] == *pairs[i].1);
            }
            assert(lists_each_definition_once(views, m));
        }
        kinds
    }
}

impl Clone for NodeRegistry {
    fn clone(&self) -> (copy: Self)
        ensures
            copy@ == self@,
    {
        NodeRegistry { node_definitions: self.node_definitions.clone() }
    }
}

/// A registered definition is found by its name: once `d` is registered,
/// a search for its name finds a definition of that name.
pub proof fn lemma_registered_name_is_found(m: Map<u128, NodeDefinition>, d: NodeDefinition)
    ensures
        has_definition_named(m.insert(d.node_definition_id.0, d), d.name@),
{
    assert(m.insert(d.node_definition_id.0, d).contains_key(d.node_definition_id.0));
}

/// The evaluation of each node definition, under the value of the
/// definition's identifier. An evaluation is a value of type `F`, such as a
/// function that updates a node instance and the variables.
pub struct EvaluationRegistry<F> {
    pub evaluation_definitions: HashMap<u128, F>,
}

impl<F> EvaluationRegistry<F> {
    /// An empty registry.
    pub fn new() -> (registry: Self)
        ensures
            registry.evaluation_definitions@ == Map::<u128, F>::empty(),
    {
        Self { evaluation_definitions: HashMap::new() }
    }

    /// Registers the evaluation of a definition, replacing the one it had.
    pub fn register_evaluation(&mut self, node_definition_id: NodeDefinitionId, evaluation_definition: F)
        ensures
            final(self).evaluation_definitions@ == old(self).evaluation_definitions@.insert(
                node_definition_id.0,
                evaluation_definition,
            ),
    {
        self.evaluation_definitions.insert(node_definition_id.0, evaluation_definition);
    }
}

} // verus!
