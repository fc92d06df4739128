//! The registry of node definitions that the editor offers.
use std::collections::HashMap;
use vstd::prelude::*;
use vstd::std_specs::iter::IteratorSpec;

use crate::definition::{NodeDefinition, NodeDefinitionId, NodeDefinitionView};

verus! {

broadcast use vstd::std_specs::hash::group_hash_axioms;

/// The node definitions known to the editor, by identifier.
pub struct NodeRegistry {
    pub node_definitions: HashMap<NodeDefinitionId, NodeDefinition>,
}

impl View for NodeRegistry {
    type V = Map<NodeDefinitionId, NodeDefinition>;

    open spec fn view(&self) -> Map<NodeDefinitionId, NodeDefinition> {
        self.node_definitions@
    }
}

/// `kinds` lists the definitions of `m` one by one: each key of `m` once, in
/// some order, and its definition at that place.
pub open spec fn lists_each_definition_once(
    kinds: Seq<NodeDefinitionView>,
    m: Map<NodeDefinitionId, NodeDefinition>,
) -> bool {
    exists|keys: Seq<NodeDefinitionId>|
        #![trigger keys.to_set()]
        {
            &&& keys.no_duplicates()
            &&& keys.to_set() == m.dom()
            &&& kinds.len() == keys.len()
            &&& forall|i: int| 0 <= i < keys.len() ==> kinds[i] == #[trigger] m[keys[i]]@
        }
}

impl NodeRegistry {
    /// Every registered definition, each once, in the order in which the map
    /// is walked.
    pub fn all_kinds(&self) -> (kinds: Vec<NodeDefinition>)
        ensures
            lists_each_definition_once(kinds@.map_values(|d: NodeDefinition| d@), self@),
    {
        let mut kinds: Vec<NodeDefinition> = Vec::new();
        let ghost m = self@;
        let ghost pairs = vstd::std_specs::hash::spec_hash_map_iter(&self.node_definitions).remaining();
        for entry in it: self.node_definitions.iter()
            invariant
                it.seq() == pairs,
                pairs.no_duplicates(),
                kinds.len() == it.index(),
                forall|i: int| 0 <= i < it.index() ==> #[trigger] kinds@[i]@ == (*it.seq()[i].1)@,
        {
            let (_, definition) = entry;
            kinds.push(definition.clone());
        }
        proof {
            let keys = crate::collections::lemma_walk_visits_each_key_once(m, pairs);
            let views = kinds@.map_values(|d: NodeDefinition| d@);
            assert forall|i: int| 0 <= i < keys.len() implies views[i] == #[trigger] m[keys[i]]@ by {
                assert(m[keys[i]] == *pairs[i].1);
            }
            assert(lists_each_definition_once(views, m));
        }
        kinds
    }
}

impl Clone for NodeRegistry {
    fn clone(&self) -> (copy: Self)
        ensures
            copy@ == self@,
    {
        NodeRegistry { node_definitions: self.node_definitions.clone() }
    }
}

} // verus!
