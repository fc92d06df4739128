//! The registry of node definitions of the data-flow model, by identifier.
use vstd::prelude::*;

use crate::node_definition::{NodeDefId, NodeDefinition};

verus! {

/// The node definitions, each under its identifier. Where two entries share
/// an identifier, the first one counts.
#[derive(Debug)]
pub struct NodeRegistry {
    pub node_definitions: Vec<(NodeDefId, NodeDefinition)>,
}

/// `i` is the first place of `entries` whose identifier is `key`.
pub open spec fn is_first_with_key(
    entries: Seq<(NodeDefId, NodeDefinition)>,
    key: Seq<char>,
    i: int,
) -> bool {
    &&& 0 <= i < entries.len()
    &&& entries[i].0.0@ == key
    &&& forall|j: int| 0 <= j < i ==> (#[trigger] entries[j]).0.0@ != key
}

/// The definitions that `entries` hold, by the text of their identifiers.
pub open spec fn entries_as_map(entries: Seq<(NodeDefId, NodeDefinition)>) -> Map<
    Seq<char>,
    NodeDefinition,
> {
    Map::new(
        |key: Seq<char>| exists|i: int| #[trigger] is_first_with_key(entries, key, i),
        |key: Seq<char>| entries[choose|i: int| #[trigger] is_first_with_key(entries, key, i)].1,
    )
}

impl View for NodeRegistry {
    type V = Map<Seq<char>, NodeDefinition>;

    open spec fn view(&self) -> Map<Seq<char>, NodeDefinition> {
        entries_as_map(self.node_definitions@)
    }
}

proof fn lemma_first_is_unique(entries: Seq<(NodeDefId, NodeDefinition)>, key: Seq<char>, i: int, j: int)
    requires
        is_first_with_key(entries, key, i),
        is_first_with_key(entries, key, j),
    ensures
        i == j,
{
    if i < j {
        assert(entries[i].0.0@ != key);
    } else if j < i {
        assert(entries[j].0.0@ != key);
    }
}

fn same_id(a: &NodeDefId, b: &NodeDefId) -> (same: bool)
    ensures
        same == (a.0@ == b.0@),
{
    a.0.to_owned() == b.0.to_owned()
}

impl NodeRegistry {
    /// An empty registry.
    pub fn new() -> (registry: Self)
        ensures
            registry@ == Map::<Seq<char>, NodeDefinition>::empty(),
    {
        let registry = NodeRegistry { node_definitions: Vec::new() };
        assert(registry@ =~= Map::<Seq<char>, NodeDefinition>::empty());
        registry
    }

    /// Registers a definition under its identifier, replacing the definition
    /// that had it.
    pub fn register_node(&mut self, node_definition: NodeDefinition)
        ensures
            final(self)@ == old(self)@.insert(node_definition.id.0@, node_definition),
    {
        let ghost before = self.node_definitions@;
        let ghost key = node_definition.id.0@;
        let mut i: usize = 0;
        let mut found = false;
        while i < self.node_definitions.len()
            invariant_except_break
                !found,
            invariant
                i <= self.node_definitions.len(),
                self.node_definitions@ == before,
                before == old(self).node_definitions@,
                key == node_definition.id.0@,
                forall|j: int| 0 <= j < i ==> (#[trigger] before[j]).0.0@ != key,
            ensures
                self.node_definitions@ == before,
                before == old(self).node_definitions@,
                found ==> is_first_with_key(before, key, i as int),
                !found ==> forall|j: int| 0 <= j < before.len() ==> (#[trigger] before[j]).0.0@ != key,
            decreases self.node_definitions.len() - i,
        {
            if same_id(&self.node_definitions[i].0, &node_definition.id) {
                found = true;
                break;
            }
            i = i + 1;
        }
        let entry = (node_definition.id.clone(), node_definition);
        if found {
            self.node_definitions.set(i, entry);
        } else {
            self.node_definitions.push(entry);
        }
        proof {
            let after = self.node_definitions@;
            let n: int = if found { i as int } else { before.len() as int };
            assert(after[n] == entry);
            assert(forall|k: int| 0 <= k < after.len() && k != n ==> after[k] == before[k]);
            assert(is_first_with_key(after, key, n));
            assert forall|k: Seq<char>| #[trigger] entries_as_map(after).contains_key(k)
                <==> entries_as_map(before).insert(key, entry.1).contains_key(k) by {
                if k != key {
                    if entries_as_map(before).contains_key(k) {
                        let f = choose|f: int| #[trigger] is_first_with_key(before, k, f);
                        assert(f != n);
                        assert(is_first_with_key(after, k, f));
                    }
                    if entries_as_map(after).contains_key(k) {
                        let f = choose|f: int| #[trigger] is_first_with_key(after, k, f);
                        assert(f != n);
                        assert(is_first_with_key(before, k, f));
                    }
                }
            }
            assert forall|k: Seq<char>| #[trigger] entries_as_map(after).contains_key(k)
                implies entries_as_map(after)[k] == entries_as_map(before).insert(key, entry.1)[k] by {
                let f = choose|f: int| #[trigger] is_first_with_key(after, k, f);
                if k == key {
                    lemma_first_is_unique(after, key, f, n);
                } else {
                    assert(f != n);
                    assert(is_first_with_key(before, k, f));
                    let g = choose|g: int| #[trigger] is_first_with_key(before, k, g);
                    lemma_first_is_unique(before, k, f, g);
                }
            }
            assert(entries_as_map(after) =~= entries_as_map(before).insert(key, entry.1));
        }
    }
}

} // verus!
