//! The nodes of a workflow, and how a request names one of them.

use vstd::prelude::*;

use crate::text::same_text;

verus! {

/// A state that a task can be in.
#[derive(PartialEq, Clone, Debug)]
pub struct FlowNode {
    pub id: u128,
    pub node_name: String,
}

/// A node as a request names it: by its identifier, or else by its name.
#[derive(Debug, Clone, PartialEq)]
pub struct FlowNodePayload {
    pub name: String,
    pub id: Option<u128>,
}

/// Whether `wanted` names `node`. Where the request gives an identifier,
/// only the identifier counts.
pub open spec fn names_node(wanted: FlowNodePayload, node: FlowNode) -> bool {
    match wanted.id {
        Some(id) => node.id == id,
        None => wanted.name@ == node.node_name@,
    }
}

/// The first of `nodes` that `node_to_find` names, if it names one.
pub fn find_node<'a>(nodes: &'a Vec<FlowNode>, node_to_find: &FlowNodePayload) -> (found: Option<
    &'a FlowNode,
>)
    ensures
        match found {
            Some(node) => exists|at: int|
                {
                    &&& 0 <= at < nodes@.len()
                    &&& *node == nodes@[at]
                    &&& names_node(*node_to_find, nodes@[at])
                    &&& forall|before: int|
                        0 <= before < at ==> !names_node(*node_to_find, #[trigger] nodes@[before])
                },
            None => forall|at: int|
                0 <= at < nodes@.len() ==> !names_node(*node_to_find, #[trigger] nodes@[at]),
        },
{
    let mut at: usize = 0;
    while at < nodes.len()
        invariant
            at <= nodes@.len(),
            forall|before: int|
                0 <= before < at ==> !names_node(*node_to_find, #[trigger] nodes@[before]),
        decreases nodes@.len() - at,
    {
        let node = &nodes[at];
        let named = match node_to_find.id {
            Some(id) => node.id == id,
            None => same_text(node_to_find.name.as_str(), node.node_name.as_str()),
        };
        if named {
            return Some(node);
        }
        at = at + 1;
    }
    None
}

} // verus!
