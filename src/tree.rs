use vstd::prelude::*;
use crate::node::{NodeModel, NodeSpec};
use crate::node_id::NodeKey;

verus! {

/// A diff handed to the platform's accessibility layer: nodes to add or
/// replace, the root declaration (sent only with the initial tree), and the
/// current effective focus.
#[derive(Clone, Debug)]
pub struct TreeUpdate {
    pub nodes: Vec<(NodeKey, NodeSpec)>,
    pub root: Option<NodeKey>,
    pub focus: Option<NodeKey>,
}

/// The mathematical value of a `TreeUpdate`.
pub struct UpdateModel {
    pub nodes: Seq<(NodeKey, NodeModel)>,
    pub root: Option<NodeKey>,
    pub focus: Option<NodeKey>,
}

pub open spec fn nodes_view(nodes: Seq<(NodeKey, NodeSpec)>) -> Seq<(NodeKey, NodeModel)> {
    nodes.map_values(|p: (NodeKey, NodeSpec)| (p.0, p.1@))
}

impl View for TreeUpdate {
    type V = UpdateModel;

    open spec fn view(&self) -> UpdateModel {
        UpdateModel { nodes: nodes_view(self.nodes@), root: self.root, focus: self.focus }
    }
}

impl TreeUpdate {
    /// Whether the update declares the node `id` (adds or replaces it).
    pub fn declares(&self, id: NodeKey) -> (r: bool)
        ensures
            r == exists|i: int| 0 <= i < self@.nodes.len() && (#[trigger] self@.nodes[i]).0 == id,
    {
        let mut i: usize = 0;
        while i < self.nodes.len()
            invariant
                0 <= i <= self.nodes@.len(),
                forall|j: int| 0 <= j < i ==> (#[trigger] self@.nodes[j]).0 != id,
            decreases self.nodes@.len() - i,
        {
            if self.nodes[i].0 == id {
                assert(self@.nodes[i as int].0 == id);
                return true;
            }
            i = i + 1;
        }
        false
    }
}

} // verus!
