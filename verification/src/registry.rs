//! The node registry: the nodes of a canvas, in insertion order, found by
//! their identity.

use vstd::prelude::*;
use crate::node::{DragState, DragStateView, FlowNode, FlowNodeView};

verus! {

/// What a sequence of nodes stands for.
pub open spec fn node_views(nodes: Seq<FlowNode>) -> Seq<FlowNodeView> {
    nodes.map_values(|n: FlowNode| n@)
}

/// Whether some node of `nodes` has the identity `id`.
pub open spec fn contains_id(nodes: Seq<FlowNodeView>, id: nat) -> bool {
    exists|i: int| 0 <= i < nodes.len() && (#[trigger] nodes[i]).id == id
}

/// Whether no two nodes of `nodes` share an identity.
pub open spec fn distinct_ids(nodes: Seq<FlowNodeView>) -> bool {
    forall|i: int, j: int|
        0 <= i < j < nodes.len() ==> (#[trigger] nodes[i]).id != (#[trigger] nodes[j]).id
}

/// The place in `nodes` of a node with the identity `id`, where there is one.
pub open spec fn index_of(nodes: Seq<FlowNodeView>, id: nat) -> int {
    choose|i: int| 0 <= i < nodes.len() && (#[trigger] nodes[i]).id == id
}

/// The node of `nodes` with the identity `id`, if there is one.
pub open spec fn lookup(nodes: Seq<FlowNodeView>, id: nat) -> Option<FlowNodeView> {
    if contains_id(nodes, id) {
        Some(nodes[index_of(nodes, id)])
    } else {
        None
    }
}

/// The sequence `nodes` with the coordinate state of every node that has the
/// identity `id` replaced by `state`.
pub open spec fn with_state(nodes: Seq<FlowNodeView>, id: nat, state: DragStateView) -> Seq<
    FlowNodeView,
> {
    Seq::new(
        nodes.len(),
        |i: int|
            if nodes[i].id == id {
                FlowNodeView { id, drag_state: state }
            } else {
                nodes[i]
            },
    )
}

/// Among distinct identities, a node is found at the one place where its
/// identity stands.
pub proof fn lemma_lookup_at(nodes: Seq<FlowNodeView>, i: int)
    requires
        distinct_ids(nodes),
        0 <= i < nodes.len(),
    ensures
        contains_id(nodes, nodes[i].id),
        index_of(nodes, nodes[i].id) == i,
        lookup(nodes, nodes[i].id) == Some(nodes[i]),
{
}

/// Replacing the coordinate state of a node keeps the identities, their
/// order and their distinctness, gives that node the new state and leaves
/// every other node as it was.
pub proof fn lemma_with_state(nodes: Seq<FlowNodeView>, id: nat, state: DragStateView)
    ensures
        with_state(nodes, id, state).len() == nodes.len(),
        forall|i: int|
            0 <= i < nodes.len() ==> (#[trigger] with_state(nodes, id, state)[i]).id
                == nodes[i].id,
        forall|other: nat|
            contains_id(with_state(nodes, id, state), other) == contains_id(nodes, other),
        distinct_ids(nodes) ==> distinct_ids(with_state(nodes, id, state)),
        distinct_ids(nodes) && contains_id(nodes, id) ==> lookup(
            with_state(nodes, id, state),
            id,
        ) == Some(FlowNodeView { id, drag_state: state }),
        forall|other: nat|
            distinct_ids(nodes) && other != id ==> lookup(with_state(nodes, id, state), other)
                == lookup(nodes, other),
{
    let after = with_state(nodes, id, state);
    assert forall|other: nat| contains_id(after, other) == contains_id(nodes, other) by {
        if contains_id(nodes, other) {
            let i = index_of(nodes, other);
            assert(after[i].id == other);
        }
    }
    if distinct_ids(nodes) {
        if contains_id(nodes, id) {
            let i = index_of(nodes, id);
            lemma_lookup_at(after, i);
        }
        assert forall|other: nat| other != id implies lookup(after, other) == lookup(
            nodes,
            other,
        ) by {
            if contains_id(nodes, other) {
                let i = index_of(nodes, other);
                lemma_lookup_at(nodes, i);
                lemma_lookup_at(after, i);
            }
        }
    }
}

/// The answer to a question about a node that the registry does not hold.
#[derive(Debug, Clone, Copy, PartialEq, Eq, Structural)]
pub struct NotFound {
    /// The identity that was asked for.
    pub id: usize,
}

/// The nodes of a canvas, in insertion order. No two of them share an
/// identity.
#[derive(Debug)]
pub struct NodeRegistry {
    nodes: Vec<FlowNode>,
}

impl View for NodeRegistry {
    type V = Seq<FlowNodeView>;

    closed spec fn view(&self) -> Seq<FlowNodeView> {
        node_views(self.nodes@)
    }
}

/// The nodes that a fresh canvas starts with: one node, of identity 0, at
/// rest at the origin.
pub fn default_seed() -> (seed: Vec<FlowNode>)
    ensures
        node_views(seed@) == seq![
            FlowNodeView { id: 0, drag_state: DragStateView::at_rest_at(0, 0) },
        ],
        distinct_ids(node_views(seed@)),
{
    let mut seed: Vec<FlowNode> = Vec::new();
    seed.push(FlowNode::new(0, DragState::new(0, 0)));
    assert(node_views(seed@) =~= seq![
        FlowNodeView { id: 0, drag_state: DragStateView::at_rest_at(0, 0) },
    ]);
    seed
}

/// Whether no two nodes of `seed` share an identity.
pub fn has_distinct_ids(seed: &Vec<FlowNode>) -> (distinct: bool)
    ensures
        distinct == distinct_ids(node_views(seed@)),
{
    let ghost views = node_views(seed@);
    let mut j: usize = 0;
    while j < seed.len()
        invariant
            j <= seed.len(),
            views == node_views(seed@),
            forall|a: int, b: int|
                0 <= a < b < j ==> (#[trigger] views[a]).id != (#[trigger] views[b]).id,
        decreases seed.len() - j,
    {
        let mut i: usize = 0;
        while i < j
            invariant
                i <= j < seed.len(),
                views == node_views(seed@),
                forall|a: int| 0 <= a < i ==> (#[trigger] views[a]).id != views[j as int].id,
            decreases j - i,
        {
            if seed[i].id() == seed[j].id() {
                assert(views[i as int].id == views[j as int].id);
                return false;
            }
            i += 1;
        }
        j += 1;
    }
    true
}

impl NodeRegistry {
    /// Whether the registry is well formed: no two nodes share an identity.
    pub open spec fn wf(&self) -> bool {
        distinct_ids(self@)
    }

    /// A registry that holds the nodes of `seed`, in their order.
    pub fn initialize(seed: Vec<FlowNode>) -> (registry: NodeRegistry)
        requires
            distinct_ids(node_views(seed@)),
        ensures
            registry.wf(),
            registry@ == node_views(seed@),
    {
        NodeRegistry { nodes: seed }
    }

    /// The nodes, in insertion order.
    pub fn list(&self) -> (nodes: &Vec<FlowNode>)
        ensures
            node_views(nodes@) == self@,
    {
        &self.nodes
    }

    /// The place of the node with the identity `id`, if the registry holds one.
    pub(crate) fn position_of(&self, id: usize) -> (found: Option<usize>)
        ensures
            match found {
                Some(i) => i < self@.len() && self@[i as int].id == id,
                None => !contains_id(self@, id as nat),
            },
    {
        let mut i: usize = 0;
        while i < self.nodes.len()
            invariant
                i <= self.nodes.len(),
                forall|k: int| 0 <= k < i ==> (#[trigger] self@[k]).id != id,
            decreases self.nodes.len() - i,
        {
            if self.nodes[i].id() == id {
                return Some(i);
            }
            i += 1;
        }
        None
    }

    /// Whether the registry holds a node with the identity `id`.
    pub fn contains(&self, id: usize) -> (held: bool)
        ensures
            held == contains_id(self@, id as nat),
    {
        self.position_of(id).is_some()
    }

    /// The node with the identity `id`; `NotFound` when the registry holds
    /// no such node.
    pub fn get(&self, id: usize) -> (found: Result<&FlowNode, NotFound>)
        requires
            self.wf(),
        ensures
            match found {
                Ok(node) => lookup(self@, id as nat) == Some(node@),
                Err(e) => lookup(self@, id as nat) is None && e.id == id,
            },
    {
        match self.position_of(id) {
            Some(i) => {
                proof {
                    lemma_lookup_at(self@, i as int);
                }
                Ok(&self.nodes[i])
            },
            None => Err(NotFound { id }),
        }
    }

    /// The coordinate state of the node at the place `i`.
    pub(crate) fn state_at(&self, i: usize) -> (state: DragState)
        requires
            i < self@.len(),
        ensures
            state@ == self@[i as int].drag_state,
    {
        *self.nodes[i].drag_state()
    }

    /// Gives the node at the place `i` the coordinate state `state`. The
    /// node keeps its identity and every other node stays as it is.
    pub(crate) fn set_state_at(&mut self, i: usize, state: DragState)
        requires
            old(self).wf(),
            i < old(self)@.len(),
        ensures
            final(self).wf(),
            final(self)@ == with_state(old(self)@, old(self)@[i as int].id, state@),
    {
        let id: usize = self.nodes[i].id();
        self.nodes[i] = FlowNode::new(id, state);
        proof {
            lemma_with_state(old(self)@, id as nat, state@);
            lemma_lookup_at(old(self)@, i as int);
            assert forall|k: int| 0 <= k < old(self)@.len() implies #[trigger] final(self)@[k]
                == with_state(old(self)@, id as nat, state@)[k] by {
                if k != i {
                    lemma_lookup_at(old(self)@, k);
                }
            }
        }
    }
}

} // verus!
