//! The drag controller: which node is being dragged, and what each pointer
//! event does to the nodes.
//!
//! The controller is either idle or dragging one node. Grabbing a node
//! starts a drag, moving the pointer during a drag displays the node as far
//! from its committed position as the pointer is from where the drag
//! started, and releasing the pointer commits the displayed position and
//! ends the drag.

use vstd::prelude::*;
use vstd::pervasive::unreached;
use crate::node::{DragState, DragStateView, FlowNodeView};
use crate::registry::{
    contains_id, distinct_ids, index_of, lemma_lookup_at, lemma_with_state, with_state,
    NodeRegistry, NotFound,
};

verus! {

/// What a [`DragController`] stands for: the nodes in their order, and the
/// identity of the node being dragged, if any.
pub struct DragModel {
    pub nodes: Seq<FlowNodeView>,
    pub active: Option<nat>,
}

impl DragModel {
    /// Whether the model is well formed: no two nodes share an identity, and
    /// the node being dragged, if any, is one of them.
    pub open spec fn wf(self) -> bool {
        &&& distinct_ids(self.nodes)
        &&& self.active matches Some(id) ==> contains_id(self.nodes, id)
    }

    /// The coordinate state of the node with the identity `id`.
    pub open spec fn state_of(self, id: nat) -> DragStateView
        recommends
            contains_id(self.nodes, id),
    {
        self.nodes[index_of(self.nodes, id)].drag_state
    }

    /// Whether every node that is not being dragged is displayed at its
    /// committed position.
    pub open spec fn settled(self) -> bool {
        forall|i: int|
            0 <= i < self.nodes.len() && self.active != Some((#[trigger] self.nodes[i]).id)
                ==> self.nodes[i].drag_state.at_rest()
    }

    /// The model after the node `id` has been grabbed with the pointer at
    /// `(x, y)`: that node is being dragged and its drag anchor is the
    /// pointer. Grabbing a node that is not there changes nothing.
    pub open spec fn grab(self, id: nat, x: int, y: int) -> DragModel {
        if contains_id(self.nodes, id) {
            DragModel {
                nodes: with_state(self.nodes, id, self.state_of(id).anchored(x, y)),
                active: Some(id),
            }
        } else {
            self
        }
    }

    /// The model after the pointer has moved to `(x, y)`: the node being
    /// dragged is displayed at its committed position plus the way of the
    /// pointer from the drag anchor. Without a drag nothing changes.
    pub open spec fn pointer_move(self, x: int, y: int) -> DragModel {
        match self.active {
            Some(id) => DragModel {
                nodes: with_state(self.nodes, id, self.state_of(id).dragged_to(x, y)),
                ..self
            },
            None => self,
        }
    }

    /// The model after the pointer has been released: the displayed position
    /// of the node being dragged is committed and the drag is over. Without a
    /// drag nothing changes.
    pub open spec fn release(self) -> DragModel {
        match self.active {
            Some(id) => DragModel {
                nodes: with_state(self.nodes, id, self.state_of(id).committed()),
                active: None,
            },
            None => self,
        }
    }

    /// Whether a pointer move to `(x, y)` displays the node being dragged at
    /// coordinates that a machine coordinate can hold.
    pub open spec fn move_in_range(self, x: int, y: int) -> bool {
        self.active matches Some(id) ==> self.state_of(id).dragged_to(x, y).live_offset.fits()
    }
}

/// Where a node in the state `state` is displayed once the pointer of its
/// drag is at `(x, y)`. The coordinates are wide enough for every state and
/// every pointer.
fn displayed_at(state: &DragState, x: i32, y: i32) -> (at: (i64, i64))
    ensures
        at.0 == state@.dragged_to(x as int, y as int).live_offset.x,
        at.1 == state@.dragged_to(x as int, y as int).live_offset.y,
{
    let (px, py) = state.position();
    let (ax, ay) = state.drag_anchor();
    (px as i64 + (x as i64 - ax as i64), py as i64 + (y as i64 - ay as i64))
}

/// The drag controller of a canvas. It owns the node registry and is the
/// only one to change the nodes.
#[derive(Debug)]
pub struct DragController {
    registry: NodeRegistry,
    active_node_id: Option<usize>,
}

impl View for DragController {
    type V = DragModel;

    closed spec fn view(&self) -> DragModel {
        DragModel {
            nodes: self.registry@,
            active: match self.active_node_id {
                Some(id) => Some(id as nat),
                None => None,
            },
        }
    }
}

impl DragController {
    /// Whether the controller is well formed.
    pub open spec fn wf(&self) -> bool {
        self@.wf()
    }

    /// An idle controller over the nodes of `registry`.
    pub fn new(registry: NodeRegistry) -> (controller: DragController)
        requires
            registry.wf(),
        ensures
            controller.wf(),
            controller@ == (DragModel { nodes: registry@, active: None }),
    {
        DragController { registry, active_node_id: None }
    }

    /// The node registry.
    pub fn registry(&self) -> (registry: &NodeRegistry)
        ensures
            registry@ == self@.nodes,
            self.wf() ==> registry.wf(),
    {
        &self.registry
    }

    /// The identity of the node being dragged, if any.
    pub fn active_node_id(&self) -> (active: Option<usize>)
        ensures
            match active {
                Some(id) => self@.active == Some(id as nat),
                None => self@.active is None,
            },
    {
        self.active_node_id
    }

    /// Starts a drag of the node `id` with the pointer at `(x, y)`:
    /// the node becomes the one being dragged and the pointer its drag
    /// anchor. `NotFound`, and no change, when the registry holds no such
    /// node.
    pub fn on_node_grab(&mut self, id: usize, x: i32, y: i32) -> (grabbed: Result<(), NotFound>)
        requires
            old(self).wf(),
        ensures
            final(self).wf(),
            final(self)@ == old(self)@.grab(id as nat, x as int, y as int),
            match grabbed {
                Ok(_) => contains_id(old(self)@.nodes, id as nat),
                Err(e) => !contains_id(old(self)@.nodes, id as nat) && e.id == id,
            },
    {
        match self.registry.position_of(id) {
            Some(i) => {
                proof {
                    lemma_lookup_at(self@.nodes, i as int);
                }
                let mut state = self.registry.state_at(i);
                state.set_drag_anchor(x, y);
                self.registry.set_state_at(i, state);
                self.active_node_id = Some(id);
                proof {
                    lemma_with_state(old(self)@.nodes, id as nat, state@);
                }
                Ok(())
            },
            None => Err(NotFound { id }),
        }
    }

    /// Whether a pointer move to `(x, y)` keeps the displayed position of
    /// the node being dragged within the range of a coordinate.
    pub fn can_move_to(&self, x: i32, y: i32) -> (fits: bool)
        requires
            self.wf(),
        ensures
            fits == self@.move_in_range(x as int, y as int),
    {
        match self.active_node_id {
            Some(id) => match self.registry.position_of(id) {
                Some(i) => {
                    proof {
                        lemma_lookup_at(self@.nodes, i as int);
                    }
                    let (nx, ny) = displayed_at(&self.registry.state_at(i), x, y);
                    i32::MIN as i64 <= nx && nx <= i32::MAX as i64 && i32::MIN as i64 <= ny && ny
                        <= i32::MAX as i64
                },
                // A well-formed controller drags a node of its registry only.
                None => unreached(),
            },
            None => true,
        }
    }

    /// Follows the pointer to `(x, y)`. During a drag the node being dragged
    /// is displayed at its committed position plus the way of the pointer
    /// from the drag anchor; its committed position and every other node stay
    /// as they are. Without a drag nothing changes.
    pub fn on_pointer_move(&mut self, x: i32, y: i32)
        requires
            old(self).wf(),
            old(self)@.move_in_range(x as int, y as int),
        ensures
            final(self).wf(),
            final(self)@ == old(self)@.pointer_move(x as int, y as int),
    {
        if let Some(id) = self.active_node_id {
            match self.registry.position_of(id) {
                Some(i) => {
                    proof {
                        lemma_lookup_at(self@.nodes, i as int);
                    }
                    let mut state = self.registry.state_at(i);
                    let (nx, ny) = displayed_at(&state, x, y);
                    state.set_live_offset(nx as i32, ny as i32);
                    self.registry.set_state_at(i, state);
                    proof {
                        lemma_with_state(old(self)@.nodes, id as nat, state@);
                    }
                },
                // A well-formed controller drags a node of its registry only.
                None => unreached(),
            }
        }
    }

    /// Ends the drag, if there is one: the displayed position of the node
    /// being dragged becomes its committed position, and the controller is
    /// idle. Without a drag nothing changes.
    pub fn on_pointer_release(&mut self)
        requires
            old(self).wf(),
        ensures
            final(self).wf(),
            final(self)@ == old(self)@.release(),
    {
        if let Some(id) = self.active_node_id {
            match self.registry.position_of(id) {
                Some(i) => {
                    proof {
                        lemma_lookup_at(self@.nodes, i as int);
                    }
                    let mut state = self.registry.state_at(i);
                    let (nx, ny) = state.live_offset();
                    state.set_position(nx, ny);
                    self.registry.set_state_at(i, state);
                    self.active_node_id = None;
                },
                // A well-formed controller drags a node of its registry only.
                None => unreached(),
            }
        }
    }
}

} // verus!
