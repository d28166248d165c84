//! What holds of every sequence of pointer events.
//!
//! The statements are about [`DragModel`], in which the contracts of the
//! drag controller are written, so each of them holds of the controller
//! itself.

use vstd::prelude::*;
use crate::controller::DragModel;
use crate::registry::{contains_id, index_of, lemma_lookup_at, lemma_with_state, lookup};

verus! {

/// Every event keeps a well-formed model well formed, keeps the nodes in
/// their places and keeps their identities.
pub proof fn law_events_preserve_wf(s: DragModel, id: nat, x: int, y: int)
    requires
        s.wf(),
    ensures
        s.grab(id, x, y).wf(),
        s.pointer_move(x, y).wf(),
        s.release().wf(),
        forall|other: nat|
            contains_id(s.grab(id, x, y).nodes, other) == contains_id(s.nodes, other),
        forall|other: nat|
            contains_id(s.pointer_move(x, y).nodes, other) == contains_id(s.nodes, other),
        forall|other: nat| contains_id(s.release().nodes, other) == contains_id(s.nodes, other),
{
    if contains_id(s.nodes, id) {
        lemma_with_state(s.nodes, id, s.state_of(id).anchored(x, y));
    }
    if let Some(a) = s.active {
        lemma_with_state(s.nodes, a, s.state_of(a).dragged_to(x, y));
        lemma_with_state(s.nodes, a, s.state_of(a).committed());
    }
}

/// The controller has two kinds of state, idle and dragging one node. A
/// grab of a node that is there leads to dragging that node, a release
/// leads to idle, and a pointer move stays where it is.
pub proof fn law_transitions(s: DragModel, id: nat, x: int, y: int)
    requires
        s.wf(),
    ensures
        contains_id(s.nodes, id) ==> s.grab(id, x, y).active == Some(id),
        !contains_id(s.nodes, id) ==> s.grab(id, x, y) == s,
        s.pointer_move(x, y).active == s.active,
        s.release().active is None,
{
}

/// At most one node is being dragged: during a drag exactly one place of the
/// registry holds the node being dragged.
pub proof fn law_one_node_is_dragged(s: DragModel, a: nat)
    requires
        s.wf(),
        s.active == Some(a),
    ensures
        0 <= index_of(s.nodes, a) < s.nodes.len(),
        forall|i: int|
            0 <= i < s.nodes.len() ==> ((#[trigger] s.nodes[i]).id == a <==> i == index_of(
                s.nodes,
                a,
            )),
{
    assert forall|i: int| 0 <= i < s.nodes.len() && (#[trigger] s.nodes[i]).id == a implies i
        == index_of(s.nodes, a) by {
        lemma_lookup_at(s.nodes, i);
    }
}

/// While no node is being dragged, a pointer move changes nothing, and so
/// does the same move issued once more.
pub proof fn law_idle_move_changes_nothing(s: DragModel, x: int, y: int)
    requires
        s.active is None,
    ensures
        s.pointer_move(x, y) == s,
        s.pointer_move(x, y).pointer_move(x, y) == s,
{
}

/// A pointer move does not accumulate: the same move issued twice in a row
/// leaves the model as the first one left it, during a drag as well.
pub proof fn law_move_is_idempotent(s: DragModel, x: int, y: int)
    requires
        s.wf(),
    ensures
        s.pointer_move(x, y).pointer_move(x, y) == s.pointer_move(x, y),
{
    if let Some(a) = s.active {
        let moved = s.state_of(a).dragged_to(x, y);
        lemma_with_state(s.nodes, a, moved);
        let t = s.pointer_move(x, y);
        assert(t.pointer_move(x, y).nodes =~= t.nodes);
    }
}

/// The model after the node `id` has been grabbed with the pointer at
/// `(gx, gy)` and the pointer has moved on by `(dx, dy)`.
pub open spec fn dragged_by(s: DragModel, id: nat, gx: int, gy: int, dx: int, dy: int) -> DragModel {
    s.grab(id, gx, gy).pointer_move(gx + dx, gy + dy)
}

/// After a node at `(px, py)` has been grabbed and the pointer has moved on
/// by `(dx, dy)`, the node is displayed at `(px + dx, py + dy)`, whatever the
/// sign of `dx` and `dy` and wherever it was grabbed; its committed position
/// is still `(px, py)`. The move is in range exactly if `(px + dx, py + dy)`
/// fits a coordinate.
pub proof fn law_drag_follows_pointer(s: DragModel, id: nat, gx: int, gy: int, dx: int, dy: int)
    requires
        s.wf(),
        contains_id(s.nodes, id),
    ensures
        dragged_by(s, id, gx, gy, dx, dy).state_of(id).live_offset == s.state_of(
            id,
        ).position.shifted(dx, dy),
        dragged_by(s, id, gx, gy, dx, dy).state_of(id).position == s.state_of(id).position,
        dragged_by(s, id, gx, gy, dx, dy).active == Some(id),
        s.grab(id, gx, gy).move_in_range(gx + dx, gy + dy) == s.state_of(id).position.shifted(
            dx,
            dy,
        ).fits(),
{
    let anchored = s.state_of(id).anchored(gx, gy);
    lemma_with_state(s.nodes, id, anchored);
    let g = s.grab(id, gx, gy);
    let moved = anchored.dragged_to(gx + dx, gy + dy);
    lemma_with_state(g.nodes, id, moved);
}

/// After a grab of a node at `(px, py)`, a pointer move by `(dx, dy)` and a
/// release, the committed position of the node is `(px + dx, py + dy)`, the
/// node is displayed there, no node is being dragged, and a further
/// pointer move to any `(x, y)` changes nothing.
pub proof fn law_release_commits(
    s: DragModel,
    id: nat,
    gx: int,
    gy: int,
    dx: int,
    dy: int,
    x: int,
    y: int,
)
    requires
        s.wf(),
        contains_id(s.nodes, id),
    ensures
        dragged_by(s, id, gx, gy, dx, dy).release().state_of(id).position == s.state_of(
            id,
        ).position.shifted(dx, dy),
        dragged_by(s, id, gx, gy, dx, dy).release().state_of(id).live_offset == s.state_of(
            id,
        ).position.shifted(dx, dy),
        dragged_by(s, id, gx, gy, dx, dy).release().active is None,
        dragged_by(s, id, gx, gy, dx, dy).release().pointer_move(x, y) == dragged_by(
            s,
            id,
            gx,
            gy,
            dx,
            dy,
        ).release(),
{
    law_drag_follows_pointer(s, id, gx, gy, dx, dy);
    law_events_preserve_wf(s, id, gx, gy);
    let g = s.grab(id, gx, gy);
    law_events_preserve_wf(g, id, gx + dx, gy + dy);
    let m = g.pointer_move(gx + dx, gy + dy);
    lemma_with_state(m.nodes, id, m.state_of(id).committed());
}

/// While no node is being dragged, neither a pointer move nor a release
/// changes anything: every node keeps its positions. The pointer may move
/// to any coordinates then: every move is in range.
pub proof fn law_idle_events_change_nothing(s: DragModel, x: int, y: int)
    requires
        s.active is None,
    ensures
        s.move_in_range(x, y),
        s.pointer_move(x, y) == s,
        s.release() == s,
{
}

/// While the node `a` is being dragged, a pointer move changes the displayed
/// position of `a` and nothing else: the committed position and the drag
/// anchor of `a` stay, and so does every other node.
pub proof fn law_move_touches_only_the_active_node(s: DragModel, a: nat, x: int, y: int)
    requires
        s.wf(),
        s.active == Some(a),
    ensures
        s.pointer_move(x, y).nodes.len() == s.nodes.len(),
        forall|i: int|
            0 <= i < s.nodes.len() && (#[trigger] s.nodes[i]).id != a ==> s.pointer_move(
                x,
                y,
            ).nodes[i] == s.nodes[i],
        forall|other: nat|
            other != a ==> lookup(s.pointer_move(x, y).nodes, other) == lookup(s.nodes, other),
        s.pointer_move(x, y).state_of(a).position == s.state_of(a).position,
        s.pointer_move(x, y).state_of(a).drag_anchor == s.state_of(a).drag_anchor,
{
    lemma_with_state(s.nodes, a, s.state_of(a).dragged_to(x, y));
}

/// A release changes the committed position of the node that was being
/// dragged and nothing else.
pub proof fn law_release_touches_only_the_active_node(s: DragModel, a: nat)
    requires
        s.wf(),
        s.active == Some(a),
    ensures
        s.release().nodes.len() == s.nodes.len(),
        forall|i: int|
            0 <= i < s.nodes.len() && (#[trigger] s.nodes[i]).id != a ==> s.release().nodes[i]
                == s.nodes[i],
        s.release().state_of(a).position == s.state_of(a).live_offset,
        s.release().state_of(a).live_offset == s.state_of(a).live_offset,
{
    lemma_with_state(s.nodes, a, s.state_of(a).committed());
}

/// Every node that is not being dragged is displayed at its committed
/// position: this holds after a pointer move and after a release if it held
/// before, and after a grab if it held before and no other node was being
/// dragged.
pub proof fn law_nodes_rest_unless_dragged(s: DragModel, id: nat, x: int, y: int)
    requires
        s.wf(),
        s.settled(),
    ensures
        s.pointer_move(x, y).settled(),
        s.release().settled(),
        s.active is None || s.active == Some(id) ==> s.grab(id, x, y).settled(),
{
    if let Some(a) = s.active {
        lemma_with_state(s.nodes, a, s.state_of(a).dragged_to(x, y));
        lemma_with_state(s.nodes, a, s.state_of(a).committed());
    }
    if contains_id(s.nodes, id) {
        lemma_with_state(s.nodes, id, s.state_of(id).anchored(x, y));
    }
}

} // verus!
