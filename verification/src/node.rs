//! Nodes and their coordinate state.

use vstd::prelude::*;

verus! {

/// A side of a node.
#[derive(Debug)]
pub enum Position {
    Left,
    Right,
    Top,
    Bottom,
}

/// An opaque payload attached to a node.
#[derive(Debug)]
pub struct Data(String);

/// A point of the plane, in pixels.
pub struct Point {
    pub x: int,
    pub y: int,
}

impl Point {
    /// The point reached from `self` by going `dx` to the right and `dy` down.
    pub open spec fn shifted(self, dx: int, dy: int) -> Point {
        Point { x: self.x + dx, y: self.y + dy }
    }

    /// Whether both coordinates fit the machine representation of a coordinate.
    pub open spec fn fits(self) -> bool {
        &&& i32::MIN <= self.x <= i32::MAX
        &&& i32::MIN <= self.y <= i32::MAX
    }
}

/// What a [`DragState`] stands for.
pub struct DragStateView {
    /// The committed position: the baseline of the next drag.
    pub position: Point,
    /// The position at which the node is displayed.
    pub live_offset: Point,
    /// The pointer coordinates captured when the current drag started.
    pub drag_anchor: Point,
}

impl DragStateView {
    /// The state of a node that rests at `(x, y)` and has never been dragged.
    pub open spec fn at_rest_at(x: int, y: int) -> DragStateView {
        DragStateView {
            position: Point { x, y },
            live_offset: Point { x, y },
            drag_anchor: Point { x: 0, y: 0 },
        }
    }

    /// Whether the node is displayed at its committed position.
    pub open spec fn at_rest(self) -> bool {
        self.live_offset == self.position
    }

    /// The state after a drag of this node has started with the pointer at `(x, y)`.
    pub open spec fn anchored(self, x: int, y: int) -> DragStateView {
        DragStateView { drag_anchor: Point { x, y }, ..self }
    }

    /// The state after the pointer has moved to `(x, y)` during a drag: the
    /// node is displayed as far from its committed position as the pointer is
    /// from the drag anchor.
    pub open spec fn dragged_to(self, x: int, y: int) -> DragStateView {
        DragStateView {
            live_offset: self.position.shifted(x - self.drag_anchor.x, y - self.drag_anchor.y),
            ..self
        }
    }

    /// The state after the drag has ended: the displayed position is committed.
    pub open spec fn committed(self) -> DragStateView {
        DragStateView { position: self.live_offset, ..self }
    }
}

/// The coordinate state of one node: its committed position, the position at
/// which it is displayed, and the pointer coordinates at the start of the
/// drag in progress.
#[derive(Debug, Clone, Copy, Hash, PartialEq, Eq, Structural)]
pub struct DragState {
    initial_x: i32,
    initial_y: i32,
    start_x: i32,
    start_y: i32,
    next_x: i32,
    next_y: i32,
}

impl View for DragState {
    type V = DragStateView;

    closed spec fn view(&self) -> DragStateView {
        DragStateView {
            position: Point { x: self.initial_x as int, y: self.initial_y as int },
            live_offset: Point { x: self.next_x as int, y: self.next_y as int },
            drag_anchor: Point { x: self.start_x as int, y: self.start_y as int },
        }
    }
}

impl DragState {
    /// The state of a node that rests at `(x, y)`.
    pub fn new(x: i32, y: i32) -> (state: DragState)
        ensures
            state@ == DragStateView::at_rest_at(x as int, y as int),
    {
        DragState { initial_x: x, initial_y: y, start_x: 0, start_y: 0, next_x: x, next_y: y }
    }

    /// The committed position.
    pub fn position(&self) -> (p: (i32, i32))
        ensures
            p.0 == self@.position.x,
            p.1 == self@.position.y,
    {
        (self.initial_x, self.initial_y)
    }

    /// The position at which the node is displayed.
    pub fn live_offset(&self) -> (p: (i32, i32))
        ensures
            p.0 == self@.live_offset.x,
            p.1 == self@.live_offset.y,
    {
        (self.next_x, self.next_y)
    }

    /// The pointer coordinates captured at the start of the latest drag.
    pub fn drag_anchor(&self) -> (p: (i32, i32))
        ensures
            p.0 == self@.drag_anchor.x,
            p.1 == self@.drag_anchor.y,
    {
        (self.start_x, self.start_y)
    }

    /// Overwrites the committed position.
    pub fn set_position(&mut self, x: i32, y: i32)
        ensures
            final(self)@ == (DragStateView { position: Point { x: x as int, y: y as int }, ..old(self)@ }),
    {
        self.initial_x = x;
        self.initial_y = y;
    }

    /// Overwrites the displayed position.
    pub fn set_live_offset(&mut self, x: i32, y: i32)
        ensures
            final(self)@ == (DragStateView { live_offset: Point { x: x as int, y: y as int }, ..old(self)@ }),
    {
        self.next_x = x;
        self.next_y = y;
    }

    /// Overwrites the drag anchor.
    pub fn set_drag_anchor(&mut self, x: i32, y: i32)
        ensures
            final(self)@ == old(self)@.anchored(x as int, y as int),
    {
        self.start_x = x;
        self.start_y = y;
    }
}

/// What a [`FlowNode`] stands for.
pub struct FlowNodeView {
    /// The identity of the node.
    pub id: nat,
    /// Its coordinate state.
    pub drag_state: DragStateView,
}

/// A draggable node: an identity and a coordinate state.
#[derive(Debug, Clone, Copy, Hash, PartialEq, Eq, Structural)]
pub struct FlowNode {
    id: usize,
    drag_state: DragState,
}

impl View for FlowNode {
    type V = FlowNodeView;

    closed spec fn view(&self) -> FlowNodeView {
        FlowNodeView { id: self.id as nat, drag_state: self.drag_state@ }
    }
}

impl FlowNode {
    /// A node with the given identity and coordinate state.
    pub fn new(id: usize, drag_state: DragState) -> (node: FlowNode)
        ensures
            node@ == (FlowNodeView { id: id as nat, drag_state: drag_state@ }),
    {
        FlowNode { id, drag_state }
    }

    /// The identity of the node.
    pub fn id(&self) -> (id: usize)
        ensures
            id == self@.id,
    {
        self.id
    }

    /// The coordinate state of the node.
    pub fn drag_state(&self) -> (state: &DragState)
        ensures
            state@ == self@.drag_state,
    {
        &self.drag_state
    }
}

} // verus!
