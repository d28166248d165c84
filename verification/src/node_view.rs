//! The view of one node: the pointer cursor shown over it, and the style
//! values that place it on the canvas.

use vstd::prelude::*;
use crate::controller::DragController;
use crate::node::FlowNode;
use crate::registry::{contains_id, NotFound};

verus! {

/// The pointer cursor shown over a node.
#[derive(Debug, Clone, Copy, PartialEq, Eq, Structural)]
pub enum Cursor {
    /// The cursor of a node that the pointer has not touched yet.
    Default,
    /// The cursor of a node that is held down.
    Grabbing,
    /// The cursor of a node that can be picked up.
    Grab,
}

impl Cursor {
    /// The name of the cursor in a style sheet.
    pub open spec fn css_name(self) -> Seq<char> {
        match self {
            Cursor::Default => "default"@,
            Cursor::Grabbing => "grabbing"@,
            Cursor::Grab => "grab"@,
        }
    }

    /// The name of the cursor in a style sheet.
    pub fn css(self) -> (name: &'static str)
        ensures
            name@ == self.css_name(),
    {
        match self {
            Cursor::Default => "default",
            Cursor::Grabbing => "grabbing",
            Cursor::Grab => "grab",
        }
    }
}

/// The decimal digit of the value `d`.
pub open spec fn digit(d: int) -> char
    recommends
        0 <= d < 10,
{
    seq!['0', '1', '2', '3', '4', '5', '6', '7', '8', '9'][d]
}

/// The decimal numeral of `n`, without leading zeros.
pub open spec fn decimal(n: nat) -> Seq<char>
    decreases n,
{
    if n < 10 {
        seq![digit(n as int)]
    } else {
        decimal(n / 10).push(digit((n % 10) as int))
    }
}

/// The decimal numeral of `v`, with a minus sign in front of a negative one.
pub open spec fn signed_decimal(v: int) -> Seq<char> {
    if v < 0 {
        seq!['-'] + decimal((-v) as nat)
    } else {
        decimal(v as nat)
    }
}

/// The length `v` in pixels, as a style sheet writes it.
pub open spec fn px_text(v: int) -> Seq<char> {
    signed_decimal(v) + seq!['p', 'x']
}

/// The numeral of the digit `d`.
fn digit_str(d: u64) -> (s: &'static str)
    requires
        d < 10,
    ensures
        s@ == seq![digit(d as int)],
{
    proof {
        reveal_strlit("0");
        reveal_strlit("1");
        reveal_strlit("2");
        reveal_strlit("3");
        reveal_strlit("4");
        reveal_strlit("5");
        reveal_strlit("6");
        reveal_strlit("7");
        reveal_strlit("8");
        reveal_strlit("9");
    }
    match d {
        0 => "0",
        1 => "1",
        2 => "2",
        3 => "3",
        4 => "4",
        5 => "5",
        6 => "6",
        7 => "7",
        8 => "8",
        _ => "9",
    }
}

/// Appends the decimal numeral of `n` to `text`.
fn append_decimal(text: &mut String, n: u64)
    ensures
        final(text)@ == old(text)@ + decimal(n as nat),
    decreases n,
{
    if n >= 10 {
        append_decimal(text, n / 10);
    }
    text.append(digit_str(n % 10));
}

/// The length `value` in pixels, as a style sheet writes it: the decimal
/// numeral of `value` followed by `px`.
pub fn px(value: i32) -> (text: String)
    ensures
        text@ == px_text(value as int),
{
    let mut text = String::new();
    if value < 0 {
        proof {
            reveal_strlit("-");
        }
        text.append("-");
        append_decimal(&mut text, (-(value as i64)) as u64);
    } else {
        append_decimal(&mut text, value as u64);
    }
    proof {
        reveal_strlit("px");
    }
    text.append("px");
    text
}

/// What a [`NodeView`] stands for.
pub struct NodeViewState {
    /// The identity of the node that the view shows.
    pub id: nat,
    /// The cursor shown over the node.
    pub cursor: Cursor,
}

/// The view of one node. It shows the node at its displayed position,
/// starts a drag when the pointer is pressed on it, and keeps the cursor
/// shown over it.
#[derive(Debug, Clone, Copy, PartialEq, Eq, Structural)]
pub struct NodeView {
    id: usize,
    cursor: Cursor,
}

impl View for NodeView {
    type V = NodeViewState;

    closed spec fn view(&self) -> NodeViewState {
        NodeViewState { id: self.id as nat, cursor: self.cursor }
    }
}

impl NodeView {
    /// A view of the node `id`, with the default cursor.
    pub fn new(id: usize) -> (view: NodeView)
        ensures
            view@ == (NodeViewState { id: id as nat, cursor: Cursor::Default }),
    {
        NodeView { id, cursor: Cursor::Default }
    }

    /// The identity of the node that the view shows.
    pub fn id(&self) -> (id: usize)
        ensures
            id == self@.id,
    {
        self.id
    }

    /// The cursor shown over the node.
    pub fn cursor(&self) -> (cursor: Cursor)
        ensures
            cursor == self@.cursor,
    {
        self.cursor
    }

    /// The pointer was pressed on the node at `(x, y)`: the controller
    /// starts a drag of the node and the cursor is the grabbing one.
    /// `NotFound`, and no change, when the controller holds no such node.
    pub fn on_pointer_down(&mut self, controller: &mut DragController, x: i32, y: i32) -> (pressed:
        Result<(), NotFound>)
        requires
            old(controller).wf(),
        ensures
            final(controller).wf(),
            final(controller)@ == old(controller)@.grab(old(self)@.id, x as int, y as int),
            final(self)@.id == old(self)@.id,
            match pressed {
                Ok(_) => contains_id(old(controller)@.nodes, old(self)@.id) && final(self)@.cursor
                    == Cursor::Grabbing,
                Err(e) => !contains_id(old(controller)@.nodes, old(self)@.id) && e.id == old(
                    self,
                )@.id && final(self)@.cursor == old(self)@.cursor,
            },
    {
        match controller.on_node_grab(self.id, x, y) {
            Ok(_) => {
                self.cursor = Cursor::Grabbing;
                Ok(())
            },
            Err(e) => Err(e),
        }
    }

    /// The pointer was released on the node: the cursor is the grab one.
    pub fn on_pointer_up(&mut self)
        ensures
            final(self)@ == (NodeViewState { cursor: Cursor::Grab, ..old(self)@ }),
    {
        self.cursor = Cursor::Grab;
    }

    /// The pointer came over the node: the cursor is the grab one.
    pub fn on_pointer_over(&mut self)
        ensures
            final(self)@ == (NodeViewState { cursor: Cursor::Grab, ..old(self)@ }),
    {
        self.cursor = Cursor::Grab;
    }

    /// The style value that places `node` from the left: its displayed
    /// horizontal position in pixels.
    pub fn left(node: &FlowNode) -> (text: String)
        ensures
            text@ == px_text(node@.drag_state.live_offset.x),
    {
        px(node.drag_state().live_offset().0)
    }

    /// The style value that places `node` from the top: its displayed
    /// vertical position in pixels.
    pub fn top(node: &FlowNode) -> (text: String)
        ensures
            text@ == px_text(node@.drag_state.live_offset.y),
    {
        px(node.drag_state().live_offset().1)
    }
}

} // verus!
