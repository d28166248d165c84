//! A node-graph canvas with draggable nodes.
//!
//! The crate holds the interaction logic of the canvas: the nodes and their
//! coordinate state, the registry that keeps them in order, and the drag
//! controller that turns pointer events into position updates. Rendering is
//! left to the embedding application, which feeds pointer events in and reads
//! node positions out.

pub mod controller;
pub mod laws;
pub mod node;
pub mod node_view;
pub mod registry;

pub use node::{Data, DragState, DragStateView, FlowNode, FlowNodeView, Point, Position};
pub use registry::{default_seed, has_distinct_ids, NodeRegistry, NotFound};
pub use controller::{DragController, DragModel};
pub use node_view::{px, Cursor, NodeView, NodeViewState};
