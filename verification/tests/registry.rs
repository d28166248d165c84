use leptos_flow::{
    default_seed, has_distinct_ids, DragController, DragState, FlowNode, NodeRegistry, NotFound,
    Position,
};

#[test]
fn drag_state_starts_at_rest() {
    let state = DragState::new(-3, 14);
    assert_eq!(state.position(), (-3, 14));
    assert_eq!(state.live_offset(), (-3, 14));
    assert_eq!(state.drag_anchor(), (0, 0));
}

#[test]
fn drag_state_setters_change_one_pair() {
    let mut state = DragState::new(1, 2);
    state.set_position(10, 20);
    assert_eq!(state.position(), (10, 20));
    assert_eq!(state.live_offset(), (1, 2));
    assert_eq!(state.drag_anchor(), (0, 0));
    state.set_live_offset(30, 40);
    assert_eq!(state.position(), (10, 20));
    assert_eq!(state.live_offset(), (30, 40));
    assert_eq!(state.drag_anchor(), (0, 0));
    state.set_drag_anchor(50, 60);
    assert_eq!(state.position(), (10, 20));
    assert_eq!(state.live_offset(), (30, 40));
    assert_eq!(state.drag_anchor(), (50, 60));
}

#[test]
fn flow_node_keeps_identity_and_state() {
    let state = DragState::new(7, 8);
    let node = FlowNode::new(42, state);
    assert_eq!(node.id(), 42);
    assert_eq!(*node.drag_state(), state);
    assert_eq!(node, FlowNode::new(42, DragState::new(7, 8)));
    assert_ne!(node, FlowNode::new(41, DragState::new(7, 8)));
}

#[test]
fn default_seed_is_one_node_at_the_origin() {
    let seed = default_seed();
    assert_eq!(seed, vec![FlowNode::new(0, DragState::new(0, 0))]);
    assert!(has_distinct_ids(&seed));
}

#[test]
fn distinct_ids_are_told_from_repeated_ones() {
    let node = |id: usize| FlowNode::new(id, DragState::new(0, 0));
    assert!(has_distinct_ids(&vec![]));
    assert!(has_distinct_ids(&vec![node(5)]));
    assert!(has_distinct_ids(&vec![node(5), node(0), node(usize::MAX)]));
    assert!(!has_distinct_ids(&vec![node(5), node(5)]));
    assert!(!has_distinct_ids(&vec![node(1), node(2), node(3), node(1)]));
    assert!(!has_distinct_ids(&vec![node(1), node(2), node(3), node(3)]));
    assert!(!has_distinct_ids(&vec![
        FlowNode::new(2, DragState::new(0, 0)),
        FlowNode::new(2, DragState::new(9, 9)),
    ]));
}

#[test]
fn list_keeps_insertion_order() {
    let seed = vec![
        FlowNode::new(30, DragState::new(3, 3)),
        FlowNode::new(10, DragState::new(1, 1)),
        FlowNode::new(20, DragState::new(2, 2)),
    ];
    let registry = NodeRegistry::initialize(seed.clone());
    assert_eq!(*registry.list(), seed);
    assert_eq!(NodeRegistry::initialize(vec![]).list().len(), 0);
}

#[test]
fn get_finds_a_node_by_identity() {
    let registry = NodeRegistry::initialize(vec![
        FlowNode::new(30, DragState::new(3, 3)),
        FlowNode::new(10, DragState::new(1, 1)),
        FlowNode::new(20, DragState::new(2, 2)),
    ]);
    assert_eq!(registry.get(10), Ok(&FlowNode::new(10, DragState::new(1, 1))));
    assert_eq!(registry.get(20), Ok(&FlowNode::new(20, DragState::new(2, 2))));
    assert_eq!(registry.get(30), Ok(&FlowNode::new(30, DragState::new(3, 3))));
    assert!(registry.contains(10));
    assert!(registry.contains(30));
}

#[test]
fn get_of_an_unknown_identity_is_not_found() {
    let registry = NodeRegistry::initialize(default_seed());
    assert_eq!(registry.get(1), Err(NotFound { id: 1 }));
    assert!(!registry.contains(1));
    assert!(registry.contains(0));
    let empty = NodeRegistry::initialize(vec![]);
    assert_eq!(empty.get(0), Err(NotFound { id: 0 }));
    assert!(!empty.contains(0));
}

#[test]
fn new_controller_is_idle_over_the_registry() {
    let seed = vec![
        FlowNode::new(1, DragState::new(1, 1)),
        FlowNode::new(2, DragState::new(2, 2)),
    ];
    let controller = DragController::new(NodeRegistry::initialize(seed.clone()));
    assert_eq!(controller.active_node_id(), None);
    assert_eq!(*controller.registry().list(), seed);
}

#[test]
fn sides_are_told_apart() {
    let names: Vec<String> = [Position::Left, Position::Right, Position::Top, Position::Bottom]
        .iter()
        .map(|side| format!("{:?}", side))
        .collect();
    assert_eq!(names, vec!["Left", "Right", "Top", "Bottom"]);
}
