use leptos_flow::{
    default_seed, px, Cursor, DragController, DragState, FlowNode, NodeRegistry, NodeView,
    NotFound,
};

#[test]
fn cursor_names() {
    assert_eq!(Cursor::Default.css(), "default");
    assert_eq!(Cursor::Grabbing.css(), "grabbing");
    assert_eq!(Cursor::Grab.css(), "grab");
}

#[test]
fn pixels_are_written_in_decimal() {
    assert_eq!(px(0), "0px");
    assert_eq!(px(7), "7px");
    assert_eq!(px(10), "10px");
    assert_eq!(px(50), "50px");
    assert_eq!(px(-20), "-20px");
    assert_eq!(px(-1), "-1px");
    assert_eq!(px(1009), "1009px");
    assert_eq!(px(i32::MAX), "2147483647px");
    assert_eq!(px(i32::MIN), "-2147483648px");
}

#[test]
fn pixels_agree_with_the_standard_formatting() {
    let mut value: i32 = -1_000_003;
    while value < 1_000_000 {
        assert_eq!(px(value), format!("{}px", value));
        value += 9_973;
    }
}

#[test]
fn new_view_has_the_default_cursor() {
    let view = NodeView::new(3);
    assert_eq!(view.id(), 3);
    assert_eq!(view.cursor(), Cursor::Default);
}

#[test]
fn press_grabs_the_node() {
    let mut controller = DragController::new(NodeRegistry::initialize(default_seed()));
    let mut view = NodeView::new(0);
    assert_eq!(view.on_pointer_down(&mut controller, 100, 100), Ok(()));
    assert_eq!(view.cursor(), Cursor::Grabbing);
    assert_eq!(view.id(), 0);
    assert_eq!(controller.active_node_id(), Some(0));
    assert_eq!(controller.registry().get(0).unwrap().drag_state().drag_anchor(), (100, 100));
    controller.on_pointer_move(150, 80);
    let node = *controller.registry().get(0).unwrap();
    assert_eq!(NodeView::left(&node), "50px");
    assert_eq!(NodeView::top(&node), "-20px");
}

#[test]
fn press_on_a_view_of_an_unknown_node_is_not_found() {
    let mut controller = DragController::new(NodeRegistry::initialize(default_seed()));
    let mut view = NodeView::new(4);
    view.on_pointer_over();
    assert_eq!(view.on_pointer_down(&mut controller, 1, 1), Err(NotFound { id: 4 }));
    assert_eq!(view.cursor(), Cursor::Grab);
    assert_eq!(controller.active_node_id(), None);
    assert_eq!(*controller.registry().list(), default_seed());
}

#[test]
fn hover_and_release_show_the_grab_cursor() {
    let mut view = NodeView::new(1);
    view.on_pointer_over();
    assert_eq!(view.cursor(), Cursor::Grab);
    assert_eq!(view.id(), 1);

    let mut controller = DragController::new(NodeRegistry::initialize(vec![FlowNode::new(
        1,
        DragState::new(0, 0),
    )]));
    view.on_pointer_down(&mut controller, 0, 0).unwrap();
    assert_eq!(view.cursor(), Cursor::Grabbing);
    view.on_pointer_up();
    assert_eq!(view.cursor(), Cursor::Grab);
    assert_eq!(view.id(), 1);

    let mut fresh = NodeView::new(2);
    fresh.on_pointer_up();
    assert_eq!(fresh.cursor(), Cursor::Grab);
}

#[test]
fn style_values_follow_the_displayed_position() {
    let mut state = DragState::new(3, 4);
    state.set_live_offset(-15, 260);
    let node = FlowNode::new(0, state);
    assert_eq!(NodeView::left(&node), "-15px");
    assert_eq!(NodeView::top(&node), "260px");
}
