use crane_container::container::{
    CraneContainer, PaintLayer, INITIAL_PALETTE_X, INITIAL_PALETTE_Y, PALETTE_MAX_HEIGHT,
    PALETTE_MAX_WIDTH,
};
use crane_container::event::{CommandPayload, CraneCommand, InputEvent, RouteTarget};
use crane_container::geometry::{Point, Rect, Size};
use crane_container::state::{AppState, EditorState, WidgetIdGen};

fn fresh_container() -> (CraneContainer, AppState) {
    let mut ids = WidgetIdGen::new();
    let mut state = AppState::new();
    let container = CraneContainer::new(&mut ids, &mut state);
    (container, state)
}

#[test]
fn construction_registers_one_editor_and_the_palette() {
    let (container, state) = fresh_container();
    assert_eq!(state.palette.widget_id, Some(container.palette_id));
    assert_eq!(state.editor_split.editors.len(), 1);
    assert_eq!(
        state.editor_split.editors.get(&container.editor_id),
        Some(&EditorState { editor_id: container.editor_id, scroll_id: container.scroll_id })
    );
    assert_eq!(state.editor_split.active, Some(container.editor_id));
    assert_ne!(container.palette_id, container.editor_id);
    assert_ne!(container.editor_id, container.scroll_id);
    assert_ne!(container.palette_id, container.scroll_id);
}

#[test]
fn construction_sets_the_default_palette_rect_and_cap() {
    let (container, _state) = fresh_container();
    assert_eq!(
        container.palette_max_size,
        Size { width: PALETTE_MAX_WIDTH, height: PALETTE_MAX_HEIGHT }
    );
    assert_eq!(
        container.palette_rect,
        Rect {
            x0: INITIAL_PALETTE_X,
            y0: INITIAL_PALETTE_Y,
            x1: INITIAL_PALETTE_X + PALETTE_MAX_WIDTH,
            y1: INITIAL_PALETTE_Y + PALETTE_MAX_HEIGHT,
        }
    );
}

#[test]
fn layout_800_by_600_centers_the_palette_above_center() {
    let (mut container, _state) = fresh_container();
    let plan = container.layout(Size::new(800, 600), Size::new(600, 400));
    // Origin ((800 - 600) / 2, (600 - 400) / 4) = (100, 50), size as reported.
    assert_eq!(plan.palette_rect, Rect { x0: 100, y0: 50, x1: 700, y1: 450 });
    assert_eq!(container.palette_rect, plan.palette_rect);
    assert_eq!(plan.editor_rect, Rect { x0: 0, y0: 0, x1: 800, y1: 600 });
    assert_eq!(plan.self_size, Size { width: 800, height: 600 });
}

#[test]
fn layout_keeps_a_smaller_reported_palette_size() {
    let (mut container, _state) = fresh_container();
    let plan = container.layout(Size::new(800, 600), Size::new(300, 200));
    assert_eq!(plan.palette_rect, Rect { x0: 100, y0: 50, x1: 400, y1: 250 });
}

#[test]
fn layout_smaller_than_the_cap_clamps_the_vertical_offset() {
    let (mut container, _state) = fresh_container();
    let plan = container.layout(Size::new(400, 300), Size::new(400, 300));
    // (300 - 400) / 4 clamps to 0; horizontally the palette still centers,
    // which puts its left edge off screen at (400 - 600) / 2 = -100.
    assert_eq!(plan.palette_rect.y0, 0);
    assert_eq!(plan.palette_rect.x0, -100);
    assert_eq!(plan.self_size, Size { width: 400, height: 300 });
}

#[test]
fn layout_twice_with_the_same_input_is_identical() {
    let (mut container, _state) = fresh_container();
    let first = container.layout(Size::new(1024, 768), Size::new(600, 400));
    let second = container.layout(Size::new(1024, 768), Size::new(600, 400));
    assert_eq!(first, second);
    assert_eq!(container.palette_rect, second.palette_rect);
}

#[test]
fn pointer_inside_visible_palette_goes_to_the_palette() {
    let (mut container, mut state) = fresh_container();
    container.layout(Size::new(800, 600), Size::new(600, 400));
    state.palette.hidden = false;
    let response = container.event(&InputEvent::PointerPress(Point::new(150, 60)), &state);
    assert_eq!(response.target, RouteTarget::Palette);
    assert!(response.request_focus);
}

#[test]
fn pointer_outside_the_palette_goes_to_the_editor_split() {
    let (mut container, mut state) = fresh_container();
    container.layout(Size::new(800, 600), Size::new(600, 400));
    state.palette.hidden = false;
    let response = container.event(&InputEvent::PointerMove(Point::new(50, 60)), &state);
    assert_eq!(response.target, RouteTarget::EditorSplit);
}

#[test]
fn pointer_inside_a_hidden_palette_goes_to_the_editor_split() {
    let (mut container, mut state) = fresh_container();
    container.layout(Size::new(800, 600), Size::new(600, 400));
    state.palette.hidden = true;
    let response = container.event(&InputEvent::PointerWheel(Point::new(150, 60)), &state);
    assert_eq!(response.target, RouteTarget::EditorSplit);
}

#[test]
fn pointer_on_the_palette_edges_respects_half_open_containment() {
    let (mut container, mut state) = fresh_container();
    container.layout(Size::new(800, 600), Size::new(600, 400));
    state.palette.hidden = false;
    // The rectangle is {100, 50, 700, 450}: minimum edges inside.
    let on_min = container.event(&InputEvent::PointerRelease(Point::new(100, 50)), &state);
    assert_eq!(on_min.target, RouteTarget::Palette);
    // Maximum edges outside.
    let on_max = container.event(&InputEvent::PointerRelease(Point::new(700, 450)), &state);
    assert_eq!(on_max.target, RouteTarget::EditorSplit);
}

#[test]
fn key_press_goes_to_the_key_handler_whatever_the_palette_does() {
    let (mut container, mut state) = fresh_container();
    container.layout(Size::new(800, 600), Size::new(600, 400));
    state.palette.hidden = false;
    let visible = container.event(&InputEvent::KeyPress, &state);
    assert_eq!(visible.target, RouteTarget::KeyHandler);
    state.palette.hidden = true;
    let hidden = container.event(&InputEvent::KeyPress, &state);
    assert_eq!(hidden.target, RouteTarget::KeyHandler);
}

#[test]
fn internal_events_reach_both_children() {
    let (container, state) = fresh_container();
    let response = container.event(&InputEvent::Internal, &state);
    assert_eq!(response.target, RouteTarget::BothChildren);
}

#[test]
fn crane_commands_go_to_the_palette_alone() {
    let (container, state) = fresh_container();
    let palette_cmd =
        container.event(&InputEvent::Command(CommandPayload::Crane(CraneCommand::Palette)), &state);
    assert_eq!(palette_cmd.target, RouteTarget::Palette);
    let other_cmd =
        container.event(&InputEvent::Command(CommandPayload::Crane(CraneCommand::Other)), &state);
    assert_eq!(other_cmd.target, RouteTarget::Palette);
}

#[test]
fn foreign_commands_and_unhandled_events_are_dropped() {
    let (container, state) = fresh_container();
    let foreign = container.event(&InputEvent::Command(CommandPayload::Foreign), &state);
    assert_eq!(foreign.target, RouteTarget::Nobody);
    let other = container.event(&InputEvent::Other, &state);
    assert_eq!(other.target, RouteTarget::Nobody);
}

#[test]
fn focus_is_requested_on_every_event() {
    let (container, state) = fresh_container();
    let events = vec![
        InputEvent::Internal,
        InputEvent::KeyPress,
        InputEvent::Command(CommandPayload::Foreign),
        InputEvent::PointerMove(Point::new(0, 0)),
        InputEvent::Other,
    ];
    for event in &events {
        assert!(container.event(event, &state).request_focus);
    }
}

#[test]
fn lifecycle_reaches_both_children_and_update_reaches_nobody() {
    let (container, _state) = fresh_container();
    assert_eq!(container.lifecycle(), RouteTarget::BothChildren);
    assert_eq!(container.update(), RouteTarget::Nobody);
}

#[test]
fn paint_issues_the_editor_split_before_the_palette() {
    let (container, _state) = fresh_container();
    assert_eq!(container.paint(), vec![PaintLayer::EditorSplit, PaintLayer::Palette]);
}

#[test]
fn rect_containment_is_half_open() {
    let rect = Rect { x0: 0, y0: 0, x1: 10, y1: 10 };
    assert!(rect.contains(Point::new(0, 0)));
    assert!(rect.contains(Point::new(9, 9)));
    assert!(!rect.contains(Point::new(10, 0)));
    assert!(!rect.contains(Point::new(0, 10)));
    assert!(!rect.contains(Point::new(-1, 5)));
}

#[test]
fn widget_id_generator_never_repeats() {
    let mut ids = WidgetIdGen::new();
    let a = ids.fresh_id();
    let b = ids.fresh_id();
    let c = ids.fresh_id();
    assert_ne!(a, b);
    assert_ne!(b, c);
    assert_ne!(a, c);
}
