//! Input events and the routing decision table: for each inbound event the
//! container picks a target among the palette overlay, the editor split, both
//! children, the shared key handler, or nobody.

use vstd::prelude::*;
use crate::geometry::{Point, Rect};

verus! {

/// The application's private command payload. `Palette` is recognized
/// explicitly by the router as a hook point; every payload variant is
/// forwarded the same way.
#[derive(Clone, Copy, Debug, PartialEq, Eq, Structural)]
pub enum CraneCommand {
    Palette,
    Other,
}

/// What a command event carries: either the application's own payload or a
/// selector addressed to some other component.
#[derive(Clone, Copy, Debug, PartialEq, Eq, Structural)]
pub enum CommandPayload {
    Crane(CraneCommand),
    Foreign,
}

/// One inbound event, as the windowing layer's event categories look to this
/// container. Pointer variants carry the pointer position in the container's
/// coordinate space.
#[derive(Clone, Copy, Debug, PartialEq, Eq, Structural)]
pub enum InputEvent {
    /// Internal lifecycle-propagation bookkeeping, not user input.
    Internal,
    /// A raw key press.
    KeyPress,
    /// A command event and its payload.
    Command(CommandPayload),
    PointerPress(Point),
    PointerRelease(Point),
    PointerMove(Point),
    PointerWheel(Point),
    /// Any event category the router does not act on.
    Other,
}

/// Where one event is forwarded.
#[derive(Clone, Copy, Debug, PartialEq, Eq, Structural)]
pub enum RouteTarget {
    /// Both children observe the event: the palette first, then the editor
    /// split.
    BothChildren,
    /// The shared application state's key handler; neither child is called.
    KeyHandler,
    /// The palette overlay alone.
    Palette,
    /// The editor split alone.
    EditorSplit,
    /// Silently dropped: no forwarding at all.
    Nobody,
}

/// The container's reaction to one event: focus is re-asserted, and the event
/// is forwarded to `target`.
#[derive(Clone, Copy, Debug, PartialEq, Eq, Structural)]
pub struct EventResponse {
    /// The container requests input focus for itself on every event; it never
    /// yields keyboard-focus ownership to a child at this layer.
    pub request_focus: bool,
    pub target: RouteTarget,
}

/// The position carried by a pointer event, if the event is one.
pub open spec fn pointer_pos(e: InputEvent) -> Option<Point> {
    match e {
        InputEvent::PointerPress(p) => Some(p),
        InputEvent::PointerRelease(p) => Some(p),
        InputEvent::PointerMove(p) => Some(p),
        InputEvent::PointerWheel(p) => Some(p),
        _ => None,
    }
}

/// Routing of a pointer event: the palette takes it exactly when it is
/// visible and the position falls inside its rectangle; otherwise the editor
/// split takes it.
pub open spec fn pointer_route(p: Point, palette_hidden: bool, palette_rect: Rect) -> RouteTarget {
    if !palette_hidden && palette_rect.spec_contains(p) {
        RouteTarget::Palette
    } else {
        RouteTarget::EditorSplit
    }
}

/// The full routing decision table, in the router's branch order: internal
/// events go to both children; key presses go to the shared key handler and
/// never reach the pointer check, whatever the palette's state; command
/// events with the application's payload go to the palette and foreign ones
/// are dropped; pointer events are hit-tested against the palette rectangle;
/// everything else is dropped.
pub open spec fn route_spec(e: InputEvent, palette_hidden: bool, palette_rect: Rect) -> RouteTarget {
    match e {
        InputEvent::Internal => RouteTarget::BothChildren,
        InputEvent::KeyPress => RouteTarget::KeyHandler,
        InputEvent::Command(payload) => match payload {
            CommandPayload::Crane(_) => RouteTarget::Palette,
            CommandPayload::Foreign => RouteTarget::Nobody,
        },
        InputEvent::PointerPress(p) => pointer_route(p, palette_hidden, palette_rect),
        InputEvent::PointerRelease(p) => pointer_route(p, palette_hidden, palette_rect),
        InputEvent::PointerMove(p) => pointer_route(p, palette_hidden, palette_rect),
        InputEvent::PointerWheel(p) => pointer_route(p, palette_hidden, palette_rect),
        InputEvent::Other => RouteTarget::Nobody,
    }
}

/// The target delivers the event to the palette subtree.
pub open spec fn reaches_palette(t: RouteTarget) -> bool {
    t == RouteTarget::Palette || t == RouteTarget::BothChildren
}

/// The target delivers the event to the editor-split subtree.
pub open spec fn reaches_editor_split(t: RouteTarget) -> bool {
    t == RouteTarget::EditorSplit || t == RouteTarget::BothChildren
}

/// A pointer event at a position inside the palette rectangle, while the
/// palette is visible, is routed to the palette and does not reach the editor
/// split.
pub proof fn lemma_pointer_inside_visible_palette(e: InputEvent, rect: Rect, p: Point)
    requires
        pointer_pos(e) == Some(p),
        rect.spec_contains(p),
    ensures
        route_spec(e, false, rect) == RouteTarget::Palette,
        reaches_palette(route_spec(e, false, rect)),
        !reaches_editor_split(route_spec(e, false, rect)),
{
}

/// A pointer event at a position outside the palette rectangle, or any
/// pointer event while the palette is hidden, is routed to the editor split
/// and does not reach the palette.
pub proof fn lemma_pointer_outside_or_hidden(e: InputEvent, palette_hidden: bool, rect: Rect, p: Point)
    requires
        pointer_pos(e) == Some(p),
        palette_hidden || !rect.spec_contains(p),
    ensures
        route_spec(e, palette_hidden, rect) == RouteTarget::EditorSplit,
        reaches_editor_split(route_spec(e, palette_hidden, rect)),
        !reaches_palette(route_spec(e, palette_hidden, rect)),
{
}

/// A key press is routed to the shared-state key handler whatever the
/// palette's visibility and wherever the pointer rests: neither child subtree
/// receives it directly.
pub proof fn lemma_key_press_to_key_handler(palette_hidden: bool, rect: Rect)
    ensures
        route_spec(InputEvent::KeyPress, palette_hidden, rect) == RouteTarget::KeyHandler,
        !reaches_palette(route_spec(InputEvent::KeyPress, palette_hidden, rect)),
        !reaches_editor_split(route_spec(InputEvent::KeyPress, palette_hidden, rect)),
{
}

} // verus!
