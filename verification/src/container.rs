//! The container itself: construction and wiring of the palette and the
//! editor split, event routing, layout composition, and the frame's paint
//! order.

use vstd::prelude::*;
use crate::event::{CommandPayload, CraneCommand, EventResponse, InputEvent, RouteTarget,
    pointer_route, route_spec};
use crate::geometry::{Point, Rect, Size};
use crate::state::{AppState, EditorState, WidgetIdGen};

verus! {

/// Upper bound on the palette overlay's width, in logical units.
pub const PALETTE_MAX_WIDTH: i64 = 600;

/// Upper bound on the palette overlay's height, in logical units.
pub const PALETTE_MAX_HEIGHT: i64 = 400;

/// Horizontal coordinate of the palette rectangle's fixed default position,
/// before the first layout pass.
pub const INITIAL_PALETTE_X: i64 = 200;

/// Vertical coordinate of the palette rectangle's fixed default position,
/// before the first layout pass.
pub const INITIAL_PALETTE_Y: i64 = 100;

/// Per-pane bookkeeping kept by the split collaborator: the pane's last-known
/// placement and visibility.
pub struct ChildState {
    pub origin: Option<Point>,
    pub size: Option<Size>,
    pub hidden: bool,
}

impl ChildState {
    /// The invariant the container may assume when delegating layout: a pane
    /// that is not hidden always has a defined origin and size after layout.
    pub open spec fn wf(self) -> bool {
        !self.hidden ==> self.origin is Some && self.size is Some
    }
}

/// One child subtree, as a paint plan names it.
#[derive(Clone, Copy, Debug, PartialEq, Eq, Structural)]
pub enum PaintLayer {
    EditorSplit,
    Palette,
}

/// The placement a layout pass assigns: the palette's centered rectangle, the
/// editor split's full-area rectangle, and the size the container reports as
/// its own.
#[derive(Clone, Copy, Debug, PartialEq, Eq, Structural)]
pub struct LayoutPlan {
    pub palette_rect: Rect,
    pub editor_rect: Rect,
    pub self_size: Size,
}

/// Offset that centers an extent of `inner` within an extent of `outer`:
/// half the leftover space, rounded toward zero, negative when `inner`
/// overflows `outer`.
pub open spec fn centered_offset(outer: int, inner: int) -> int {
    if outer >= inner {
        (outer - inner) / 2
    } else {
        -((inner - outer) / 2)
    }
}

/// Vertical placement of the palette: one quarter of the leftover height,
/// clamped at zero so it never goes negative — a deliberate above-center
/// placement.
pub open spec fn quarter_offset(outer: int, inner: int) -> int {
    if outer >= inner {
        (outer - inner) / 4
    } else {
        0
    }
}

/// `r` is the palette rectangle a layout pass computes from the palette cap
/// `max`, the granted size `available`, and the size `reported` the palette
/// chose within the cap: the cap centers it, the reported size extends it.
pub open spec fn is_palette_rect_for(r: Rect, max: Size, available: Size, reported: Size) -> bool {
    &&& r.x0 == centered_offset(available.width as int, max.width as int)
    &&& r.y0 == quarter_offset(available.height as int, max.height as int)
    &&& r.width() == reported.width
    &&& r.height() == reported.height
}

/// The root compositing widget: owns the palette overlay and the editor
/// split (held here as their registered identities), arbitrates input
/// between them, and places them every layout pass.
pub struct CraneContainer {
    /// Fixed upper bound on the palette's size.
    pub palette_max_size: Size,
    /// The palette's screen rectangle as of the most recent layout pass; the
    /// event router hit-tests pointer events against it.
    pub palette_rect: Rect,
    /// Identity of the palette subtree, as published in the shared store.
    pub palette_id: u64,
    /// Identity of the single editor created at construction.
    pub editor_id: u64,
    /// Identity of the scroll viewport wrapping that editor.
    pub scroll_id: u64,
}

impl CraneContainer {
    pub open spec fn wf(self) -> bool {
        self.palette_max_size.wf() && self.palette_rect.wf()
    }

    /// Builds a fully wired container: allocates identities for the palette,
    /// one editor, and the editor's scroll viewport; publishes the palette's
    /// identity; registers the editor in the shared editor-split section and
    /// marks it active; and starts the palette rectangle at its fixed default
    /// position with the full palette cap.
    pub fn new(ids: &mut WidgetIdGen, state: &mut AppState) -> (c: CraneContainer)
        requires
            old(ids).next_id + 3 <= u64::MAX,
        ensures
            c.palette_id == old(ids).next_id,
            c.editor_id == old(ids).next_id + 1,
            c.scroll_id == old(ids).next_id + 2,
            final(ids).next_id == old(ids).next_id + 3,
            final(state).palette.widget_id == Some(c.palette_id),
            final(state).palette.hidden == old(state).palette.hidden,
            final(state).editor_split.editors@ == old(state).editor_split.editors@.insert(
                c.editor_id,
                (EditorState { editor_id: c.editor_id, scroll_id: c.scroll_id }),
            ),
            final(state).editor_split.active == Some(c.editor_id),
            c.palette_max_size == (Size { width: PALETTE_MAX_WIDTH, height: PALETTE_MAX_HEIGHT }),
            c.palette_rect.origin() == (Point { x: INITIAL_PALETTE_X, y: INITIAL_PALETTE_Y }),
            c.palette_rect.width() == PALETTE_MAX_WIDTH,
            c.palette_rect.height() == PALETTE_MAX_HEIGHT,
            c.wf(),
    {
        let palette_id = ids.fresh_id();
        state.palette.set_widget_id(palette_id);

        let editor_id = ids.fresh_id();
        let scroll_id = ids.fresh_id();
        let editor_state = EditorState::new(editor_id, scroll_id);
        state.editor_split.insert_editor(editor_id, editor_state);
        state.editor_split.set_active(editor_id);

        CraneContainer {
            palette_max_size: Size::new(PALETTE_MAX_WIDTH, PALETTE_MAX_HEIGHT),
            palette_rect: Rect::from_origin_size(
                Point::new(INITIAL_PALETTE_X, INITIAL_PALETTE_Y),
                Size::new(PALETTE_MAX_WIDTH, PALETTE_MAX_HEIGHT),
            ),
            palette_id,
            editor_id,
            scroll_id,
        }
    }

    /// Routes one inbound event. Focus is re-asserted unconditionally on
    /// every event, and the target follows the routing decision table over
    /// the palette's visibility flag in the shared store and the current
    /// palette rectangle. The store's guard is the embedder's to acquire and
    /// must not be held across the forwarding this response asks for.
    pub fn event(&self, event: &InputEvent, state: &AppState) -> (r: EventResponse)
        ensures
            r.request_focus,
            r.target == route_spec(*event, state.palette.hidden, self.palette_rect),
    {
        let target = match event {
            InputEvent::Internal => RouteTarget::BothChildren,
            InputEvent::KeyPress => RouteTarget::KeyHandler,
            InputEvent::Command(payload) => match payload {
                CommandPayload::Crane(cmd) => {
                    // The `Palette` command is recognized explicitly as a
                    // hook point; it has no distinct side effect at this
                    // layer.
                    match cmd {
                        CraneCommand::Palette => (),
                        CraneCommand::Other => (),
                    };
                    RouteTarget::Palette
                },
                CommandPayload::Foreign => RouteTarget::Nobody,
            },
            InputEvent::PointerPress(pos) => self.route_pointer(*pos, state),
            InputEvent::PointerRelease(pos) => self.route_pointer(*pos, state),
            InputEvent::PointerMove(pos) => self.route_pointer(*pos, state),
            InputEvent::PointerWheel(pos) => self.route_pointer(*pos, state),
            InputEvent::Other => RouteTarget::Nobody,
        };
        EventResponse { request_focus: true, target }
    }

    /// Hit-tests a pointer position: the visible palette takes the event when
    /// the position falls inside its rectangle, the editor split otherwise.
    fn route_pointer(&self, pos: Point, state: &AppState) -> (t: RouteTarget)
        ensures
            t == pointer_route(pos, state.palette.hidden, self.palette_rect),
    {
        if !state.palette.hidden && self.palette_rect.contains(pos) {
            RouteTarget::Palette
        } else {
            RouteTarget::EditorSplit
        }
    }

    /// Lifecycle notifications are framework bookkeeping: both children must
    /// observe them, the palette first, then the editor split.
    pub fn lifecycle(&self) -> (t: RouteTarget)
        ensures
            t == RouteTarget::BothChildren,
    {
        RouteTarget::BothChildren
    }

    /// Data-change notifications are not compared or forwarded at this layer:
    /// a deliberate no-op, the children react during their own handling.
    pub fn update(&self) -> (t: RouteTarget)
        ensures
            t == RouteTarget::Nobody,
    {
        RouteTarget::Nobody
    }

    /// One layout pass. The editor split is granted the full available area
    /// at the origin; the palette, having reported `palette_size` within the
    /// cap, is centered horizontally and placed at a quarter of the leftover
    /// height, clamped at zero; the container consumes all granted space. The
    /// stored palette rectangle is updated synchronously, so it is fresh for
    /// the next routing pass's hit test.
    pub fn layout(&mut self, available: Size, palette_size: Size) -> (plan: LayoutPlan)
        requires
            old(self).wf(),
            available.wf(),
            palette_size.wf(),
            palette_size.width <= old(self).palette_max_size.width,
            palette_size.height <= old(self).palette_max_size.height,
        ensures
            is_palette_rect_for(
                final(self).palette_rect,
                old(self).palette_max_size,
                available,
                palette_size,
            ),
            plan.palette_rect == final(self).palette_rect,
            plan.editor_rect.origin() == (Point { x: 0, y: 0 }),
            plan.editor_rect.width() == available.width,
            plan.editor_rect.height() == available.height,
            plan.self_size == available,
            final(self).palette_max_size == old(self).palette_max_size,
            final(self).palette_id == old(self).palette_id,
            final(self).editor_id == old(self).editor_id,
            final(self).scroll_id == old(self).scroll_id,
            final(self).wf(),
    {
        let max_w = self.palette_max_size.width;
        let max_h = self.palette_max_size.height;

        let origin_x: i64 = if available.width >= max_w {
            (available.width - max_w) / 2
        } else {
            -((max_w - available.width) / 2)
        };
        let origin_y: i64 = if available.height >= max_h {
            (available.height - max_h) / 4
        } else {
            0
        };

        self.palette_rect = Rect::from_origin_size(
            Point::new(origin_x, origin_y),
            palette_size,
        );

        let editor_rect = Rect::from_origin_size(Point::new(0, 0), available);

        LayoutPlan { palette_rect: self.palette_rect, editor_rect, self_size: available }
    }

    /// The paint plan for one frame: the editor split is the base layer and
    /// is painted in full before the palette, the overlay, so the palette
    /// occludes the editor wherever they overlap. There is no visibility
    /// check here; an invisible palette paints as a no-op by its own state.
    pub fn paint(&self) -> (order: Vec<PaintLayer>)
        ensures
            order@ == seq![PaintLayer::EditorSplit, PaintLayer::Palette],
    {
        let mut order: Vec<PaintLayer> = Vec::new();
        order.push(PaintLayer::EditorSplit);
        order.push(PaintLayer::Palette);
        proof {
            assert(order@ =~= seq![PaintLayer::EditorSplit, PaintLayer::Palette]);
        }
        order
    }
}

/// Layout is idempotent: two layout passes over the same palette cap, the
/// same available size, and the same reported palette size settle on the same
/// palette rectangle — there is no hidden drift between passes.
pub proof fn lemma_layout_idempotent(r1: Rect, r2: Rect, max: Size, available: Size, reported: Size)
    requires
        is_palette_rect_for(r1, max, available, reported),
        is_palette_rect_for(r2, max, available, reported),
    ensures
        r1 == r2,
{
}

} // verus!
