//! The shared application store and the widget-identity allocator. The store
//! is process-wide state reachable from several subtrees; the embedder must
//! acquire its guard for each touch and release it before calling into a
//! child, a discipline this single-threaded model states as the API contract.

use vstd::prelude::*;
use std::collections::HashMap;

verus! {

broadcast use vstd::std_specs::hash::group_hash_axioms;

/// Allocator of process-unique widget identities: a monotone counter, so two
/// identities handed out by one generator are never equal.
pub struct WidgetIdGen {
    pub next_id: u64,
}

impl WidgetIdGen {
    pub fn new() -> (g: WidgetIdGen)
        ensures
            g.next_id == 1,
    {
        WidgetIdGen { next_id: 1 }
    }

    /// Hands out the next identity and advances the counter.
    pub fn fresh_id(&mut self) -> (id: u64)
        requires
            old(self).next_id < u64::MAX,
        ensures
            id == old(self).next_id,
            final(self).next_id == old(self).next_id + 1,
    {
        let id = self.next_id;
        self.next_id = self.next_id + 1;
        id
    }
}

/// The palette section of the store: the palette's published identity
/// (set once, at construction) and its visibility flag.
pub struct PaletteState {
    pub widget_id: Option<u64>,
    pub hidden: bool,
}

impl PaletteState {
    /// A fresh palette section: no identity published, overlay not shown.
    pub fn new() -> (s: PaletteState)
        ensures
            s.widget_id is None,
            s.hidden,
    {
        PaletteState { widget_id: None, hidden: true }
    }

    /// Publishes the palette's identity so other components can address it.
    pub fn set_widget_id(&mut self, id: u64)
        ensures
            final(self).widget_id == Some(id),
            final(self).hidden == old(self).hidden,
    {
        self.widget_id = Some(id);
    }
}

/// Binding of one editor pane to its enclosing scroll viewport.
#[derive(Clone, Copy, Debug, PartialEq, Eq, Structural)]
pub struct EditorState {
    pub editor_id: u64,
    pub scroll_id: u64,
}

impl EditorState {
    pub fn new(editor_id: u64, scroll_id: u64) -> (s: EditorState)
        ensures
            s == (EditorState { editor_id, scroll_id }),
    {
        EditorState { editor_id, scroll_id }
    }
}

/// The editor-split section of the store: all registered editors keyed by
/// identity, and which identity is active.
pub struct EditorSplitState {
    pub editors: HashMap<u64, EditorState>,
    pub active: Option<u64>,
}

impl EditorSplitState {
    /// A fresh editor-split section: no editors, none active.
    pub fn new() -> (s: EditorSplitState)
        ensures
            s.editors@ == Map::<u64, EditorState>::empty(),
            s.active is None,
    {
        EditorSplitState { editors: HashMap::new(), active: None }
    }

    /// Registers an editor under its identity.
    pub fn insert_editor(&mut self, id: u64, editor: EditorState)
        ensures
            final(self).editors@ == old(self).editors@.insert(id, editor),
            final(self).active == old(self).active,
    {
        self.editors.insert(id, editor);
    }

    /// Marks an identity as the active editor.
    pub fn set_active(&mut self, id: u64)
        ensures
            final(self).active == Some(id),
            final(self).editors@ == old(self).editors@,
    {
        self.active = Some(id);
    }
}

/// The whole shared store: one palette section and one editor-split section,
/// independently guarded in the embedding process.
pub struct AppState {
    pub palette: PaletteState,
    pub editor_split: EditorSplitState,
}

impl AppState {
    pub fn new() -> (s: AppState)
        ensures
            s.palette.widget_id is None,
            s.palette.hidden,
            s.editor_split.editors@ == Map::<u64, EditorState>::empty(),
            s.editor_split.active is None,
    {
        AppState { palette: PaletteState::new(), editor_split: EditorSplitState::new() }
    }
}

} // verus!
