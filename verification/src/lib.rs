//! Root compositing logic of a text-editor window: a container that owns a
//! modal command-palette overlay and an editor-split surface, routes every
//! input event to exactly one of them (or both, for lifecycle bookkeeping),
//! and computes their screen placement on each layout pass.
//!
//! The container's decisions are pure: routing is a function of the event,
//! the palette's visibility flag and the current palette rectangle; layout is
//! a function of the granted size and the palette's reported size. The
//! embedding widget shell performs the actual forwarding and drawing from the
//! plans returned here.

pub mod container;
pub mod event;
pub mod geometry;
pub mod state;
