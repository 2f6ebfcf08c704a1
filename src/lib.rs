//! A virtualized vertical list: computes which items of a scrollable list are
//! visible, hands each visible position a stable node index that persists
//! across frames, and describes where each item and the list's scrollbar go.
//!
//! Lengths are whole units (for instance pixels) held in a [`Scalar`]; the
//! y axis points up, so a rectangle's `top` is its largest y coordinate.
//!
//! Each frame, the caller places the trigger surface that
//! [`List::scroll_trigger`] describes, reads back where it went, and hands
//! that to [`List::update`], which returns the items to place one by one and
//! the scrollbar, if any.

pub mod geometry;
pub mod items;
pub mod list;
pub mod state;
pub mod window;

pub use geometry::{Color, NodeIndex, NodeIndexAllocator, Rect, Scalar};
pub use items::{Item, Items};
pub use list::{
    List, Scrollbar, ScrollbarPosition, Style, Theme, TriggerSurface, UpdateArgs,
};
pub use state::State;
pub use window::{ItemInstantiation, VisibleRange, visible_window};
