use vstd::prelude::*;

verus! {

/// A length or a coordinate, in whole units.
pub type Scalar = i64;

/// An axis-aligned rectangle: its left edge, its top edge (the y axis points
/// up), its width and its height.
#[derive(Clone, Copy, Debug, PartialEq, Eq, Structural)]
pub struct Rect {
    pub left: Scalar,
    pub top: Scalar,
    pub w: Scalar,
    pub h: Scalar,
}

/// A rectangle over mathematical integers, the model of [`Rect`].
pub struct RectModel {
    pub left: int,
    pub top: int,
    pub w: int,
    pub h: int,
}

impl RectModel {
    /// Every coordinate and length fits a [`Scalar`].
    pub open spec fn fits(self) -> bool {
        &&& i64::MIN <= self.left <= i64::MAX
        &&& i64::MIN <= self.top <= i64::MAX
        &&& i64::MIN <= self.w <= i64::MAX
        &&& i64::MIN <= self.h <= i64::MAX
    }
}

impl View for Rect {
    type V = RectModel;

    open spec fn view(&self) -> RectModel {
        RectModel { left: self.left as int, top: self.top as int, w: self.w as int, h: self.h as int }
    }
}

impl Rect {
    /// Builds a rectangle from its left edge, top edge, width and height.
    pub fn new(left: Scalar, top: Scalar, w: Scalar, h: Scalar) -> (r: Rect)
        ensures
            r.left == left && r.top == top && r.w == w && r.h == h,
    {
        Rect { left, top, w, h }
    }
}

/// An RGBA color with one byte per channel.
#[derive(Clone, Copy, Debug, PartialEq, Eq, Structural)]
pub struct Color {
    pub r: u8,
    pub g: u8,
    pub b: u8,
    pub a: u8,
}

/// The identity of a placeable node in a widget graph. State kept for a node
/// across frames is found again through its index.
#[derive(Clone, Copy, Debug, PartialEq, Eq, Structural)]
pub struct NodeIndex {
    pub index: u64,
}

/// Hands out node indices that were never handed out before by the same
/// allocator: a counter that only grows.
pub struct NodeIndexAllocator {
    next: u64,
}

impl NodeIndexAllocator {
    /// The index that the next allocation returns; every index handed out so
    /// far lies below it.
    pub closed spec fn next_index(&self) -> nat {
        self.next as nat
    }

    /// An allocator that has handed out nothing yet.
    pub fn new() -> (r: NodeIndexAllocator)
        ensures
            r.next_index() == 0,
    {
        NodeIndexAllocator { next: 0 }
    }

    /// How many more indices this allocator can hand out.
    pub fn remaining(&self) -> (r: u64)
        ensures
            r == u64::MAX - self.next_index(),
    {
        u64::MAX - self.next
    }

    /// Returns an index that this allocator never returned before.
    pub fn new_unique_node_index(&mut self) -> (r: NodeIndex)
        requires
            old(self).next_index() < u64::MAX,
        ensures
            r.index == old(self).next_index(),
            final(self).next_index() == old(self).next_index() + 1,
    {
        let r = NodeIndex { index: self.next };
        self.next = self.next + 1;
        r
    }
}

} // verus!
