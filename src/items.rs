use vstd::prelude::*;

use crate::geometry::{NodeIndex, Rect, RectModel, Scalar};
use crate::window::VisibleRange;

verus! {

/// What is needed to instantiate one item of a list.
#[derive(Clone, Copy, Debug, PartialEq, Eq, Structural)]
pub struct Item {
    /// The index of the item within the list.
    pub i: usize,
    /// The node index used for the item's widget.
    pub widget_idx: NodeIndex,
    /// The node index used for the previous item's widget, none for the first
    /// item of a frame.
    pub last_idx: Option<NodeIndex>,
    /// The width of the item.
    pub w: Scalar,
    /// The height of the item.
    pub h: Scalar,
    /// The node index of the trigger surface, on which the item is placed.
    pub scroll_trigger_idx: NodeIndex,
    /// The distance between the top of the trigger surface and the top of the
    /// first visible item.
    pub first_item_margin: Scalar,
}

impl Item {
    /// Where the item goes, given its anchor: the trigger surface for the
    /// first item of a frame, else the previous item. The first item hangs
    /// from the trigger surface's top by the margin, the others hang right
    /// under the previous item; each is aligned left with its anchor.
    pub open spec fn placed_on(self, anchor: RectModel) -> RectModel {
        RectModel {
            left: anchor.left,
            top: if self.last_idx is None {
                anchor.top - self.first_item_margin
            } else {
                anchor.top - anchor.h
            },
            w: self.w as int,
            h: self.h as int,
        }
    }

    /// The rectangle of the item's widget, placed on `anchor`: the rectangle
    /// of the trigger surface for the first item of a frame, else that of the
    /// previous item.
    pub fn set(&self, anchor: Rect) -> (r: Rect)
        requires
            self.placed_on(anchor@).fits(),
        ensures
            r@ == self.placed_on(anchor@),
    {
        let top: Scalar = match self.last_idx {
            None => anchor.top - self.first_item_margin,
            Some(_) => anchor.top - anchor.h,
        };
        Rect { left: anchor.left, top, w: self.w, h: self.h }
    }
}

/// The items of one frame: one per slot of the first `n`, the `k`th at index
/// `start + k` of the list, each chained to the one before.
pub open spec fn frame_items(
    start: int,
    slots: Seq<NodeIndex>,
    n: nat,
    trigger: NodeIndex,
    margin: Scalar,
    w: Scalar,
    h: Scalar,
) -> Seq<Item> {
    Seq::new(
        n,
        |k: int|
            Item {
                i: (start + k) as usize,
                widget_idx: slots[k],
                last_idx: if k == 0 { None } else { Some(slots[k - 1]) },
                w,
                h,
                scroll_trigger_idx: trigger,
                first_item_margin: margin,
            },
    )
}

/// The rectangles of a sequence of items placed one after the other, the
/// first on the trigger surface, each next one on the one before.
pub open spec fn stack(items: Seq<Item>, trigger: RectModel) -> Seq<RectModel>
    decreases items.len(),
{
    if items.len() == 0 {
        Seq::empty()
    } else {
        let before = stack(items.drop_last(), trigger);
        let anchor = if before.len() == 0 { trigger } else { before.last() };
        before.push(items.last().placed_on(anchor))
    }
}

/// The model of an [`Items`]: the whole sequence it yields in its frame, and
/// how many of them it has yielded.
pub struct ItemsModel {
    pub sequence: Seq<Item>,
    pub position: nat,
}

/// Yields the items of one frame, one at a time, in increasing index order.
pub struct Items {
    item_indices: VisibleRange,
    next_item_indices_index: usize,
    slots: Vec<NodeIndex>,
    last_idx: Option<NodeIndex>,
    scroll_trigger_idx: NodeIndex,
    first_item_margin: Scalar,
    item_w: Scalar,
    item_h: Scalar,
}

impl View for Items {
    type V = ItemsModel;

    closed spec fn view(&self) -> ItemsModel {
        ItemsModel {
            sequence: frame_items(
                self.item_indices.start as int,
                self.slots@,
                self.slots@.len(),
                self.scroll_trigger_idx,
                self.first_item_margin,
                self.item_w,
                self.item_h,
            ),
            position: self.next_item_indices_index as nat,
        }
    }
}

impl Items {
    /// The cursor's fields agree with each other.
    pub closed spec fn wf(&self) -> bool {
        &&& self.item_indices.start + self.slots@.len() <= self.item_indices.end
        &&& self.next_item_indices_index <= self.slots@.len()
        &&& self.last_idx == if self.next_item_indices_index == 0 {
            None
        } else {
            Some(self.slots@[self.next_item_indices_index - 1])
        }
    }

    /// A cursor at the start of the items `range.start..range.end`, with one
    /// slot from `slots` for each, in order; items past the last slot are not
    /// yielded.
    pub(crate) fn new(
        range: VisibleRange,
        slots: &Vec<NodeIndex>,
        scroll_trigger_idx: NodeIndex,
        first_item_margin: Scalar,
        item_w: Scalar,
        item_h: Scalar,
    ) -> (r: Items)
        requires
            range.start <= range.end,
        ensures
            r.wf(),
            r@.position == 0,
            r@.sequence == frame_items(
                range.start as int,
                slots@,
                if range.end - range.start <= slots@.len() {
                    (range.end - range.start) as nat
                } else {
                    slots@.len()
                },
                scroll_trigger_idx,
                first_item_margin,
                item_w,
                item_h,
            ),
    {
        let n: usize = if range.end - range.start <= slots.len() {
            range.end - range.start
        } else {
            slots.len()
        };
        let mut snapshot: Vec<NodeIndex> = Vec::new();
        let mut k: usize = 0;
        while k < n
            invariant
                k <= n <= slots@.len(),
                snapshot@ == slots@.subrange(0, k as int),
            decreases n - k,
        {
            snapshot.push(slots[k]);
            k = k + 1;
            proof {
                assert(snapshot@ =~= slots@.subrange(0, k as int));
            }
        }
        let r = Items {
            item_indices: range,
            next_item_indices_index: 0,
            slots: snapshot,
            last_idx: None,
            scroll_trigger_idx,
            first_item_margin,
            item_w,
            item_h,
        };
        proof {
            assert(r@.sequence =~= frame_items(
                range.start as int,
                slots@,
                n as nat,
                scroll_trigger_idx,
                first_item_margin,
                item_w,
                item_h,
            ));
        }
        r
    }

    /// Yields the next item of the frame, or none once all were yielded.
    pub fn next(&mut self) -> (r: Option<Item>)
        requires
            old(self).wf(),
        ensures
            final(self).wf(),
            final(self)@.sequence == old(self)@.sequence,
            old(self)@.position < old(self)@.sequence.len() ==> {
                &&& r == Some(old(self)@.sequence[old(self)@.position as int])
                &&& final(self)@.position == old(self)@.position + 1
            },
            old(self)@.position >= old(self)@.sequence.len() ==> {
                &&& r is None
                &&& final(self)@.position == old(self)@.position
            },
    {
        if self.next_item_indices_index >= self.slots.len() {
            return None;
        }
        let k = self.next_item_indices_index;
        let node_index = self.slots[k];
        let item = Item {
            i: self.item_indices.start + k,
            widget_idx: node_index,
            last_idx: self.last_idx,
            w: self.item_w,
            h: self.item_h,
            scroll_trigger_idx: self.scroll_trigger_idx,
            first_item_margin: self.first_item_margin,
        };
        self.next_item_indices_index = k + 1;
        self.last_idx = Some(node_index);
        Some(item)
    }
}

proof fn lemma_stack_of_chain(items: Seq<Item>, trigger: RectModel)
    requires
        items.len() > 0 ==> items[0].last_idx is None,
        forall|k: int| 1 <= k < items.len() ==> (#[trigger] items[k]).last_idx is Some,
    ensures
        stack(items, trigger).len() == items.len(),
        forall|k: int|
            0 <= k < items.len() ==> {
                &&& (#[trigger] stack(items, trigger)[k]).left == trigger.left
                &&& stack(items, trigger)[k].h == items[k].h
                &&& stack(items, trigger)[k].w == items[k].w
            },
        items.len() > 0 ==> stack(items, trigger)[0].top == trigger.top - items[0].first_item_margin,
        forall|k: int|
            0 <= k < items.len() - 1 ==> stack(items, trigger)[k].top - (#[trigger] stack(
                items,
                trigger,
            )[k + 1]).top == items[k].h,
    decreases items.len(),
{
    if items.len() > 0 {
        let front = items.drop_last();
        assert forall|k: int| 1 <= k < front.len() implies (#[trigger] front[k]).last_idx is Some by {
            assert(front[k] == items[k]);
        }
        lemma_stack_of_chain(front, trigger);
    }
}

/// Items placed one after the other form a contiguous stack: the first hangs
/// from the trigger surface's top by the margin, every item's top lies exactly
/// one item height below the top of the item before it, and all are aligned
/// left with the trigger surface.
pub proof fn lemma_chained_placement(items: Items, trigger: RectModel)
    requires
        items.wf(),
    ensures
        stack(items@.sequence, trigger).len() == items@.sequence.len(),
        forall|k: int|
            0 <= k < items@.sequence.len() ==> {
                &&& (#[trigger] stack(items@.sequence, trigger)[k]).left == trigger.left
                &&& stack(items@.sequence, trigger)[k].h == items@.sequence[0].h
            },
        items@.sequence.len() > 0 ==> stack(items@.sequence, trigger)[0].top == trigger.top
            - items@.sequence[0].first_item_margin,
        forall|k: int|
            0 <= k < items@.sequence.len() - 1 ==> stack(items@.sequence, trigger)[k].top
                - (#[trigger] stack(items@.sequence, trigger)[k + 1]).top == items@.sequence[0].h,
{
    let q = items@.sequence;
    assert forall|k: int| 1 <= k < q.len() implies (#[trigger] q[k]).last_idx is Some by {}
    lemma_stack_of_chain(q, trigger);
}

} // verus!
