use vstd::prelude::*;

use crate::geometry::{NodeIndex, NodeIndexAllocator};

verus! {

/// The state that a list keeps across frames: the node indices of its trigger
/// surface and of its scrollbar, each made once when first needed, and one
/// node index for each visible position, which are only ever appended.
pub struct State {
    scroll_trigger_idx: Option<NodeIndex>,
    item_indices: Vec<NodeIndex>,
    scrollbar_idx: Option<NodeIndex>,
}

/// The model of a [`State`].
pub struct StateModel {
    pub trigger: Option<NodeIndex>,
    pub item_slots: Seq<NodeIndex>,
    pub scrollbar: Option<NodeIndex>,
}

/// The index is below `next`, if there is one.
pub open spec fn opt_below(o: Option<NodeIndex>, next: nat) -> bool {
    match o {
        Some(x) => x.index < next,
        None => true,
    }
}

/// The index is none of the item slots, if there is one.
pub open spec fn opt_not_in(o: Option<NodeIndex>, slots: Seq<NodeIndex>) -> bool {
    match o {
        Some(x) => forall|i: int| 0 <= i < slots.len() ==> slots[i] != x,
        None => true,
    }
}

impl StateModel {
    /// Every index of the state was handed out by an allocator whose next
    /// index is `next`, and no two of them are the same.
    pub open spec fn issued_below(self, next: nat) -> bool {
        &&& forall|i: int| 0 <= i < self.item_slots.len() ==> self.item_slots[i].index < next
        &&& forall|i: int, j: int|
            0 <= i < j < self.item_slots.len() ==> self.item_slots[i] != self.item_slots[j]
        &&& opt_below(self.trigger, next)
        &&& opt_below(self.scrollbar, next)
        &&& opt_not_in(self.trigger, self.item_slots)
        &&& opt_not_in(self.scrollbar, self.item_slots)
        &&& (self.trigger is Some && self.scrollbar is Some ==> self.trigger != self.scrollbar)
    }
}

/// The slots after growing to hold `n` of them: the old ones in place, then
/// fresh indices counting up from `next`.
pub open spec fn grown_slots(slots: Seq<NodeIndex>, next: nat, n: nat) -> Seq<NodeIndex> {
    if n <= slots.len() {
        slots
    } else {
        slots + Seq::new((n - slots.len()) as nat, |k: int| NodeIndex { index: (next + k) as u64 })
    }
}

/// An optional index after it was made if missing: the index itself, or else
/// `next`.
pub open spec fn filled(o: Option<NodeIndex>, next: nat) -> NodeIndex {
    match o {
        Some(x) => x,
        None => NodeIndex { index: next as u64 },
    }
}

impl View for State {
    type V = StateModel;

    closed spec fn view(&self) -> StateModel {
        StateModel {
            trigger: self.scroll_trigger_idx,
            item_slots: self.item_indices@,
            scrollbar: self.scrollbar_idx,
        }
    }
}

impl State {
    /// The state of a list that was never laid out.
    pub fn new() -> (r: State)
        ensures
            r@.trigger is None,
            r@.scrollbar is None,
            r@.item_slots.len() == 0,
    {
        State { scroll_trigger_idx: None, item_indices: Vec::new(), scrollbar_idx: None }
    }

    /// The node indices of the visible positions, in order.
    pub fn item_indices(&self) -> (r: &Vec<NodeIndex>)
        ensures
            r@ == self@.item_slots,
    {
        &self.item_indices
    }

    /// The node index of the trigger surface, once it was made.
    pub fn scroll_trigger_idx(&self) -> (r: Option<NodeIndex>)
        ensures
            r == self@.trigger,
    {
        self.scroll_trigger_idx
    }

    /// The node index of the scrollbar, once it was made.
    pub fn scrollbar_idx(&self) -> (r: Option<NodeIndex>)
        ensures
            r == self@.scrollbar,
    {
        self.scrollbar_idx
    }

    /// The node index of the trigger surface, made on the first call.
    pub fn trigger_index(&mut self, ids: &mut NodeIndexAllocator) -> (r: NodeIndex)
        requires
            old(self)@.issued_below(old(ids).next_index()),
            old(self)@.trigger is None ==> old(ids).next_index() < u64::MAX,
        ensures
            r == filled(old(self)@.trigger, old(ids).next_index()),
            final(self)@.trigger == Some(r),
            final(self)@.item_slots == old(self)@.item_slots,
            final(self)@.scrollbar == old(self)@.scrollbar,
            final(ids).next_index() == old(ids).next_index() + if old(self)@.trigger is None { 1nat } else { 0nat },
            final(self)@.issued_below(final(ids).next_index()),
    {
        match self.scroll_trigger_idx {
            Some(x) => x,
            None => {
                let x = ids.new_unique_node_index();
                self.scroll_trigger_idx = Some(x);
                x
            },
        }
    }

    /// The node index of the scrollbar, made on the first call.
    pub fn scrollbar_index(&mut self, ids: &mut NodeIndexAllocator) -> (r: NodeIndex)
        requires
            old(self)@.issued_below(old(ids).next_index()),
            old(self)@.scrollbar is None ==> old(ids).next_index() < u64::MAX,
        ensures
            r == filled(old(self)@.scrollbar, old(ids).next_index()),
            final(self)@.scrollbar == Some(r),
            final(self)@.item_slots == old(self)@.item_slots,
            final(self)@.trigger == old(self)@.trigger,
            final(ids).next_index() == old(ids).next_index() + if old(self)@.scrollbar is None { 1nat } else { 0nat },
            final(self)@.issued_below(final(ids).next_index()),
    {
        match self.scrollbar_idx {
            Some(x) => x,
            None => {
                let x = ids.new_unique_node_index();
                self.scrollbar_idx = Some(x);
                x
            },
        }
    }

    /// Makes sure there is a node index for each of `n` visible positions:
    /// appends fresh ones when there are fewer, and keeps every existing one
    /// where it stands.
    pub fn ensure_item_slots(&mut self, ids: &mut NodeIndexAllocator, n: usize)
        requires
            old(self)@.issued_below(old(ids).next_index()),
            old(ids).next_index() + n <= u64::MAX,
        ensures
            final(self)@.item_slots == grown_slots(old(self)@.item_slots, old(ids).next_index(), n as nat),
            final(self)@.trigger == old(self)@.trigger,
            final(self)@.scrollbar == old(self)@.scrollbar,
            final(ids).next_index() == old(ids).next_index() + if n > old(self)@.item_slots.len() {
                n - old(self)@.item_slots.len()
            } else {
                0
            },
            final(self)@.issued_below(final(ids).next_index()),
    {
        let have: usize = self.item_indices.len();
        if have >= n {
            return;
        }
        let ghost slots0 = self.item_indices@;
        let ghost next0 = ids.next_index();
        let mut k: usize = have;
        while k < n
            invariant
                have <= k <= n,
                have == slots0.len(),
                next0 + n <= u64::MAX,
                ids.next_index() == next0 + (k - have),
                self.item_indices@ == grown_slots(slots0, next0, k as nat),
                self.scroll_trigger_idx == old(self).scroll_trigger_idx,
                self.scrollbar_idx == old(self).scrollbar_idx,
                slots0 == old(self)@.item_slots,
                next0 == old(ids).next_index(),
                self@.issued_below(ids.next_index()),
            decreases n - k,
        {
            let x = ids.new_unique_node_index();
            self.item_indices.push(x);
            k = k + 1;
            proof {
                assert(self.item_indices@ =~= grown_slots(slots0, next0, k as nat));
            }
        }
    }
}

} // verus!
