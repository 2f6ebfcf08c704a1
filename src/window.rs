use vstd::prelude::*;
use vstd::arithmetic::div_mod::{lemma_fundamental_div_mod, lemma_div_is_ordered, lemma_mod_bound};

use crate::geometry::{Rect, RectModel, Scalar};

verus! {

/// The way in which a list instantiates its items.
#[derive(Clone, Copy, Debug, PartialEq, Eq, Structural)]
pub enum ItemInstantiation {
    /// Instantiate an item for every element, regardless of visibility.
    All,
    /// Only instantiate visible items.
    OnlyVisible,
}

/// The half-open range `start..end` of the item indices that are instantiated
/// in one frame.
#[derive(Clone, Copy, Debug, PartialEq, Eq, Structural)]
pub struct VisibleRange {
    pub start: usize,
    pub end: usize,
}

impl VisibleRange {
    /// The number of indices in the range.
    pub open spec fn spec_len(&self) -> int {
        if self.start <= self.end { self.end - self.start } else { 0 }
    }

    /// The number of indices in the range.
    pub fn len(&self) -> (r: usize)
        ensures
            r == self.spec_len(),
    {
        if self.start <= self.end { self.end - self.start } else { 0 }
    }
}

/// The index range and the top margin of one frame, over integers.
pub struct Window {
    pub start: int,
    pub end: int,
    pub margin: int,
}

pub open spec fn min(a: int, b: int) -> int {
    if a <= b { a } else { b }
}

/// The index of the first visible item: `floor(hidden / item_h)`, and no
/// less than zero, where `hidden` is how far the top of the trigger surface
/// sits above the top of the viewport.
pub open spec fn first_visible(hidden: int, item_h: int) -> int {
    if hidden / item_h < 0 { 0 } else { hidden / item_h }
}

/// How many items a viewport of height `h` shows at most: `floor(h / item_h + 1)`,
/// one more than fit whole so that no gap opens when the viewport's top edge
/// cuts an item, and no less than zero.
pub open spec fn visible_count(h: int, item_h: int) -> int {
    if h / item_h + 1 < 0 { 0 } else { h / item_h + 1 }
}

/// The window of items to instantiate. With every item instantiated, all of
/// them with no margin. Otherwise, from the viewport and the trigger surface
/// as they were placed: the items from the first visible one on, as many as
/// the viewport shows, cut at the item count, and the top margin of the first
/// visible item. A trigger surface whose geometry is not known yet shows
/// nothing.
pub open spec fn window(
    mode: ItemInstantiation,
    item_count: nat,
    item_h: int,
    viewport: RectModel,
    trigger: Option<RectModel>,
) -> Window {
    match mode {
        ItemInstantiation::All => Window { start: 0, end: item_count as int, margin: 0 },
        ItemInstantiation::OnlyVisible => match trigger {
            None => Window { start: 0, end: 0, margin: 0 },
            Some(t) => {
                let first = first_visible(t.top - viewport.top, item_h);
                let end = min(first + visible_count(viewport.h, item_h), item_count as int);
                Window { start: min(first, end), end, margin: first * item_h }
            },
        },
    }
}

/// The margin of the window fits a [`Scalar`]: the trigger surface's top sits
/// no more than `i64::MAX` above the viewport's top.
pub open spec fn window_fits(viewport: Rect, trigger: Option<Rect>) -> bool {
    match trigger {
        Some(t) => t.top - viewport.top <= i64::MAX,
        None => true,
    }
}

/// The model of an optional rectangle.
pub open spec fn opt_view(r: Option<Rect>) -> Option<RectModel> {
    match r {
        Some(t) => Some(t@),
        None => None,
    }
}

proof fn lemma_div_bounds(x: int, d: int)
    requires
        x >= 0,
        d > 0,
    ensures
        0 <= x / d,
        (x / d) * d <= x,
        x / d <= x,
{
    lemma_fundamental_div_mod(x, d);
    lemma_mod_bound(x, d);
    lemma_div_is_ordered(0, x, d);
    assert(0int / d == 0);
    assert((x / d) * d <= x) by (nonlinear_arith)
        requires x == d * (x / d) + (x % d), 0 <= x % d;
    assert(x / d <= (x / d) * d) by (nonlinear_arith)
        requires 0 <= x / d, d >= 1;
}

proof fn lemma_div_of_negative(x: int, d: int)
    requires
        x < 0,
        d > 0,
    ensures
        x / d < 0,
{
    lemma_fundamental_div_mod(x, d);
    lemma_mod_bound(x, d);
    assert(x / d < 0) by (nonlinear_arith)
        requires x == d * (x / d) + (x % d), x % d < d, x < 0, d > 0;
}

/// Computes the window of items to instantiate in one frame, and the
/// distance from the top of the trigger surface to the top of the first
/// visible item.
pub fn visible_window(
    mode: ItemInstantiation,
    item_count: u32,
    item_h: Scalar,
    viewport: Rect,
    trigger: Option<Rect>,
) -> (r: (VisibleRange, Scalar))
    requires
        item_h > 0,
        mode == ItemInstantiation::OnlyVisible ==> window_fits(viewport, trigger),
    ensures
        r.0.start == window(mode, item_count as nat, item_h as int, viewport@, opt_view(trigger)).start,
        r.0.end == window(mode, item_count as nat, item_h as int, viewport@, opt_view(trigger)).end,
        r.1 == window(mode, item_count as nat, item_h as int, viewport@, opt_view(trigger)).margin,
{
    match mode {
        ItemInstantiation::All => (VisibleRange { start: 0, end: item_count as usize }, 0),
        ItemInstantiation::OnlyVisible => match trigger {
            None => (VisibleRange { start: 0, end: 0 }, 0),
            Some(t) => {
                let ih: u128 = item_h as u128;
                let hidden: i128 = t.top as i128 - viewport.top as i128;
                let first: u128 = if hidden > 0 { (hidden as u128) / ih } else { 0 };
                let shown: u128 = if viewport.h >= 0 { (viewport.h as u128) / ih + 1 } else { 0 };
                proof {
                    if hidden > 0 {
                        lemma_div_bounds(hidden as int, ih as int);
                    } else if hidden < 0 {
                        lemma_div_of_negative(hidden as int, ih as int);
                    } else {
                        assert(0int / (ih as int) == 0);
                    }
                    if viewport.h >= 0 {
                        lemma_div_bounds(viewport.h as int, ih as int);
                    } else {
                        lemma_div_of_negative(viewport.h as int, ih as int);
                    }
                    assert(first == first_visible(hidden as int, item_h as int));
                    assert(shown == visible_count(viewport.h as int, item_h as int));
                }
                let count: u128 = item_count as u128;
                let end: u128 = if first + shown <= count { first + shown } else { count };
                let start: u128 = if first <= end { first } else { end };
                let margin: u128 = first * ih;
                (VisibleRange { start: start as usize, end: end as usize }, margin as Scalar)
            },
        },
    }
}

/// With every item instantiated, the window is exactly `0..item_count` and the
/// margin is zero, whatever the geometry.
pub proof fn lemma_all_items_window(
    item_count: nat,
    item_h: int,
    viewport: RectModel,
    trigger: Option<RectModel>,
)
    requires
        item_h > 0,
    ensures
        window(ItemInstantiation::All, item_count, item_h, viewport, trigger).start == 0,
        window(ItemInstantiation::All, item_count, item_h, viewport, trigger).end == item_count,
        window(ItemInstantiation::All, item_count, item_h, viewport, trigger).margin == 0,
{
}

/// With only visible items instantiated and a viewport of non-negative height,
/// the window lies within `0..item_count`, and holds no more than
/// `floor(viewport.h / item_h) + 1` items.
pub proof fn lemma_visible_window_bounds(
    item_count: nat,
    item_h: int,
    viewport: RectModel,
    trigger: Option<RectModel>,
)
    requires
        item_h > 0,
        viewport.h >= 0,
    ensures
        0 <= window(ItemInstantiation::OnlyVisible, item_count, item_h, viewport, trigger).start,
        window(ItemInstantiation::OnlyVisible, item_count, item_h, viewport, trigger).start
            <= window(ItemInstantiation::OnlyVisible, item_count, item_h, viewport, trigger).end,
        window(ItemInstantiation::OnlyVisible, item_count, item_h, viewport, trigger).end <= item_count,
        window(ItemInstantiation::OnlyVisible, item_count, item_h, viewport, trigger).end
            - window(ItemInstantiation::OnlyVisible, item_count, item_h, viewport, trigger).start
            <= viewport.h / item_h + 1,
{
    lemma_div_bounds(viewport.h, item_h);
}

/// The window is a function of its inputs: two computations from the same
/// mode, count, height and geometry give the same range and margin.
pub proof fn lemma_window_deterministic(
    mode: ItemInstantiation,
    item_count: nat,
    item_h: int,
    viewport: RectModel,
    trigger: Option<RectModel>,
    first: Window,
    second: Window,
)
    requires
        first == window(mode, item_count, item_h, viewport, trigger),
        second == window(mode, item_count, item_h, viewport, trigger),
    ensures
        first == second,
{
}

/// A list without items has an empty window in every mode.
pub proof fn lemma_empty_list_window(
    mode: ItemInstantiation,
    item_h: int,
    viewport: RectModel,
    trigger: Option<RectModel>,
)
    requires
        item_h > 0,
    ensures
        window(mode, 0, item_h, viewport, trigger).start == 0,
        window(mode, 0, item_h, viewport, trigger).end == 0,
{
    match trigger {
        Some(t) => {
            let hidden = t.top - viewport.top;
            if hidden >= 0 {
                lemma_div_bounds(hidden, item_h);
            } else {
                lemma_div_of_negative(hidden, item_h);
            }
            if viewport.h >= 0 {
                lemma_div_bounds(viewport.h, item_h);
            } else {
                lemma_div_of_negative(viewport.h, item_h);
            }
        },
        None => {},
    }
}

/// A window never ends before it starts.
pub proof fn lemma_window_ordered(
    mode: ItemInstantiation,
    item_count: nat,
    item_h: int,
    viewport: RectModel,
    trigger: Option<RectModel>,
)
    ensures
        window(mode, item_count, item_h, viewport, trigger).start <= window(
            mode,
            item_count,
            item_h,
            viewport,
            trigger,
        ).end,
{
}

} // verus!
