use vstd::prelude::*;

use crate::geometry::{Color, NodeIndex, NodeIndexAllocator, Rect, RectModel, Scalar};
use crate::items::{Items, ItemsModel, frame_items};
use crate::state::{State, StateModel, filled, grown_slots};
use crate::window::{ItemInstantiation, Window, opt_view, visible_window, window, window_fits};

verus! {

/// The scrollbar thickness used when neither the list nor the theme gives one.
pub const DEFAULT_SCROLLBAR_THICKNESS: Scalar = 10;

/// If the list is scrollable, where its scrollbar goes.
#[derive(Clone, Copy, Debug, PartialEq, Eq, Structural)]
pub enum ScrollbarPosition {
    /// To the right of the items, which are narrowed to leave room for it.
    NextTo,
    /// On top of the right edge of the items, hidden while nobody scrolls.
    OnTop,
}

/// The styling of a list; a field left empty falls back on the theme.
#[derive(Clone, Copy, Debug, PartialEq, Eq, Structural)]
pub struct Style {
    /// The width of the scrollbar if it is visible.
    pub scrollbar_width: Option<Scalar>,
    /// The color of the scrollbar if it is visible.
    pub scrollbar_color: Option<Color>,
    /// The location of the list's scrollbar, none for no scrollbar.
    pub scrollbar_position: Option<ScrollbarPosition>,
}

/// The defaults that a theme offers a list.
#[derive(Clone, Copy, Debug, PartialEq, Eq, Structural)]
pub struct Theme {
    /// The color of borders, which a scrollbar takes by default.
    pub border_color: Color,
    /// The thickness of scrollbars, if the theme sets one.
    pub scrollbar_thickness: Option<Scalar>,
}

impl Style {
    /// A style with every field left to the theme.
    pub fn new() -> (r: Style)
        ensures
            r.scrollbar_width is None,
            r.scrollbar_color is None,
            r.scrollbar_position is None,
    {
        Style { scrollbar_width: None, scrollbar_color: None, scrollbar_position: None }
    }

    /// The thickness of the scrollbar: the list's own width, else the
    /// theme's, else the default.
    pub open spec fn spec_thickness(self, theme: Theme) -> Scalar {
        match self.scrollbar_width {
            Some(w) => w,
            None => match theme.scrollbar_thickness {
                Some(t) => t,
                None => DEFAULT_SCROLLBAR_THICKNESS,
            },
        }
    }

    /// The color of the scrollbar: the list's own, else the theme's border
    /// color.
    pub open spec fn spec_color(self, theme: Theme) -> Color {
        match self.scrollbar_color {
            Some(c) => c,
            None => theme.border_color,
        }
    }

    /// The thickness of the scrollbar under `theme`.
    pub fn scrollbar_thickness(&self, theme: &Theme) -> (r: Scalar)
        ensures
            r == self.spec_thickness(*theme),
    {
        match self.scrollbar_width {
            Some(w) => w,
            None => match theme.scrollbar_thickness {
                Some(t) => t,
                None => DEFAULT_SCROLLBAR_THICKNESS,
            },
        }
    }

    /// The color of the scrollbar under `theme`.
    pub fn scrollbar_color(&self, theme: &Theme) -> (r: Color)
        ensures
            r == self.spec_color(*theme),
    {
        match self.scrollbar_color {
            Some(c) => c,
            None => theme.border_color,
        }
    }
}

/// A list's scrollbar, as configured for one frame.
#[derive(Clone, Copy, Debug, PartialEq, Eq, Structural)]
pub struct Scrollbar {
    /// The node index of the scrollbar.
    pub idx: NodeIndex,
    /// Whether the scrollbar floats over the items: only on top of them.
    pub floating: bool,
    /// The color of the scrollbar.
    pub color: Color,
    /// The thickness of the scrollbar.
    pub thickness: Scalar,
    /// Whether the scrollbar hides while nobody scrolls.
    pub auto_hide: bool,
}

impl Scrollbar {
    /// The track of the scrollbar over the list: the strip of its thickness
    /// along the list's right edge, as tall as the list.
    pub open spec fn placed_on(self, list: RectModel) -> RectModel {
        RectModel {
            left: list.left + list.w - self.thickness,
            top: list.top,
            w: self.thickness as int,
            h: list.h,
        }
    }

    /// The rectangle of the scrollbar on the list whose rectangle is `list`.
    pub fn set(&self, list: Rect) -> (r: Rect)
        requires
            self.placed_on(list@).fits(),
        ensures
            r@ == self.placed_on(list@),
    {
        let left: i128 = list.left as i128 + list.w as i128 - self.thickness as i128;
        Rect { left: left as Scalar, top: list.top, w: self.thickness, h: list.h }
    }
}

/// The invisible surface, as tall as all the items together, that the list
/// places on its top edge every frame: the target of scroll drags and the
/// anchor on which the items are placed.
#[derive(Clone, Copy, Debug, PartialEq, Eq, Structural)]
pub struct TriggerSurface {
    /// The node index of the surface.
    pub idx: NodeIndex,
    /// The width of the surface, that of the list.
    pub w: Scalar,
    /// The height of the surface, that of all the items.
    pub h: Scalar,
}

impl TriggerSurface {
    /// Where the surface goes: on the top edge of the list, aligned left with
    /// it.
    pub open spec fn placed_on(self, list: RectModel) -> RectModel {
        RectModel { left: list.left, top: list.top, w: self.w as int, h: self.h as int }
    }

    /// The rectangle of the surface on the list whose rectangle is `list`,
    /// before any scrolling moves it.
    pub fn set(&self, list: Rect) -> (r: Rect)
        ensures
            r@ == self.placed_on(list@),
    {
        Rect { left: list.left, top: list.top, w: self.w, h: self.h }
    }
}

/// What a list learns of its surroundings in one frame.
#[derive(Clone, Copy, Debug, PartialEq, Eq, Structural)]
pub struct UpdateArgs {
    /// The list's own rectangle, which is also its viewport.
    pub rect: Rect,
    /// Where the trigger surface was placed this frame, none while its
    /// geometry is not known yet.
    pub trigger_rect: Option<Rect>,
    /// Whether the list's vertical offset range is non-degenerate, so that it
    /// can scroll.
    pub is_scrollable: bool,
    /// The theme in use.
    pub theme: Theme,
}

/// A list of items of one fixed height, of which only the visible ones are
/// instantiated unless asked otherwise.
#[derive(Clone, Copy, Debug, PartialEq, Eq, Structural)]
pub struct List {
    /// The list's style.
    pub style: Style,
    /// The height of each item.
    pub item_h: Scalar,
    /// The number of items.
    pub num_items: u32,
    /// Which items get instantiated.
    pub item_instantiation: ItemInstantiation,
    /// Whether the list's contents scroll vertically.
    pub scroll_kids_vertically: bool,
    /// Whether the list's contents are cropped to the list's rectangle.
    pub crop_kids: bool,
}

impl List {
    /// A list of `num_items` items of height `item_height`, which instantiates
    /// only its visible items and has no scrollbar.
    pub fn new(num_items: u32, item_height: Scalar) -> (r: List)
        ensures
            r.num_items == num_items,
            r.item_h == item_height,
            r.item_instantiation == ItemInstantiation::OnlyVisible,
            r.style.scrollbar_width is None,
            r.style.scrollbar_color is None,
            r.style.scrollbar_position is None,
            !r.scroll_kids_vertically,
            r.crop_kids,
    {
        List {
            style: Style::new(),
            item_h: item_height,
            num_items,
            item_instantiation: ItemInstantiation::OnlyVisible,
            scroll_kids_vertically: false,
            crop_kids: true,
        }
    }

    /// The list scrolls, with a scrollbar to the right of the items.
    pub fn scrollbar_next_to(self) -> (r: List)
        ensures
            r == (List {
                style: Style { scrollbar_position: Some(ScrollbarPosition::NextTo), ..self.style },
                scroll_kids_vertically: true,
                ..self
            }),
    {
        let mut r = self;
        r.style.scrollbar_position = Some(ScrollbarPosition::NextTo);
        r.scroll_kids_vertically = true;
        r
    }

    /// The list scrolls, with a scrollbar that hovers over the right edge of
    /// the items and hides while nobody scrolls.
    pub fn scrollbar_on_top(self) -> (r: List)
        ensures
            r == (List {
                style: Style { scrollbar_position: Some(ScrollbarPosition::OnTop), ..self.style },
                scroll_kids_vertically: true,
                ..self
            }),
    {
        let mut r = self;
        r.style.scrollbar_position = Some(ScrollbarPosition::OnTop);
        r.scroll_kids_vertically = true;
        r
    }

    /// The width of the scrollbar.
    pub fn scrollbar_width(self, w: Scalar) -> (r: List)
        ensures
            r == (List { style: Style { scrollbar_width: Some(w), ..self.style }, ..self }),
    {
        let mut r = self;
        r.style.scrollbar_width = Some(w);
        r
    }

    /// The color of the scrollbar.
    pub fn scrollbar_color(self, color: Color) -> (r: List)
        ensures
            r == (List { style: Style { scrollbar_color: Some(color), ..self.style }, ..self }),
    {
        let mut r = self;
        r.style.scrollbar_color = Some(color);
        r
    }

    /// An item is instantiated for every element, visible or not; for long
    /// lists this costs far more than instantiating the visible ones.
    pub fn instantiate_all_items(self) -> (r: List)
        ensures
            r == (List { item_instantiation: ItemInstantiation::All, ..self }),
    {
        let mut r = self;
        r.item_instantiation = ItemInstantiation::All;
        r
    }

    /// Only the visible items are instantiated, which is the default.
    pub fn instantiate_only_visible_items(self) -> (r: List)
        ensures
            r == (List { item_instantiation: ItemInstantiation::OnlyVisible, ..self }),
    {
        let mut r = self;
        r.item_instantiation = ItemInstantiation::OnlyVisible;
        r
    }

    /// The state of a list that was never laid out.
    pub fn init_state(&self) -> (r: State)
        ensures
            r@.trigger is None,
            r@.scrollbar is None,
            r@.item_slots.len() == 0,
    {
        State::new()
    }

    /// The list's style.
    pub fn style(&self) -> (r: Style)
        ensures
            r == self.style,
    {
        self.style
    }

    /// The width of each item: that of the list, less the scrollbar's
    /// thickness when a scrollbar stands next to the items of a list that can
    /// scroll.
    pub open spec fn item_width(self, args: UpdateArgs) -> int {
        if args.is_scrollable && self.style.scrollbar_position == Some(ScrollbarPosition::NextTo) {
            args.rect.w - self.style.spec_thickness(args.theme)
        } else {
            args.rect.w as int
        }
    }

    /// The window of items of a frame.
    pub open spec fn frame_window(self, args: UpdateArgs) -> Window {
        window(
            self.item_instantiation,
            self.num_items as nat,
            self.item_h as int,
            args.rect@,
            opt_view(args.trigger_rect),
        )
    }

    /// One frame of the list, from state `s0` and an allocator at `next0` to
    /// state `s1`, an allocator at `next1`, the items and the scrollbar.
    /// The trigger surface keeps its index, made on the first frame. The
    /// item slots grow to as many as the window holds, fresh ones appended.
    /// The items are those of the window, on the slots in storage order. A
    /// scrollbar comes exactly when a position is set for it, on an index
    /// made on its first frame, floating and hidden while idle only on top of
    /// the items.
    pub open spec fn frame(
        self,
        s0: StateModel,
        next0: nat,
        args: UpdateArgs,
        s1: StateModel,
        next1: nat,
        items: ItemsModel,
        scrollbar: Option<Scrollbar>,
    ) -> bool {
        let w = self.frame_window(args);
        let n = (w.end - w.start) as nat;
        let trigger = filled(s0.trigger, next0);
        let next_t = next0 + if s0.trigger is None { 1nat } else { 0nat };
        let slots = grown_slots(s0.item_slots, next_t, n);
        let next_s = next_t + if n > s0.item_slots.len() { (n - s0.item_slots.len()) as nat } else { 0nat };
        &&& s1.trigger == Some(trigger)
        &&& s1.item_slots == slots
        &&& items.position == 0
        &&& items.sequence == frame_items(
            w.start,
            slots,
            n,
            trigger,
            w.margin as Scalar,
            self.item_width(args) as Scalar,
            self.item_h,
        )
        &&& match self.style.scrollbar_position {
            None => {
                &&& scrollbar is None
                &&& s1.scrollbar == s0.scrollbar
                &&& next1 == next_s
            },
            Some(p) => {
                &&& s1.scrollbar == Some(filled(s0.scrollbar, next_s))
                &&& next1 == next_s + if s0.scrollbar is None { 1nat } else { 0nat }
                &&& scrollbar == Some(
                    Scrollbar {
                        idx: filled(s0.scrollbar, next_s),
                        floating: p == ScrollbarPosition::OnTop,
                        color: self.style.spec_color(args.theme),
                        thickness: self.style.spec_thickness(args.theme),
                        auto_hide: p == ScrollbarPosition::OnTop,
                    },
                )
            },
        }
    }

    /// The trigger surface of this frame: as wide as the list and as tall as
    /// all its items, on an index made on the first call.
    pub fn scroll_trigger(&self, state: &mut State, ids: &mut NodeIndexAllocator, rect: Rect) -> (r:
        TriggerSurface)
        requires
            self.num_items * self.item_h <= i64::MAX,
            self.num_items * self.item_h >= i64::MIN,
            old(state)@.issued_below(old(ids).next_index()),
            old(state)@.trigger is None ==> old(ids).next_index() < u64::MAX,
        ensures
            r.idx == filled(old(state)@.trigger, old(ids).next_index()),
            r.w == rect.w,
            r.h == self.num_items * self.item_h,
            final(state)@.trigger == Some(r.idx),
            final(state)@.item_slots == old(state)@.item_slots,
            final(state)@.scrollbar == old(state)@.scrollbar,
            final(ids).next_index() == old(ids).next_index() + if old(state)@.trigger is None { 1nat } else { 0nat },
            final(state)@.issued_below(final(ids).next_index()),
    {
        let idx = state.trigger_index(ids);
        let total: i128 = self.num_items as i128 * self.item_h as i128;
        TriggerSurface { idx, w: rect.w, h: total as Scalar }
    }

    /// Lays the list out for one frame: computes the window of items to
    /// instantiate, grows the item slots to match, and returns the cursor
    /// over the items and the scrollbar, if the list has one.
    pub fn update(self, state: &mut State, ids: &mut NodeIndexAllocator, args: UpdateArgs) -> (r: (
        Items,
        Option<Scrollbar>,
    ))
        requires
            self.item_h > 0,
            self.item_instantiation == ItemInstantiation::OnlyVisible ==> window_fits(
                args.rect,
                args.trigger_rect,
            ),
            i64::MIN <= self.item_width(args) <= i64::MAX,
            old(state)@.issued_below(old(ids).next_index()),
            old(ids).next_index() + self.num_items + 2 <= u64::MAX,
        ensures
            self.frame(
                old(state)@,
                old(ids).next_index(),
                args,
                final(state)@,
                final(ids).next_index(),
                r.0@,
                r.1,
            ),
            r.0.wf(),
            final(state)@.issued_below(final(ids).next_index()),
            final(state)@.item_slots.len() >= old(state)@.item_slots.len(),
            final(state)@.item_slots.subrange(0, old(state)@.item_slots.len() as int)
                == old(state)@.item_slots,
    {
        let scrollbar_w = self.style.scrollbar_thickness(&args.theme);
        let scrollbar_position = self.style.scrollbar_position;
        let item_w: Scalar = if args.is_scrollable && scrollbar_position == Some(
            ScrollbarPosition::NextTo,
        ) {
            (args.rect.w as i128 - scrollbar_w as i128) as Scalar
        } else {
            args.rect.w
        };

        let scroll_trigger_idx = state.trigger_index(ids);

        let (range, first_item_margin) = visible_window(
            self.item_instantiation,
            self.num_items,
            self.item_h,
            args.rect,
            args.trigger_rect,
        );
        let ghost w = self.frame_window(args);
        let n: usize = range.end - range.start;
        state.ensure_item_slots(ids, n);
        let items = Items::new(
            range,
            state.item_indices(),
            scroll_trigger_idx,
            first_item_margin,
            item_w,
            self.item_h,
        );
        proof {
            assert(state@.item_slots.subrange(0, old(state)@.item_slots.len() as int)
                =~= old(state)@.item_slots);
        }

        let on_top = match scrollbar_position {
            Some(ScrollbarPosition::NextTo) => false,
            Some(ScrollbarPosition::OnTop) => true,
            None => {
                return (items, None);
            },
        };
        let color = self.style.scrollbar_color(&args.theme);
        let idx = state.scrollbar_index(ids);
        let scrollbar = Scrollbar {
            idx,
            floating: on_top,
            color,
            thickness: scrollbar_w,
            auto_hide: on_top,
        };
        (items, Some(scrollbar))
    }
}

/// Over one frame the item slots never shrink: every slot stays where it
/// stood, and more may follow.
pub proof fn lemma_slots_never_shrink(
    list: List,
    s0: StateModel,
    next0: nat,
    args: UpdateArgs,
    s1: StateModel,
    next1: nat,
    items: ItemsModel,
    scrollbar: Option<Scrollbar>,
)
    requires
        list.item_h > 0,
        list.frame(s0, next0, args, s1, next1, items, scrollbar),
    ensures
        s1.item_slots.len() >= s0.item_slots.len(),
        forall|k: int| 0 <= k < s0.item_slots.len() ==> s1.item_slots[k] == s0.item_slots[k],
{
}

/// Over two consecutive frames whose windows hold `n1` and then `n2 >= n1`
/// items, the first `n1` items of the second frame have the node indices
/// that the items of the first frame had: slots are reused by visible
/// position.
pub proof fn lemma_slot_stability(
    first: List,
    second: List,
    s0: StateModel,
    next0: nat,
    args1: UpdateArgs,
    s1: StateModel,
    next1: nat,
    items1: ItemsModel,
    scrollbar1: Option<Scrollbar>,
    args2: UpdateArgs,
    s2: StateModel,
    next2: nat,
    items2: ItemsModel,
    scrollbar2: Option<Scrollbar>,
)
    requires
        first.item_h > 0,
        second.item_h > 0,
        first.frame(s0, next0, args1, s1, next1, items1, scrollbar1),
        second.frame(s1, next1, args2, s2, next2, items2, scrollbar2),
        items1.sequence.len() <= items2.sequence.len(),
    ensures
        forall|k: int|
            0 <= k < items1.sequence.len() ==> (#[trigger] items2.sequence[k]).widget_idx
                == items1.sequence[k].widget_idx,
{
    let w1 = first.frame_window(args1);
    let w2 = second.frame_window(args2);
    assert(w1.start <= w1.end && w2.start <= w2.end) by {
        crate::window::lemma_window_ordered(first.item_instantiation, first.num_items as nat,
            first.item_h as int, args1.rect@, opt_view(args1.trigger_rect));
        crate::window::lemma_window_ordered(second.item_instantiation, second.num_items as nat,
            second.item_h as int, args2.rect@, opt_view(args2.trigger_rect));
    }
    assert forall|k: int| 0 <= k < items1.sequence.len() implies (#[trigger] items2.sequence[
        k]).widget_idx == items1.sequence[k].widget_idx by {
        assert(items1.sequence[k].widget_idx == s1.item_slots[k]);
        assert(items2.sequence[k].widget_idx == s2.item_slots[k]);
    }
}

/// A frame of a list that instantiates all its items yields every item
/// `0..num_items`, in order, with a margin of zero, whatever the geometry.
pub proof fn lemma_frame_all_items(
    list: List,
    s0: StateModel,
    next0: nat,
    args: UpdateArgs,
    s1: StateModel,
    next1: nat,
    items: ItemsModel,
    scrollbar: Option<Scrollbar>,
)
    requires
        list.item_h > 0,
        list.item_instantiation == ItemInstantiation::All,
        list.frame(s0, next0, args, s1, next1, items, scrollbar),
    ensures
        items.sequence.len() == list.num_items,
        forall|k: int|
            0 <= k < items.sequence.len() ==> (#[trigger] items.sequence[k]).i == k
                && items.sequence[k].first_item_margin == 0,
{
}

/// A frame of a list that instantiates only visible items yields items whose
/// indices lie within `0..num_items`; with a viewport of non-negative height,
/// no more than `floor(rect.h / item_h) + 1` of them.
pub proof fn lemma_frame_visible_bounds(
    list: List,
    s0: StateModel,
    next0: nat,
    args: UpdateArgs,
    s1: StateModel,
    next1: nat,
    items: ItemsModel,
    scrollbar: Option<Scrollbar>,
)
    requires
        list.item_h > 0,
        list.item_instantiation == ItemInstantiation::OnlyVisible,
        list.frame(s0, next0, args, s1, next1, items, scrollbar),
    ensures
        forall|k: int|
            0 <= k < items.sequence.len() ==> (#[trigger] items.sequence[k]).i < list.num_items,
        args.rect.h >= 0 ==> items.sequence.len() <= args.rect.h / list.item_h + 1,
{
    let w = list.frame_window(args);
    crate::window::lemma_window_ordered(list.item_instantiation, list.num_items as nat,
        list.item_h as int, args.rect@, opt_view(args.trigger_rect));
    if args.rect.h >= 0 {
        crate::window::lemma_visible_window_bounds(list.num_items as nat, list.item_h as int,
            args.rect@, opt_view(args.trigger_rect));
    }
    assert(0 <= w.start) by {
        match args.trigger_rect {
            Some(t) => {
                assert(crate::window::first_visible(t.top - args.rect.top, list.item_h as int) >= 0);
                assert(crate::window::visible_count(args.rect.h as int, list.item_h as int) >= 0);
            },
            None => {},
        }
    }
    assert forall|k: int| 0 <= k < items.sequence.len() implies (#[trigger] items.sequence[k]).i
        < list.num_items by {
        assert(items.sequence[k].i == (w.start + k) as usize);
    }
}

/// Laying a list out a second time with the same inputs, on the state that
/// the first layout left, yields the same items and scrollbar, and changes
/// neither the state nor the allocator.
pub proof fn lemma_frame_repeat(
    list: List,
    s0: StateModel,
    next0: nat,
    args: UpdateArgs,
    s1: StateModel,
    next1: nat,
    items1: ItemsModel,
    scrollbar1: Option<Scrollbar>,
    s2: StateModel,
    next2: nat,
    items2: ItemsModel,
    scrollbar2: Option<Scrollbar>,
)
    requires
        list.item_h > 0,
        list.frame(s0, next0, args, s1, next1, items1, scrollbar1),
        list.frame(s1, next1, args, s2, next2, items2, scrollbar2),
    ensures
        items2 == items1,
        scrollbar2 == scrollbar1,
        s2 == s1,
        next2 == next1,
{
    let w = list.frame_window(args);
    crate::window::lemma_window_ordered(list.item_instantiation, list.num_items as nat,
        list.item_h as int, args.rect@, opt_view(args.trigger_rect));
    assert(items2.sequence =~= items1.sequence);
}

/// A scrollbar comes exactly when a position is set for it. Next to the
/// items of a list that cannot scroll, it takes no width from them.
pub proof fn lemma_frame_scrollbar(
    list: List,
    s0: StateModel,
    next0: nat,
    args: UpdateArgs,
    s1: StateModel,
    next1: nat,
    items: ItemsModel,
    scrollbar: Option<Scrollbar>,
)
    requires
        list.item_h > 0,
        list.frame(s0, next0, args, s1, next1, items, scrollbar),
    ensures
        scrollbar is Some <==> list.style.scrollbar_position is Some,
        list.style.scrollbar_position == Some(ScrollbarPosition::NextTo) && !args.is_scrollable
            ==> forall|k: int|
            0 <= k < items.sequence.len() ==> (#[trigger] items.sequence[k]).w == args.rect.w,
        list.style.scrollbar_position == Some(ScrollbarPosition::NextTo) ==> (scrollbar matches Some(
            b,
        ) && !b.floating && !b.auto_hide),
        list.style.scrollbar_position == Some(ScrollbarPosition::OnTop) ==> (scrollbar matches Some(
            b,
        ) && b.floating && b.auto_hide),
{
}

/// A list without items yields no item in either mode, and its item slots
/// stay as they were.
pub proof fn lemma_frame_empty_list(
    list: List,
    s0: StateModel,
    next0: nat,
    args: UpdateArgs,
    s1: StateModel,
    next1: nat,
    items: ItemsModel,
    scrollbar: Option<Scrollbar>,
)
    requires
        list.item_h > 0,
        list.num_items == 0,
        list.frame(s0, next0, args, s1, next1, items, scrollbar),
    ensures
        items.sequence.len() == 0,
        s1.item_slots == s0.item_slots,
{
    crate::window::lemma_empty_list_window(list.item_instantiation, list.item_h as int, args.rect@,
        opt_view(args.trigger_rect));
}

} // verus!
