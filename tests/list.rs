use virtual_list::{
    Color, Item, ItemInstantiation, Items, List, NodeIndex, NodeIndexAllocator, Rect, Scrollbar,
    ScrollbarPosition, State, Style, Theme, UpdateArgs, VisibleRange, visible_window,
};

fn theme() -> Theme {
    Theme { border_color: Color { r: 1, g: 2, b: 3, a: 255 }, scrollbar_thickness: None }
}

fn viewport() -> Rect {
    Rect::new(0, 200, 100, 200)
}

fn args(trigger_top: i64, is_scrollable: bool) -> UpdateArgs {
    UpdateArgs {
        rect: viewport(),
        trigger_rect: Some(Rect::new(0, trigger_top, 100, 20_000)),
        is_scrollable,
        theme: theme(),
    }
}

fn collect(mut items: Items) -> Vec<Item> {
    let mut out = Vec::new();
    while let Some(item) = items.next() {
        out.push(item);
    }
    out
}

#[test]
fn scrolled_window_scenario() {
    // The trigger surface's top sits 140 above the viewport's top.
    let (range, margin) =
        visible_window(ItemInstantiation::OnlyVisible, 1000, 20, viewport(), Some(Rect::new(0, 340, 100, 20_000)));
    assert_eq!(range, VisibleRange { start: 7, end: 18 });
    assert_eq!(margin, 140);

    let list = List::new(1000, 20);
    let mut state = list.init_state();
    let mut ids = NodeIndexAllocator::new();
    let (items, scrollbar) = list.update(&mut state, &mut ids, args(340, true));
    assert!(scrollbar.is_none());
    let items = collect(items);
    assert_eq!(items.len(), 11);
    let indices: Vec<usize> = items.iter().map(|item| item.i).collect();
    assert_eq!(indices, (7..18).collect::<Vec<usize>>());
    assert!(items.iter().all(|item| item.first_item_margin == 140 && item.h == 20 && item.w == 100));
}

#[test]
fn all_items_scenario() {
    for viewport_h in [0, 10, 1000] {
        let rect = Rect::new(0, 0, 50, viewport_h);
        let (range, margin) = visible_window(ItemInstantiation::All, 5, 20, rect, None);
        assert_eq!(range, VisibleRange { start: 0, end: 5 });
        assert_eq!(margin, 0);

        let list = List::new(5, 20).instantiate_all_items();
        let mut state = State::new();
        let mut ids = NodeIndexAllocator::new();
        let a = UpdateArgs { rect, trigger_rect: None, is_scrollable: false, theme: theme() };
        let (items, _) = list.update(&mut state, &mut ids, a);
        let items = collect(items);
        assert_eq!(items.len(), 5);
        assert_eq!(items.iter().map(|item| item.i).collect::<Vec<usize>>(), vec![0, 1, 2, 3, 4]);
    }
}

#[test]
fn next_to_without_scrolling_keeps_width() {
    let list = List::new(3, 20).scrollbar_next_to().scrollbar_width(15);
    let mut state = State::new();
    let mut ids = NodeIndexAllocator::new();
    let (items, scrollbar) = list.update(&mut state, &mut ids, args(200, false));
    let items = collect(items);
    assert!(items.iter().all(|item| item.w == 100));
    let scrollbar = scrollbar.expect("a scrollbar");
    assert_eq!(scrollbar.thickness, 15);
    assert!(!scrollbar.auto_hide);
    assert!(!scrollbar.floating);
}

#[test]
fn next_to_while_scrolling_narrows_items() {
    let list = List::new(3, 20).scrollbar_next_to().scrollbar_width(15);
    let mut state = State::new();
    let mut ids = NodeIndexAllocator::new();
    let (items, scrollbar) = list.update(&mut state, &mut ids, args(200, true));
    let items = collect(items);
    assert_eq!(items.len(), 3);
    assert!(items.iter().all(|item| item.w == 85));
    assert!(scrollbar.is_some());
}

#[test]
fn on_top_keeps_width_and_auto_hides() {
    let list = List::new(3, 20).scrollbar_on_top().scrollbar_color(Color { r: 9, g: 9, b: 9, a: 9 });
    let mut state = State::new();
    let mut ids = NodeIndexAllocator::new();
    let (items, scrollbar) = list.update(&mut state, &mut ids, args(200, true));
    assert!(collect(items).iter().all(|item| item.w == 100));
    let scrollbar = scrollbar.expect("a scrollbar");
    assert!(scrollbar.auto_hide);
    assert!(scrollbar.floating);
    assert_eq!(scrollbar.color, Color { r: 9, g: 9, b: 9, a: 9 });
    assert_eq!(scrollbar.thickness, 10);
    assert_eq!(Some(scrollbar.idx), state.scrollbar_idx());
}

#[test]
fn scrollbar_thickness_from_theme() {
    let mut t = theme();
    t.scrollbar_thickness = Some(7);
    let style = Style { scrollbar_width: None, scrollbar_color: None, scrollbar_position: None };
    assert_eq!(style.scrollbar_thickness(&t), 7);
    assert_eq!(style.scrollbar_thickness(&theme()), 10);
    assert_eq!(style.scrollbar_color(&t), t.border_color);
    let style = Style { scrollbar_width: Some(3), ..style };
    assert_eq!(style.scrollbar_thickness(&t), 3);
}

#[test]
fn empty_list_yields_nothing() {
    for mode in [ItemInstantiation::All, ItemInstantiation::OnlyVisible] {
        let (range, _) = visible_window(mode, 0, 20, viewport(), Some(Rect::new(0, 340, 100, 0)));
        assert_eq!(range.len(), 0);
        let mut list = List::new(0, 20);
        list.item_instantiation = mode;
        let mut state = State::new();
        let mut ids = NodeIndexAllocator::new();
        let (items, _) = list.update(&mut state, &mut ids, args(340, false));
        assert_eq!(collect(items).len(), 0);
        assert_eq!(state.item_indices().len(), 0);
    }
}

#[test]
fn unresolved_trigger_shows_nothing() {
    let list = List::new(100, 20);
    let mut state = State::new();
    let mut ids = NodeIndexAllocator::new();
    let mut a = args(200, false);
    a.trigger_rect = None;
    let (items, _) = list.update(&mut state, &mut ids, a);
    assert_eq!(collect(items).len(), 0);
    assert!(state.scroll_trigger_idx().is_some());
}

#[test]
fn window_bounds_hold_in_examples() {
    for (trigger_top, h) in [(200, 200), (150, 200), (5000, 90), (21_000, 200), (200, 0), (399, 1)] {
        let rect = Rect::new(0, 200, 100, h);
        let (range, margin) =
            visible_window(ItemInstantiation::OnlyVisible, 1000, 20, rect, Some(Rect::new(0, trigger_top, 100, 20_000)));
        assert!(range.start <= range.end && range.end <= 1000);
        assert!(range.len() as i64 <= h / 20 + 1);
        assert!(margin >= 0);
    }
    // Past the end of the list nothing is visible.
    let (range, margin) = visible_window(
        ItemInstantiation::OnlyVisible,
        1000,
        20,
        viewport(),
        Some(Rect::new(0, 200 + 21_000, 100, 20_000)),
    );
    assert_eq!(range, VisibleRange { start: 1000, end: 1000 });
    assert_eq!(margin, 21_000);
    // A trigger below the viewport's top counts as no scroll.
    let (range, margin) =
        visible_window(ItemInstantiation::OnlyVisible, 1000, 20, viewport(), Some(Rect::new(0, 150, 100, 20_000)));
    assert_eq!(range, VisibleRange { start: 0, end: 11 });
    assert_eq!(margin, 0);
    // A viewport cut mid-item still shows the item it cuts.
    let (range, margin) = visible_window(
        ItemInstantiation::OnlyVisible,
        1000,
        20,
        Rect::new(0, 200, 100, 30),
        Some(Rect::new(0, 215, 100, 20_000)),
    );
    assert_eq!(range, VisibleRange { start: 0, end: 2 });
    assert_eq!(margin, 0);
}

#[test]
fn window_is_deterministic() {
    let t = Some(Rect::new(0, 777, 100, 20_000));
    let first = visible_window(ItemInstantiation::OnlyVisible, 1000, 20, viewport(), t);
    let second = visible_window(ItemInstantiation::OnlyVisible, 1000, 20, viewport(), t);
    assert_eq!(first, second);
    assert_eq!(first.0, VisibleRange { start: 28, end: 39 });
    assert_eq!(first.1, 560);
}

#[test]
fn slots_are_stable_when_the_window_grows() {
    let list = List::new(1000, 20);
    let mut state = State::new();
    let mut ids = NodeIndexAllocator::new();
    let mut small = args(200, true);
    small.rect = Rect::new(0, 200, 100, 100);
    let (items, _) = list.update(&mut state, &mut ids, small);
    let first: Vec<NodeIndex> = collect(items).iter().map(|item| item.widget_idx).collect();
    assert_eq!(first.len(), 6);
    let (items, _) = list.update(&mut state, &mut ids, args(200 + 60, true));
    let second: Vec<NodeIndex> = collect(items).iter().map(|item| item.widget_idx).collect();
    assert_eq!(second.len(), 11);
    assert_eq!(&second[..6], &first[..]);
    assert_eq!(state.item_indices().len(), 11);
}

#[test]
fn slots_never_shrink() {
    let list = List::new(1000, 20);
    let mut state = State::new();
    let mut ids = NodeIndexAllocator::new();
    let (_, _) = list.update(&mut state, &mut ids, args(200, true));
    let before = state.item_indices().clone();
    assert_eq!(before.len(), 11);
    let mut small = args(200, true);
    small.rect = Rect::new(0, 200, 100, 20);
    let (items, _) = list.update(&mut state, &mut ids, small);
    assert_eq!(collect(items).len(), 2);
    assert_eq!(state.item_indices(), &before);
}

#[test]
fn slot_indices_are_unique() {
    let list = List::new(50, 20).scrollbar_on_top();
    let mut state = State::new();
    let mut ids = NodeIndexAllocator::new();
    let trigger = list.scroll_trigger(&mut state, &mut ids, viewport());
    assert_eq!(trigger.w, 100);
    assert_eq!(trigger.h, 1000);
    let (items, scrollbar) = list.update(&mut state, &mut ids, args(200, true));
    let mut all: Vec<u64> = collect(items).iter().map(|item| item.widget_idx.index).collect();
    all.push(trigger.idx.index);
    all.push(scrollbar.unwrap().idx.index);
    assert_eq!(Some(trigger.idx), state.scroll_trigger_idx());
    let mut sorted = all.clone();
    sorted.sort();
    sorted.dedup();
    assert_eq!(sorted.len(), all.len());
}

#[test]
fn items_chain_to_the_previous_one() {
    let list = List::new(1000, 20);
    let mut state = State::new();
    let mut ids = NodeIndexAllocator::new();
    let (items, _) = list.update(&mut state, &mut ids, args(345, true));
    let items = collect(items);
    assert_eq!(items[0].last_idx, None);
    for k in 1..items.len() {
        assert_eq!(items[k].last_idx, Some(items[k - 1].widget_idx));
    }
    let trigger = Rect::new(0, 345, 100, 20_000);
    let mut rects = Vec::new();
    let mut anchor = trigger;
    for item in &items {
        let r = item.set(anchor);
        rects.push(r);
        anchor = r;
    }
    assert_eq!(rects[0], Rect::new(0, 345 - 140, 100, 20));
    for k in 1..rects.len() {
        assert_eq!(rects[k - 1].top - rects[k].top, 20);
        assert_eq!(rects[k].left, 0);
    }
}

#[test]
fn cursor_ends_and_stays_ended() {
    let list = List::new(2, 20);
    let mut state = State::new();
    let mut ids = NodeIndexAllocator::new();
    let (mut items, _) = list.update(&mut state, &mut ids, args(200, false));
    assert_eq!(items.next().map(|item| item.i), Some(0));
    assert_eq!(items.next().map(|item| item.i), Some(1));
    assert!(items.next().is_none());
    assert!(items.next().is_none());
}

#[test]
fn scrollbar_track_on_right_edge() {
    let scrollbar = Scrollbar {
        idx: NodeIndex { index: 3 },
        floating: false,
        color: Color { r: 0, g: 0, b: 0, a: 255 },
        thickness: 10,
        auto_hide: false,
    };
    assert_eq!(scrollbar.set(Rect::new(5, 300, 100, 200)), Rect::new(95, 300, 10, 200));
}

#[test]
fn builders_set_configuration() {
    let list = List::new(7, 30);
    assert_eq!(list.num_items, 7);
    assert_eq!(list.item_h, 30);
    assert_eq!(list.item_instantiation, ItemInstantiation::OnlyVisible);
    assert_eq!(list.style().scrollbar_position, None);
    assert!(!list.scroll_kids_vertically);
    assert!(list.crop_kids);
    let list = list.instantiate_all_items().scrollbar_next_to();
    assert_eq!(list.item_instantiation, ItemInstantiation::All);
    assert_eq!(list.style.scrollbar_position, Some(ScrollbarPosition::NextTo));
    assert!(list.scroll_kids_vertically);
    let list = list.instantiate_only_visible_items().scrollbar_on_top().scrollbar_width(4);
    assert_eq!(list.item_instantiation, ItemInstantiation::OnlyVisible);
    assert_eq!(list.style.scrollbar_position, Some(ScrollbarPosition::OnTop));
    assert_eq!(list.style.scrollbar_width, Some(4));
    assert!(list.crop_kids);
}

#[test]
fn allocator_counts_up() {
    let mut ids = NodeIndexAllocator::new();
    assert_eq!(ids.remaining(), u64::MAX);
    assert_eq!(ids.new_unique_node_index(), NodeIndex { index: 0 });
    assert_eq!(ids.new_unique_node_index(), NodeIndex { index: 1 });
    assert_eq!(ids.remaining(), u64::MAX - 2);
}

#[test]
fn trigger_surface_on_list_top() {
    let list = List::new(30, 20);
    let mut state = State::new();
    let mut ids = NodeIndexAllocator::new();
    let trigger = list.scroll_trigger(&mut state, &mut ids, Rect::new(5, 300, 80, 100));
    assert_eq!(trigger.set(Rect::new(5, 300, 80, 100)), Rect::new(5, 300, 80, 600));
}

#[test]
fn all_items_ignore_far_trigger() {
    let far = Some(Rect::new(0, i64::MAX, 10, 10));
    let rect = Rect::new(0, i64::MIN, 10, 10);
    let (range, margin) = visible_window(ItemInstantiation::All, 3, 20, rect, far);
    assert_eq!(range, VisibleRange { start: 0, end: 3 });
    assert_eq!(margin, 0);
}

#[test]
fn repeated_update_changes_nothing() {
    let list = List::new(1000, 20).scrollbar_on_top();
    let mut state = State::new();
    let mut ids = NodeIndexAllocator::new();
    let (items, scrollbar) = list.update(&mut state, &mut ids, args(777, true));
    let first = collect(items);
    let slots = state.item_indices().clone();
    let remaining = ids.remaining();
    let (items, again) = list.update(&mut state, &mut ids, args(777, true));
    let second = collect(items);
    assert_eq!(first.iter().map(|i| (i.i, i.widget_idx)).collect::<Vec<_>>(),
        second.iter().map(|i| (i.i, i.widget_idx)).collect::<Vec<_>>());
    assert_eq!(scrollbar, again);
    assert_eq!(state.item_indices(), &slots);
    assert_eq!(ids.remaining(), remaining);
}
