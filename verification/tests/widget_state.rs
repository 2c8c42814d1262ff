use widget_tree::cursor_icon::CursorIcon;
use widget_tree::geometry::{Insets, Point, Rect, Size, Vec2, COORD_MAX};
use widget_tree::widget_id::WidgetId;
use widget_tree::widget_state::{TextFieldRegistration, WidgetState};

fn quiet(id: u64) -> WidgetState {
    let mut state = WidgetState::synthetic(WidgetId::new(id), Size::new(0, 0));
    state.request_layout = false;
    state
}

fn merged_flags(state: &WidgetState) -> [bool; 9] {
    [
        state.needs_layout,
        state.needs_compose,
        state.needs_paint,
        state.needs_accessibility,
        state.request_anim,
        state.needs_update_disabled,
        state.has_focus,
        state.children_changed,
        state.update_focus_chain,
    ]
}

#[test]
fn new_state_asks_for_every_pass() {
    let state = WidgetState::new(WidgetId::new(7), "Label");
    assert_eq!(state.id, WidgetId::new(7));
    assert_eq!(state.id.to_raw(), 7);
    assert_eq!(state.widget_name, "Label");
    assert_eq!(state.size, Size::new(0, 0));
    assert_eq!(state.origin, Point::new(0, 0));
    assert_eq!(state.window_origin, Point::new(0, 0));
    assert_eq!(state.paint_insets, Insets::zero());
    assert_eq!(state.local_paint_rect, Rect::new(0, 0, 0, 0));
    assert_eq!(state.translation, Vec2::new(0, 0));
    assert_eq!(state.baseline_offset, 0);
    assert_eq!(state.clip, None);
    assert!(state.request_layout && state.needs_layout);
    assert!(state.request_compose && state.needs_compose);
    assert!(state.request_paint && state.needs_paint);
    assert!(state.request_accessibility && state.needs_accessibility);
    assert!(state.request_anim);
    assert!(state.needs_update_disabled);
    assert!(state.update_focus_chain);
    assert!(state.children_changed);
    assert!(!state.is_portal);
    assert!(!state.translation_changed);
    assert!(!state.is_expecting_place_child_call);
    assert!(!state.is_explicitly_disabled);
    assert!(!state.is_disabled);
    assert!(!state.is_hot);
    assert!(!state.has_focus);
    assert!(!state.is_stashed);
    assert!(!state.needs_visit());
    assert!(state.focus_chain.is_empty());
    assert!(state.text_registrations.is_empty());
}

#[test]
fn synthetic_state_asks_for_nothing_below_it() {
    let state = WidgetState::synthetic(WidgetId::new(1), Size::new(800, 600));
    assert_eq!(state.id, WidgetId::new(1));
    assert_eq!(state.size(), Size::new(800, 600));
    assert_eq!(state.widget_name, "<root>");
    assert_eq!(state.origin, Point::new(0, 0));
    assert!(state.request_layout);
    assert!(!state.needs_layout);
    assert!(!state.request_compose && !state.needs_compose);
    assert!(!state.request_paint && !state.needs_paint);
    assert!(!state.request_accessibility && !state.needs_accessibility);
    assert!(!state.request_anim);
    assert!(!state.needs_update_disabled);
    assert!(!state.children_changed);
    assert!(!state.update_focus_chain);
    assert!(!state.has_focus);
    assert!(state.text_registrations.is_empty());
}

#[test]
fn merging_a_new_child_into_a_synthetic_root_raises_every_subtree_flag() {
    let mut root = WidgetState::synthetic(WidgetId::new(1), Size::new(10, 10));
    let mut child = WidgetState::new(WidgetId::new(2), "Button");
    root.merge_up(&mut child);
    assert!(root.needs_layout);
    assert!(root.needs_compose);
    assert!(root.needs_paint);
    assert!(root.needs_accessibility);
    assert!(root.request_anim);
    assert!(root.needs_update_disabled);
    assert!(root.children_changed);
    assert!(root.update_focus_chain);
    assert!(!root.has_focus);
    assert!(!root.request_compose);
    assert!(!root.request_paint);
    assert!(!root.request_accessibility);
    assert_eq!(root.id, WidgetId::new(1));
    assert_eq!(root.size, Size::new(10, 10));
    assert!(child.needs_layout && child.request_layout);
    assert_eq!(child.id, WidgetId::new(2));
}

#[test]
fn merge_up_takes_each_flag_on_its_own() {
    for flag in 0..9 {
        let mut parent = quiet(1);
        let mut child = quiet(2);
        match flag {
            0 => child.needs_layout = true,
            1 => child.needs_compose = true,
            2 => child.needs_paint = true,
            3 => child.needs_accessibility = true,
            4 => child.request_anim = true,
            5 => child.needs_update_disabled = true,
            6 => child.has_focus = true,
            7 => child.children_changed = true,
            _ => child.update_focus_chain = true,
        }
        parent.merge_up(&mut child);
        let mut expected = [false; 9];
        expected[flag] = true;
        assert_eq!(merged_flags(&parent), expected);
        assert_eq!(merged_flags(&child), expected);
    }
}

#[test]
fn merge_up_leaves_own_requests_of_the_child_with_the_child() {
    let mut parent = quiet(1);
    let mut child = quiet(2);
    child.request_layout = true;
    child.request_compose = true;
    child.request_paint = true;
    child.request_accessibility = true;
    child.is_hot = true;
    child.is_disabled = true;
    child.is_explicitly_disabled = true;
    child.is_stashed = true;
    parent.merge_up(&mut child);
    assert_eq!(merged_flags(&parent), [false; 9]);
    assert!(!parent.request_layout);
    assert!(!parent.request_compose);
    assert!(!parent.request_paint);
    assert!(!parent.request_accessibility);
    assert!(!parent.is_hot);
    assert!(!parent.is_disabled);
    assert!(!parent.is_explicitly_disabled);
    assert!(!parent.is_stashed);
}

#[test]
fn merge_up_never_clears_a_flag_of_the_parent() {
    let mut parent = WidgetState::new(WidgetId::new(1), "Flex");
    parent.has_focus = true;
    let mut child = quiet(2);
    parent.merge_up(&mut child);
    assert_eq!(merged_flags(&parent), [true; 9]);
    assert_eq!(merged_flags(&child), [false; 9]);
}

#[test]
fn merge_up_moves_text_registrations_behind_the_parents_own() {
    let mut parent = quiet(1);
    let mut child = quiet(2);
    parent.text_registrations.push(TextFieldRegistration { widget_id: WidgetId::new(10) });
    child.text_registrations.push(TextFieldRegistration { widget_id: WidgetId::new(20) });
    child.text_registrations.push(TextFieldRegistration { widget_id: WidgetId::new(21) });
    parent.focus_chain.push(WidgetId::new(5));
    child.focus_chain.push(WidgetId::new(6));
    parent.merge_up(&mut child);
    let ids: Vec<u64> = parent.text_registrations.iter().map(|r| r.widget_id.to_raw()).collect();
    assert_eq!(ids, vec![10, 20, 21]);
    assert!(child.text_registrations.is_empty());
    assert_eq!(parent.focus_chain, vec![WidgetId::new(5)]);
    assert_eq!(child.focus_chain, vec![WidgetId::new(6)]);
}

#[test]
fn merge_up_twice_is_merge_up_once() {
    let mut parent = quiet(1);
    parent.needs_paint = true;
    parent.text_registrations.push(TextFieldRegistration { widget_id: WidgetId::new(10) });
    let mut child = quiet(2);
    child.needs_layout = true;
    child.has_focus = true;
    child.text_registrations.push(TextFieldRegistration { widget_id: WidgetId::new(20) });
    parent.merge_up(&mut child);
    let flags_once = merged_flags(&parent);
    let registrations_once = parent.text_registrations.clone();
    let child_once = merged_flags(&child);
    parent.merge_up(&mut child);
    assert_eq!(merged_flags(&parent), flags_once);
    assert_eq!(parent.text_registrations, registrations_once);
    assert_eq!(parent.text_registrations.len(), 2);
    assert_eq!(merged_flags(&child), child_once);
    assert!(child.text_registrations.is_empty());
    assert_eq!(
        flags_once,
        [true, false, true, false, false, false, true, false, false]
    );
}

#[test]
fn merge_up_keeps_geometry_of_both_records() {
    let mut parent = quiet(1);
    parent.origin = Point::new(1, 2);
    parent.size = Size::new(3, 4);
    parent.clip = Some(Rect::new(0, 0, 3, 4));
    let mut child = quiet(2);
    child.origin = Point::new(5, 6);
    child.window_origin = Point::new(6, 8);
    child.size = Size::new(7, 8);
    child.needs_visit = true;
    parent.merge_up(&mut child);
    assert_eq!(parent.origin, Point::new(1, 2));
    assert_eq!(parent.size, Size::new(3, 4));
    assert_eq!(parent.clip, Some(Rect::new(0, 0, 3, 4)));
    assert!(!parent.needs_visit);
    assert_eq!(child.origin, Point::new(5, 6));
    assert_eq!(child.window_origin, Point::new(6, 8));
    assert_eq!(child.size, Size::new(7, 8));
    assert!(child.needs_visit);
}

#[test]
fn layout_rect_starts_at_origin_and_has_the_size() {
    let mut state = WidgetState::new(WidgetId::new(1), "Label");
    state.origin = Point::new(10, 20);
    state.size = Size::new(30, 40);
    let rect = state.layout_rect();
    assert_eq!(rect, Rect::new(10, 20, 40, 60));
    assert_eq!(rect.origin(), state.origin);
    assert_eq!(rect.size(), state.size);
}

#[test]
fn window_layout_rect_starts_at_window_origin() {
    let mut state = WidgetState::new(WidgetId::new(1), "Label");
    state.origin = Point::new(10, 20);
    state.window_origin = Point::new(110, 220);
    state.size = Size::new(30, 40);
    assert_eq!(state.window_origin(), Point::new(110, 220));
    let rect = state.window_layout_rect();
    assert_eq!(rect, Rect::new(110, 220, 140, 260));
    assert_eq!(rect.origin(), state.window_origin);
    assert_eq!(rect.size(), state.size);
}

#[test]
fn paint_rect_is_local_paint_rect_moved_to_origin() {
    let mut state = WidgetState::new(WidgetId::new(1), "Label");
    state.origin = Point::new(10, 20);
    state.size = Size::new(30, 40);
    state.local_paint_rect = Rect::new(-2, -3, 32, 45);
    assert_eq!(state.paint_rect(), Rect::new(8, 17, 42, 65));
}

#[test]
fn rects_of_a_new_state_are_empty() {
    let state = WidgetState::new(WidgetId::new(1), "Label");
    assert_eq!(state.layout_rect(), Rect::new(0, 0, 0, 0));
    assert_eq!(state.window_layout_rect(), Rect::new(0, 0, 0, 0));
    assert_eq!(state.paint_rect(), Rect::new(0, 0, 0, 0));
}

#[test]
fn rects_do_not_depend_on_flags() {
    let mut state = WidgetState::new(WidgetId::new(1), "Label");
    state.origin = Point::new(1, 1);
    state.size = Size::new(2, 2);
    let before = (state.layout_rect(), state.window_layout_rect(), state.paint_rect());
    state.needs_layout = false;
    state.is_hot = true;
    state.mark_as_visited(false);
    let after = (state.layout_rect(), state.window_layout_rect(), state.paint_rect());
    assert_eq!(before, after);
}

#[test]
fn mark_as_visited_sets_and_clears_the_mark() {
    let mut state = WidgetState::new(WidgetId::new(1), "Label");
    assert!(!state.needs_visit());
    state.mark_as_visited(false);
    assert!(state.needs_visit());
    state.mark_as_visited(true);
    assert!(!state.needs_visit());
    assert!(state.needs_layout);
    assert_eq!(state.id, WidgetId::new(1));
}

#[test]
fn geometry_in_range_is_decided_field_by_field() {
    let mut state = WidgetState::new(WidgetId::new(1), "Label");
    assert!(state.is_geometry_in_range());
    state.origin = Point::new(COORD_MAX, -COORD_MAX);
    assert!(state.is_geometry_in_range());
    state.origin = Point::new(COORD_MAX + 1, 0);
    assert!(!state.is_geometry_in_range());
    state.origin = Point::new(0, 0);
    state.clip = Some(Rect::new(0, 0, 10, i64::MAX));
    assert!(!state.is_geometry_in_range());
    state.clip = Some(Rect::new(0, 0, 10, 10));
    assert!(state.is_geometry_in_range());
    state.size = Size::new(i64::MIN, 0);
    assert!(!state.is_geometry_in_range());
}

#[test]
fn rects_at_the_edge_of_the_range_do_not_overflow() {
    let mut state = WidgetState::new(WidgetId::new(1), "Label");
    state.origin = Point::new(COORD_MAX, COORD_MAX);
    state.window_origin = Point::new(-COORD_MAX, -COORD_MAX);
    state.size = Size::new(COORD_MAX, COORD_MAX);
    state.local_paint_rect = Rect::new(-COORD_MAX, -COORD_MAX, COORD_MAX, COORD_MAX);
    assert_eq!(
        state.layout_rect(),
        Rect::new(COORD_MAX, COORD_MAX, 2 * COORD_MAX, 2 * COORD_MAX)
    );
    assert_eq!(state.window_layout_rect(), Rect::new(-COORD_MAX, -COORD_MAX, 0, 0));
    assert_eq!(state.paint_rect(), Rect::new(0, 0, 2 * COORD_MAX, 2 * COORD_MAX));
}

#[test]
fn a_new_state_has_no_cursor_and_a_merge_leaves_cursors_alone() {
    let mut parent = WidgetState::new(WidgetId::new(1), "Flex");
    let mut child = WidgetState::new(WidgetId::new(2), "TextBox");
    assert_eq!(parent.cursor, None);
    assert_eq!(WidgetState::synthetic(WidgetId::new(3), Size::new(1, 1)).cursor, None);
    child.cursor = Some(CursorIcon::Text);
    parent.cursor = Some(CursorIcon::Pointer);
    parent.merge_up(&mut child);
    assert_eq!(parent.cursor, Some(CursorIcon::Pointer));
    assert_eq!(child.cursor, Some(CursorIcon::Text));
    child.mark_as_visited(true);
    assert_eq!(child.cursor, Some(CursorIcon::Text));
}

#[test]
fn mark_as_visited_changes_nothing_but_the_mark() {
    let mut state = WidgetState::synthetic(WidgetId::new(9), Size::new(30, 40));
    state.origin = Point::new(1, 2);
    state.window_origin = Point::new(3, 4);
    state.paint_insets = Insets { x0: 1, y0: 2, x1: 3, y1: 4 };
    state.local_paint_rect = Rect::new(-1, -2, 33, 44);
    state.baseline_offset = 5;
    state.is_portal = true;
    state.clip = Some(Rect::new(0, 0, 30, 40));
    state.translation = Vec2::new(6, 7);
    state.translation_changed = true;
    state.is_expecting_place_child_call = true;
    state.needs_layout = true;
    state.request_paint = true;
    state.needs_paint = true;
    state.has_focus = true;
    state.is_hot = true;
    state.is_disabled = true;
    state.is_stashed = true;
    state.cursor = Some(CursorIcon::Grab);
    state.focus_chain.push(WidgetId::new(4));
    state.text_registrations.push(TextFieldRegistration { widget_id: WidgetId::new(5) });
    let before = state.clone();
    for visited in [false, true, true, false] {
        state.mark_as_visited(visited);
        assert_eq!(state.needs_visit(), !visited);
        assert_eq!(state.id, before.id);
        assert_eq!(state.size, before.size);
        assert_eq!(state.origin, before.origin);
        assert_eq!(state.window_origin, before.window_origin);
        assert_eq!(state.paint_insets, before.paint_insets);
        assert_eq!(state.local_paint_rect, before.local_paint_rect);
        assert_eq!(state.baseline_offset, before.baseline_offset);
        assert_eq!(state.is_portal, before.is_portal);
        assert_eq!(state.clip, before.clip);
        assert_eq!(state.translation, before.translation);
        assert_eq!(state.translation_changed, before.translation_changed);
        assert_eq!(
            state.is_expecting_place_child_call,
            before.is_expecting_place_child_call
        );
        assert_eq!(state.request_layout, before.request_layout);
        assert_eq!(state.request_compose, before.request_compose);
        assert_eq!(state.request_paint, before.request_paint);
        assert_eq!(state.request_accessibility, before.request_accessibility);
        assert_eq!(merged_flags(&state), merged_flags(&before));
        assert_eq!(state.focus_chain, before.focus_chain);
        assert_eq!(state.cursor, before.cursor);
        assert_eq!(state.text_registrations, before.text_registrations);
        assert_eq!(state.is_explicitly_disabled, before.is_explicitly_disabled);
        assert_eq!(state.is_disabled, before.is_disabled);
        assert_eq!(state.is_hot, before.is_hot);
        assert_eq!(state.is_stashed, before.is_stashed);
        assert_eq!(state.widget_name, before.widget_name);
    }
}

#[test]
fn layout_holds_where_the_layout_rect_contains() {
    let mut state = WidgetState::new(WidgetId::new(1), "Label");
    state.origin = Point::new(10, 20);
    state.window_origin = Point::new(110, 220);
    state.size = Size::new(30, 40);
    for (x, y) in [(10, 20), (39, 59), (40, 20), (10, 60), (9, 20), (10, 19), (110, 220)] {
        let pos = Point::new(x, y);
        assert_eq!(state.layout_holds(pos), state.layout_rect().contains(pos));
        assert_eq!(state.window_layout_holds(pos), state.window_layout_rect().contains(pos));
    }
    assert!(state.layout_holds(Point::new(10, 20)));
    assert!(state.layout_holds(Point::new(39, 59)));
    assert!(!state.layout_holds(Point::new(40, 59)));
    assert!(!state.layout_holds(Point::new(110, 220)));
    assert!(state.window_layout_holds(Point::new(110, 220)));
    assert!(state.window_layout_holds(Point::new(139, 259)));
    assert!(!state.window_layout_holds(Point::new(139, 260)));
    assert!(!state.window_layout_holds(Point::new(10, 20)));
}

#[test]
fn layout_holds_is_exact_where_no_rect_could_be_formed() {
    let mut state = WidgetState::new(WidgetId::new(1), "Label");
    state.origin = Point::new(i64::MAX - 1, i64::MIN);
    state.window_origin = Point::new(i64::MIN, i64::MAX);
    state.size = Size::new(i64::MAX, 1);
    assert!(state.layout_holds(Point::new(i64::MAX, i64::MIN)));
    assert!(state.layout_holds(Point::new(i64::MAX - 1, i64::MIN)));
    assert!(!state.layout_holds(Point::new(i64::MAX - 2, i64::MIN)));
    assert!(!state.layout_holds(Point::new(i64::MAX, i64::MIN + 1)));
    assert!(state.window_layout_holds(Point::new(-2, i64::MAX)));
    assert!(!state.window_layout_holds(Point::new(-1, i64::MAX)));
    state.size = Size::new(-1, -1);
    assert!(!state.layout_holds(Point::new(i64::MAX - 1, i64::MIN)));
    state.size = Size::new(i64::MIN, i64::MIN);
    assert!(!state.window_layout_holds(Point::new(i64::MIN, i64::MAX)));
}

#[test]
fn clip_admits_by_the_position_relative_to_the_window_origin() {
    let mut state = WidgetState::new(WidgetId::new(1), "Portal");
    state.window_origin = Point::new(50, 60);
    assert!(state.clip_admits(Point::new(-1000, 1000)));
    state.clip = Some(Rect::new(0, 0, 10, 10));
    assert!(state.clip_admits(Point::new(50, 60)));
    assert!(state.clip_admits(Point::new(59, 69)));
    assert!(!state.clip_admits(Point::new(60, 69)));
    assert!(!state.clip_admits(Point::new(59, 70)));
    assert!(!state.clip_admits(Point::new(49, 60)));
    assert!(!state.clip_admits(Point::new(5, 5)));
    state.clip = Some(Rect::new(-5, -5, 0, 0));
    assert!(state.clip_admits(Point::new(45, 55)));
    assert!(!state.clip_admits(Point::new(50, 60)));
}

#[test]
fn clip_admits_is_exact_where_the_difference_exceeds_a_coordinate() {
    let mut state = WidgetState::new(WidgetId::new(1), "Portal");
    state.clip = Some(Rect::new(i64::MIN, i64::MIN, i64::MAX, i64::MAX));
    state.window_origin = Point::new(i64::MIN, 0);
    assert!(!state.clip_admits(Point::new(0, 0)));
    assert!(state.clip_admits(Point::new(-2, 0)));
    state.window_origin = Point::new(i64::MAX, 0);
    assert!(!state.clip_admits(Point::new(-2, 0)));
    assert!(state.clip_admits(Point::new(-1, 0)));
    state.window_origin = Point::new(0, i64::MAX);
    assert!(!state.clip_admits(Point::new(0, i64::MIN)));
}
