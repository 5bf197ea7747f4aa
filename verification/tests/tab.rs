use iced_tabs::tab::{
    close_highlighted, compute_drop_index, style_status, visual_order, ContentEvent, DragState,
    PointerInfo, TabBarContentState, TabContentConfig, TabMessage, TabStatus, TooltipState,
};
use iced_tabs::Status;

fn config(n: usize, active: usize) -> TabContentConfig {
    TabContentConfig {
        active_tab: active,
        has_close: true,
        notify_close: true,
        notify_reorder: true,
        has_tooltip: vec![false; n],
        tab_statuses: vec![(None, None); n],
    }
}

fn pointer_over(n: usize, over: Option<usize>) -> PointerInfo {
    PointerInfo {
        position_known: true,
        event_captured: false,
        in_content: over.is_some(),
        over_tab: (0..n).map(|i| Some(i) == over).collect(),
        over_close: vec![Some(false); n],
        over_last: vec![Some(false); n],
        left_of_center: vec![false; n],
        tooltip_waiting: false,
    }
}

#[test]
fn drop_index_examples() {
    assert_eq!(compute_drop_index(&vec![], 0), 0);
    // Cursor left of the center of tab 0: move to the front.
    assert_eq!(compute_drop_index(&vec![true, true, true], 2), 0);
    // Cursor right of every center: the end, one less since that lies past the dragged tab.
    assert_eq!(compute_drop_index(&vec![false, false, false], 0), 2);
    // Dropping the tab in its own place does not move it.
    assert_eq!(compute_drop_index(&vec![false, true, true], 0), 0);
    assert_eq!(compute_drop_index(&vec![false, true, true], 1), 1);
    assert_eq!(compute_drop_index(&vec![false, false, true], 1), 1);
    assert_eq!(compute_drop_index(&vec![false, false, false, true], 0), 2);
}

#[test]
fn visual_order_examples() {
    assert_eq!(visual_order(4, 0, 2), vec![1, 2, 0, 3]);
    assert_eq!(visual_order(4, 3, 0), vec![3, 0, 1, 2]);
    assert_eq!(visual_order(4, 1, 1), vec![0, 1, 2, 3]);
    assert_eq!(visual_order(3, 1, 7), vec![0, 2, 1]);
    assert_eq!(visual_order(0, 0, 0), vec![0]);
}

#[test]
fn preview_matches_reorder_on_example() {
    // The application's reorder: remove at `from`, insert at `to`.
    let mut tabs = vec!["a", "b", "c", "d"];
    let left = vec![false, false, false, true];
    let from = 0;
    let to = compute_drop_index(&left, from);
    assert_eq!(to, 2);
    let preview: Vec<&str> = visual_order(4, from, to).iter().map(|&k| tabs[k]).collect();
    let tab = tabs.remove(from);
    tabs.insert(to, tab);
    assert_eq!(tabs, preview);
}

#[test]
fn style_status_and_close_highlight() {
    assert_eq!(style_status(&(None, None)), Status::Inactive);
    assert_eq!(style_status(&(Some(Status::Hovered), None)), Status::Hovered);
    assert!(!close_highlighted(&(None, None)));
    assert!(!close_highlighted(&(None, Some(false))));
    assert!(close_highlighted(&(Some(Status::Active), Some(true))));
}

#[test]
fn content_state_constructors() {
    let s = TabBarContentState::default();
    assert!(s.tab_statuses.is_empty() && s.drag.is_none() && s.tooltip.is_none());
    let s = TabBarContentState::new(vec![(None, None); 2]);
    assert_eq!(s.tab_statuses.len(), 2);
    assert!(!s.is_grabbing());
}

#[test]
fn press_on_a_tab_selects_it_and_starts_a_drag() {
    let mut state = TabBarContentState::new(vec![(None, None); 3]);
    let out = state.update(&config(3, 0), &ContentEvent::Press, &pointer_over(3, Some(1)));
    assert_eq!(out.message, Some(TabMessage::Select(1)));
    assert!(out.capture);
    assert!(out.drag_started);
    assert_eq!(state.drag, Some(DragState { tab_index: 1, is_dragging: false }));
    assert!(!state.is_grabbing());
    assert_eq!(
        state.tab_statuses,
        vec![
            (Some(Status::Active), Some(false)),
            (Some(Status::Hovered), Some(false)),
            (Some(Status::Inactive), Some(false)),
        ]
    );
    assert!(out.redraw);
}

#[test]
fn press_on_a_close_button_closes_the_tab() {
    let mut state = TabBarContentState::new(vec![(None, None); 2]);
    let mut p = pointer_over(2, Some(1));
    p.over_close = vec![Some(false), Some(true)];
    p.over_last = vec![Some(false), Some(true)];
    let out = state.update(&config(2, 0), &ContentEvent::Press, &p);
    assert_eq!(out.message, Some(TabMessage::Close(1)));
    assert!(out.capture);
    assert!(!out.drag_started);
    assert_eq!(state.drag, None);
    assert_eq!(state.tab_statuses[1], (Some(Status::Hovered), Some(true)));
}

#[test]
fn press_outside_or_captured_does_nothing() {
    let mut state = TabBarContentState::new(vec![(None, None); 2]);
    let out = state.update(&config(2, 0), &ContentEvent::Press, &pointer_over(2, None));
    assert_eq!(out.message, None);
    assert!(!out.capture);
    let mut p = pointer_over(2, Some(1));
    p.event_captured = true;
    let out = state.update(&config(2, 0), &ContentEvent::Press, &p);
    assert_eq!(out.message, None);
    assert_eq!(state.drag, None);
}

#[test]
fn without_reorder_a_press_starts_no_drag() {
    let mut state = TabBarContentState::new(vec![(None, None); 2]);
    let mut cfg = config(2, 0);
    cfg.notify_reorder = false;
    let out = state.update(&cfg, &ContentEvent::Press, &pointer_over(2, Some(0)));
    assert_eq!(out.message, Some(TabMessage::Select(0)));
    assert!(!out.drag_started);
    assert_eq!(state.drag, None);
}

#[test]
fn drag_then_release_asks_for_a_reorder() {
    let mut state = TabBarContentState::new(vec![(None, None); 4]);
    let cfg = config(4, 0);
    state.update(&cfg, &ContentEvent::Press, &pointer_over(4, Some(0)));
    // Below the threshold: still pending.
    let out = state.update(&cfg, &ContentEvent::Move { past_threshold: false }, &pointer_over(4, Some(0)));
    assert!(!out.capture && !out.drag_activated);
    assert!(!state.is_grabbing());
    // Past the threshold: dragging.
    let out = state.update(&cfg, &ContentEvent::Move { past_threshold: true }, &pointer_over(4, Some(2)));
    assert!(out.capture && out.redraw && out.drag_activated);
    assert!(state.is_grabbing());
    // The next move shows the dragged tab as Dragging and hovers nothing.
    let out = state.update(&cfg, &ContentEvent::Move { past_threshold: true }, &pointer_over(4, Some(2)));
    assert!(!out.drag_activated);
    assert_eq!(state.tab_statuses[0], (Some(Status::Dragging), None));
    assert_eq!(state.tab_statuses[2], (Some(Status::Inactive), None));
    // Release right of the centers of tabs 0..=2.
    let mut p = pointer_over(4, Some(2));
    p.left_of_center = vec![false, false, false, true];
    let out = state.update(&cfg, &ContentEvent::Release, &p);
    assert_eq!(out.message, Some(TabMessage::Reorder(0, 2)));
    assert!(out.capture && out.redraw);
    assert_eq!(state.drag, None);
}

#[test]
fn release_in_place_asks_for_nothing() {
    let mut state = TabBarContentState::new(vec![(None, None); 3]);
    let cfg = config(3, 0);
    state.update(&cfg, &ContentEvent::Press, &pointer_over(3, Some(1)));
    state.update(&cfg, &ContentEvent::Move { past_threshold: true }, &pointer_over(3, Some(1)));
    let mut p = pointer_over(3, Some(1));
    p.left_of_center = vec![false, true, true];
    let out = state.update(&cfg, &ContentEvent::Release, &p);
    assert_eq!(out.message, None);
    assert!(out.capture);
    assert_eq!(state.drag, None);
}

#[test]
fn release_without_crossing_the_threshold_only_ends_the_drag() {
    let mut state = TabBarContentState::new(vec![(None, None); 3]);
    let cfg = config(3, 0);
    state.update(&cfg, &ContentEvent::Press, &pointer_over(3, Some(1)));
    let out = state.update(&cfg, &ContentEvent::Release, &pointer_over(3, Some(1)));
    assert_eq!(out.message, None);
    assert!(!out.capture);
    assert_eq!(state.drag, None);
}

#[test]
fn tooltip_tracking() {
    let mut state = TabBarContentState::new(vec![(None, None); 2]);
    let mut cfg = config(2, 0);
    cfg.has_tooltip = vec![false, true];
    // Hovering a tab without a tooltip tracks nothing.
    let out = state.update(&cfg, &ContentEvent::Other, &pointer_over(2, Some(0)));
    assert!(!out.tooltip_started);
    assert_eq!(state.tooltip, None);
    // Hovering the tab with a tooltip starts tracking it.
    let out = state.update(&cfg, &ContentEvent::Other, &pointer_over(2, Some(1)));
    assert!(out.tooltip_started && out.redraw);
    assert_eq!(state.tooltip, Some(TooltipState { tab_index: 1 }));
    // Staying there while the delay runs keeps redrawing.
    cfg.tab_statuses = state.tab_statuses.clone();
    let mut p = pointer_over(2, Some(1));
    p.tooltip_waiting = true;
    let out = state.update(&cfg, &ContentEvent::Other, &p);
    assert!(!out.tooltip_started && out.redraw);
    // After the delay nothing changes.
    let out = state.update(&cfg, &ContentEvent::Other, &pointer_over(2, Some(1)));
    assert!(!out.redraw);
    // Leaving ends the tracking.
    let out = state.update(&cfg, &ContentEvent::Other, &pointer_over(2, None));
    assert!(out.redraw);
    assert_eq!(state.tooltip, None);
}

#[test]
fn unchanged_statuses_ask_for_no_redraw() {
    let statuses: Vec<TabStatus> = vec![(Some(Status::Active), Some(false)), (Some(Status::Inactive), Some(false))];
    let mut state = TabBarContentState::new(statuses.clone());
    let mut cfg = config(2, 0);
    cfg.tab_statuses = statuses.clone();
    let out = state.update(&cfg, &ContentEvent::Other, &pointer_over(2, None));
    assert!(!out.redraw);
    assert_eq!(state.tab_statuses, statuses);
}

#[test]
fn without_close_buttons_no_close_hover_is_tracked() {
    let mut state = TabBarContentState::new(vec![(None, None); 2]);
    let mut cfg = config(2, 1);
    cfg.has_close = false;
    cfg.notify_close = false;
    let out = state.update(&cfg, &ContentEvent::Other, &pointer_over(2, Some(0)));
    assert!(out.redraw);
    assert_eq!(state.tab_statuses, vec![(Some(Status::Hovered), None), (Some(Status::Active), None)]);
}

#[test]
fn visual_order_shows_every_tab_once() {
    for count in 1..6usize {
        for dragged in 0..count {
            for target in 0..=count {
                let mut order = visual_order(count, dragged, target);
                assert_eq!(order.len(), count);
                order.sort();
                assert_eq!(order, (0..count).collect::<Vec<_>>());
            }
        }
    }
}

#[test]
fn dropping_between_the_neighbours_keeps_the_place() {
    // Dragged tab 1 of 3: between the centers of tabs 0 and 2.
    assert_eq!(compute_drop_index(&vec![false, true, true], 1), 1);
    assert_eq!(compute_drop_index(&vec![false, false, true], 1), 1);
    // Left of the center of tab 0, or right of the center of tab 2: it moves.
    assert_eq!(compute_drop_index(&vec![true, true, true], 1), 0);
    assert_eq!(compute_drop_index(&vec![false, false, false], 1), 2);
    // The last tab dragged right of every center stays put.
    assert_eq!(compute_drop_index(&vec![false, false, false], 2), 2);
}

#[test]
fn reorder_targets_stay_within_the_tabs() {
    for n in 1..6usize {
        for dragged in 0..n {
            for first in 0..=n {
                let left: Vec<bool> = (0..n).map(|i| i >= first).collect();
                let target = compute_drop_index(&left, dragged);
                assert!(target < n);
            }
        }
    }
}

#[test]
fn exactly_one_tab_is_active_after_an_update() {
    let mut state = TabBarContentState::new(vec![(None, None); 4]);
    let out = state.update(&config(4, 2), &ContentEvent::Other, &pointer_over(4, Some(0)));
    assert!(out.message.is_none());
    let active = state.tab_statuses.iter().filter(|s| s.0 == Some(Status::Active)).count();
    assert_eq!(active, 1);
    assert_eq!(state.tab_statuses[2].0, Some(Status::Active));
    assert_eq!(state.tab_statuses[0].0, Some(Status::Hovered));
}

#[test]
fn the_dragged_active_tab_shows_dragging() {
    let mut state = TabBarContentState::new(vec![(None, None); 3]);
    let cfg = config(3, 1);
    state.update(&cfg, &ContentEvent::Press, &pointer_over(3, Some(1)));
    state.update(&cfg, &ContentEvent::Move { past_threshold: true }, &pointer_over(3, Some(1)));
    state.update(&cfg, &ContentEvent::Other, &pointer_over(3, Some(0)));
    assert_eq!(state.tab_statuses[1].0, Some(Status::Dragging));
    let active = state.tab_statuses.iter().filter(|s| s.0 == Some(Status::Active)).count();
    assert_eq!(active, 0);
    // During the drag nothing is hovered and no close button is tracked.
    assert_eq!(state.tab_statuses[0], (Some(Status::Inactive), None));
}

#[test]
fn without_reorder_release_asks_for_nothing() {
    let mut state = TabBarContentState::new(vec![(None, None); 3]);
    state.drag = Some(DragState { tab_index: 0, is_dragging: true });
    let mut cfg = config(3, 0);
    cfg.notify_reorder = false;
    let mut p = pointer_over(3, Some(2));
    p.left_of_center = vec![false, false, false];
    let out = state.update(&cfg, &ContentEvent::Release, &p);
    assert_eq!(out.message, None);
    assert!(out.capture && out.redraw);
    assert_eq!(state.drag, None);
}

#[test]
fn moving_without_a_known_cursor_leaves_the_drag() {
    let mut state = TabBarContentState::new(vec![(None, None); 2]);
    state.drag = Some(DragState { tab_index: 0, is_dragging: false });
    let mut p = pointer_over(2, None);
    p.position_known = false;
    let out = state.update(&config(2, 0), &ContentEvent::Move { past_threshold: true }, &p);
    assert!(!out.drag_activated && !out.capture);
    assert_eq!(state.drag, Some(DragState { tab_index: 0, is_dragging: false }));
}
