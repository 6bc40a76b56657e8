use picker::Picker;
use picker::PickerDelegate;
use picker::ScrollHandle;
use picker::SimpleDelegate;

#[test]
fn empty_match_set_navigation_is_a_no_op() {
    let mut p = Picker::new(SimpleDelegate::new(0));
    p.select_next();
    p.select_prev();
    p.select_first();
    p.select_last();
    assert_eq!(p.delegate.selected, 0);
    assert_eq!(p.delegate.count, 0);
    assert_eq!(p.scroll_handle.requests.len(), 0);
    assert!(p.pending_update_matches.is_none());
    assert_eq!(p.notify_count, 0);
}

#[test]
fn empty_match_set_select_prev_emits_no_scroll() {
    let mut p = Picker::new(SimpleDelegate::new(0));
    p.select_prev();
    assert_eq!(p.delegate.selected, 0);
    assert_eq!(p.scroll_handle.requests.len(), 0);
}

#[test]
fn select_next_steps_and_clamps() {
    let mut p = Picker::new(SimpleDelegate::new(3));
    p.delegate.set_selected_index(0);
    p.select_next();
    assert_eq!(p.delegate.selected, 1);
    p.select_next();
    assert_eq!(p.delegate.selected, 2);
    p.select_next();
    assert_eq!(p.delegate.selected, 2);
    assert_eq!(p.scroll_handle.requests, vec![1, 2, 2]);
}

#[test]
fn select_prev_steps_and_saturates_at_zero() {
    let mut p = Picker::new(SimpleDelegate::new(3));
    p.delegate.set_selected_index(1);
    p.select_prev();
    assert_eq!(p.delegate.selected, 0);
    p.select_prev();
    assert_eq!(p.delegate.selected, 0);
    assert_eq!(p.scroll_handle.requests, vec![0, 0]);
}

#[test]
fn select_first_and_last_jump_to_the_ends() {
    let mut p = Picker::new(SimpleDelegate::new(4));
    p.delegate.set_selected_index(2);
    p.select_first();
    assert_eq!(p.delegate.selected, 0);
    p.select_last();
    assert_eq!(p.delegate.selected, 3);
    assert_eq!(p.scroll_handle.requests, vec![0, 3]);
}

#[test]
fn single_match_navigation_stays_on_it() {
    let mut p = Picker::new(SimpleDelegate::new(1));
    p.select_next();
    assert_eq!(p.delegate.selected, 0);
    p.select_prev();
    assert_eq!(p.delegate.selected, 0);
    p.select_last();
    assert_eq!(p.delegate.selected, 0);
    assert_eq!(p.scroll_handle.requests, vec![0, 0, 0]);
}

#[test]
fn confirm_forwards_exactly_one_primary_confirmation() {
    let mut p = Picker::new(SimpleDelegate::new(2));
    p.confirm();
    assert_eq!(p.delegate.confirm_log, vec![false]);
    assert_eq!(p.delegate.dismiss_log.len(), 0);
}

#[test]
fn secondary_confirm_forwards_the_secondary_flag() {
    let mut p = Picker::new(SimpleDelegate::new(2));
    p.secondary_confirm();
    assert_eq!(p.delegate.confirm_log, vec![true]);
    p.confirm();
    p.secondary_confirm();
    assert_eq!(p.delegate.confirm_log, vec![true, false, true]);
}

#[test]
fn cancel_forwards_exactly_one_dismissal() {
    let mut p = Picker::new(SimpleDelegate::new(2));
    p.cancel();
    assert_eq!(p.delegate.dismiss_log.len(), 1);
    assert_eq!(p.delegate.confirm_log.len(), 0);
    p.cancel();
    assert_eq!(p.delegate.dismiss_log.len(), 2);
}

#[test]
fn query_change_refreshes_once_synchronously_and_once_on_resolution() {
    let mut p = Picker::new(SimpleDelegate::new(3));
    p.update_matches("ab".to_string());
    // Synchronous refresh: one scroll request, one re-render, task tracked.
    assert_eq!(p.notify_count, 1);
    assert_eq!(p.scroll_handle.requests.len(), 1);
    assert!(p.pending_update_matches.is_some());
    assert_eq!(p.delegate.query_log, vec!["ab".to_string()]);
    // The task resolves while the picker is live: exactly one more refresh.
    p.matches_updated();
    assert_eq!(p.notify_count, 2);
    assert_eq!(p.scroll_handle.requests.len(), 2);
    assert!(p.pending_update_matches.is_none());
    assert_eq!(p.delegate.query_log.len(), 1);
}

#[test]
fn overlapping_query_changes_both_resolve_cleanly() {
    let mut p = Picker::new(SimpleDelegate::new(5));
    p.delegate.set_selected_index(4);
    p.update_matches("abc".to_string());
    // Second change arrives before the first task resolves.
    p.update_matches("a".to_string());
    assert_eq!(p.delegate.query_log, vec!["abc".to_string(), "a".to_string()]);
    assert!(p.pending_update_matches.is_some());
    assert_eq!(p.notify_count, 2);
    // Both tasks resolve, in either order; each still triggers a refresh.
    p.matches_updated();
    p.matches_updated();
    assert_eq!(p.notify_count, 4);
    assert!(p.pending_update_matches.is_none());
    // The delegate settled on the last query's match set, cursor in range.
    assert_eq!(p.delegate.count, 1);
    assert_eq!(p.delegate.selected, 0);
    assert_eq!(p.scroll_handle.requests.len(), 4);
}

#[test]
fn navigation_scenario_with_five_matches() {
    let mut p = Picker::new(SimpleDelegate::new(5));
    p.delegate.set_selected_index(2);
    p.select_next();
    assert_eq!(p.delegate.selected, 3);
    assert_eq!(p.scroll_handle.requests.last(), Some(&3));
    p.select_last();
    assert_eq!(p.delegate.selected, 4);
    assert_eq!(p.scroll_handle.requests.last(), Some(&4));
    p.select_next();
    assert_eq!(p.delegate.selected, 4);
    assert_eq!(p.scroll_handle.requests, vec![3, 4, 4]);
}

#[test]
fn update_matches_scrolls_to_the_post_update_selection() {
    let mut p = Picker::new(SimpleDelegate::new(9));
    p.delegate.set_selected_index(8);
    // The stand-in delegate shrinks to 2 matches and clamps its cursor; the
    // synchronous refresh must scroll to the clamped index, not the stale one.
    p.update_matches("ab".to_string());
    assert_eq!(p.delegate.count, 2);
    assert_eq!(p.delegate.selected, 1);
    assert_eq!(p.scroll_handle.requests, vec![1]);
}

#[test]
fn render_visible_flags_only_the_selected_row() {
    let mut p = Picker::new(SimpleDelegate::new(4));
    p.delegate.set_selected_index(1);
    let rows = p.render_visible(1, 4);
    assert_eq!(rows, vec![(1, true), (2, false), (3, false)]);
    let all = p.render_visible(0, 4);
    assert_eq!(all, vec![(0, false), (1, true), (2, false), (3, false)]);
    let none = p.render_visible(2, 2);
    assert_eq!(none.len(), 0);
}

#[test]
fn scroll_handle_records_requests_in_order() {
    let mut h = ScrollHandle::new();
    assert_eq!(h.request_count(), 0);
    assert_eq!(h.last_request(), None);
    h.scroll_to_item(7);
    h.scroll_to_item(0);
    assert_eq!(h.request_count(), 2);
    assert_eq!(h.last_request(), Some(0));
    assert_eq!(h.requests, vec![7, 0]);
}

#[test]
fn simple_delegate_reads_match_its_state() {
    let mut d = SimpleDelegate::new(6);
    assert_eq!(d.match_count(), 6);
    assert_eq!(d.selected_index(), 0);
    d.set_selected_index(5);
    assert_eq!(d.selected_index(), 5);
    assert_eq!(d.render_match(5, true), (5, true));
    assert_eq!(d.render_match(2, false), (2, false));
}
