use oom_edit::keymap::TabAction;
use oom_edit::tabs::{TabActionOutcome, TabView, Tabs};

fn tabs_with(count: usize) -> Tabs {
    let mut tabs = Tabs::new();
    for _ in 1..count {
        tabs.open();
    }
    tabs
}

#[test]
fn a_new_stack_has_one_tab_at_the_top() {
    let tabs = Tabs::new();
    assert_eq!(tabs.tab_count(), 1);
    assert_eq!(tabs.active(), 0);
    assert!(!tabs.has_multiple_tabs());
    assert_eq!(tabs.active_view(), Some(TabView::new()));
}

#[test]
fn opening_a_tab_activates_it() {
    let mut tabs = Tabs::new();
    assert_eq!(tabs.open(), 1);
    assert_eq!(tabs.active(), 1);
    assert!(tabs.has_multiple_tabs());
}

#[test]
fn next_and_prev_wrap_and_undo_each_other() {
    let mut tabs = tabs_with(3);
    tabs.jump_to(1);
    assert!(tabs.prev());
    assert_eq!(tabs.active(), 2);
    assert!(tabs.next());
    assert_eq!(tabs.active(), 0);
    for start in 1..=3 {
        tabs.jump_to(start);
        let before = tabs.active();
        tabs.next();
        tabs.prev();
        assert_eq!(tabs.active(), before);
    }
    let mut single = Tabs::new();
    assert!(!single.next());
    assert!(!single.prev());
}

#[test]
fn test_space_digit_jumps_to_correct_tab() {
    let mut tabs = tabs_with(3);
    assert_eq!(tabs.execute_tab_action(TabAction::Jump(2)), TabActionOutcome::Switched);
    assert_eq!(tabs.active(), 1);
}

#[test]
fn test_space_digit_noop_when_tab_missing() {
    let mut tabs = tabs_with(2);
    tabs.jump_to(1);
    assert_eq!(
        tabs.execute_tab_action(TabAction::Jump(5)),
        TabActionOutcome::Missing("No tab 5".to_string())
    );
    assert_eq!(tabs.active(), 0);
}

#[test]
fn test_space_9_works() {
    let mut tabs = tabs_with(9);
    tabs.jump_to(1);
    assert_eq!(tabs.execute_tab_action(TabAction::Jump(9)), TabActionOutcome::Switched);
    assert_eq!(tabs.active(), 8);
}

#[test]
fn tab_actions_on_a_single_tab_change_nothing() {
    let mut tabs = Tabs::new();
    assert_eq!(tabs.execute_tab_action(TabAction::Next), TabActionOutcome::Unchanged);
    assert_eq!(tabs.execute_tab_action(TabAction::Prev), TabActionOutcome::Unchanged);
}

#[test]
fn closing_keeps_the_same_tab_active_where_it_can() {
    let mut tabs = tabs_with(4);
    tabs.jump_to(3);
    assert!(!tabs.close(0));
    assert_eq!(tabs.active(), 1);
    assert!(!tabs.close(2));
    assert_eq!(tabs.active(), 1);
    assert!(!tabs.close(1));
    assert_eq!(tabs.active(), 0);
    assert!(tabs.close(0));
    assert_eq!(tabs.tab_count(), 0);
    assert_eq!(tabs.active_view(), None);
}

#[test]
fn closing_the_last_active_tab_activates_the_new_last() {
    let mut tabs = tabs_with(3);
    assert_eq!(tabs.active(), 2);
    tabs.close(2);
    assert_eq!(tabs.active(), 1);
}

#[test]
fn moving_the_top_line_drops_skipped_rows() {
    let mut view = TabView { top_line: 4, left_col: 2, skip_rows: 3, rendered_top: 9 };
    view.set_top_line(4);
    assert_eq!(view.skip_rows, 3);
    view.set_top_line(5);
    assert_eq!(view, TabView { top_line: 5, left_col: 2, skip_rows: 0, rendered_top: 9 });
    view.apply_source_scroll((7, 2, 1));
    assert_eq!(view, TabView { top_line: 7, left_col: 1, skip_rows: 2, rendered_top: 9 });
}

#[test]
fn replacing_a_session_resets_rendered_scroll_to_the_canonical_top() {
    let mut tabs = tabs_with(2);
    tabs.set_active_view(TabView { top_line: 3, left_col: 1, skip_rows: 1, rendered_top: 8 });
    tabs.reset_view(1);
    assert_eq!(tabs.active_view(), Some(TabView::new()));
}
