use oom_edit::scroll::{
    body_height, rendered_scroll_top, scroll_down_top, scroll_up_top, source_scroll_position,
    SourceScrollInput,
};
use oom_edit::layout::{frame_layout, Rect};
use oom_edit::scroll::FollowState;

fn input(cursor_line: usize, cursor_col: usize, line_count: usize, wrap: bool, height: usize, width: usize) -> SourceScrollInput {
    SourceScrollInput {
        top_line: 0,
        left_col: 0,
        skip_rows: 0,
        cursor_line,
        cursor_col,
        line_count,
        wrap,
        viewport_height: height,
        viewport_width: width,
        cursor_visual_row: 0,
        cursor_line_height: 1,
    }
}

#[test]
fn body_height_reserves_status_and_tab_bar_rows() {
    assert_eq!(body_height(24, false), 23);
    assert_eq!(body_height(24, true), 22);
    assert_eq!(body_height(1, true), 0);
    assert_eq!(body_height(0, false), 0);
}

#[test]
fn rendered_top_keeps_cursor_in_the_middle_third() {
    assert_eq!(rendered_scroll_top(5, 0, 100, 7), 0);
    assert_eq!(rendered_scroll_top(5, 9, 0, 7), 0);
    assert_eq!(rendered_scroll_top(2, 9, 100, 40), 0);
    assert_eq!(rendered_scroll_top(99, 9, 100, 0), 91);
    assert_eq!(rendered_scroll_top(50, 9, 100, 60), 47);
    assert_eq!(rendered_scroll_top(50, 9, 100, 10), 44);
    assert_eq!(rendered_scroll_top(50, 9, 100, 46), 46);
    assert_eq!(rendered_scroll_top(500, 9, 100, 0), 91);
}

#[test]
fn rendered_top_always_shows_the_cursor() {
    for layout in [1usize, 3, 10, 40] {
        for height in [1usize, 2, 5, 9, 24] {
            for cursor in 0..layout + 3 {
                for current in [0usize, 1, 7, 50] {
                    let top = rendered_scroll_top(cursor, height, layout, current);
                    let cursor = cursor.min(layout - 1);
                    assert!(top <= cursor && cursor < top + height, "{cursor} {height} {layout} {current} -> {top}");
                }
            }
        }
    }
}

#[test]
fn app_scroll_follow_basic() {
    let position = source_scroll_position(input(50, 0, 100, false, 22, 76), &vec![]);
    assert!(position.0 > 0, "top_line should have scrolled down");
    assert_eq!(position, (32, 0, 0));
}

#[test]
fn scroll_follow_horizontal_scrolloff_margin() {
    let position = source_scroll_position(input(0, 99, 1, false, 22, 20), &vec![]);
    assert_eq!(position.2, 85);
    let back = source_scroll_position(
        SourceScrollInput { left_col: 85, cursor_col: 0, ..input(0, 0, 1, false, 22, 20) },
        &vec![],
    );
    assert_eq!(back.2, 0);
}

#[test]
fn scroll_follow_wrap_visual_row_awareness() {
    // A 45-character first line at width 10 takes five rows; the second
    // line no longer fits in four rows beneath it.
    let position = source_scroll_position(
        SourceScrollInput { cursor_visual_row: 0, cursor_line_height: 1, ..input(1, 0, 2, true, 4, 10) },
        &vec![5],
    );
    assert_eq!(position.0, 1, "the wrapped first line no longer fits");
}

#[test]
fn scroll_follow_wrap_upward_crossing_uses_top_margin() {
    let rows = vec![1; 30];
    let position = source_scroll_position(
        SourceScrollInput { top_line: 10, ..input(9, 0, 30, true, 10, 20) },
        &rows,
    );
    assert_eq!(position.0, 6);
}

#[test]
fn scroll_follow_wrap_skip_rows_for_tall_line() {
    let position = source_scroll_position(
        SourceScrollInput { cursor_visual_row: 9, cursor_line_height: 10, ..input(0, 99, 1, true, 5, 10) },
        &vec![],
    );
    assert_eq!(position, (0, 7, 0));
    assert_eq!(9 - position.1, 2);
}

#[test]
fn scroll_follow_skip_rows_resets_on_line_change() {
    let position = source_scroll_position(
        SourceScrollInput { skip_rows: 7, cursor_visual_row: 0, cursor_line_height: 1, ..input(1, 0, 2, true, 5, 10) },
        &vec![10],
    );
    assert_eq!(position, (1, 0, 0));
}

#[test]
fn empty_viewport_keeps_the_top_line() {
    let position = source_scroll_position(
        SourceScrollInput { top_line: 4, left_col: 3, ..input(9, 9, 20, false, 0, 10) },
        &vec![],
    );
    assert_eq!(position, (4, 0, 3));
    let wrapped = source_scroll_position(SourceScrollInput { top_line: 4, ..input(9, 9, 20, true, 10, 0) }, &vec![]);
    assert_eq!(wrapped, (9, 0, 0));
}

#[test]
fn wheel_scrolling_clamps_both_ways() {
    assert_eq!(scroll_up_top(2, 3), 0);
    assert_eq!(scroll_up_top(10, 3), 7);
    assert_eq!(scroll_down_top(0, 3, 100, 22), 3);
    assert_eq!(scroll_down_top(77, 3, 100, 22), 78);
    assert_eq!(scroll_down_top(0, 3, 10, 22), 0);
}

#[test]
fn frame_layout_stacks_tab_bar_body_and_status() {
    let single = frame_layout(Rect::new(0, 0, 80, 24), false);
    assert_eq!(single.tab_bar, None);
    assert_eq!(single.body, Rect::new(0, 0, 80, 23));
    assert_eq!(single.status, Rect::new(0, 23, 80, 1));
    let tabs = frame_layout(Rect::new(2, 1, 80, 24), true);
    assert_eq!(tabs.tab_bar, Some(Rect::new(2, 1, 80, 1)));
    assert_eq!(tabs.body, Rect::new(2, 2, 80, 22));
    assert_eq!(tabs.status, Rect::new(2, 24, 80, 1));
}

#[test]
fn app_navigation_follows_once_per_frame() {
    let mut follow = FollowState::new();
    assert!(follow.on_paint((22, 76)));
    assert!(!follow.on_paint((22, 76)));
    follow.request();
    follow.request();
    follow.request();
    assert!(follow.on_paint((22, 76)));
    assert!(!follow.on_paint((22, 76)));
    assert!(follow.on_paint((10, 76)), "a size change follows");
    follow.followed_at((12, 40));
    assert!(!follow.on_paint((12, 40)));
}
