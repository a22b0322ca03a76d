use oom_edit::body_geometry::{
    rendered_columns, rendered_cursor_position, rendered_rows, source_body, source_cursor_column,
    source_cursor_position, source_text_width, RenderedColumns,
};
use oom_edit::layout::Rect;

#[test]
fn source_gutter_is_at_least_four_cells() {
    assert_eq!(source_text_width(80, 2), 76);
    assert_eq!(source_text_width(80, 6), 74);
    assert_eq!(source_text_width(3, 2), 0);
}

#[test]
fn source_body_splits_gutter_and_text() {
    let body = source_body(Rect::new(2, 1, 40, 10), 5);
    assert_eq!(body.gutter, Some(Rect::new(2, 1, 5, 10)));
    assert_eq!(body.text, Rect::new(7, 1, 35, 10));
}

#[test]
fn source_body_drops_a_gutter_that_fills_the_body() {
    let body = source_body(Rect::new(0, 0, 4, 3), 2);
    assert_eq!(body.gutter, None);
    assert_eq!(body.text, Rect::new(4, 0, 0, 3));
}

#[test]
fn source_cursor_column_measures_the_prefix() {
    assert_eq!(source_cursor_column(Some("東京abc"), 2), 4);
    assert_eq!(source_cursor_column(Some("ab"), 9), 2);
    assert_eq!(source_cursor_column(None, 3), 0);
}

#[test]
fn source_cursor_stays_on_the_last_row() {
    let text = Rect::new(5, 2, 20, 4);
    assert_eq!(source_cursor_position(text, 1, 3), (8, 3));
    assert_eq!(source_cursor_position(text, 9, 0), (5, 5));
}

#[test]
fn rendered_columns_split_the_body() {
    assert_eq!(
        rendered_columns(40, 5, 3, u16::MAX),
        RenderedColumns { gutter_width: 5, text_width: 35, surface_width: 38, layout_width: 35 }
    );
    assert_eq!(
        rendered_columns(40, 60, 0, 20),
        RenderedColumns { gutter_width: 40, text_width: 0, surface_width: 0, layout_width: 0 }
    );
    assert_eq!(rendered_columns(40, 0, usize::MAX, 10).surface_width, u16::MAX);
    assert_eq!(rendered_columns(40, 0, 0, 10).layout_width, 10);
}

#[test]
fn rendered_rows_keep_the_view_on_the_layout() {
    assert_eq!(rendered_rows(0, 10, 30), (0, 10));
    assert_eq!(rendered_rows(25, 10, 30), (25, 30));
    assert_eq!(rendered_rows(99, 10, 30), (29, 30));
    assert_eq!(rendered_rows(3, 0, 30), (3, 4));
}

#[test]
fn rendered_cursor_only_when_in_view() {
    let text = Rect::new(4, 1, 20, 10);
    assert_eq!(rendered_cursor_position(true, text, 12, 7, (10, 20), 2), Some((9, 3)));
    assert_eq!(rendered_cursor_position(false, text, 12, 7, (10, 20), 2), None);
    assert_eq!(rendered_cursor_position(true, text, 9, 7, (10, 20), 2), None);
    assert_eq!(rendered_cursor_position(true, text, 12, 1, (10, 20), 2), None);
    assert_eq!(rendered_cursor_position(true, text, 12, 22, (10, 20), 2), None);
    assert_eq!(rendered_cursor_position(true, Rect::new(4, 1, 0, 10), 12, 7, (10, 20), 2), None);
}
