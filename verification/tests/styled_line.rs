use oom_edit::styled_line::{
    cells_total, char_cells, checked_cursor_line, checked_highlighted_line, checked_interval_highlight, crop_line,
    cursor_line, display_total, highlighted_line, interval_highlight, spaces, Segment, SegmentStyle,
};
use ratatui::text::Line;

fn texts(parts: &[&str]) -> Vec<String> {
    parts.iter().map(|part| part.to_string()).collect()
}

fn joined(segments: &[Segment]) -> String {
    segments.iter().map(|segment| segment.text.as_str()).collect()
}

fn width(segments: &[Segment]) -> usize {
    Line::from(joined(segments)).width()
}

fn seg(text: &str, style: SegmentStyle) -> Segment {
    Segment { text: text.to_string(), style }
}

#[test]
fn display_cell_crop_preserves_styles_and_never_draws_half_a_wide_glyph() {
    let line = texts(&["ab", "東京", "e\u{301}z"]);
    let cropped = crop_line(&line, 3, 4);
    let text = joined(&cropped);
    assert_eq!(text, " 京e\u{301}");
    assert_eq!(width(&cropped), 4);
    assert!(!text.contains('東'));
    assert_eq!(cropped[1].style, SegmentStyle::Span(1));
    assert_eq!(cropped[2].style, SegmentStyle::Span(2));

    let right_clipped = crop_line(&texts(&["a東"]), 0, 2);
    assert_eq!(joined(&right_clipped), "a ");
}

#[test]
fn crop_preserves_every_composited_rendered_style_layer() {
    let line = texts(&["prefix", "x", "x", "x", "x", "x", "x"]);
    let cropped = crop_line(&line, 6, 6);
    let styles: Vec<SegmentStyle> = cropped.iter().map(|segment| segment.style).collect();
    let expected: Vec<SegmentStyle> = (1..=6).map(SegmentStyle::Span).collect();
    assert_eq!(styles, expected);
}

#[test]
fn crop_of_zero_width_is_empty() {
    assert!(crop_line(&texts(&["abc"]), 0, 0).is_empty());
}

#[test]
fn crop_cuts_a_wide_glyph_at_the_left_edge_into_spaces() {
    let cropped = crop_line(&texts(&["東x"]), 1, 5);
    assert_eq!(cropped, vec![seg(" ", SegmentStyle::Span(0)), seg("x", SegmentStyle::Span(0))]);
}

#[test]
fn highlighted_row_preserves_semantic_foregrounds() {
    let line = highlighted_line(&texts(&["em", " text"]), 12);
    assert_eq!(width(&line), 12);
    assert_eq!(line[0].style, SegmentStyle::Carried(0));
    assert_eq!(
        line,
        vec![
            seg("em", SegmentStyle::Carried(0)),
            seg(" text", SegmentStyle::Carried(1)),
            seg("     ", SegmentStyle::Carrier),
        ]
    );
}

#[test]
fn highlighted_row_wider_than_width_gets_no_padding() {
    let line = highlighted_line(&texts(&["東京東京"]), 4);
    assert_eq!(line, vec![seg("東京東京", SegmentStyle::Carried(0))]);
    assert_eq!(cells_total(&texts(&["東京", "ab"])), Some(6));
    assert_eq!(checked_highlighted_line(&texts(&["ab"]), 3), Some(vec![
        seg("ab", SegmentStyle::Carried(0)),
        seg(" ", SegmentStyle::Carrier),
    ]));
}

#[test]
fn wide_character_selection_never_splits_a_display_atom() {
    let line = interval_highlight(&texts(&["東京"]), 1, 2);
    assert_eq!(line[0].text, "東");
    assert_eq!(Line::from(line[0].text.as_str()).width(), 2);
    assert_eq!(line[0].style, SegmentStyle::Carried(0));
    assert_eq!(line[1].style, SegmentStyle::Span(0));
}

#[test]
fn interval_highlight_keeps_combining_marks_with_their_base() {
    let line = interval_highlight(&texts(&["ae\u{301}b"]), 1, 2);
    assert_eq!(
        line,
        vec![
            seg("a", SegmentStyle::Span(0)),
            seg("e\u{301}", SegmentStyle::Carried(0)),
            seg("b", SegmentStyle::Span(0)),
        ]
    );
}

#[test]
fn interval_highlight_pads_past_the_end_of_the_line() {
    let line = interval_highlight(&texts(&["ab"]), 4, 6);
    assert_eq!(
        line,
        vec![
            seg("a", SegmentStyle::Span(0)),
            seg("b", SegmentStyle::Span(0)),
            seg("  ", SegmentStyle::Plain),
            seg("  ", SegmentStyle::Carrier),
        ]
    );
    let overlapping = checked_interval_highlight(&texts(&["ab"]), 1, 4).unwrap();
    assert_eq!(
        overlapping,
        vec![
            seg("a", SegmentStyle::Span(0)),
            seg("b", SegmentStyle::Carried(0)),
            seg("  ", SegmentStyle::Carrier),
        ]
    );
    assert_eq!(char_cells(&texts(&["ab", "東"])), Some(4));
}

#[test]
fn cursor_line_width_matches_terminal() {
    let line = cursor_line(&texts(&["cursor line"]), 120);
    assert_eq!(width(&line), 120);
}

#[test]
fn cursor_line_preserves_semantic_spans() {
    let line = cursor_line(&texts(&["e", "m", " ", "c", "o", "d", "e"]), 12);
    assert!(line.len() > 2);
    assert_eq!(line[0].style, SegmentStyle::Carried(0));
    assert_eq!(line[3].style, SegmentStyle::Carried(3));
    assert_ne!(line[0].style, line[3].style);
    assert!(line
        .iter()
        .all(|segment| matches!(segment.style, SegmentStyle::Carried(_) | SegmentStyle::Carrier)));
    assert_eq!(line.last().unwrap(), &seg("     ", SegmentStyle::Carrier));
}

#[test]
fn cursor_line_applies_selection_modifier_at_every_tier() {
    let line = cursor_line(&texts(&["em"]), 4);
    assert!(line
        .iter()
        .all(|segment| matches!(segment.style, SegmentStyle::Carried(_) | SegmentStyle::Carrier)));
    assert_eq!(display_total(&texts(&["em", "東"])), Some(4));
    assert_eq!(checked_cursor_line(&texts(&["em"]), 2), Some(vec![seg("em", SegmentStyle::Carried(0))]));
}

#[test]
fn spaces_makes_blank_runs() {
    assert_eq!(spaces(0), "");
    assert_eq!(spaces(3), "   ");
}

#[test]
fn interval_highlight_keeps_the_line_text() {
    let line = texts(&["東京", "e\u{301}z", " ok"]);
    let highlighted = interval_highlight(&line, 3, 12);
    let groups = 2 + 2 + 3;
    assert_eq!(joined(&highlighted[..groups]), "東京e\u{301}z ok");
    for segment in &highlighted[groups..] {
        assert!(segment.text.chars().all(|c| c == ' '));
        assert!(matches!(segment.style, SegmentStyle::Plain | SegmentStyle::Carrier));
    }
    assert_eq!(highlighted[groups..].len(), 1);
    assert_eq!(highlighted[groups].text, "   ");
}
