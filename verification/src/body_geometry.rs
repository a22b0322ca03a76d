//! Where the document body's parts go on screen: the line-number gutter,
//! the text area, the rendered rows in view, and the terminal cursor.
//!
//! The editing session measures the document (its line count, its rendered
//! layout, the cursor); these functions take those measures as plain values.

use vstd::prelude::*;
use crate::layout::{max, min, sat_sub, Rect};
use crate::text::{chars_of, line_width, spec_line_width, string_from_chars};

verus! {

/// The narrowest gutter the source screen reserves.
pub const MIN_SOURCE_GUTTER: u16 = 4;

/// The source screen's split of the body: the gutter, when it fits beside
/// some text, and the text area to its right.
#[derive(Debug, Clone, Copy, PartialEq, Eq, Structural)]
pub struct SourceBody {
    pub gutter: Option<Rect>,
    pub text: Rect,
}

/// Cells the source gutter takes in a body `area_width` wide, for a gutter
/// that wants `gutter_cells`: at least four, never more than the body.
pub open spec fn spec_source_gutter_width(area_width: u16, gutter_cells: usize) -> int {
    min(max((gutter_cells as u16) as int, MIN_SOURCE_GUTTER as int), area_width as int)
}

/// The source screen's text width once the gutter is reserved.
pub fn source_text_width(area_width: u16, gutter_cells: usize) -> (r: u16)
    ensures
        r == area_width - spec_source_gutter_width(area_width, gutter_cells),
{
    let wanted = gutter_cells as u16;
    let gutter = if wanted > MIN_SOURCE_GUTTER { wanted } else { MIN_SOURCE_GUTTER };
    let gutter = if gutter < area_width { gutter } else { area_width };
    area_width - gutter
}

/// Split the source screen's body into gutter and text. The gutter is drawn
/// only when some text column is left beside it.
pub fn source_body(area: Rect, gutter_cells: usize) -> (r: SourceBody)
    requires
        area.spec_right() <= u16::MAX,
    ensures
        ({
            let g = spec_source_gutter_width(area.width, gutter_cells);
            &&& r.gutter == (if 0 < g && g < area.width {
                Some(Rect { x: area.x, y: area.y, width: g as u16, height: area.height })
            } else {
                None
            })
            &&& r.text == Rect { x: (area.x + g) as u16, y: area.y, width: (area.width - g) as u16, height: area.height }
        }),
{
    let text_width = source_text_width(area.width, gutter_cells);
    let g = area.width - text_width;
    let gutter = if 0 < g && g < area.width {
        Some(Rect { x: area.x, y: area.y, width: g, height: area.height })
    } else {
        None
    };
    SourceBody { gutter, text: Rect { x: area.x + g, y: area.y, width: text_width, height: area.height } }
}

/// Display column of the source cursor: the width of the first
/// `cursor_col` characters of its line (zero when the frame holds no such
/// line), as a cell count.
pub fn source_cursor_column(cursor_line: Option<&str>, cursor_col: u16) -> (r: u16)
    ensures
        cursor_line is None ==> r == 0,
        cursor_line matches Some(t) ==> r == (spec_line_width(t@.take(min(cursor_col as int, t@.len() as int))) as u16),
{
    match cursor_line {
        None => 0,
        Some(text) => {
            let chars = chars_of(text);
            let n: usize = if (cursor_col as usize) < chars.len() { cursor_col as usize } else { chars.len() };
            let mut prefix: Vec<char> = Vec::new();
            let mut i: usize = 0;
            while i < n
                invariant
                    n <= chars@.len(),
                    i <= n,
                    prefix@ == chars@.take(i as int),
                decreases n - i,
            {
                prefix.push(chars[i]);
                proof {
                    assert(chars@.take(i + 1) =~= chars@.take(i as int).push(chars@[i as int]));
                }
                i = i + 1;
            }
            let prefix = string_from_chars(&prefix);
            line_width(prefix.as_str()) as u16
        },
    }
}

/// Where the source screen puts the terminal cursor: `display_col` cells
/// into the text area, on the cursor's frame row but never below the area's
/// last row.
pub fn source_cursor_position(text_area: Rect, cursor_row: u16, display_col: u16) -> (r: (u16, u16))
    requires
        text_area.spec_bottom() <= u16::MAX,
        text_area.y + cursor_row <= u16::MAX,
        text_area.x + display_col <= u16::MAX,
    ensures
        r.0 == text_area.x + display_col,
        r.1 == min(text_area.y + cursor_row, text_area.y + sat_sub(text_area.height as int, 1)),
{
    let last = text_area.y + text_area.height.saturating_sub(1);
    let row = text_area.y + cursor_row;
    let row = if row < last { row } else { last };
    (text_area.x + display_col, row)
}

/// The rendered screen's column budget for one frame.
#[derive(Debug, Clone, Copy, PartialEq, Eq, Structural)]
pub struct RenderedColumns {
    /// Cells the gutter takes, never more than the body.
    pub gutter_width: u16,
    /// Cells left for text.
    pub text_width: u16,
    /// Width of full-row surfaces: the scrolled-past columns and the
    /// visible ones, capped at the largest cell count.
    pub surface_width: u16,
    /// The width the rendered layout wraps at.
    pub layout_width: u16,
}

/// Split the rendered screen's body width: the gutter (as wide as it asks,
/// up to the body), the text beside it, the surface width for a view
/// scrolled `viewport_left` columns, and the wrap width.
pub fn rendered_columns(area_width: u16, gutter_cells: usize, viewport_left: usize, wrap_width: u16) -> (r: RenderedColumns)
    ensures
        r.gutter_width == min((gutter_cells as u16) as int, area_width as int),
        r.text_width == area_width - r.gutter_width,
        r.surface_width == min(viewport_left + r.text_width, u16::MAX as int),
        r.layout_width == min(r.text_width as int, wrap_width as int),
{
    let wanted = gutter_cells as u16;
    let gutter_width = if wanted < area_width { wanted } else { area_width };
    let text_width = area_width - gutter_width;
    let surface_width: u16 = if viewport_left >= (u16::MAX as usize) - (text_width as usize) {
        u16::MAX
    } else {
        (viewport_left + text_width as usize) as u16
    };
    let layout_width = if text_width < wrap_width { text_width } else { wrap_width };
    RenderedColumns { gutter_width, text_width, surface_width, layout_width }
}

/// The rendered rows in view, as a half-open range: the view's first row,
/// kept on the layout, and as many rows as the body holds (at least one).
pub fn rendered_rows(viewport_top: usize, area_height: u16, line_count: usize) -> (r: (usize, usize))
    requires
        0 < line_count <= isize::MAX,
    ensures
        r.0 == min(viewport_top as int, line_count - 1),
        r.1 == min(r.0 + max(area_height as int, 1), line_count as int),
        r.0 < r.1 <= line_count,
{
    let height: usize = if area_height > 1 { area_height as usize } else { 1 };
    let top = if viewport_top < line_count - 1 { viewport_top } else { line_count - 1 };
    let bottom = if top + height < line_count { top + height } else { line_count };
    (top, bottom)
}

/// Where the rendered screen places the terminal cursor, if anywhere: only
/// when the screen owns the cursor, the text area is not empty, and the
/// cursor's row is among the rows in view and its column among the columns
/// in view.
pub fn rendered_cursor_position(
    cursor_visible: bool,
    text_area: Rect,
    cursor_row: usize,
    cursor_column: usize,
    rows: (usize, usize),
    viewport_left: usize,
) -> (r: Option<(u16, u16)>)
    requires
        text_area.spec_right() <= u16::MAX,
        text_area.spec_bottom() <= u16::MAX,
        rows.0 <= rows.1,
        rows.1 - rows.0 <= text_area.height,
    ensures
        ({
            let shown = cursor_visible && text_area.width > 0 && text_area.height > 0
                && rows.0 <= cursor_row < rows.1
                && viewport_left <= cursor_column
                && cursor_column < min(viewport_left + text_area.width, usize::MAX as int);
            &&& shown ==> r == Some(((text_area.x + (cursor_column - viewport_left)) as u16, (text_area.y + (cursor_row - rows.0)) as u16))
            &&& !shown ==> r is None
        }),
        r matches Some(p) ==> text_area.x <= p.0 < text_area.spec_right() && text_area.y <= p.1 < text_area.spec_bottom(),
{
    let row_visible = rows.0 <= cursor_row && cursor_row < rows.1;
    let column_visible = viewport_left <= cursor_column
        && (cursor_column - viewport_left) < text_area.width as usize
        && cursor_column < usize::MAX;
    if cursor_visible && text_area.width > 0 && text_area.height > 0 && row_visible && column_visible {
        let row = text_area.y + (cursor_row - rows.0) as u16;
        let column = text_area.x + (cursor_column - viewport_left) as u16;
        Some((column, row))
    } else {
        None
    }
}

} // verus!
