//! Viewport arithmetic: body height, scroll-follow on the rendered and the
//! source surfaces, and wheel scrolling.
//!
//! Scroll-follow keeps the cursor row visible with `SCROLLOFF` lines of
//! context. On the wrapped source surface a line may take several visual
//! rows; the caller measures them and hands the counts in.

use vstd::prelude::*;

verus! {

/// Keep this many lines of context around the cursor.
pub const SCROLLOFF: usize = 3;

/// Horizontal context columns in no-wrap mode.
pub const HSCROLLOFF: usize = 5;

/// `a - b`, or zero.
pub open spec fn sat_sub(a: int, b: int) -> int {
    if a > b { a - b } else { 0 }
}

/// `a + b`, or the largest `usize` when that overflows.
pub open spec fn sat_add(a: int, b: int) -> int {
    if a + b > usize::MAX { usize::MAX as int } else { a + b }
}

/// The smaller of two integers.
pub open spec fn min(a: int, b: int) -> int {
    if a < b { a } else { b }
}

/// Rows left for the document body below the tab bar (shown with several
/// tabs) and above the status row.
pub fn body_height(total_height: u16, has_multiple_tabs: bool) -> (r: u16)
    ensures
        r == sat_sub(total_height as int, if has_multiple_tabs { 2 } else { 1 }),
{
    let tab_bar_height: u16 = if has_multiple_tabs { 1 } else { 0 };
    total_height.saturating_sub(tab_bar_height + 1)
}

/// The rendered-surface top row that keeps the cursor in the middle third
/// of the viewport when it can.
pub open spec fn spec_rendered_scroll_top(cursor: int, viewport_height: int, layout_height: int, current_top: int) -> int {
    if viewport_height == 0 || layout_height == 0 {
        0
    } else {
        let cursor = min(cursor, layout_height - 1);
        let max_top = sat_sub(layout_height, viewport_height);
        let center_start = viewport_height / 3;
        let center_end = 2 * viewport_height / 3;
        if cursor < center_start {
            0
        } else if cursor >= max_top + center_end {
            max_top
        } else if cursor < current_top + center_start {
            sat_sub(cursor, center_start)
        } else if cursor >= current_top + center_end {
            sat_sub(cursor, center_end)
        } else {
            min(current_top, max_top)
        }
    }
}

/// Scroll-follow on the rendered surface. Whatever the current top, the
/// (clamped) cursor row ends up inside the viewport.
pub fn rendered_scroll_top(cursor: usize, viewport_height: usize, layout_height: usize, current_top: usize) -> (r: usize)
    ensures
        r == spec_rendered_scroll_top(cursor as int, viewport_height as int, layout_height as int, current_top as int),
        viewport_height > 0 && layout_height > 0 ==> r <= min(cursor as int, layout_height - 1)
            < r + viewport_height,
{
    if viewport_height == 0 || layout_height == 0 {
        return 0;
    }
    let cursor = if cursor < layout_height - 1 { cursor } else { layout_height - 1 };
    let max_top = layout_height.saturating_sub(viewport_height);
    let center_start = viewport_height / 3;
    let center_end = (viewport_height / 3) * 2 + (viewport_height % 3) * 2 / 3;
    assert(center_end == 2 * viewport_height / 3) by (nonlinear_arith)
        requires
            center_end == (viewport_height / 3) * 2 + (viewport_height % 3) * 2 / 3,
            viewport_height > 0,
    ;
    if cursor < center_start {
        0
    } else if cursor >= center_end && cursor - center_end >= max_top {
        max_top
    } else if cursor - center_start < current_top {
        cursor - center_start
    } else if cursor >= center_end && cursor - center_end >= current_top {
        cursor - center_end
    } else {
        if current_top < max_top { current_top } else { max_top }
    }
}

/// What the source-surface scroll-follow needs to know of the active tab.
#[derive(Debug, Clone, Copy, PartialEq, Eq, Structural)]
pub struct SourceScrollInput {
    /// The tab's first visible line.
    pub top_line: usize,
    /// The tab's first visible column (no-wrap mode).
    pub left_col: usize,
    /// Visual rows of `top_line` scrolled past (wrap mode).
    pub skip_rows: usize,
    /// The cursor's line and column.
    pub cursor_line: usize,
    pub cursor_col: usize,
    /// Number of lines in the document.
    pub line_count: usize,
    /// Whether long lines wrap.
    pub wrap: bool,
    /// The viewport's size in rows and text columns.
    pub viewport_height: usize,
    pub viewport_width: usize,
    /// The cursor's visual row within its line, and that line's visual row
    /// count, at the viewport width (wrap mode).
    pub cursor_visual_row: usize,
    pub cursor_line_height: usize,
}

/// The sum of `rows[a..b]`.
pub open spec fn spec_rows_sum(rows: Seq<usize>, a: int, b: int) -> int
    decreases b - a,
{
    if b <= a {
        0
    } else {
        spec_rows_sum(rows, a, b - 1) + rows[b - 1]
    }
}

/// Walk the top line upward from `top` (the cursor's screen row being
/// `row`) while a previous line still fits above the bottom margin; when
/// `want` is given, stop as soon as the cursor has that much context above.
pub open spec fn spec_scan_up(rows: Seq<usize>, top: int, row: int, want: Option<int>, bottom: int) -> int
    decreases top,
{
    if top <= 0 {
        top
    } else if want is Some && row >= want->Some_0 {
        top
    } else if row + rows[top - 1] > bottom {
        top
    } else {
        spec_scan_up(rows, top - 1, row + rows[top - 1], want, bottom)
    }
}

/// The no-wrap position: (top line, skipped rows, left column).
pub open spec fn spec_nowrap_position(i: SourceScrollInput) -> (int, int, int) {
    let lc = i.line_count as int;
    let vh = i.viewport_height as int;
    let cl = i.cursor_line as int;
    let cc = i.cursor_col as int;
    let t0 = min(i.top_line as int, lc - 1);
    let t1 = if cl < sat_add(t0, SCROLLOFF as int) {
        sat_sub(cl, SCROLLOFF as int)
    } else if cl >= sat_add(t0, sat_sub(vh, SCROLLOFF as int)) {
        sat_sub(cl, sat_sub(vh, SCROLLOFF + 1))
    } else {
        t0
    };
    let t2 = if sat_add(t1, vh) > lc { sat_sub(lc, vh) } else { t1 };
    let top = min(t2, lc - 1);
    let w = i.viewport_width as int;
    let left = if w == 0 {
        0
    } else {
        let margin = min(HSCROLLOFF as int, (w - 1) / 2);
        if cc < sat_add(i.left_col as int, margin) {
            sat_sub(cc, margin)
        } else if cc > sat_add(i.left_col as int, w - (margin + 1)) {
            sat_sub(cc, w - (margin + 1))
        } else {
            i.left_col as int
        }
    };
    (top, 0, left)
}

/// The wrap-mode position: (top line, skipped rows, left column).
pub open spec fn spec_wrap_position(i: SourceScrollInput, rows: Seq<usize>) -> (int, int, int) {
    let lc = i.line_count as int;
    let vh = i.viewport_height as int;
    let cl = i.cursor_line as int;
    let scrolloff = min(SCROLLOFF as int, (vh - 1) / 2);
    let bottom = sat_sub(vh, scrolloff + 1);
    let t0 = min(i.top_line as int, lc - 1);
    let s0 = if cl == t0 { i.skip_rows as int } else { 0 };
    let t1 = if cl < t0 { cl } else { t0 };
    let s1 = if cl < t0 { 0 } else { s0 };
    let screen = sat_sub(min(i.cursor_visual_row + spec_rows_sum(rows, t1, cl), usize::MAX as int), s1);
    let (t2, s2) = if screen < scrolloff {
        (spec_scan_up(rows, cl, i.cursor_visual_row as int, Some(scrolloff), bottom), 0)
    } else if screen > bottom {
        (spec_scan_up(rows, cl, i.cursor_visual_row as int, None, bottom), 0)
    } else {
        (t1, s1)
    };
    let cvr = i.cursor_visual_row as int;
    let s3 = if t2 == cl && i.cursor_line_height > vh {
        let s = if cvr < s2 + scrolloff {
            sat_sub(cvr, scrolloff)
        } else if cvr > s2 + bottom {
            sat_sub(cvr, bottom)
        } else {
            s2
        };
        min(s, sat_sub(i.cursor_line_height as int, 1))
    } else {
        0
    };
    (t2, s3, 0)
}

/// The source-surface scroll position for a cursor.
pub open spec fn spec_source_scroll_position(i: SourceScrollInput, rows: Seq<usize>) -> (int, int, int) {
    if i.viewport_height == 0 || i.line_count == 0 {
        (i.top_line as int, 0, if i.wrap { 0 } else { i.left_col as int })
    } else if !i.wrap {
        spec_nowrap_position(i)
    } else if i.viewport_width == 0 {
        (i.cursor_line as int, 0, 0)
    } else {
        spec_wrap_position(i, rows)
    }
}

/// Walking the top line up only passes lines that fit: the lines passed
/// are at most the rows gained, which stay within `bottom`.
proof fn lemma_scan_up_bounded(rows: Seq<usize>, top: int, row: int, want: Option<int>, bottom: int)
    requires
        0 <= top <= rows.len(),
        forall|k: int| 0 <= k < top ==> rows[k] >= 1,
        row >= 0,
    ensures
        0 <= spec_scan_up(rows, top, row, want, bottom) <= top,
        spec_scan_up(rows, top, row, want, bottom) == top
            || top - spec_scan_up(rows, top, row, want, bottom) <= bottom - row,
    decreases top,
{
    if top <= 0 {
    } else if want is Some && row >= want->Some_0 {
    } else if row + rows[top - 1] > bottom {
    } else {
        lemma_scan_up_bounded(rows, top - 1, row + rows[top - 1], want, bottom);
    }
}

/// A sum of row counts that are each at least one is at least the number
/// of lines summed.
proof fn lemma_rows_sum_at_least_lines(rows: Seq<usize>, a: int, b: int)
    requires
        0 <= a,
        b <= rows.len(),
        forall|k: int| a <= k < b ==> rows[k] >= 1,
    ensures
        spec_rows_sum(rows, a, b) >= b - a,
    decreases b - a,
{
    if b > a {
        lemma_rows_sum_at_least_lines(rows, a, b - 1);
    }
}

/// With wrapping, scroll-follow keeps the cursor's line on screen: the top
/// line is at most the cursor's line and fewer than a viewport's height of
/// lines above it, nothing is scrolled sideways, and rows of a line are
/// skipped only when the cursor's own line is the top one. Every line is
/// at least one visual row high.
pub proof fn lemma_wrap_keeps_cursor_visible(i: SourceScrollInput, rows: Seq<usize>)
    requires
        i.wrap,
        i.viewport_height > 0,
        i.viewport_width > 0,
        i.line_count > 0,
        i.cursor_line <= rows.len(),
        forall|k: int| 0 <= k < i.cursor_line ==> rows[k] >= 1,
    ensures
        ({
            let p = spec_source_scroll_position(i, rows);
            &&& p.0 <= i.cursor_line < p.0 + i.viewport_height
            &&& p.2 == 0
            &&& p.1 > 0 ==> p.0 == i.cursor_line
        }),
{
    let lc = i.line_count as int;
    let vh = i.viewport_height as int;
    let cl = i.cursor_line as int;
    let scrolloff = min(SCROLLOFF as int, (vh - 1) / 2);
    let bottom = sat_sub(vh, scrolloff + 1);
    let t0 = min(i.top_line as int, lc - 1);
    let t1 = if cl < t0 { cl } else { t0 };
    let cvr = i.cursor_visual_row as int;
    lemma_scan_up_bounded(rows, cl, cvr, Some(scrolloff), bottom);
    lemma_scan_up_bounded(rows, cl, cvr, None, bottom);
    if 0 <= t1 {
        lemma_rows_sum_at_least_lines(rows, t1, cl);
    }
}

/// Without wrapping, scroll-follow keeps the cursor on screen both ways:
/// its line is among the viewport's lines (once the viewport is taller
/// than the scroll-off margin), no rows are skipped, and its column is
/// among the viewport's columns.
pub proof fn lemma_nowrap_keeps_cursor_visible(i: SourceScrollInput, rows: Seq<usize>)
    requires
        !i.wrap,
        i.viewport_height > SCROLLOFF,
        i.cursor_line < i.line_count,
    ensures
        ({
            let p = spec_source_scroll_position(i, rows);
            &&& p.0 <= i.cursor_line < p.0 + i.viewport_height
            &&& p.1 == 0
            &&& i.viewport_width > 0 ==> p.2 <= i.cursor_col < p.2 + i.viewport_width
        }),
{
}

/// `spec_scan_up` computed.
fn scan_up(rows: &Vec<usize>, top: usize, row: usize, want: Option<usize>, bottom: usize) -> (r: usize)
    requires
        top <= rows@.len(),
        row <= bottom,
    ensures
        r == spec_scan_up(rows@, top as int, row as int, match want { Some(w) => Some(w as int), None => None }, bottom as int),
{
    let ghost w = match want { Some(w) => Some(w as int), None => None };
    let ghost target = spec_scan_up(rows@, top as int, row as int, w, bottom as int);
    let mut top = top;
    let mut row = row;
    let mut done = false;
    while !done && top > 0
        invariant
            top <= rows@.len(),
            row <= bottom,
            w == (match want { Some(w) => Some(w as int), None => None }),
            spec_scan_up(rows@, top as int, row as int, w, bottom as int) == target,
            done ==> target == top,
        decreases 2 * top + (if done { 0int } else { 1int }),
    {
        let stop = match want {
            Some(limit) => row >= limit,
            None => false,
        };
        if stop || rows[top - 1] > bottom - row {
            done = true;
        } else {
            row = row + rows[top - 1];
            top = top - 1;
        }
    }
    top
}

/// Clamp `value` to at most `limit`.
fn min_usize(value: usize, limit: usize) -> (r: usize)
    ensures
        r == min(value as int, limit as int),
{
    if value < limit { value } else { limit }
}

/// The no-wrap scroll position.
fn nowrap_position(i: SourceScrollInput) -> (r: (usize, usize, usize))
    requires
        i.viewport_height > 0,
        i.line_count > 0,
    ensures
        (r.0 as int, r.1 as int, r.2 as int) == spec_nowrap_position(i),
        i.viewport_height > SCROLLOFF && i.cursor_line < i.line_count
            ==> r.0 <= i.cursor_line < r.0 + i.viewport_height,
        i.viewport_width > 0 ==> r.2 <= i.cursor_col < r.2 + i.viewport_width,
{
    let mut top_line = min_usize(i.top_line, i.line_count - 1);
    if i.cursor_line < top_line.saturating_add(SCROLLOFF) {
        top_line = i.cursor_line.saturating_sub(SCROLLOFF);
    } else if i.cursor_line >= top_line.saturating_add(i.viewport_height.saturating_sub(SCROLLOFF)) {
        top_line = i.cursor_line.saturating_sub(i.viewport_height.saturating_sub(SCROLLOFF + 1));
    }
    if top_line.saturating_add(i.viewport_height) > i.line_count {
        top_line = i.line_count.saturating_sub(i.viewport_height);
    }
    top_line = min_usize(top_line, i.line_count - 1);
    let mut left_col = i.left_col;
    if i.viewport_width == 0 {
        left_col = 0;
    } else {
        let margin = min_usize(HSCROLLOFF, (i.viewport_width - 1) / 2);
        if i.cursor_col < left_col.saturating_add(margin) {
            left_col = i.cursor_col.saturating_sub(margin);
        } else {
            let right_margin = i.viewport_width - (margin + 1);
            if i.cursor_col > left_col.saturating_add(right_margin) {
                left_col = i.cursor_col - right_margin;
            }
        }
    }
    (top_line, 0, left_col)
}

/// The wrap-mode scroll position.
fn wrap_position(i: SourceScrollInput, line_rows: &Vec<usize>) -> (r: (usize, usize, usize))
    requires
        i.viewport_height > 0,
        i.line_count > 0,
        i.viewport_width > 0,
        i.cursor_line <= line_rows@.len(),
    ensures
        (r.0 as int, r.1 as int, r.2 as int) == spec_wrap_position(i, line_rows@),
{
    let scrolloff = min_usize(SCROLLOFF, (i.viewport_height - 1) / 2);
    let bottom_target = i.viewport_height - (scrolloff + 1);
    let mut top_line = min_usize(i.top_line, i.line_count - 1);
    let mut skip_rows = if i.cursor_line == top_line { i.skip_rows } else { 0 };
    if i.cursor_line < top_line {
        top_line = i.cursor_line;
        skip_rows = 0;
    }
    let mut cursor_screen_row = i.cursor_visual_row;
    let mut line = top_line;
    while line < i.cursor_line
        invariant
            top_line <= line <= i.cursor_line <= line_rows@.len(),
            cursor_screen_row == min(i.cursor_visual_row + spec_rows_sum(line_rows@, top_line as int, line as int), usize::MAX as int),
        decreases i.cursor_line - line,
    {
        proof {
            assert(spec_rows_sum(line_rows@, top_line as int, line + 1) == spec_rows_sum(line_rows@, top_line as int, line as int) + line_rows@[line as int]);
        }
        cursor_screen_row = cursor_screen_row.saturating_add(line_rows[line]);
        line = line + 1;
    }
    cursor_screen_row = cursor_screen_row.saturating_sub(skip_rows);
    let ghost t1 = top_line;
    let ghost s1 = skip_rows;
    if cursor_screen_row < scrolloff {
        top_line = if i.cursor_visual_row <= bottom_target {
            scan_up(line_rows, i.cursor_line, i.cursor_visual_row, Some(scrolloff), bottom_target)
        } else {
            i.cursor_line
        };
        skip_rows = 0;
    } else if cursor_screen_row > bottom_target {
        top_line = if i.cursor_visual_row <= bottom_target {
            scan_up(line_rows, i.cursor_line, i.cursor_visual_row, None, bottom_target)
        } else {
            i.cursor_line
        };
        skip_rows = 0;
    }
    let ghost t2 = top_line;
    let ghost s2 = skip_rows;
    if top_line == i.cursor_line && i.cursor_line_height > i.viewport_height {
        if i.cursor_visual_row < skip_rows.saturating_add(scrolloff) {
            skip_rows = i.cursor_visual_row.saturating_sub(scrolloff);
        } else if i.cursor_visual_row > skip_rows.saturating_add(bottom_target) {
            skip_rows = i.cursor_visual_row - bottom_target;
        }
        skip_rows = min_usize(skip_rows, i.cursor_line_height - 1);
    } else {
        skip_rows = 0;
    }
    (top_line, skip_rows, 0)
}

/// Scroll-follow on the source surface: the new (top line, skipped visual
/// rows, left column). `line_rows[k]` is the visual row count of line `k`
/// at the viewport width, for every line before the cursor's (wrap mode).
/// Without wrapping, the cursor ends up inside the viewport both ways.
pub fn source_scroll_position(input: SourceScrollInput, line_rows: &Vec<usize>) -> (r: (usize, usize, usize))
    requires
        input.wrap && input.viewport_width > 0 ==> input.cursor_line <= line_rows@.len(),
    ensures
        (r.0 as int, r.1 as int, r.2 as int) == spec_source_scroll_position(input, line_rows@),
        !input.wrap && input.viewport_height > SCROLLOFF && input.cursor_line < input.line_count
            ==> r.0 <= input.cursor_line < r.0 + input.viewport_height,
        !input.wrap && input.viewport_height > 0 && input.line_count > 0 && input.viewport_width > 0
            ==> r.2 <= input.cursor_col < r.2 + input.viewport_width,
{
    if input.viewport_height == 0 || input.line_count == 0 {
        (input.top_line, 0, if input.wrap { 0 } else { input.left_col })
    } else if !input.wrap {
        nowrap_position(input)
    } else if input.viewport_width == 0 {
        (input.cursor_line, 0, 0)
    } else {
        wrap_position(input, line_rows)
    }
}

/// The rendered or source top after scrolling up by `lines` rows (the
/// viewport moves, the cursor stays).
pub fn scroll_up_top(current_top: usize, lines: usize) -> (r: usize)
    ensures
        r == sat_sub(current_top as int, lines as int),
{
    current_top.saturating_sub(lines)
}

/// The rendered or source top after scrolling down by `lines` rows, kept so
/// that a full viewport of `content_height` rows stays in view.
pub fn scroll_down_top(current_top: usize, lines: usize, content_height: usize, viewport_height: usize) -> (r: usize)
    requires
        current_top + lines <= usize::MAX,
    ensures
        r == min(current_top + lines, sat_sub(content_height as int, viewport_height as int)),
{
    let max_top = content_height.saturating_sub(viewport_height);
    min_usize(current_top + lines, max_top)
}

/// Whether scroll-follow is owed on the next paint. Input marks it owed;
/// a paint follows once if it is owed or the body's size changed since the
/// last follow, however many inputs came in between.
#[derive(Debug, Clone, Copy, PartialEq, Eq)]
pub struct FollowState {
    /// The body size (rows, columns) of the most recent follow.
    pub last_geometry: Option<(usize, usize)>,
    /// Whether a follow is owed.
    pub pending: bool,
}

impl FollowState {
    /// A fresh App owes a follow on its first paint.
    pub fn new() -> (r: FollowState)
        ensures
            r.pending,
            r.last_geometry is None,
    {
        FollowState { last_geometry: None, pending: true }
    }

    /// Owe a follow.
    pub fn request(&mut self)
        ensures
            final(self).pending,
            final(self).last_geometry == old(self).last_geometry,
    {
        self.pending = true;
    }

    /// A resize followed right away at this geometry; nothing more is owed.
    pub fn followed_at(&mut self, geometry: (usize, usize))
        ensures
            !final(self).pending,
            final(self).last_geometry == Some(geometry),
    {
        self.last_geometry = Some(geometry);
        self.pending = false;
    }

    /// At paint time, with the body's current size: whether to follow now.
    /// Afterwards nothing is owed until the next request or size change.
    pub fn on_paint(&mut self, geometry: (usize, usize)) -> (r: bool)
        ensures
            r == (old(self).pending || old(self).last_geometry != Some(geometry)),
            !final(self).pending,
            final(self).last_geometry == Some(geometry),
    {
        let changed = match self.last_geometry {
            Some(g) => g.0 != geometry.0 || g.1 != geometry.1,
            None => true,
        };
        let follow = self.pending || changed;
        self.last_geometry = Some(geometry);
        self.pending = false;
        follow
    }
}

/// The source screen's viewport: first line, wrapping, first column and
/// skipped wrapped rows.
#[derive(Debug, Clone, Copy, PartialEq, Eq, Structural)]
pub struct EditorViewport {
    pub top_line: usize,
    pub wrap: bool,
    pub left_col: usize,
    pub skip_rows: usize,
}

impl EditorViewport {
    /// A viewport with these coordinates.
    pub fn new(top_line: usize, wrap: bool, left_col: usize, skip_rows: usize) -> (r: Self)
        ensures
            r == (EditorViewport { top_line, wrap, left_col, skip_rows }),
    {
        EditorViewport { top_line, wrap, left_col, skip_rows }
    }
}

/// A rendered surface's viewport: first rendered row and display column.
#[derive(Debug, Clone, Copy, PartialEq, Eq, Structural)]
pub struct RenderedViewport {
    pub top: usize,
    pub left: usize,
}

impl RenderedViewport {
    /// A viewport with these coordinates.
    pub fn new(top: usize, left: usize) -> (r: Self)
        ensures
            r == (RenderedViewport { top, left }),
    {
        RenderedViewport { top, left }
    }
}

/// Presentation settings of the rendered surface.
#[derive(Debug, Clone, Copy, PartialEq, Eq, Structural)]
pub struct RenderedSettings {
    /// Hybrid-relative line numbers.
    pub relative_line_numbers: bool,
    /// Whether this screen places the terminal cursor.
    pub cursor_visible: bool,
    /// The widest the rendered text wraps at.
    pub wrap_width: u16,
}

impl RenderedSettings {
    /// Settings that show the cursor and wrap at the full width.
    pub fn new(relative_line_numbers: bool) -> (r: Self)
        ensures
            r == (RenderedSettings { relative_line_numbers, cursor_visible: true, wrap_width: u16::MAX }),
    {
        RenderedSettings { relative_line_numbers, cursor_visible: true, wrap_width: u16::MAX }
    }

    /// The same settings wrapping at `wrap_width`.
    pub fn with_wrap_width(self, wrap_width: u16) -> (r: Self)
        ensures
            r == (RenderedSettings { wrap_width, ..self }),
    {
        RenderedSettings { wrap_width, ..self }
    }

    /// The same settings, placing the cursor or not.
    pub fn with_cursor_visible(self, cursor_visible: bool) -> (r: Self)
        ensures
            r == (RenderedSettings { cursor_visible, ..self }),
    {
        RenderedSettings { cursor_visible, ..self }
    }
}

} // verus!
