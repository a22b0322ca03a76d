//! Styled lines in display cells: laying a carrier style over a row,
//! highlighting the display groups that meet a column interval, and
//! cropping a row to the visible columns without drawing part of a glyph.
//!
//! A styled line is a sequence of spans; these functions read only the
//! spans' texts and say, for each piece of the result, which span's style
//! it keeps and whether the carrier is laid over it. The program applies
//! the actual styles.

use vstd::prelude::*;
use ratatui::buffer::CellWidth;
use crate::layout::{max, min};
use crate::text::{line_width, push_char, spec_line_width};

verus! {

/// Where a piece of a styled line takes its style from.
#[derive(Debug, Clone, Copy, PartialEq, Eq, Structural)]
pub enum SegmentStyle {
    /// The style of input span `i`, unchanged.
    Span(usize),
    /// The style of input span `i` with the carrier's modifiers added and
    /// its background, when it has one, laid over.
    Carried(usize),
    /// The carrier style itself.
    Carrier,
    /// The default style.
    Plain,
}

/// One piece of a styled line.
#[derive(Debug, Clone, PartialEq, Eq)]
pub struct Segment {
    pub text: String,
    pub style: SegmentStyle,
}

/// A piece of a styled line as plain values.
pub open spec fn spec_segment(s: Segment) -> (Seq<char>, SegmentStyle) {
    (s.text@, s.style)
}

/// The pieces of a styled line as plain values.
pub open spec fn spec_segments(v: Seq<Segment>) -> Seq<(Seq<char>, SegmentStyle)> {
    v.map_values(|s: Segment| spec_segment(s))
}

/// The characters of each span.
pub open spec fn spec_texts(v: Seq<String>) -> Seq<Seq<char>> {
    v.map_values(|t: String| t@)
}

/// `n` spaces.
pub open spec fn spec_spaces(n: nat) -> Seq<char> {
    Seq::new(n, |i: int| ' ')
}

/// A string of `n` spaces.
pub fn spaces(n: usize) -> (r: String)
    ensures
        r@ == spec_spaces(n as nat),
{
    let mut r = String::new();
    let mut i: usize = 0;
    while i < n
        invariant
            i <= n,
            r@ == spec_spaces(i as nat),
        decreases n - i,
    {
        push_char(&mut r, ' ');
        proof {
            assert(r@ =~= spec_spaces((i + 1) as nat));
        }
        i = i + 1;
    }
    r
}

/// Whether a character is a control code (general category Cc).
pub open spec fn spec_is_control(c: char) -> bool {
    (c as u32) <= 0x1f || (0x7f <= (c as u32) && (c as u32) <= 0x9f)
}

/// The grapheme clusters of a text that ratatui draws: the extended
/// grapheme clusters, less those holding a control code.
pub uninterp spec fn spec_visible_graphemes(s: Seq<char>) -> Seq<Seq<char>>;

/// The grapheme clusters ratatui draws for a text.
///
/// Trusted: calls `ratatui::text::Span::styled_graphemes` on a raw span of
/// the text and keeps each grapheme's symbol. The result is named
/// `spec_visible_graphemes` of the text (Unicode segmentation depends on
/// the text alone); the source filters out every grapheme that contains a
/// control character, which the second clause states.
#[verifier::external_body]
pub(crate) fn visible_graphemes(s: &str) -> (r: Vec<String>)
    ensures
        r@.map_values(|g: String| g@) == spec_visible_graphemes(s@),
        forall|i: int, j: int| 0 <= i < r@.len() && 0 <= j < r@[i]@.len() ==> !spec_is_control(#[trigger] r@[i]@[j]),
{
    ratatui::text::Span::raw(s)
        .styled_graphemes(ratatui::style::Style::default())
        .map(|g| g.symbol.to_string())
        .collect()
}

/// The terminal cells a grapheme takes, as ratatui's buffer counts them.
pub uninterp spec fn spec_cell_width(g: Seq<char>) -> u16;

/// Cells a grapheme takes on screen.
///
/// Trusted: calls `ratatui::buffer::CellWidth::cell_width` on the grapheme;
/// the result is named `spec_cell_width` of its characters (Unicode width
/// rules, from the text alone). The source asserts, in debug builds, that a
/// one-byte text is not a control code, hence the requirement.
#[verifier::external_body]
pub(crate) fn cell_width(g: &str) -> (r: u16)
    requires
        forall|j: int| 0 <= j < g@.len() ==> !spec_is_control(#[trigger] g@[j]),
    ensures
        r == spec_cell_width(g@),
{
    g.cell_width()
}

/// Every span's graphemes, in order, each with the position of its span.
pub open spec fn spec_tagged_graphemes(texts: Seq<Seq<char>>) -> Seq<(int, Seq<char>)>
    decreases texts.len(),
{
    if texts.len() == 0 {
        Seq::empty()
    } else {
        let last = texts.len() - 1;
        spec_tagged_graphemes(texts.drop_last()) + spec_visible_graphemes(texts.last()).map_values(
            |g: Seq<char>| (last, g),
        )
    }
}

/// `a + b`, or the largest `usize` when that overflows.
pub open spec fn sat_add_usize(a: int, b: int) -> int {
    if a + b > usize::MAX { usize::MAX as int } else { a + b }
}

/// One grapheme of the crop: it spans the columns from the running column
/// to that plus its width. Zero-width graphemes and those outside
/// `[left, right)` are dropped; one wholly inside is kept; one cut by an
/// edge becomes as many spaces as it has visible cells, in its style.
pub open spec fn spec_crop_step(
    state: (int, Seq<(Seq<char>, SegmentStyle)>),
    item: (int, Seq<char>),
    left: int,
    right: int,
) -> (int, Seq<(Seq<char>, SegmentStyle)>) {
    let w = spec_cell_width(item.1) as int;
    let start = state.0;
    let end = sat_add_usize(start, w);
    let style = SegmentStyle::Span(item.0 as usize);
    let out = if w == 0 || end <= left || start >= right {
        state.1
    } else if start >= left && end <= right {
        state.1.push((item.1, style))
    } else {
        state.1.push((spec_spaces((min(end, right) - max(start, left)) as nat), style))
    };
    (end, out)
}

/// The crop's step with its window fixed.
pub open spec fn spec_crop_fold(left: int, right: int) -> spec_fn(
    (int, Seq<(Seq<char>, SegmentStyle)>),
    (int, Seq<char>),
) -> (int, Seq<(Seq<char>, SegmentStyle)>) {
    |state: (int, Seq<(Seq<char>, SegmentStyle)>), item: (int, Seq<char>)| spec_crop_step(state, item, left, right)
}

/// A styled line cropped to the `width` display cells from column `left`.
pub open spec fn spec_crop(texts: Seq<Seq<char>>, left: int, width: int) -> Seq<(Seq<char>, SegmentStyle)> {
    if width == 0 {
        Seq::empty()
    } else {
        spec_tagged_graphemes(texts).fold_left(
            (0int, Seq::<(Seq<char>, SegmentStyle)>::empty()),
            spec_crop_fold(left, sat_add_usize(left, width)),
        ).1
    }
}

/// Folding one more item in is one more step.
proof fn lemma_fold_push<A, B>(s: Seq<A>, x: A, b: B, f: spec_fn(B, A) -> B)
    ensures
        s.push(x).fold_left(b, f) == f(s.fold_left(b, f), x),
{
    assert(s.push(x).drop_last() =~= s);
}

/// Crop a styled line (its spans' texts) to `width` display cells starting
/// at column `left`, keeping whole glyphs and turning a glyph cut by an
/// edge into spaces for its visible cells.
pub fn crop_line(texts: &Vec<String>, left: usize, width: usize) -> (r: Vec<Segment>)
    ensures
        spec_segments(r@) == spec_crop(spec_texts(texts@), left as int, width as int),
{
    let mut out: Vec<Segment> = Vec::new();
    if width == 0 {
        proof {
            assert(spec_segments(out@) =~= Seq::<(Seq<char>, SegmentStyle)>::empty());
        }
        return out;
    }
    let right: usize = if left > usize::MAX - width { usize::MAX } else { left + width };
    let ghost texts_view = spec_texts(texts@);
    let ghost f = spec_crop_fold(left as int, right as int);
    let ghost init = (0int, Seq::<(Seq<char>, SegmentStyle)>::empty());
    let ghost mut done: Seq<(int, Seq<char>)> = Seq::empty();
    let mut column: usize = 0;
    let mut i: usize = 0;
    proof {
        assert(texts_view.take(0) =~= Seq::<Seq<char>>::empty());
        assert(spec_segments(out@) =~= Seq::<(Seq<char>, SegmentStyle)>::empty());
    }
    while i < texts.len()
        invariant
            i <= texts.len(),
            texts_view == spec_texts(texts@),
            right == sat_add_usize(left as int, width as int),
            f == spec_crop_fold(left as int, right as int),
            init == (0int, Seq::<(Seq<char>, SegmentStyle)>::empty()),
            done == spec_tagged_graphemes(texts_view.take(i as int)),
            done.fold_left(init, f) == (column as int, spec_segments(out@)),
        decreases texts.len() - i,
    {
        let graphemes = visible_graphemes(texts[i].as_str());
        let ghost base = done;
        let ghost tagged = spec_visible_graphemes(texts_view[i as int]).map_values(
            |g: Seq<char>| (i as int, g),
        );
        let mut j: usize = 0;
        while j < graphemes.len()
            invariant
                i < texts.len(),
                j <= graphemes.len(),
                texts_view == spec_texts(texts@),
                right == sat_add_usize(left as int, width as int),
                f == spec_crop_fold(left as int, right as int),
                graphemes@.map_values(|g: String| g@) == spec_visible_graphemes(texts_view[i as int]),
                forall|a: int, b: int| 0 <= a < graphemes@.len() && 0 <= b < graphemes@[a]@.len() ==> !spec_is_control(#[trigger] graphemes@[a]@[b]),
                tagged == spec_visible_graphemes(texts_view[i as int]).map_values(|g: Seq<char>| (i as int, g)),
                done == base + tagged.take(j as int),
                done.fold_left(init, f) == (column as int, spec_segments(out@)),
            decreases graphemes.len() - j,
        {
            let g = &graphemes[j];
            proof {
                assert(graphemes@.map_values(|g: String| g@)[j as int] == g@);
                assert forall|b: int| 0 <= b < g@.len() implies !spec_is_control(#[trigger] g@[b]) by {
                    assert(!spec_is_control(graphemes@[j as int]@[b]));
                }
            }
            let w = cell_width(g.as_str()) as usize;
            let start = column;
            let end: usize = if start > usize::MAX - w { usize::MAX } else { start + w };
            column = end;
            let ghost old_out = spec_segments(out@);
            if w == 0 || end <= left || start >= right {
            } else if start >= left && end <= right {
                out.push(Segment { text: g.clone(), style: SegmentStyle::Span(i) });
            } else {
                let hi = if end < right { end } else { right };
                let lo = if start > left { start } else { left };
                out.push(Segment { text: spaces(hi - lo), style: SegmentStyle::Span(i) });
            }
            proof {
                let item = (i as int, g@);
                assert(tagged[j as int] == item);
                lemma_fold_push(done, item, init, f);
                assert(spec_segments(out@) =~= spec_crop_step((start as int, old_out), item, left as int, right as int).1);
                assert(tagged.take(j + 1) =~= tagged.take(j as int).push(item));
                done = done.push(item);
            }
            j = j + 1;
        }
        proof {
            assert(tagged.take(graphemes@.len() as int) =~= tagged);
            assert(texts_view.take(i + 1).drop_last() =~= texts_view.take(i as int));
            assert(texts_view.take(i + 1).last() == texts_view[i as int]);
        }
        i = i + 1;
    }
    proof {
        assert(texts_view.take(texts@.len() as int) =~= texts_view);
    }
    out
}

/// The sum of a sequence of numbers.
pub open spec fn spec_sum(s: Seq<int>) -> int
    decreases s.len(),
{
    if s.len() == 0 {
        0
    } else {
        spec_sum(s.drop_last()) + s.last()
    }
}

/// A sum over a prefix grows by the next number, and a sum of numbers that
/// are not negative is at least the sum of any prefix.
proof fn lemma_sum_prefix(s: Seq<int>, k: int)
    requires
        0 <= k <= s.len(),
        forall|i: int| 0 <= i < s.len() ==> s[i] >= 0,
    ensures
        spec_sum(s.take(k)) <= spec_sum(s),
        k < s.len() ==> spec_sum(s.take(k + 1)) == spec_sum(s.take(k)) + s[k],
    decreases s.len(),
{
    if k < s.len() {
        assert(s.take(k + 1).drop_last() =~= s.take(k));
    }
    if k == s.len() {
        assert(s.take(k) =~= s);
    } else {
        lemma_sum_prefix(s.drop_last(), k);
        assert(s.drop_last().take(k) =~= s.take(k));
    }
}

/// The cells a span's text takes, grapheme by grapheme.
pub open spec fn spec_span_cells(t: Seq<char>) -> int {
    spec_sum(spec_visible_graphemes(t).map_values(|g: Seq<char>| spec_cell_width(g) as int))
}

/// The cells a styled line takes, counted over its graphemes.
pub open spec fn spec_cells_total(texts: Seq<Seq<char>>) -> int {
    spec_sum(texts.map_values(|t: Seq<char>| spec_span_cells(t)))
}

/// The display width of a styled line, counted span by span.
pub open spec fn spec_display_total(texts: Seq<Seq<char>>) -> int {
    spec_sum(texts.map_values(|t: Seq<char>| spec_line_width(t) as int))
}

/// The cells a styled line takes, or `None` when the count does not fit
/// in a `usize`.
pub fn cells_total(texts: &Vec<String>) -> (r: Option<usize>)
    ensures
        r matches Some(t) ==> t == spec_cells_total(spec_texts(texts@)),
        r is None <==> spec_cells_total(spec_texts(texts@)) > usize::MAX,
{
    let ghost texts_view = spec_texts(texts@);
    let ghost spans = texts_view.map_values(|t: Seq<char>| spec_span_cells(t));
    proof {
        assert forall|k: int| 0 <= k < spans.len() implies spans[k] >= 0 by {
            let ws = spec_visible_graphemes(texts_view[k]).map_values(|g: Seq<char>| spec_cell_width(g) as int);
            lemma_sum_prefix(ws, 0);
            assert(ws.take(0) =~= Seq::<int>::empty());
        }
        assert(spans.take(0) =~= Seq::<int>::empty());
    }
    let mut acc: usize = 0;
    let mut i: usize = 0;
    while i < texts.len()
        invariant
            i <= texts.len(),
            texts_view == spec_texts(texts@),
            spans == texts_view.map_values(|t: Seq<char>| spec_span_cells(t)),
            forall|k: int| 0 <= k < spans.len() ==> spans[k] >= 0,
            acc == spec_sum(spans.take(i as int)),
        decreases texts.len() - i,
    {
        let graphemes = visible_graphemes(texts[i].as_str());
        let ghost ws = spec_visible_graphemes(texts_view[i as int]).map_values(|g: Seq<char>| spec_cell_width(g) as int);
        let ghost base = acc as int;
        proof {
            assert(ws.take(0) =~= Seq::<int>::empty());
        }
        let mut j: usize = 0;
        while j < graphemes.len()
            invariant
                i < texts.len(),
                j <= graphemes.len(),
                texts_view == spec_texts(texts@),
                spans == texts_view.map_values(|t: Seq<char>| spec_span_cells(t)),
                forall|k: int| 0 <= k < spans.len() ==> spans[k] >= 0,
                base == spec_sum(spans.take(i as int)),
                graphemes@.map_values(|g: String| g@) == spec_visible_graphemes(texts_view[i as int]),
                forall|a: int, b: int| 0 <= a < graphemes@.len() && 0 <= b < graphemes@[a]@.len() ==> !spec_is_control(#[trigger] graphemes@[a]@[b]),
                ws == spec_visible_graphemes(texts_view[i as int]).map_values(|g: Seq<char>| spec_cell_width(g) as int),
                acc == base + spec_sum(ws.take(j as int)),
            decreases graphemes.len() - j,
        {
            let g = &graphemes[j];
            proof {
                assert(graphemes@.map_values(|g: String| g@)[j as int] == g@);
                assert forall|b: int| 0 <= b < g@.len() implies !spec_is_control(#[trigger] g@[b]) by {
                    assert(!spec_is_control(graphemes@[j as int]@[b]));
                }
            }
            let w = cell_width(g.as_str()) as usize;
            proof {
                assert(ws[j as int] == w);
                lemma_sum_prefix(ws, j as int);
                assert forall|k: int| 0 <= k < ws.len() implies ws[k] >= 0 by {}
            }
            if acc > usize::MAX - w {
                proof {
                    lemma_sum_prefix(ws, j + 1);
                    lemma_sum_prefix(spans, i as int);
                    lemma_sum_prefix(spans, i + 1);
                    assert(spans[i as int] == spec_sum(ws));
                }
                return None;
            }
            acc = acc + w;
            j = j + 1;
        }
        proof {
            assert(ws.take(graphemes@.len() as int) =~= ws);
            assert(spans[i as int] == spec_sum(ws));
            lemma_sum_prefix(spans, i as int);
        }
        i = i + 1;
    }
    proof {
        assert(spans.take(texts@.len() as int) =~= spans);
    }
    Some(acc)
}

/// The display width of a styled line, or `None` when it does not fit in
/// a `usize`.
pub fn display_total(texts: &Vec<String>) -> (r: Option<usize>)
    ensures
        r matches Some(t) ==> t == spec_display_total(spec_texts(texts@)),
        r is None <==> spec_display_total(spec_texts(texts@)) > usize::MAX,
{
    let ghost texts_view = spec_texts(texts@);
    let ghost ws = texts_view.map_values(|t: Seq<char>| spec_line_width(t) as int);
    proof {
        assert(ws.take(0) =~= Seq::<int>::empty());
    }
    let mut acc: usize = 0;
    let mut i: usize = 0;
    while i < texts.len()
        invariant
            i <= texts.len(),
            texts_view == spec_texts(texts@),
            ws == texts_view.map_values(|t: Seq<char>| spec_line_width(t) as int),
            acc == spec_sum(ws.take(i as int)),
        decreases texts.len() - i,
    {
        let w = line_width(texts[i].as_str());
        proof {
            assert(ws[i as int] == w);
            lemma_sum_prefix(ws, i as int);
        }
        if acc > usize::MAX - w {
            proof {
                lemma_sum_prefix(ws, i + 1);
            }
            return None;
        }
        acc = acc + w;
        i = i + 1;
    }
    proof {
        assert(ws.take(texts@.len() as int) =~= ws);
    }
    Some(acc)
}

/// Every span with the carrier laid over it, then carrier-styled spaces up
/// to `width` cells when the text is narrower.
pub open spec fn spec_carried(texts: Seq<Seq<char>>, text_width: int, width: int) -> Seq<(Seq<char>, SegmentStyle)> {
    let body = Seq::new(texts.len(), |i: int| (texts[i], SegmentStyle::Carried(i as usize)));
    if width > text_width {
        body.push((spec_spaces((width - text_width) as nat), SegmentStyle::Carrier))
    } else {
        body
    }
}

fn carried_segments(texts: &Vec<String>, text_width: usize, width: u16) -> (r: Vec<Segment>)
    ensures
        spec_segments(r@) == spec_carried(spec_texts(texts@), text_width as int, width as int),
{
    let mut out: Vec<Segment> = Vec::new();
    let mut i: usize = 0;
    while i < texts.len()
        invariant
            i <= texts.len(),
            spec_segments(out@) == Seq::new(i as nat, |k: int| (texts@[k]@, SegmentStyle::Carried(k as usize))),
        decreases texts.len() - i,
    {
        let ghost before = spec_segments(out@);
        let text = texts[i].clone();
        assert(text@ == texts@[i as int]@);
        out.push(Segment { text, style: SegmentStyle::Carried(i) });
        proof {
            assert(spec_segments(out@) =~= before.push((texts@[i as int]@, SegmentStyle::Carried(i))));
            assert(spec_segments(out@) =~= Seq::new((i + 1) as nat, |k: int| (texts@[k]@, SegmentStyle::Carried(k as usize))));
        }
        i = i + 1;
    }
    let ghost body_done = spec_segments(out@);
    if (width as usize) > text_width {
        out.push(Segment { text: spaces(width as usize - text_width), style: SegmentStyle::Carrier });
    }
    proof {
        let body = Seq::new(texts@.len(), |k: int| (spec_texts(texts@)[k], SegmentStyle::Carried(k as usize)));
        assert(body_done =~= body);
        if (width as usize) > text_width {
            assert(spec_segments(out@) =~= body.push((spec_spaces((width - text_width) as nat), SegmentStyle::Carrier)));
        } else {
            assert(spec_segments(out@) =~= body);
        }
    }
    out
}

/// Lay a full-row carrier over a rendered row: every span keeps its text
/// and takes the carrier's modifiers and background, and carrier-styled
/// spaces fill the row to `width` cells (measured grapheme by grapheme).
pub fn highlighted_line(texts: &Vec<String>, width: u16) -> (r: Vec<Segment>)
    requires
        spec_cells_total(spec_texts(texts@)) <= usize::MAX,
    ensures
        spec_segments(r@) == spec_carried(spec_texts(texts@), spec_cells_total(spec_texts(texts@)), width as int),
{
    match cells_total(texts) {
        Some(total) => carried_segments(texts, total, width),
        None => Vec::new(),
    }
}

/// `highlighted_line`, or `None` for a row whose cells cannot be counted
/// in a `usize`.
pub fn checked_highlighted_line(texts: &Vec<String>, width: u16) -> (r: Option<Vec<Segment>>)
    ensures
        r is None <==> spec_cells_total(spec_texts(texts@)) > usize::MAX,
        r matches Some(v) ==> spec_segments(v@) == spec_carried(spec_texts(texts@), spec_cells_total(spec_texts(texts@)), width as int),
{
    match cells_total(texts) {
        Some(_) => Some(highlighted_line(texts, width)),
        None => None,
    }
}

/// Lay the selection carrier over the view screen's cursor row: every span
/// keeps its text and takes the carrier's modifiers and background, and
/// carrier-styled spaces fill the row to `width` cells (measured span by
/// span).
pub fn cursor_line(texts: &Vec<String>, width: u16) -> (r: Vec<Segment>)
    requires
        spec_display_total(spec_texts(texts@)) <= usize::MAX,
    ensures
        spec_segments(r@) == spec_carried(spec_texts(texts@), spec_display_total(spec_texts(texts@)), width as int),
{
    match display_total(texts) {
        Some(total) => carried_segments(texts, total, width),
        None => Vec::new(),
    }
}

/// `cursor_line`, or `None` for a row whose width cannot be counted in a
/// `usize`.
pub fn checked_cursor_line(texts: &Vec<String>, width: u16) -> (r: Option<Vec<Segment>>)
    ensures
        r is None <==> spec_display_total(spec_texts(texts@)) > usize::MAX,
        r matches Some(v) ==> spec_segments(v@) == spec_carried(spec_texts(texts@), spec_display_total(spec_texts(texts@)), width as int),
{
    match display_total(texts) {
        Some(_) => Some(cursor_line(texts, width)),
        None => None,
    }
}

/// A character's display width, as ratatui measures a one-character span.
pub open spec fn spec_char_width(c: char) -> int {
    spec_line_width(seq![c]) as int
}

/// The display width of a character.
fn char_width(c: char) -> (r: usize)
    ensures
        r == spec_char_width(c),
{
    let mut s = String::new();
    push_char(&mut s, c);
    proof {
        assert(s@ =~= seq![c]);
    }
    line_width(s.as_str())
}

/// The width of a run of characters: the sum of their widths.
pub open spec fn spec_chars_width(g: Seq<char>) -> int {
    spec_sum(g.map_values(|c: char| spec_char_width(c)))
}

/// The display width of a styled line, counted character by character.
pub open spec fn spec_char_cells(texts: Seq<Seq<char>>) -> int {
    spec_sum(texts.map_values(|t: Seq<char>| spec_chars_width(t)))
}

/// One character of a span's display groups: a zero-width character joins
/// the group before it; any other character, or one with no group before
/// it, starts a group.
pub open spec fn spec_group_step(groups: Seq<Seq<char>>, c: char) -> Seq<Seq<char>> {
    if spec_char_width(c) == 0 && groups.len() > 0 {
        groups.update(groups.len() - 1, groups.last().push(c))
    } else {
        groups.push(seq![c])
    }
}

/// The grouping step as a function.
pub open spec fn spec_group_fold() -> spec_fn(Seq<Seq<char>>, char) -> Seq<Seq<char>> {
    |groups: Seq<Seq<char>>, c: char| spec_group_step(groups, c)
}

/// A span's display groups: each character with the zero-width characters
/// that follow it.
pub open spec fn spec_display_groups(cs: Seq<char>) -> Seq<Seq<char>> {
    cs.fold_left(Seq::<Seq<char>>::empty(), spec_group_fold())
}

/// Every span's display groups, in order, each with its span's position.
pub open spec fn spec_tagged_groups(texts: Seq<Seq<char>>) -> Seq<(int, Seq<char>)>
    decreases texts.len(),
{
    if texts.len() == 0 {
        Seq::empty()
    } else {
        let last = texts.len() - 1;
        spec_tagged_groups(texts.drop_last()) + spec_display_groups(texts.last()).map_values(
            |g: Seq<char>| (last, g),
        )
    }
}

/// One display group of the interval highlight: it spans the columns from
/// the running column to that plus its width, and takes the carrier when
/// those columns meet `[start, end)`.
pub open spec fn spec_highlight_step(
    state: (int, Seq<(Seq<char>, SegmentStyle)>),
    item: (int, Seq<char>),
    start: int,
    end: int,
) -> (int, Seq<(Seq<char>, SegmentStyle)>) {
    let a = state.0;
    let b = a + spec_chars_width(item.1);
    let style = if b > start && a < end {
        SegmentStyle::Carried(item.0 as usize)
    } else {
        SegmentStyle::Span(item.0 as usize)
    };
    (b, state.1.push((item.1, style)))
}

/// The highlight step with its interval fixed.
pub open spec fn spec_highlight_fold(start: int, end: int) -> spec_fn(
    (int, Seq<(Seq<char>, SegmentStyle)>),
    (int, Seq<char>),
) -> (int, Seq<(Seq<char>, SegmentStyle)>) {
    |state: (int, Seq<(Seq<char>, SegmentStyle)>), item: (int, Seq<char>)| spec_highlight_step(state, item, start, end)
}

/// A styled line with the carrier laid over the display groups that meet
/// the columns `[start, end)`; a line that ends before `end` is padded,
/// with plain spaces up to `start` and carrier-styled spaces from there.
pub open spec fn spec_interval_highlight(texts: Seq<Seq<char>>, start: int, end: int) -> Seq<(Seq<char>, SegmentStyle)> {
    let state = spec_tagged_groups(texts).fold_left(
        (0int, Seq::<(Seq<char>, SegmentStyle)>::empty()),
        spec_highlight_fold(start, end),
    );
    let column = state.0;
    let out = state.1;
    if column < end {
        let out1 = if column < start {
            out.push((spec_spaces((start - column) as nat), SegmentStyle::Plain))
        } else {
            out
        };
        let from = max(column, start);
        if from < end {
            out1.push((spec_spaces((end - from) as nat), SegmentStyle::Carrier))
        } else {
            out1
        }
    } else {
        out
    }
}

/// Sums are taken term by term: changing the last term changes the sum by
/// the difference.
proof fn lemma_sum_update_last(s: Seq<int>, v: int)
    requires
        s.len() > 0,
    ensures
        spec_sum(s.update(s.len() - 1, v)) == spec_sum(s) - s.last() + v,
{
    assert(s.update(s.len() - 1, v).drop_last() =~= s.drop_last());
}

/// A sum of numbers that are not negative is not negative.
proof fn lemma_sum_nonneg(s: Seq<int>)
    requires
        forall|i: int| 0 <= i < s.len() ==> s[i] >= 0,
    ensures
        spec_sum(s) >= 0,
{
    lemma_sum_prefix(s, 0);
    assert(s.take(0) =~= Seq::<int>::empty());
}

/// The width of a run grows by the width of the character added.
proof fn lemma_chars_width_push(g: Seq<char>, c: char)
    ensures
        spec_chars_width(g.push(c)) == spec_chars_width(g) + spec_char_width(c),
{
    assert(g.push(c).map_values(|c: char| spec_char_width(c)).drop_last() =~= g.map_values(|c: char| spec_char_width(c)));
}

/// A span's display groups cover its characters: their widths add up to
/// the span's width.
proof fn lemma_groups_width(cs: Seq<char>)
    ensures
        spec_sum(spec_display_groups(cs).map_values(|g: Seq<char>| spec_chars_width(g))) == spec_chars_width(cs),
    decreases cs.len(),
{
    if cs.len() == 0 {
        assert(spec_display_groups(cs).map_values(|g: Seq<char>| spec_chars_width(g)) =~= Seq::<int>::empty());
        assert(cs.map_values(|c: char| spec_char_width(c)) =~= Seq::<int>::empty());
    } else {
        let prev = cs.drop_last();
        let c = cs.last();
        lemma_groups_width(prev);
        assert(cs.drop_last() == prev);
        let gs = spec_display_groups(prev);
        assert(spec_display_groups(cs) == spec_group_step(gs, c));
        assert(prev.push(c) =~= cs);
        lemma_chars_width_push(prev, c);
        let ws = gs.map_values(|g: Seq<char>| spec_chars_width(g));
        if spec_char_width(c) == 0 && gs.len() > 0 {
            let last = gs.len() - 1;
            lemma_chars_width_push(gs[last], c);
            assert(spec_display_groups(cs).map_values(|g: Seq<char>| spec_chars_width(g)) =~= ws.update(last, spec_chars_width(gs[last].push(c))));
            lemma_sum_update_last(ws, spec_chars_width(gs[last].push(c)));
        } else {
            assert(spec_display_groups(cs).map_values(|g: Seq<char>| spec_chars_width(g)) =~= ws.push(spec_chars_width(seq![c])));
            assert(ws.push(spec_chars_width(seq![c])).drop_last() =~= ws);
            lemma_chars_width_push(Seq::<char>::empty(), c);
            assert(Seq::<char>::empty().push(c) =~= seq![c]);
            assert(Seq::<char>::empty().map_values(|c: char| spec_char_width(c)) =~= Seq::<int>::empty());
        }
    }
}

/// The display widths of a run's characters are not negative.
proof fn lemma_char_widths_nonneg(g: Seq<char>)
    ensures
        spec_chars_width(g) >= 0,
{
    lemma_sum_nonneg(g.map_values(|c: char| spec_char_width(c)));
}

/// The display groups of a span's characters.
fn display_groups(text: &str) -> (r: Vec<Vec<char>>)
    ensures
        r@.map_values(|g: Vec<char>| g@) == spec_display_groups(text@),
{
    let chars = crate::text::chars_of(text);
    let mut groups: Vec<Vec<char>> = Vec::new();
    let mut k: usize = 0;
    proof {
        assert(chars@.take(0) =~= Seq::<char>::empty());
        assert(groups@.map_values(|g: Vec<char>| g@) =~= Seq::<Seq<char>>::empty());
    }
    while k < chars.len()
        invariant
            k <= chars.len(),
            chars@ == text@,
            groups@.map_values(|g: Vec<char>| g@) == chars@.take(k as int).fold_left(Seq::<Seq<char>>::empty(), spec_group_fold()),
        decreases chars.len() - k,
    {
        let c = chars[k];
        let w = char_width(c);
        let ghost before = groups@.map_values(|g: Vec<char>| g@);
        if w == 0 && groups.len() > 0 {
            let mut last = groups.pop().unwrap();
            last.push(c);
            groups.push(last);
            proof {
                assert(groups@.map_values(|g: Vec<char>| g@) =~= before.update(before.len() - 1, before.last().push(c)));
            }
        } else {
            let mut g: Vec<char> = Vec::new();
            g.push(c);
            groups.push(g);
            proof {
                assert(g@ =~= seq![c]);
                assert(groups@.map_values(|g: Vec<char>| g@) =~= before.push(seq![c]));
            }
        }
        proof {
            lemma_fold_push(chars@.take(k as int), c, Seq::<Seq<char>>::empty(), spec_group_fold());
            assert(chars@.take(k + 1) =~= chars@.take(k as int).push(c));
        }
        k = k + 1;
    }
    proof {
        assert(chars@.take(chars@.len() as int) =~= chars@);
    }
    groups
}

/// The display width of a styled line counted character by character, or
/// `None` when it does not fit in a `usize`.
pub fn char_cells(texts: &Vec<String>) -> (r: Option<usize>)
    ensures
        r matches Some(t) ==> t == spec_char_cells(spec_texts(texts@)),
        r is None <==> spec_char_cells(spec_texts(texts@)) > usize::MAX,
{
    let ghost texts_view = spec_texts(texts@);
    let ghost spans = texts_view.map_values(|t: Seq<char>| spec_chars_width(t));
    proof {
        assert forall|k: int| 0 <= k < spans.len() implies spans[k] >= 0 by {
            lemma_char_widths_nonneg(texts_view[k]);
        }
        assert(spans.take(0) =~= Seq::<int>::empty());
    }
    let mut acc: usize = 0;
    let mut i: usize = 0;
    while i < texts.len()
        invariant
            i <= texts.len(),
            texts_view == spec_texts(texts@),
            spans == texts_view.map_values(|t: Seq<char>| spec_chars_width(t)),
            forall|k: int| 0 <= k < spans.len() ==> spans[k] >= 0,
            acc == spec_sum(spans.take(i as int)),
        decreases texts.len() - i,
    {
        let chars = crate::text::chars_of(texts[i].as_str());
        let ghost ws = texts_view[i as int].map_values(|c: char| spec_char_width(c));
        let ghost base = acc as int;
        proof {
            assert(ws.take(0) =~= Seq::<int>::empty());
            lemma_char_widths_nonneg(texts_view[i as int]);
        }
        let mut j: usize = 0;
        while j < chars.len()
            invariant
                i < texts.len(),
                j <= chars.len(),
                texts_view == spec_texts(texts@),
                spans == texts_view.map_values(|t: Seq<char>| spec_chars_width(t)),
                forall|k: int| 0 <= k < spans.len() ==> spans[k] >= 0,
                base == spec_sum(spans.take(i as int)),
                chars@ == texts_view[i as int],
                ws == texts_view[i as int].map_values(|c: char| spec_char_width(c)),
                forall|k: int| 0 <= k < ws.len() ==> #[trigger] ws[k] >= 0,
                acc == base + spec_sum(ws.take(j as int)),
            decreases chars.len() - j,
        {
            let w = char_width(chars[j]);
            proof {
                assert(ws[j as int] == w);
                lemma_sum_prefix(ws, j as int);
            }
            if acc > usize::MAX - w {
                proof {
                    lemma_sum_prefix(ws, j + 1);
                    lemma_sum_prefix(spans, i as int);
                    lemma_sum_prefix(spans, i + 1);
                }
                return None;
            }
            acc = acc + w;
            j = j + 1;
        }
        proof {
            assert(ws.take(chars@.len() as int) =~= ws);
            lemma_sum_prefix(spans, i as int);
        }
        i = i + 1;
    }
    proof {
        assert(spans.take(texts@.len() as int) =~= spans);
    }
    Some(acc)
}

/// Lay the carrier over the display groups of a styled line that meet the
/// columns `[start, end)`, padding a line that ends before `end`: plain
/// spaces up to `start`, carrier-styled spaces from there.
pub fn interval_highlight(texts: &Vec<String>, start: usize, end: usize) -> (r: Vec<Segment>)
    requires
        spec_char_cells(spec_texts(texts@)) <= usize::MAX,
    ensures
        spec_segments(r@) == spec_interval_highlight(spec_texts(texts@), start as int, end as int),
{
    let ghost texts_view = spec_texts(texts@);
    let ghost spans = texts_view.map_values(|t: Seq<char>| spec_chars_width(t));
    let ghost f = spec_highlight_fold(start as int, end as int);
    let ghost init = (0int, Seq::<(Seq<char>, SegmentStyle)>::empty());
    let ghost mut done: Seq<(int, Seq<char>)> = Seq::empty();
    proof {
        assert forall|k: int| 0 <= k < spans.len() implies spans[k] >= 0 by {
            lemma_char_widths_nonneg(texts_view[k]);
        }
        assert(spans.take(0) =~= Seq::<int>::empty());
        assert(texts_view.take(0) =~= Seq::<Seq<char>>::empty());
        lemma_sum_prefix(spans, 0);
    }
    let mut out: Vec<Segment> = Vec::new();
    let mut column: usize = 0;
    let mut i: usize = 0;
    proof {
        assert(spec_segments(out@) =~= Seq::<(Seq<char>, SegmentStyle)>::empty());
    }
    while i < texts.len()
        invariant
            i <= texts.len(),
            texts_view == spec_texts(texts@),
            spans == texts_view.map_values(|t: Seq<char>| spec_chars_width(t)),
            forall|k: int| 0 <= k < spans.len() ==> spans[k] >= 0,
            spec_sum(spans) <= usize::MAX,
            f == spec_highlight_fold(start as int, end as int),
            init == (0int, Seq::<(Seq<char>, SegmentStyle)>::empty()),
            column == spec_sum(spans.take(i as int)),
            done == spec_tagged_groups(texts_view.take(i as int)),
            done.fold_left(init, f) == (column as int, spec_segments(out@)),
        decreases texts.len() - i,
    {
        let groups = display_groups(texts[i].as_str());
        let ghost gviews = groups@.map_values(|g: Vec<char>| g@);
        let ghost gws = gviews.map_values(|g: Seq<char>| spec_chars_width(g));
        let ghost tagged = gviews.map_values(|g: Seq<char>| (i as int, g));
        let ghost base = done;
        let ghost col0 = column as int;
        proof {
            lemma_groups_width(texts_view[i as int]);
            assert forall|k: int| 0 <= k < gws.len() implies #[trigger] gws[k] >= 0 by {
                lemma_char_widths_nonneg(gviews[k]);
            }
            lemma_sum_prefix(spans, i as int);
            lemma_sum_prefix(spans, i + 1);
            assert(gws.take(0) =~= Seq::<int>::empty());
            assert(tagged.take(0) =~= Seq::<(int, Seq<char>)>::empty());
            assert(done + tagged.take(0) =~= done);
        }
        let mut k: usize = 0;
        while k < groups.len()
            invariant
                i < texts.len(),
                k <= groups.len(),
                texts_view == spec_texts(texts@),
                f == spec_highlight_fold(start as int, end as int),
                gviews == groups@.map_values(|g: Vec<char>| g@),
                gws == gviews.map_values(|g: Seq<char>| spec_chars_width(g)),
                forall|m: int| 0 <= m < gws.len() ==> #[trigger] gws[m] >= 0,
                tagged == gviews.map_values(|g: Seq<char>| (i as int, g)),
                col0 + spec_sum(gws) <= usize::MAX,
                column == col0 + spec_sum(gws.take(k as int)),
                done == base + tagged.take(k as int),
                done.fold_left(init, f) == (column as int, spec_segments(out@)),
            decreases groups.len() - k,
        {
            let group = &groups[k];
            let ghost g = gviews[k as int];
            let ghost cws = g.map_values(|c: char| spec_char_width(c));
            proof {
                lemma_char_widths_nonneg(g);
                lemma_sum_prefix(gws, k as int);
                lemma_sum_prefix(gws, k + 1);
                assert(cws.take(0) =~= Seq::<int>::empty());
            }
            let mut width: usize = 0;
            let mut m: usize = 0;
            while m < group.len()
                invariant
                    m <= group.len(),
                    group@ == g,
                    cws == g.map_values(|c: char| spec_char_width(c)),
                    forall|n: int| 0 <= n < cws.len() ==> #[trigger] cws[n] >= 0,
                    column + spec_sum(cws) <= usize::MAX,
                    width == spec_sum(cws.take(m as int)),
                decreases group.len() - m,
            {
                let w = char_width(group[m]);
                proof {
                    assert(cws[m as int] == w);
                    lemma_sum_prefix(cws, m as int);
                    lemma_sum_prefix(cws, m + 1);
                }
                width = width + w;
                m = m + 1;
            }
            proof {
                assert(cws.take(group@.len() as int) =~= cws);
            }
            let a = column;
            let b = column + width;
            let style = if b > start && a < end { SegmentStyle::Carried(i) } else { SegmentStyle::Span(i) };
            let text = crate::text::string_from_chars(group);
            let ghost old_out = spec_segments(out@);
            out.push(Segment { text, style });
            column = b;
            proof {
                let item = (i as int, g);
                assert(tagged[k as int] == item);
                lemma_fold_push(done, item, init, f);
                assert(spec_segments(out@) =~= old_out.push((g, style)));
                assert(tagged.take(k + 1) =~= tagged.take(k as int).push(item));
                done = done.push(item);
            }
            k = k + 1;
        }
        proof {
            assert(tagged.take(groups@.len() as int) =~= tagged);
            assert(gws.take(groups@.len() as int) =~= gws);
            assert(texts_view.take(i + 1).drop_last() =~= texts_view.take(i as int));
            assert(texts_view.take(i + 1).last() == texts_view[i as int]);
            assert(spec_display_groups(texts_view[i as int]).map_values(|g: Seq<char>| (i as int, g)) =~= tagged);
        }
        i = i + 1;
    }
    proof {
        assert(texts_view.take(texts@.len() as int) =~= texts_view);
    }
    let ghost folded = spec_segments(out@);
    if column < end {
        if column < start {
            out.push(Segment { text: spaces(start - column), style: SegmentStyle::Plain });
        }
        let from = if column > start { column } else { start };
        if from < end {
            out.push(Segment { text: spaces(end - from), style: SegmentStyle::Carrier });
        }
        proof {
            let out1 = if column < start {
                folded.push((spec_spaces((start - column) as nat), SegmentStyle::Plain))
            } else {
                folded
            };
            if from < end {
                assert(spec_segments(out@) =~= out1.push((spec_spaces((end - from) as nat), SegmentStyle::Carrier)));
            } else {
                assert(spec_segments(out@) =~= out1);
            }
        }
    }
    out
}

/// `interval_highlight`, or `None` for a line whose width cannot be
/// counted in a `usize`.
pub fn checked_interval_highlight(texts: &Vec<String>, start: usize, end: usize) -> (r: Option<Vec<Segment>>)
    ensures
        r is None <==> spec_char_cells(spec_texts(texts@)) > usize::MAX,
        r matches Some(v) ==> spec_segments(v@) == spec_interval_highlight(spec_texts(texts@), start as int, end as int),
{
    match char_cells(texts) {
        Some(_) => Some(interval_highlight(texts, start, end)),
        None => None,
    }
}

/// A sequence of texts written one after another.
pub open spec fn spec_joined(parts: Seq<Seq<char>>) -> Seq<char>
    decreases parts.len(),
{
    if parts.len() == 0 {
        Seq::empty()
    } else {
        spec_joined(parts.drop_last()) + parts.last()
    }
}

/// Joining two runs of texts is joining each and writing one after the
/// other.
proof fn lemma_joined_concat(a: Seq<Seq<char>>, b: Seq<Seq<char>>)
    ensures
        spec_joined(a + b) == spec_joined(a) + spec_joined(b),
    decreases b.len(),
{
    if b.len() == 0 {
        assert(a + b =~= a);
        assert(spec_joined(a) + spec_joined(b) =~= spec_joined(a));
    } else {
        lemma_joined_concat(a, b.drop_last());
        assert((a + b).drop_last() =~= a + b.drop_last());
        assert(spec_joined(a) + spec_joined(b) =~= spec_joined(a) + spec_joined(b.drop_last()) + b.last());
    }
}

/// A span's display groups, written one after another, are its text.
proof fn lemma_groups_join(cs: Seq<char>)
    ensures
        spec_joined(spec_display_groups(cs)) == cs,
    decreases cs.len(),
{
    if cs.len() == 0 {
        assert(spec_display_groups(cs) =~= Seq::<Seq<char>>::empty());
    } else {
        let prev = cs.drop_last();
        let c = cs.last();
        lemma_groups_join(prev);
        let gs = spec_display_groups(prev);
        assert(spec_display_groups(cs) == spec_group_step(gs, c));
        if spec_char_width(c) == 0 && gs.len() > 0 {
            let last = gs.len() - 1;
            let next = gs.update(last, gs[last].push(c));
            assert(next.drop_last() =~= gs.drop_last());
            assert(spec_joined(next) =~= spec_joined(gs.drop_last()) + gs[last] + seq![c]);
        } else {
            assert(gs.push(seq![c]).drop_last() =~= gs);
        }
        assert(prev + seq![c] =~= cs);
    }
}

/// Every span's display groups, written one after another, are the line's
/// text.
proof fn lemma_tagged_groups_join(texts: Seq<Seq<char>>)
    ensures
        spec_joined(spec_tagged_groups(texts).map_values(|item: (int, Seq<char>)| item.1)) == spec_joined(texts),
    decreases texts.len(),
{
    if texts.len() == 0 {
        assert(spec_tagged_groups(texts).map_values(|item: (int, Seq<char>)| item.1) =~= Seq::<Seq<char>>::empty());
    } else {
        let rest = texts.drop_last();
        let last = texts.len() - 1;
        lemma_tagged_groups_join(rest);
        let groups = spec_display_groups(texts.last());
        let front = spec_tagged_groups(rest).map_values(|item: (int, Seq<char>)| item.1);
        assert(spec_tagged_groups(texts).map_values(|item: (int, Seq<char>)| item.1) =~= front + groups);
        lemma_joined_concat(front, groups);
        lemma_groups_join(texts.last());
    }
}

/// The highlight fold turns each display group into one piece with the
/// group's text, in its span's style or carried.
proof fn lemma_highlight_fold_shape(items: Seq<(int, Seq<char>)>, start: int, end: int)
    ensures
        ({
            let out = items.fold_left((0int, Seq::<(Seq<char>, SegmentStyle)>::empty()), spec_highlight_fold(start, end)).1;
            &&& out.len() == items.len()
            &&& forall|k: int| 0 <= k < items.len() ==> #[trigger] out[k].0 == items[k].1
                && (out[k].1 == SegmentStyle::Span(items[k].0 as usize) || out[k].1 == SegmentStyle::Carried(items[k].0 as usize))
        }),
    decreases items.len(),
{
    if items.len() > 0 {
        lemma_highlight_fold_shape(items.drop_last(), start, end);
    }
}

/// Laying the highlight over a line never changes its text: the leading
/// pieces, one per display group, spell the line's text, and whatever
/// follows them is blank padding, plain or in the carrier style.
pub proof fn lemma_interval_highlight_keeps_text(texts: Seq<Seq<char>>, start: int, end: int)
    ensures
        ({
            let out = spec_interval_highlight(texts, start, end);
            let n = spec_tagged_groups(texts).len() as int;
            &&& n <= out.len()
            &&& spec_joined(out.take(n).map_values(|p: (Seq<char>, SegmentStyle)| p.0)) == spec_joined(texts)
            &&& forall|k: int| n <= k < out.len() ==> (out[k].1 == SegmentStyle::Plain || out[k].1 == SegmentStyle::Carrier)
                && #[trigger] out[k].0 == spec_spaces(out[k].0.len())
        }),
{
    let items = spec_tagged_groups(texts);
    let n = items.len() as int;
    let folded = items.fold_left((0int, Seq::<(Seq<char>, SegmentStyle)>::empty()), spec_highlight_fold(start, end)).1;
    lemma_highlight_fold_shape(items, start, end);
    lemma_tagged_groups_join(texts);
    let out = spec_interval_highlight(texts, start, end);
    assert(out.take(n) =~= folded);
    assert(folded.map_values(|p: (Seq<char>, SegmentStyle)| p.0) =~= items.map_values(|item: (int, Seq<char>)| item.1));
    assert forall|k: int| n <= k < out.len() implies (out[k].1 == SegmentStyle::Plain || out[k].1 == SegmentStyle::Carrier)
        && #[trigger] out[k].0 == spec_spaces(out[k].0.len()) by {
        assert(out[k].0 =~= spec_spaces(out[k].0.len()));
    }
}

/// A piece of a crop with the window columns `[from, to)` it covers and
/// whether it is a whole grapheme (else blanks for a cut one).
pub type CropPiece = (Seq<char>, SegmentStyle, int, int, bool);

/// The crop's step, recording where each piece lies.
pub open spec fn spec_crop_layout_step(state: (int, Seq<CropPiece>), item: (int, Seq<char>), left: int, right: int) -> (int, Seq<CropPiece>) {
    let w = spec_cell_width(item.1) as int;
    let start = state.0;
    let end = sat_add_usize(start, w);
    let style = SegmentStyle::Span(item.0 as usize);
    let out = if w == 0 || end <= left || start >= right {
        state.1
    } else if start >= left && end <= right {
        state.1.push((item.1, style, start, end, true))
    } else {
        let from = max(start, left);
        let to = min(end, right);
        state.1.push((spec_spaces((to - from) as nat), style, from, to, false))
    };
    (end, out)
}

/// The recording step with its window fixed.
pub open spec fn spec_crop_layout_fold(left: int, right: int) -> spec_fn((int, Seq<CropPiece>), (int, Seq<char>)) -> (int, Seq<CropPiece>) {
    |state: (int, Seq<CropPiece>), item: (int, Seq<char>)| spec_crop_layout_step(state, item, left, right)
}

/// A crop's pieces with the columns each covers.
pub open spec fn spec_crop_layout(texts: Seq<Seq<char>>, left: int, width: int) -> Seq<CropPiece> {
    if width == 0 {
        Seq::empty()
    } else {
        spec_tagged_graphemes(texts).fold_left(
            (0int, Seq::<CropPiece>::empty()),
            spec_crop_layout_fold(left, sat_add_usize(left, width)),
        ).1
    }
}

/// A piece without its columns.
pub open spec fn spec_piece_segment(p: CropPiece) -> (Seq<char>, SegmentStyle) {
    (p.0, p.1)
}

/// The recording crop and the crop step together: same column, and the
/// same pieces once their columns are dropped.
proof fn lemma_crop_layout_lockstep(items: Seq<(int, Seq<char>)>, left: int, right: int)
    ensures
        ({
            let a = items.fold_left((0int, Seq::<(Seq<char>, SegmentStyle)>::empty()), spec_crop_fold(left, right));
            let b = items.fold_left((0int, Seq::<CropPiece>::empty()), spec_crop_layout_fold(left, right));
            a.0 == b.0 && a.1 == b.1.map_values(|p: CropPiece| spec_piece_segment(p))
        }),
    decreases items.len(),
{
    if items.len() == 0 {
        assert(Seq::<CropPiece>::empty().map_values(|p: CropPiece| spec_piece_segment(p)) =~= Seq::<(Seq<char>, SegmentStyle)>::empty());
    } else {
        let prev = items.drop_last();
        lemma_crop_layout_lockstep(prev, left, right);
        let b = prev.fold_left((0int, Seq::<CropPiece>::empty()), spec_crop_layout_fold(left, right));
        let item = items.last();
        let next = spec_crop_layout_step(b, item, left, right);
        assert(next.1.map_values(|p: CropPiece| spec_piece_segment(p)) =~= spec_crop_step(
            (b.0, b.1.map_values(|p: CropPiece| spec_piece_segment(p))),
            item,
            left,
            right,
        ).1);
    }
}

/// Where the recording crop puts its pieces: inside the window, one after
/// another, each before the running column; a whole grapheme covers its
/// cell width, and a cut one is as many blanks as it covers.
proof fn lemma_crop_layout_shape(items: Seq<(int, Seq<char>)>, left: int, right: int)
    requires
        0 <= left <= right <= usize::MAX,
        left < right || left == usize::MAX,
    ensures
        ({
            let b = items.fold_left((0int, Seq::<CropPiece>::empty()), spec_crop_layout_fold(left, right));
            let l = b.1;
            &&& 0 <= b.0 <= usize::MAX
            &&& forall|k: int| 0 <= k < l.len() ==> left <= #[trigger] l[k].2 < l[k].3 <= right && l[k].3 <= b.0
            &&& forall|k: int, j: int| 0 <= k < j < l.len() ==> #[trigger] l[k].3 <= #[trigger] l[j].2
            &&& forall|k: int| 0 <= k < l.len() && (#[trigger] l[k]).4 ==> l[k].3 == sat_add_usize(l[k].2, spec_cell_width(l[k].0) as int)
            &&& forall|k: int| 0 <= k < l.len() && !(#[trigger] l[k]).4 ==> l[k].0 == spec_spaces((l[k].3 - l[k].2) as nat)
        }),
    decreases items.len(),
{
    if items.len() > 0 {
        let prev = items.drop_last();
        lemma_crop_layout_shape(prev, left, right);
        let b = prev.fold_left((0int, Seq::<CropPiece>::empty()), spec_crop_layout_fold(left, right));
        let item = items.last();
        let next = spec_crop_layout_step(b, item, left, right);
        assert(items.fold_left((0int, Seq::<CropPiece>::empty()), spec_crop_layout_fold(left, right)) == next);
        let w = spec_cell_width(item.1) as int;
        let start = b.0;
        let end = sat_add_usize(start, w);
        if !(w == 0 || end <= left || start >= right) {
            let l = next.1;
            let n = l.len() - 1;
            assert(l.drop_last() =~= b.1);
            assert(start < end);
            assert(left < right);
            assert(left <= l[n].2 < l[n].3 <= right);
            assert forall|k: int, j: int| 0 <= k < j < l.len() implies #[trigger] l[k].3 <= #[trigger] l[j].2 by {
                if j == n {
                    assert(l[k] == b.1[k]);
                } else {
                    assert(l[k] == b.1[k]);
                    assert(l[j] == b.1[j]);
                }
            }
            assert forall|k: int| 0 <= k < l.len() implies left <= #[trigger] l[k].2 < l[k].3 <= right && l[k].3 <= next.0 by {
                if k < n {
                    assert(l[k] == b.1[k]);
                }
            }
            assert forall|k: int| 0 <= k < l.len() && (#[trigger] l[k]).4 implies l[k].3 == sat_add_usize(l[k].2, spec_cell_width(l[k].0) as int) by {
                if k < n {
                    assert(l[k] == b.1[k]);
                }
            }
            assert forall|k: int| 0 <= k < l.len() && !(#[trigger] l[k]).4 implies l[k].0 == spec_spaces((l[k].3 - l[k].2) as nat) by {
                if k < n {
                    assert(l[k] == b.1[k]);
                }
            }
        }
    }
}

/// A crop never draws outside its window or over itself: each piece
/// covers columns inside `[left, left + width)`, later pieces lie to the
/// right of earlier ones, a kept grapheme covers exactly its cell width
/// from where it starts, and a grapheme cut by an edge becomes blanks for
/// just the cells it covers.
pub proof fn lemma_crop_stays_in_window(texts: Seq<Seq<char>>, left: usize, width: usize)
    ensures
        ({
            let l = spec_crop_layout(texts, left as int, width as int);
            let right = sat_add_usize(left as int, width as int);
            &&& l.map_values(|p: CropPiece| spec_piece_segment(p)) == spec_crop(texts, left as int, width as int)
            &&& forall|k: int| 0 <= k < l.len() ==> left <= #[trigger] l[k].2 < l[k].3 <= right
            &&& forall|k: int, j: int| 0 <= k < j < l.len() ==> #[trigger] l[k].3 <= #[trigger] l[j].2
            &&& forall|k: int| 0 <= k < l.len() && (#[trigger] l[k]).4 ==> l[k].3 == sat_add_usize(l[k].2, spec_cell_width(l[k].0) as int)
            &&& forall|k: int| 0 <= k < l.len() && !(#[trigger] l[k]).4 ==> l[k].0 == spec_spaces((l[k].3 - l[k].2) as nat)
        }),
{
    if width == 0 {
        assert(Seq::<CropPiece>::empty().map_values(|p: CropPiece| spec_piece_segment(p)) =~= Seq::<(Seq<char>, SegmentStyle)>::empty());
    } else {
        let items = spec_tagged_graphemes(texts);
        let right = sat_add_usize(left as int, width as int);
        lemma_crop_layout_lockstep(items, left as int, right);
        lemma_crop_layout_shape(items, left as int, right);
    }
}

} // verus!
