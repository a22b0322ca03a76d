//! Display-width-aware layout of the command palette: its area, its three
//! text columns, and the scroll that keeps the focused row visible.

use vstd::prelude::*;
use crate::layout::{centered_area, spec_centered_area, Rect};
use crate::palette::{PaletteRow, PaletteRowView};
use crate::text::{concat, line_width, push_char, spec_line_width, to_string};

verus! {

/// Widths of the three palette columns, in cells.
#[derive(Debug, Clone, Copy, PartialEq, Eq, Structural)]
pub struct PaletteColumns {
    pub primary: usize,
    pub description: usize,
    pub tail: usize,
}

/// The column split for a palette row of `width` cells (two of which hold
/// the row marker): narrow rows keep only the primary column; otherwise the
/// tail gets up to 14 cells beyond the first 26, the description up to 30
/// cells beyond the tail and 14 more, one separator precedes each non-empty
/// secondary column, and the primary column takes the rest.
pub open spec fn spec_palette_columns(width: u16) -> PaletteColumns {
    let available = if width >= 2 { width - 2 } else { 0 };
    if available < 12 {
        PaletteColumns { primary: available as usize, description: 0, tail: 0 }
    } else {
        let tail = if available - 26 < 14 { if available >= 26 { available - 26 } else { 0 } } else { 14 };
        let description = if available >= tail + 14 {
            if available - (tail + 14) < 30 { available - (tail + 14) } else { 30 }
        } else {
            0
        };
        let separators = (if description > 0 { 1int } else { 0 }) + (if tail > 0 { 1int } else { 0 });
        let content = available - separators;
        PaletteColumns {
            primary: (content - (description + tail)) as usize,
            description: description as usize,
            tail: tail as usize,
        }
    }
}

/// The column split for a palette row of `width` cells.
pub fn palette_columns(width: u16) -> (r: PaletteColumns)
    ensures
        r == spec_palette_columns(width),
        r.primary + r.description + r.tail + (if r.description > 0 { 1int } else { 0 }) + (if r.tail > 0 {
            1int
        } else {
            0
        }) == (if width >= 2 { width - 2 } else { 0 }),
{
    let available: usize = (width as usize).saturating_sub(2);
    if available < 12 {
        return PaletteColumns { primary: available, description: 0, tail: 0 };
    }
    let tail_room = available.saturating_sub(26);
    let tail = if tail_room < 14 { tail_room } else { 14 };
    let description_room = available.saturating_sub(tail + 14);
    let description = if description_room < 30 { description_room } else { 30 };
    let separators: usize = (if description > 0 { 1 } else { 0 }) + (if tail > 0 { 1 } else { 0 });
    let content = available.saturating_sub(separators);
    PaletteColumns {
        primary: content.saturating_sub(description + tail),
        description,
        tail,
    }
}

/// The number of leading characters of `text` that a clip to `width` keeps:
/// every kept prefix, followed by an ellipsis, fits in `width`, and the next
/// longer one would not.
pub open spec fn spec_is_clip_len(text: Seq<char>, width: usize, k: int) -> bool {
    &&& 0 <= k <= text.len()
    &&& forall|j: int| 0 <= j < k ==> #[trigger] spec_line_width(text.take(j + 1).push('…')) <= width
    &&& k < text.len() ==> spec_line_width(text.take(k + 1).push('…')) > width
}

/// The text that a clip of `text` to `width` cells produces.
pub open spec fn spec_clip(text: Seq<char>, width: usize, result: Seq<char>) -> bool {
    if spec_line_width(text) <= width {
        result == text
    } else if width == 0 {
        result == Seq::<char>::empty()
    } else if width == 1 {
        result == seq!['…']
    } else {
        exists|k: int| #[trigger] spec_is_clip_len(text, width, k) && result == text.take(k).push('…')
    }
}

/// Clip `text` to `width` cells, marking a cut with an ellipsis.
pub fn clip(text: &str, width: usize) -> (r: String)
    ensures
        spec_clip(text@, width, r@),
{
    if line_width(text) <= width {
        return to_string(text);
    }
    if width == 0 {
        return String::new();
    }
    if width == 1 {
        let mut s = String::new();
        push_char(&mut s, '…');
        proof {
            assert(s@ =~= seq!['…']);
        }
        return s;
    }
    let n = text.unicode_len();
    let mut result = String::new();
    let mut i: usize = 0;
    while i < n
        invariant
            n == text@.len(),
            i <= n,
            spec_line_width(text@) > width,
            width > 1,
            result@ == text@.take(i as int),
            forall|j: int| 0 <= j < i ==> #[trigger] spec_line_width(text@.take(j + 1).push('…'))
                <= width,
        decreases n - i,
    {
        let ch = text.get_char(i);
        let mut candidate = String::new();
        candidate.append(result.as_str());
        push_char(&mut candidate, ch);
        push_char(&mut candidate, '…');
        proof {
            assert(text@.take(i + 1) =~= text@.take(i as int).push(ch));
        }
        if line_width(candidate.as_str()) > width {
            proof {
                assert(candidate@ =~= text@.take(i + 1).push('…'));
                assert(spec_is_clip_len(text@, width, i as int));
            }
            push_char(&mut result, '…');
            return result;
        }
        push_char(&mut result, ch);
        i = i + 1;
    }
    proof {
        assert(spec_is_clip_len(text@, width, n as int));
    }
    push_char(&mut result, '…');
    result
}

/// `text` clipped to `width` cells, then padded with spaces to `width`
/// cells by the clipped text's own display width.
pub open spec fn spec_pad(text: Seq<char>, width: usize, result: Seq<char>) -> bool {
    exists|clipped: Seq<char>|
        #[trigger] spec_clip(text, width, clipped) && result == clipped + Seq::new(
            if spec_line_width(clipped) <= width { (width - spec_line_width(clipped)) as nat } else { 0 },
            |_i: int| ' ',
        )
}

/// Clip `text` to `width` cells and pad it with spaces to `width` cells.
pub fn pad(text: &str, width: usize) -> (r: String)
    ensures
        spec_pad(text@, width, r@),
{
    let mut result = clip(text, width);
    let ghost clipped = result@;
    let used = line_width(result.as_str());
    let fill = width.saturating_sub(used);
    let mut i: usize = 0;
    while i < fill
        invariant
            i <= fill,
            result@ == clipped + Seq::new(i as nat, |_i: int| ' '),
        decreases fill - i,
    {
        push_char(&mut result, ' ');
        proof {
            assert(clipped + Seq::new((i + 1) as nat, |_i: int| ' ') =~= (clipped + Seq::new(
                i as nat,
                |_i: int| ' ',
            )).push(' '));
        }
        i = i + 1;
    }
    result
}

/// The marker and three column texts of a palette row.
pub open spec fn spec_line_parts(row: PaletteRowView, selected: bool) -> (
    Seq<char>,
    Seq<char>,
    Seq<char>,
    Seq<char>,
) {
    match row {
        PaletteRowView::Command { name, desc, keys, disabled, .. } => (
            if disabled {
                if selected {
                    "×›"@
                } else {
                    "× "@
                }
            } else if selected {
                "▸ "@
            } else {
                "  "@
            },
            name,
            desc,
            keys,
        ),
        PaletteRowView::Reference { keys, desc, row_id, prefill } => (
            if selected && prefill is Some {
                "↳ "@
            } else if prefill is Some {
                "◦ "@
            } else if selected {
                "› "@
            } else {
                "· "@
            },
            keys,
            desc,
            row_id,
        ),
    }
}

/// The text of a palette row: marker, then the padded primary column, then
/// each non-empty secondary column after a space.
pub open spec fn spec_palette_line(row: PaletteRowView, selected: bool, width: u16, result: Seq<
    char,
>) -> bool {
    let (marker, primary, description, tail) = spec_line_parts(row, selected);
    let columns = spec_palette_columns(width);
    exists|p: Seq<char>, d: Seq<char>, t: Seq<char>|
        #![trigger spec_pad(primary, columns.primary, p), spec_pad(description, columns.description, d), spec_pad(tail, columns.tail, t)]
        spec_pad(primary, columns.primary, p) && spec_pad(description, columns.description, d)
            && spec_pad(tail, columns.tail, t) && result == marker + p + (if columns.description > 0 {
            seq![' '] + d
        } else {
            Seq::empty()
        }) + (if columns.tail > 0 {
            seq![' '] + t
        } else {
            Seq::empty()
        })
}

/// The marker and three column texts of a palette row.
fn line_parts(row: &PaletteRow, selected: bool) -> (r: (&'static str, &str, &str, &str))
    ensures
        ({
            let (m, a, b, c) = spec_line_parts(row@, selected);
            r.0@ == m && r.1@ == a && r.2@ == b && r.3@ == c
        }),
{
    match row {
        PaletteRow::Command { name, desc, keys, disabled, .. } => (
            if *disabled {
                if selected {
                    "×›"
                } else {
                    "× "
                }
            } else if selected {
                "▸ "
            } else {
                "  "
            },
            name.as_str(),
            desc.as_str(),
            keys.as_str(),
        ),
        PaletteRow::Reference { keys, desc, row_id, prefill } => (
            if selected && prefill.is_some() {
                "↳ "
            } else if prefill.is_some() {
                "◦ "
            } else if selected {
                "› "
            } else {
                "· "
            },
            keys.as_str(),
            desc.as_str(),
            row_id.as_str(),
        ),
    }
}

/// One display-width-aware line shared by executable and reference rows.
pub fn palette_line(row: &PaletteRow, selected: bool, width: u16) -> (r: String)
    ensures
        spec_palette_line(row@, selected, width, r@),
{
    let (marker, primary, description, tail) = line_parts(row, selected);
    let columns = palette_columns(width);
    let p = pad(primary, columns.primary);
    let d = pad(description, columns.description);
    let t = pad(tail, columns.tail);
    let mut result = concat(marker, p.as_str());
    let ghost after_primary = result@;
    if columns.description > 0 {
        push_char(&mut result, ' ');
        result.append(d.as_str());
    }
    let ghost after_description = result@;
    if columns.tail > 0 {
        push_char(&mut result, ' ');
        result.append(t.as_str());
    }
    proof {
        let (m, a, b, c) = spec_line_parts(row@, selected);
        let dpart = if columns.description > 0 {
            seq![' '] + d@
        } else {
            Seq::empty()
        };
        let tpart = if columns.tail > 0 {
            seq![' '] + t@
        } else {
            Seq::empty()
        };
        assert(after_description =~= m + p@ + dpart);
        assert(result@ =~= m + p@ + dpart + tpart);
    }
    result
}

/// The first visible row of a list `list_height` rows tall that keeps row
/// `selected` visible, saturating at `u16::MAX`.
pub open spec fn spec_viewport_offset(selected: usize, list_height: u16) -> u16 {
    let capacity = list_height as int;
    let offset = if capacity == 0 { selected as int } else if selected >= capacity - 1 {
        selected - (capacity - 1)
    } else {
        0
    };
    if offset <= u16::MAX {
        offset as u16
    } else {
        u16::MAX
    }
}

/// The minimal vertical scroll that keeps the selected row visible.
pub fn viewport_offset(selected: usize, list_height: u16) -> (r: u16)
    ensures
        r == spec_viewport_offset(selected, list_height),
        list_height > 0 && selected - (list_height - 1) <= u16::MAX ==> r <= selected < r
            + list_height,
{
    let capacity = list_height as usize;
    let offset = selected.saturating_sub(capacity.saturating_sub(1));
    if offset <= 65535 {
        offset as u16
    } else {
        65535
    }
}

/// The palette area: 80% of the parent in each direction, at least the
/// 40×12 floor, never more than the parent, centered in it.
pub open spec fn spec_palette_area(parent: Rect) -> Rect {
    let w80 = parent.width * 4 / 5;
    let h80 = parent.height * 4 / 5;
    let width = if w80 >= 40 { w80 } else { 40 };
    let height = if h80 >= 12 { h80 } else { 12 };
    spec_centered_area(
        (if width <= parent.width { width } else { parent.width as int }) as u16,
        (if height <= parent.height { height } else { parent.height as int }) as u16,
        parent,
    )
}

/// The responsive palette rectangle within the parent area.
pub fn palette_area(parent: Rect) -> (r: Rect)
    ensures
        r == spec_palette_area(parent),
{
    let w80 = ((parent.width as u32) * 4 / 5) as u16;
    let h80 = ((parent.height as u32) * 4 / 5) as u16;
    let width = if w80 >= 40 { w80 } else { 40 };
    let height = if h80 >= 12 { h80 } else { 12 };
    centered_area(
        if width <= parent.width { width } else { parent.width },
        if height <= parent.height { height } else { parent.height },
        parent,
    )
}

} // verus!
