//! Row bookkeeping for the rendered surface: the line-number gutter's
//! continuation marks, and which surface and carrier each row is drawn
//! with.
//!
//! A rendered row shows its source line number when it starts a source
//! line. A content row that continues the previous row's source (a width
//! wrap) shows a continuation mark for the last numbered source line.

use vstd::prelude::*;

verus! {

/// What the gutter needs to know of one rendered row.
#[derive(Debug, Clone, Copy, PartialEq, Eq, Structural)]
pub struct RenderedRowSource {
    /// Whether the row shows document content (not a synthetic row).
    pub content: bool,
    /// The source byte range the row comes from.
    pub source_start: usize,
    pub source_end: usize,
}

/// The zero-based source line of the last numbered row before `row`.
pub open spec fn spec_last_numbered(numbers: Seq<Option<usize>>, row: int) -> Option<usize>
    decreases row,
{
    if row <= 0 {
        None
    } else if row - 1 < numbers.len() && numbers[row - 1] is Some {
        let n = numbers[row - 1]->Some_0;
        Some(if n > 0 { (n - 1) as usize } else { 0usize })
    } else {
        spec_last_numbered(numbers, row - 1)
    }
}

/// Whether `row` is an unnumbered content row from the same source range
/// as the row before it.
pub open spec fn spec_is_continuation(lines: Seq<RenderedRowSource>, numbers: Seq<Option<usize>>, row: int) -> bool {
    &&& 0 < row < lines.len()
    &&& row < numbers.len()
    &&& numbers[row] is None
    &&& lines[row].content
    &&& lines[row].source_start == lines[row - 1].source_start
    &&& lines[row].source_end == lines[row - 1].source_end
}

/// The continuation mark of a row: the last numbered source line, for a
/// continuation row; none otherwise.
pub open spec fn spec_continuation(lines: Seq<RenderedRowSource>, numbers: Seq<Option<usize>>, row: int) -> Option<usize> {
    if spec_is_continuation(lines, numbers, row) {
        spec_last_numbered(numbers, row)
    } else {
        None
    }
}

/// For every rendered row, the source line whose continuation it shows.
/// Only an unnumbered content row that repeats the previous row's source
/// range gets a mark.
pub fn gutter_continuation_sources(lines: &Vec<RenderedRowSource>, line_numbers: &Vec<Option<usize>>) -> (r: Vec<Option<usize>>)
    ensures
        r@.len() == lines@.len(),
        forall|row: int| 0 <= row < r@.len() ==> #[trigger] r@[row] == spec_continuation(lines@, line_numbers@, row),
        forall|row: int| 0 <= row < r@.len() && (#[trigger] r@[row]) is Some ==> {
            &&& lines@[row].content
            &&& row > 0 && lines@[row].source_start == lines@[row - 1].source_start
            &&& lines@[row].source_end == lines@[row - 1].source_end
            &&& line_numbers@[row] is None
        },
{
    let mut out: Vec<Option<usize>> = Vec::new();
    let mut source_line: Option<usize> = None;
    let mut row: usize = 0;
    while row < lines.len()
        invariant
            row <= lines@.len(),
            out@.len() == row,
            source_line == spec_last_numbered(line_numbers@, row as int),
            forall|k: int| 0 <= k < row ==> #[trigger] out@[k] == spec_continuation(lines@, line_numbers@, k),
        decreases lines@.len() - row,
    {
        let number = if row < line_numbers.len() { line_numbers[row] } else { None };
        let mark = match number {
            Some(_) => None,
            None => if row > 0 && row < line_numbers.len() && lines[row].content
                && lines[row].source_start == lines[row - 1].source_start
                && lines[row].source_end == lines[row - 1].source_end {
                source_line
            } else {
                None
            },
        };
        match number {
            Some(n) => {
                source_line = Some(n.saturating_sub(1));
            },
            None => {},
        }
        out.push(mark);
        row = row + 1;
    }
    out
}

/// What a rendered row shows.
#[derive(Debug, Clone, Copy, PartialEq, Eq, Structural)]
pub enum RowRole {
    /// Document text.
    Document,
    /// The front-matter metadata panel.
    Metadata,
    /// A fenced code block.
    CodeFence,
}

/// The selected display columns on one rendered row.
#[derive(Debug, Clone, PartialEq, Eq)]
pub struct SelectionRow {
    pub row: usize,
    /// Half-open column intervals `(start, end)`.
    pub columns: Vec<(usize, usize)>,
}

/// The carrier a rendered row is drawn with.
#[derive(Debug, Clone, PartialEq, Eq)]
pub enum RowCarrier {
    /// The selection carrier over these column intervals; its background is
    /// kept only on a row without a panel surface.
    Selection { columns: Vec<(usize, usize)>, keep_background: bool },
    /// The cursor-line carrier over the whole row, underlined on the
    /// metadata panel.
    CursorLine { underlined: bool },
    /// No carrier.
    Plain,
}

/// How one rendered row is drawn.
#[derive(Debug, Clone, PartialEq, Eq)]
pub struct RowPlan {
    /// Whether the row is laid on its role's panel surface first.
    pub surface: bool,
    pub carrier: RowCarrier,
    /// The Normal-mode cursor cell, as a column interval.
    pub cursor_cell: Option<(usize, usize)>,
}

/// The position of the first selection entry for `row`, if any.
pub open spec fn spec_selection_entry(selection: Seq<SelectionRow>, row: int) -> Option<int>
    decreases selection.len(),
{
    if selection.len() == 0 {
        None
    } else {
        match spec_selection_entry(selection.drop_last(), row) {
            Some(k) => Some(k),
            None => if selection.last().row == row { Some(selection.len() - 1) } else { None },
        }
    }
}

/// Whether some column interval is not empty.
pub open spec fn spec_any_columns(columns: Seq<(usize, usize)>) -> bool {
    exists|k: int| 0 <= k < columns.len() && columns[k].0 < columns[k].1
}

/// The plan for rendered row `row`: a panel surface for metadata and code
/// fences; the selection carrier when the row's first selection entry has
/// a non-empty interval, else the cursor-line carrier on the cursor's row;
/// and, in Normal mode, the cursor's cell on its row.
pub open spec fn spec_row_plan(
    row: int,
    role: RowRole,
    selection: Seq<SelectionRow>,
    cursor_row: int,
    cursor_column: int,
    normal_mode: bool,
) -> (bool, Option<(Seq<(usize, usize)>, bool)>, Option<bool>, Option<(usize, usize)>) {
    let surface = role != RowRole::Document;
    let entry = spec_selection_entry(selection, row);
    let selected = entry matches Some(k) && spec_any_columns(selection[k].columns@);
    let cursor_cell = if normal_mode && row == cursor_row {
        Some((cursor_column as usize, if cursor_column < usize::MAX { (cursor_column + 1) as usize } else { usize::MAX }))
    } else {
        None
    };
    if selected {
        (surface, Some((selection[entry->Some_0].columns@, !surface)), None, cursor_cell)
    } else if row == cursor_row {
        (surface, None, Some(role == RowRole::Metadata), cursor_cell)
    } else {
        (surface, None, None, cursor_cell)
    }
}

/// A row plan as plain values: the surface flag, the selection carrier
/// (intervals and whether its background is kept), the cursor-line carrier
/// (whether underlined), and the cursor cell.
pub open spec fn spec_plan_view(p: RowPlan) -> (bool, Option<(Seq<(usize, usize)>, bool)>, Option<bool>, Option<(usize, usize)>) {
    (
        p.surface,
        match p.carrier {
            RowCarrier::Selection { columns, keep_background } => Some((columns@, keep_background)),
            _ => None,
        },
        match p.carrier {
            RowCarrier::CursorLine { underlined } => Some(underlined),
            _ => None,
        },
        p.cursor_cell,
    )
}

/// The position of the first selection entry for `row`.
fn selection_entry(selection: &Vec<SelectionRow>, row: usize) -> (r: Option<usize>)
    ensures
        r matches Some(k) ==> k < selection@.len() && spec_selection_entry(selection@, row as int) == Some(k as int),
        r is None ==> spec_selection_entry(selection@, row as int) is None,
{
    let mut k: usize = 0;
    while k < selection.len()
        invariant
            k <= selection@.len(),
            spec_selection_entry(selection@.take(k as int), row as int) is None,
        decreases selection.len() - k,
    {
        proof {
            assert(selection@.take(k + 1).drop_last() =~= selection@.take(k as int));
        }
        if selection[k].row == row {
            proof {
                lemma_selection_entry_prefix(selection@, k + 1, row as int);
            }
            return Some(k);
        }
        k = k + 1;
    }
    proof {
        assert(selection@.take(selection@.len() as int) =~= selection@);
    }
    None
}

/// The first entry for a row is the same in a sequence and in any prefix
/// that holds it.
proof fn lemma_selection_entry_prefix(selection: Seq<SelectionRow>, n: int, row: int)
    requires
        0 <= n <= selection.len(),
        spec_selection_entry(selection.take(n), row) is Some,
    ensures
        spec_selection_entry(selection, row) == spec_selection_entry(selection.take(n), row),
    decreases selection.len(),
{
    if n < selection.len() {
        assert(selection.drop_last().take(n) =~= selection.take(n));
        lemma_selection_entry_prefix(selection.drop_last(), n, row);
    } else {
        assert(selection.take(n) =~= selection);
    }
}

/// Plan how rendered row `row` is drawn (see `spec_row_plan`).
pub fn rendered_row_plan(
    row: usize,
    role: RowRole,
    selection: &Vec<SelectionRow>,
    cursor_row: usize,
    cursor_column: usize,
    normal_mode: bool,
) -> (r: RowPlan)
    ensures
        spec_plan_view(r) == spec_row_plan(row as int, role, selection@, cursor_row as int, cursor_column as int, normal_mode),
{
    let surface = role != RowRole::Document;
    let cursor_cell = if normal_mode && row == cursor_row {
        Some((cursor_column, cursor_column.saturating_add(1)))
    } else {
        None
    };
    let mut columns: Option<Vec<(usize, usize)>> = None;
    match selection_entry(selection, row) {
        Some(k) => {
            let entry = &selection[k];
            let mut any = false;
            let mut copy: Vec<(usize, usize)> = Vec::new();
            let mut m: usize = 0;
            while m < entry.columns.len()
                invariant
                    m <= entry.columns@.len(),
                    copy@ == entry.columns@.take(m as int),
                    any <==> exists|j: int| 0 <= j < m && entry.columns@[j].0 < entry.columns@[j].1,
                decreases entry.columns.len() - m,
            {
                let interval = entry.columns[m];
                if interval.0 < interval.1 {
                    any = true;
                }
                copy.push(interval);
                proof {
                    assert(entry.columns@.take(m + 1) =~= entry.columns@.take(m as int).push(interval));
                }
                m = m + 1;
            }
            proof {
                assert(entry.columns@.take(entry.columns@.len() as int) =~= entry.columns@);
                assert(selection@[k as int] == *entry);
                if any {
                    assert(spec_any_columns(entry.columns@));
                }
            }
            if any {
                columns = Some(copy);
            }
        },
        None => {},
    }

    let carrier = match columns {
        Some(columns) => RowCarrier::Selection { columns, keep_background: !surface },
        None => if row == cursor_row {
            RowCarrier::CursorLine { underlined: role == RowRole::Metadata }
        } else {
            RowCarrier::Plain
        },
    };
    RowPlan { surface, carrier, cursor_cell }
}

} // verus!
