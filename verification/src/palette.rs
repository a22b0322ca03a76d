//! Command palette: a fuzzy-filtered list of the App commands from the
//! registry, followed by a static, non-executable Vim reference.
//!
//! Rows for commands that the current context disables stay listed but
//! cannot be run. Floor geometry: 40×12. Esc closes; Enter runs or pre-fills.

use vstd::prelude::*;
use crate::fuzzy::{fuzzy_match, spec_embeds, spec_fuzzy_match, spec_is_subsequence};
use crate::keys::{KeyCodeKind, KeyInput};
use crate::registry::{
    commands, ex_prefill, rendered_binding_for, spec_command, spec_commands, spec_ex_prefill,
    spec_rendered_binding_for, spec_visible, AppCommand, BindingRole, CommandSpec, Contexts,
};
use crate::text::{concat, lowercase, push_char, spec_lowercase, to_string};

verus! {

/// One row of the Vim reference: keys, description, row id, and the
/// editable ex text the row pre-fills, if any.
pub type VimReferenceRow = (&'static str, &'static str, &'static str, Option<&'static str>);

/// Number of rows in the Vim reference.
pub open spec fn spec_vim_reference_count() -> int {
    26
}

/// Row `i` of the Vim reference (rows past the end repeat the last row).
pub open spec fn spec_vim_reference_row(i: int) -> VimReferenceRow {
    if i == 0 {
        ("j/k, ↑/↓", "Move by rendered row.", "R-N1", None)
    } else if i == 1 {
        ("gg / G", "Jump to the first / last rendered row.", "R-N2", None)
    } else if i == 2 {
        ("Tab / S-Tab", "Move between rendered jump targets.", "R-N3", None)
    } else if i == 3 {
        ("/pattern⏎", "Search rendered text forward.", "R-N4", None)
    } else if i == 4 {
        ("n / N", "Repeat the rendered search.", "R-N4", None)
    } else if i == 5 {
        ("i/a/I/A/o/O", "Enter source Insert mode.", "R-I1", None)
    } else if i == 6 {
        ("Esc", "Return from Insert to rendered Normal.", "R-I2", None)
    } else if i == 7 {
        ("u / <C-r>", "Undo / redo.", "R-E1", None)
    } else if i == 8 {
        ("y", "Yank to clipboard as rendered text (copy_format = plain-text).", "select-yank-plain-text", None)
    } else if i == 9 {
        (":w", "Save (atomic).", "V-X1", Some("w"))
    } else if i == 10 {
        (":w {path}", "Save a copy to path without retargeting buffer.", "V-X1", Some("w "))
    } else if i == 11 {
        (":q", "Quit; refuses if dirty.", "V-X2", Some("q"))
    } else if i == 12 {
        (":q!", "Quit; discards changes.", "V-X2", Some("q!"))
    } else if i == 13 {
        (":wq", "Save then quit.", "V-X3", Some("wq"))
    } else if i == 14 {
        (":x", "Save then quit (if changed).", "V-X3", Some("x"))
    } else if i == 15 {
        (":e {path}", "Open file; refuses if dirty without !.", "V-X4", Some("e "))
    } else if i == 16 {
        (":e!", "Reload current file from disk.", "V-X4", Some("e!"))
    } else if i == 17 {
        (":reload", "Reload current file from disk.", "V-X4", Some("reload"))
    } else if i == 18 {
        (":reload-all", "Reload every open tab from disk.", "V-X4", Some("reload-all"))
    } else if i == 19 {
        (":saveas {path}", "Save to path and retarget buffer.", "V-X5", Some("saveas "))
    } else if i == 20 {
        (":{number}", "Jump to line.", "V-X6", None)
    } else if i == 21 {
        (":s/pat/rep/", "Substitute on current line.", "V-X7", Some("s/"))
    } else if i == 22 {
        (":s/pat/rep/g", "Substitute all on current line.", "V-X7", Some("s/"))
    } else if i == 23 {
        (":%s/pat/rep/g", "Substitute all in document.", "V-X7", Some("%s/"))
    } else if i == 24 {
        (":noh", "Clear search-match highlighting.", "V-X8", Some("noh"))
    } else {
        (":help", "Open the command palette.", "V-X8", Some("help"))
    }
}

/// The Vim reference table.
pub open spec fn spec_vim_reference() -> Seq<VimReferenceRow> {
    Seq::new(26, |i: int| spec_vim_reference_row(i))
}

/// Static reference entries for the supported four-mode interaction model.
pub fn vim_reference() -> (r: Vec<VimReferenceRow>)
    ensures
        r@ == spec_vim_reference(),
{
    let mut v: Vec<VimReferenceRow> = Vec::new();
    v.push(("j/k, ↑/↓", "Move by rendered row.", "R-N1", None));
    v.push(("gg / G", "Jump to the first / last rendered row.", "R-N2", None));
    v.push(("Tab / S-Tab", "Move between rendered jump targets.", "R-N3", None));
    v.push(("/pattern⏎", "Search rendered text forward.", "R-N4", None));
    v.push(("n / N", "Repeat the rendered search.", "R-N4", None));
    v.push(("i/a/I/A/o/O", "Enter source Insert mode.", "R-I1", None));
    v.push(("Esc", "Return from Insert to rendered Normal.", "R-I2", None));
    v.push(("u / <C-r>", "Undo / redo.", "R-E1", None));
    v.push(("y", "Yank to clipboard as rendered text (copy_format = plain-text).", "select-yank-plain-text", None));
    v.push((":w", "Save (atomic).", "V-X1", Some("w")));
    v.push((":w {path}", "Save a copy to path without retargeting buffer.", "V-X1", Some("w ")));
    v.push((":q", "Quit; refuses if dirty.", "V-X2", Some("q")));
    v.push((":q!", "Quit; discards changes.", "V-X2", Some("q!")));
    v.push((":wq", "Save then quit.", "V-X3", Some("wq")));
    v.push((":x", "Save then quit (if changed).", "V-X3", Some("x")));
    v.push((":e {path}", "Open file; refuses if dirty without !.", "V-X4", Some("e ")));
    v.push((":e!", "Reload current file from disk.", "V-X4", Some("e!")));
    v.push((":reload", "Reload current file from disk.", "V-X4", Some("reload")));
    v.push((":reload-all", "Reload every open tab from disk.", "V-X4", Some("reload-all")));
    v.push((":saveas {path}", "Save to path and retarget buffer.", "V-X5", Some("saveas ")));
    v.push((":{number}", "Jump to line.", "V-X6", None));
    v.push((":s/pat/rep/", "Substitute on current line.", "V-X7", Some("s/")));
    v.push((":s/pat/rep/g", "Substitute all on current line.", "V-X7", Some("s/")));
    v.push((":%s/pat/rep/g", "Substitute all in document.", "V-X7", Some("%s/")));
    v.push((":noh", "Clear search-match highlighting.", "V-X8", Some("noh")));
    v.push((":help", "Open the command palette.", "V-X8", Some("help")));
    proof {
        assert(v@ =~= spec_vim_reference());
    }
    v
}

/// A single row in the palette.
#[derive(Debug)]
pub enum PaletteRow {
    /// An executable App command.
    Command { id: AppCommand, name: String, desc: String, keys: String, disabled: bool },
    /// A non-executable reference entry.
    Reference { keys: String, desc: String, row_id: String, prefill: Option<&'static str> },
}

/// The plain-value form of a palette row.
pub ghost enum PaletteRowView {
    Command { id: AppCommand, name: Seq<char>, desc: Seq<char>, keys: Seq<char>, disabled: bool },
    Reference { keys: Seq<char>, desc: Seq<char>, row_id: Seq<char>, prefill: Option<&'static str> },
}

impl View for PaletteRow {
    type V = PaletteRowView;

    open spec fn view(&self) -> PaletteRowView {
        match self {
            PaletteRow::Command { id, name, desc, keys, disabled } => PaletteRowView::Command {
                id: *id,
                name: name@,
                desc: desc@,
                keys: keys@,
                disabled: *disabled,
            },
            PaletteRow::Reference { keys, desc, row_id, prefill } => PaletteRowView::Reference {
                keys: keys@,
                desc: desc@,
                row_id: row_id@,
                prefill: *prefill,
            },
        }
    }
}

/// What Enter can do with the focused palette row.
#[derive(Debug, Clone, Copy, PartialEq, Eq)]
pub enum PaletteAction {
    App(AppCommand),
    ExPrefill(&'static str),
}

/// Number of rows the palette lists: every registry row, then the Vim reference.
pub open spec fn spec_palette_row_count() -> int {
    55
}

/// The palette row listing registry row `row` in context `ctx`.
pub open spec fn spec_registry_palette_row(row: CommandSpec, ctx: Contexts) -> PaletteRowView {
    let keys = spec_rendered_binding_for(row, ctx);
    let row_id = match row.conformance_id {
        Some(id) => id@,
        None => row.name@,
    };
    match row.binding {
        BindingRole::AppChord { command, .. } => PaletteRowView::Command {
            id: command,
            name: row.name@,
            desc: row.desc@,
            keys,
            disabled: !spec_visible(row, ctx),
        },
        BindingRole::CoreEx { .. } => PaletteRowView::Reference {
            keys,
            desc: row.desc@,
            row_id,
            prefill: spec_ex_prefill(row.id),
        },
        _ => PaletteRowView::Reference { keys, desc: row.desc@, row_id, prefill: None },
    }
}

/// The palette row listing a Vim reference row.
pub open spec fn spec_reference_palette_row(r: VimReferenceRow) -> PaletteRowView {
    PaletteRowView::Reference { keys: r.0@, desc: r.1@, row_id: r.2@, prefill: r.3 }
}

/// Palette row `i` in context `ctx`.
pub open spec fn spec_palette_row(ctx: Contexts, i: int) -> PaletteRowView {
    if i < 29 {
        spec_registry_palette_row(spec_command(i), ctx)
    } else {
        spec_reference_palette_row(spec_vim_reference_row(i - 29))
    }
}

/// The full palette row list in context `ctx`.
pub open spec fn spec_palette_rows(ctx: Contexts) -> Seq<PaletteRowView> {
    Seq::new(55, |i: int| spec_palette_row(ctx, i))
}

/// The palette row for a registry row.
fn registry_palette_row(spec: &CommandSpec, ctx: Contexts) -> (r: PaletteRow)
    ensures
        r@ == spec_registry_palette_row(*spec, ctx),
{
    let enabled = spec.contexts.contains(ctx);
    let keys = rendered_binding_for(spec, ctx);
    let row_id = match spec.conformance_id {
        Some(id) => to_string(id),
        None => to_string(spec.name),
    };
    match spec.binding {
        BindingRole::AppChord { command, .. } => PaletteRow::Command {
            id: command,
            name: to_string(spec.name),
            desc: to_string(spec.desc),
            keys,
            disabled: !enabled,
        },
        BindingRole::CoreEx { .. } => PaletteRow::Reference {
            keys,
            desc: to_string(spec.desc),
            row_id,
            prefill: ex_prefill(spec),
        },
        _ => PaletteRow::Reference { keys, desc: to_string(spec.desc), row_id, prefill: None },
    }
}

/// Build the full row list: the registry rows, then the Vim reference.
pub fn build_rows(ctx: Contexts) -> (r: Vec<PaletteRow>)
    ensures
        r@.len() == 55,
        forall|i: int| 0 <= i < 55 ==> #[trigger] r@[i]@ == spec_palette_row(ctx, i),
{
    let specs = commands();
    let refs = vim_reference();
    let mut rows: Vec<PaletteRow> = Vec::new();
    let mut i: usize = 0;
    while i < specs.len()
        invariant
            specs@ == spec_commands(),
            i <= specs.len(),
            rows@.len() == i,
            forall|k: int| 0 <= k < i ==> #[trigger] rows@[k]@ == spec_palette_row(ctx, k),
        decreases specs.len() - i,
    {
        rows.push(registry_palette_row(&specs[i], ctx));
        i = i + 1;
    }
    let mut k: usize = 0;
    while k < refs.len()
        invariant
            refs@ == spec_vim_reference(),
            k <= refs.len(),
            rows@.len() == 29 + k,
            forall|m: int| 0 <= m < 29 + k ==> #[trigger] rows@[m]@ == spec_palette_row(ctx, m),
        decreases refs.len() - k,
    {
        let (keys, desc, row_id, prefill) = refs[k];
        rows.push(
            PaletteRow::Reference {
                keys: to_string(keys),
                desc: to_string(desc),
                row_id: to_string(row_id),
                prefill,
            },
        );
        k = k + 1;
    }
    rows
}

/// The text a row is searched by: its three columns joined by spaces.
pub open spec fn spec_search_text(row: PaletteRowView) -> Seq<char> {
    match row {
        PaletteRowView::Command { name, desc, keys, .. } => name + " "@ + desc + " "@ + keys,
        PaletteRowView::Reference { keys, desc, row_id, .. } => keys + " "@ + desc + " "@ + row_id,
    }
}

/// Whether a row survives the (non-empty) filter text.
pub open spec fn spec_row_matches(filter: Seq<char>, row: PaletteRowView) -> bool {
    spec_fuzzy_match(spec_lowercase(filter), spec_lowercase(spec_search_text(row)))
}

/// The indices among the first `n` rows that survive the filter, in order;
/// an empty filter keeps every row.
pub open spec fn spec_filtered(filter: Seq<char>, rows: Seq<PaletteRowView>, n: int) -> Seq<usize>
    decreases n,
{
    if n <= 0 {
        Seq::empty()
    } else {
        let prev = spec_filtered(filter, rows, n - 1);
        if filter.len() == 0 || spec_row_matches(filter, rows[n - 1]) {
            prev.push((n - 1) as usize)
        } else {
            prev
        }
    }
}

/// The plain-value forms of a row list.
pub open spec fn spec_rows_view(rows: Seq<PaletteRow>) -> Seq<PaletteRowView> {
    rows.map_values(|r: PaletteRow| r@)
}

/// The searchable text of a row.
fn search_text(row: &PaletteRow) -> (r: String)
    ensures
        r@ == spec_search_text(row@),
{
    match row {
        PaletteRow::Command { name, desc, keys, .. } => {
            let a = concat(name.as_str(), " ");
            let b = concat(a.as_str(), desc.as_str());
            let c = concat(b.as_str(), " ");
            concat(c.as_str(), keys.as_str())
        },
        PaletteRow::Reference { keys, desc, row_id, .. } => {
            let a = concat(keys.as_str(), " ");
            let b = concat(a.as_str(), desc.as_str());
            let c = concat(b.as_str(), " ");
            concat(c.as_str(), row_id.as_str())
        },
    }
}

/// Filter rows by fuzzy subsequence matching against `filter`.
pub fn filter_rows(filter: &str, rows: &Vec<PaletteRow>) -> (r: Vec<usize>)
    ensures
        r@ == spec_filtered(filter@, spec_rows_view(rows@), rows@.len() as int),
{
    let ghost view = spec_rows_view(rows@);
    let empty = filter.unicode_len() == 0;
    let lower = lowercase(filter);
    let mut out: Vec<usize> = Vec::new();
    let mut i: usize = 0;
    while i < rows.len()
        invariant
            view == spec_rows_view(rows@),
            i <= rows.len(),
            empty == (filter@.len() == 0),
            lower@ == spec_lowercase(filter@),
            out@ == spec_filtered(filter@, view, i as int),
        decreases rows.len() - i,
    {
        if empty {
            out.push(i);
        } else {
            let text = search_text(&rows[i]);
            let searchable = lowercase(text.as_str());
            if fuzzy_match(lower.as_str(), searchable.as_str()) {
                out.push(i);
            }
        }
        i = i + 1;
    }
    out
}

/// Whether a row is an executable, enabled App command.
pub open spec fn spec_is_action(row: PaletteRowView) -> bool {
    row matches PaletteRowView::Command { disabled, .. } && !disabled
}

/// Positions, within the first `n` visible rows, of enabled App commands.
pub open spec fn spec_action_positions(
    visible: Seq<usize>,
    rows: Seq<PaletteRowView>,
    n: int,
) -> Seq<usize>
    decreases n,
{
    if n <= 0 {
        Seq::empty()
    } else {
        let prev = spec_action_positions(visible, rows, n - 1);
        if spec_is_action(rows[visible[n - 1] as int]) {
            prev.push((n - 1) as usize)
        } else {
            prev
        }
    }
}

/// Whether a row is an enabled App command.
fn is_action(row: &PaletteRow) -> (r: bool)
    ensures
        r == spec_is_action(row@),
{
    match row {
        PaletteRow::Command { disabled, .. } => !*disabled,
        _ => false,
    }
}

/// The indices produced by filtering are in range.
proof fn lemma_filtered_in_range(filter: Seq<char>, rows: Seq<PaletteRowView>, n: int)
    requires
        0 <= n <= rows.len(),
    ensures
        spec_filtered(filter, rows, n).len() <= n,
        forall|k: int|
            0 <= k < spec_filtered(filter, rows, n).len() ==> #[trigger] spec_filtered(
                filter,
                rows,
                n,
            )[k] < n,
    decreases n,
{
    if n > 0 {
        lemma_filtered_in_range(filter, rows, n - 1);
    }
}

/// Positions, among the visible rows, of enabled App commands.
fn action_positions(filter: &str, rows: &Vec<PaletteRow>) -> (r: Vec<usize>)
    ensures
        ({
            let visible = spec_filtered(filter@, spec_rows_view(rows@), rows@.len() as int);
            r@ == spec_action_positions(visible, spec_rows_view(rows@), visible.len() as int)
        }),
{
    let visible = filter_rows(filter, rows);
    proof {
        lemma_filtered_in_range(filter@, spec_rows_view(rows@), rows@.len() as int);
    }
    let mut out: Vec<usize> = Vec::new();
    let mut p: usize = 0;
    while p < visible.len()
        invariant
            visible@ == spec_filtered(filter@, spec_rows_view(rows@), rows@.len() as int),
            forall|k: int| 0 <= k < visible@.len() ==> #[trigger] visible@[k] < rows@.len(),
            p <= visible.len(),
            out@ == spec_action_positions(visible@, spec_rows_view(rows@), p as int),
        decreases visible.len() - p,
    {
        if is_action(&rows[visible[p]]) {
            out.push(p);
        }
        p = p + 1;
    }
    out
}

/// The position a palette focuses after its filter changes: the first
/// enabled App command, or the top row when there is none.
pub open spec fn spec_first_action(filter: Seq<char>, ctx: Contexts) -> usize {
    let rows = spec_palette_rows(ctx);
    let visible = spec_filtered(filter, rows, 55);
    let actions = spec_action_positions(visible, rows, visible.len() as int);
    if actions.len() > 0 {
        actions[0]
    } else {
        0
    }
}

/// The rows visible under `filter` in context `ctx`.
pub open spec fn spec_visible_rows(filter: Seq<char>, ctx: Contexts) -> Seq<usize> {
    spec_filtered(filter, spec_palette_rows(ctx), 55)
}

/// The plain-value forms of freshly built rows are the palette rows.
proof fn lemma_built_rows_view(rows: Seq<PaletteRow>, ctx: Contexts)
    requires
        rows.len() == 55,
        forall|i: int| 0 <= i < 55 ==> #[trigger] rows[i]@ == spec_palette_row(ctx, i),
    ensures
        spec_rows_view(rows) == spec_palette_rows(ctx),
{
    assert(spec_rows_view(rows) =~= spec_palette_rows(ctx));
}

/// One key step of the palette: from filter `filter` and focus `sel` in
/// context `ctx`, the key leads to `new_filter` and `new_sel` and reports
/// `consumed`. Esc, Ctrl-C, and Enter pass through; Up/BackTab and
/// Down/Tab move the focus within the visible rows; a character without
/// Ctrl or Alt extends the filter and Backspace shortens it, each then
/// refocusing the first enabled App command.
pub open spec fn spec_palette_key_step(
    filter: Seq<char>,
    ctx: Contexts,
    sel: usize,
    key: KeyInput,
    new_filter: Seq<char>,
    new_sel: usize,
    consumed: bool,
) -> bool {
    let count = spec_visible_rows(filter, ctx).len();
    match key.code.kind {
        KeyCodeKind::Esc | KeyCodeKind::Enter => !consumed && new_filter == filter && new_sel
            == sel,
        KeyCodeKind::Up | KeyCodeKind::BackTab => consumed && new_filter == filter && new_sel == (
        if sel == 0 {
            0
        } else {
            (sel - 1) as usize
        }),
        KeyCodeKind::Down | KeyCodeKind::Tab => consumed && new_filter == filter && new_sel == (
        if sel + 1 <= count - 1 {
            (sel + 1) as usize
        } else if count == 0 {
            0usize
        } else {
            (count - 1) as usize
        }),
        KeyCodeKind::Char(c) => if key.mods.ctrl && c == 'c' {
            !consumed && new_filter == filter && new_sel == sel
        } else if !key.mods.ctrl && !key.mods.alt {
            consumed && new_filter == filter.push(c) && new_sel == spec_first_action(
                filter.push(c),
                ctx,
            )
        } else {
            !consumed && new_filter == filter && new_sel == sel
        },
        KeyCodeKind::Backspace => consumed && new_filter == (if filter.len() > 0 {
            filter.drop_last()
        } else {
            filter
        }) && new_sel == spec_first_action(new_filter, ctx),
        _ => !consumed && new_filter == filter && new_sel == sel,
    }
}

/// The App command the focused row runs: an enabled command row's command.
pub open spec fn spec_selected_command(filter: Seq<char>, ctx: Contexts, sel: usize) -> Option<
    AppCommand,
> {
    let visible = spec_visible_rows(filter, ctx);
    let rows = spec_palette_rows(ctx);
    if sel < visible.len() {
        match rows[visible[sel as int] as int] {
            PaletteRowView::Command { id, disabled, .. } => if disabled {
                None
            } else {
                Some(id)
            },
            _ => None,
        }
    } else {
        None
    }
}

/// The command palette state machine.
#[derive(Debug)]
pub struct PaletteState {
    /// Current filter text (matched case-insensitively).
    filter: String,
    /// Selected position within the filtered list.
    selected: usize,
    /// Mode context captured when the palette opened.
    context: Contexts,
}

impl PaletteState {
    /// The filter text.
    pub closed spec fn spec_filter(self) -> Seq<char> {
        self.filter@
    }

    /// The focused position within the visible rows.
    pub closed spec fn spec_selected(self) -> usize {
        self.selected
    }

    /// The context captured when the palette opened.
    pub closed spec fn spec_context(self) -> Contexts {
        self.context
    }

    /// Focus the first enabled App command under the current filter.
    fn select_first_action(&mut self)
        ensures
            final(self).spec_filter() == old(self).spec_filter(),
            final(self).spec_context() == old(self).spec_context(),
            final(self).spec_selected() == spec_first_action(
                old(self).spec_filter(),
                old(self).spec_context(),
            ),
    {
        let rows = build_rows(self.context);
        proof {
            lemma_built_rows_view(rows@, self.context);
        }
        let actions = action_positions(self.filter.as_str(), &rows);
        self.selected = if actions.len() > 0 { actions[0] } else { 0 };
    }

    /// A palette whose command availability reflects `context`, focused on
    /// the first enabled App command.
    pub fn new(context: Contexts) -> (r: Self)
        ensures
            r.spec_filter() == Seq::<char>::empty(),
            r.spec_context() == context,
            r.spec_selected() == spec_first_action(Seq::empty(), context),
    {
        let mut state = PaletteState { filter: String::new(), selected: 0, context };
        state.select_first_action();
        state
    }

    /// The same palette with its filter text replaced, keeping the focus.
    pub fn with_filter(self, filter: &str) -> (r: Self)
        ensures
            r.spec_filter() == filter@,
            r.spec_context() == self.spec_context(),
            r.spec_selected() == self.spec_selected(),
    {
        PaletteState { filter: to_string(filter), selected: self.selected, context: self.context }
    }

    /// The filter text.
    pub fn filter_text(&self) -> (r: &str)
        ensures
            r@ == self.spec_filter(),
    {
        self.filter.as_str()
    }

    /// The focused position within the visible rows.
    pub fn selected(&self) -> (r: usize)
        ensures
            r == self.spec_selected(),
    {
        self.selected
    }

    /// Move the focus to a position within the visible rows.
    pub fn set_selected(&mut self, selected: usize)
        ensures
            final(self).spec_selected() == selected,
            final(self).spec_filter() == old(self).spec_filter(),
            final(self).spec_context() == old(self).spec_context(),
    {
        self.selected = selected;
    }

    /// The context captured when the palette opened.
    pub fn context(&self) -> (r: Contexts)
        ensures
            r == self.spec_context(),
    {
        self.context
    }

    /// The full row list for a context.
    pub fn build_rows(&self, ctx: Contexts) -> (r: Vec<PaletteRow>)
        ensures
            spec_rows_view(r@) == spec_palette_rows(ctx),
    {
        let rows = build_rows(ctx);
        proof {
            lemma_built_rows_view(rows@, ctx);
        }
        rows
    }

    /// The indices of `rows` that survive this palette's filter, in order.
    pub fn filter_rows(&self, rows: &Vec<PaletteRow>) -> (r: Vec<usize>)
        ensures
            r@ == spec_filtered(self.spec_filter(), spec_rows_view(rows@), rows@.len() as int),
    {
        filter_rows(self.filter.as_str(), rows)
    }

    /// The row at the focused position among the visible rows, if any.
    pub fn visible_row<'a>(&self, rows: &'a Vec<PaletteRow>) -> (r: Option<&'a PaletteRow>)
        ensures
            ({
                let visible = spec_filtered(
                    self.spec_filter(),
                    spec_rows_view(rows@),
                    rows@.len() as int,
                );
                if self.spec_selected() < visible.len() {
                    r == Some(&rows@[visible[self.spec_selected() as int] as int])
                } else {
                    r.is_none()
                }
            }),
    {
        let visible = filter_rows(self.filter.as_str(), rows);
        proof {
            lemma_filtered_in_range(self.filter@, spec_rows_view(rows@), rows@.len() as int);
        }
        if self.selected < visible.len() {
            let i = visible[self.selected];
            return Some(&rows[i]);
        }
        None
    }

    /// Handle a key; returns whether the palette consumed it. Esc, Ctrl-C,
    /// and Enter pass through to the App.
    pub fn handle_key(&mut self, key: &KeyInput) -> (r: bool)
        ensures
            final(self).spec_context() == old(self).spec_context(),
            spec_palette_key_step(
                old(self).spec_filter(),
                old(self).spec_context(),
                old(self).spec_selected(),
                *key,
                final(self).spec_filter(),
                final(self).spec_selected(),
                r,
            ),
    {
        match key.code.kind {
            KeyCodeKind::Esc => false,
            KeyCodeKind::Enter => false,
            KeyCodeKind::Up | KeyCodeKind::BackTab => {
                self.selected = self.selected.saturating_sub(1);
                true
            },
            KeyCodeKind::Down | KeyCodeKind::Tab => {
                let rows = build_rows(self.context);
                proof {
                    lemma_built_rows_view(rows@, self.context);
                }
                let visible = filter_rows(self.filter.as_str(), &rows);
                let visible_count = visible.len();
                self.selected = self.selected.saturating_add(1);
                let last = visible_count.saturating_sub(1);
                if self.selected > last {
                    self.selected = last;
                }
                true
            },
            KeyCodeKind::Char(c) => {
                if key.mods.ctrl && c == 'c' {
                    false
                } else if !key.mods.ctrl && !key.mods.alt {
                    push_char(&mut self.filter, c);
                    self.select_first_action();
                    true
                } else {
                    false
                }
            },
            KeyCodeKind::Backspace => {
                crate::text::pop_char(&mut self.filter);
                self.select_first_action();
                true
            },
            _ => false,
        }
    }

    /// Preferred centered geometry (width, height).
    pub fn geometry(&self) -> (r: (u16, u16))
        ensures
            r == (40u16, 12u16),
    {
        (40, 12)
    }

    /// Hint text for the bottom bar.
    pub fn hints(&self) -> (r: &'static str)
        ensures
            r@ == "↑↓ navigate · type to filter · Enter run/open ex · Esc close"@,
    {
        "↑↓ navigate · type to filter · Enter run/open ex · Esc close"
    }

    /// What Enter does with the focused row: run an enabled App command,
    /// pre-fill an ex row's text, or nothing.
    pub fn selected_action(&self) -> (r: Option<PaletteAction>)
        ensures
            ({
                let visible = spec_visible_rows(self.spec_filter(), self.spec_context());
                let rows = spec_palette_rows(self.spec_context());
                if self.spec_selected() < visible.len() {
                    match rows[visible[self.spec_selected() as int] as int] {
                        PaletteRowView::Command { id, disabled, .. } => if disabled {
                            r.is_none()
                        } else {
                            r == Some(PaletteAction::App(id))
                        },
                        PaletteRowView::Reference { prefill, .. } => match prefill {
                            Some(text) => r == Some(PaletteAction::ExPrefill(text)),
                            None => r.is_none(),
                        },
                    }
                } else {
                    r.is_none()
                }
            }),
    {
        let rows = build_rows(self.context);
        proof {
            lemma_built_rows_view(rows@, self.context);
            lemma_filtered_in_range(self.filter@, spec_rows_view(rows@), 55);
        }
        let visible = filter_rows(self.filter.as_str(), &rows);
        if self.selected >= visible.len() {
            return None;
        }
        let i = visible[self.selected];
        proof {
            assert(rows@[i as int]@ == spec_palette_rows(self.context)[i as int]);
        }
        match &rows[i] {
            PaletteRow::Command { id, disabled, .. } => if *disabled {
                None
            } else {
                Some(PaletteAction::App(*id))
            },
            PaletteRow::Reference { prefill, .. } => match prefill {
                Some(text) => Some(PaletteAction::ExPrefill(*text)),
                None => None,
            },
        }
    }

    /// The App command the focused row runs, if it is an enabled command.
    pub fn selected_command(&self) -> (r: Option<AppCommand>)
        ensures
            r == spec_selected_command(self.spec_filter(), self.spec_context(), self.spec_selected()),
    {
        let rows = build_rows(self.context);
        proof {
            lemma_built_rows_view(rows@, self.context);
            lemma_filtered_in_range(self.filter@, spec_rows_view(rows@), 55);
        }
        let visible = filter_rows(self.filter.as_str(), &rows);
        if self.selected >= visible.len() {
            return None;
        }
        let i = visible[self.selected];
        proof {
            assert(rows@[i as int]@ == spec_palette_rows(self.context)[i as int]);
        }
        match &rows[i] {
            PaletteRow::Command { id, disabled, .. } => if *disabled {
                None
            } else {
                Some(*id)
            },
            _ => None,
        }
    }
}

impl Default for PaletteState {
    fn default() -> (r: Self)
        ensures
            r.spec_filter() == Seq::<char>::empty(),
            r.spec_context() == Contexts(1),
            r.spec_selected() == spec_first_action(Seq::empty(), Contexts(1)),
    {
        Self::new(Contexts::normal())
    }
}

/// A subsequence of a text stays a subsequence with text added around it.
proof fn lemma_subsequence_in_context(x: Seq<char>, pre: Seq<char>, t: Seq<char>, post: Seq<char>)
    requires
        spec_is_subsequence(x, t),
    ensures
        spec_is_subsequence(x, pre + t + post),
{
    let w = choose|w: Seq<int>| spec_embeds(x, t, w);
    let whole = pre + t + post;
    let w2 = w.map_values(|k: int| k + pre.len());
    assert forall|k: int| 0 <= k < w2.len() implies 0 <= #[trigger] w2[k] < whole.len() && whole[w2[k]] == x[k] by {
        assert(0 <= w[k] < t.len());
        assert(whole[w[k] + pre.len()] == t[w[k]]);
    }
    assert forall|a: int, b: int| 0 <= a < b < w2.len() implies #[trigger] w2[a] < #[trigger] w2[b] by {
        assert(w[a] < w[b]);
    }
    assert(spec_embeds(x, whole, w2));
}

/// Every column of a palette row is searchable: whatever is a subsequence
/// of a row's name or keys, its description, or its keys or id is a
/// subsequence of the text the row is searched by (case is folded on that
/// whole text).
pub proof fn lemma_every_column_is_searchable(row: PaletteRowView, x: Seq<char>)
    ensures
        match row {
            PaletteRowView::Command { name, desc, keys, .. } => spec_is_subsequence(x, name)
                || spec_is_subsequence(x, desc) || spec_is_subsequence(x, keys)
                ==> spec_is_subsequence(x, spec_search_text(row)),
            PaletteRowView::Reference { keys, desc, row_id, .. } => spec_is_subsequence(x, keys)
                || spec_is_subsequence(x, desc) || spec_is_subsequence(x, row_id)
                ==> spec_is_subsequence(x, spec_search_text(row)),
        },
{
    let text = spec_search_text(row);
    let (a, b, c) = match row {
        PaletteRowView::Command { name, desc, keys, .. } => (name, desc, keys),
        PaletteRowView::Reference { keys, desc, row_id, .. } => (keys, desc, row_id),
    };
    let sp = " "@;
    if spec_is_subsequence(x, a) {
        lemma_subsequence_in_context(x, Seq::empty(), a, sp + b + sp + c);
        assert(Seq::<char>::empty() + a + (sp + b + sp + c) =~= text);
    } else if spec_is_subsequence(x, b) {
        lemma_subsequence_in_context(x, a + sp, b, sp + c);
        assert(a + sp + b + (sp + c) =~= text);
    } else if spec_is_subsequence(x, c) {
        lemma_subsequence_in_context(x, a + sp + b + sp, c, Seq::empty());
        assert(a + sp + b + sp + c + Seq::<char>::empty() =~= text);
    }
}

} // verus!
