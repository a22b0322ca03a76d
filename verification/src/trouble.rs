//! Provider-neutral document-diagnostics modal ("Trouble").

use vstd::prelude::*;
use crate::keys::{
    clone_diagnostic, diagnostic_view, same_diagnostic, Diagnostic, DiagnosticProvider,
    DiagnosticSeverity, KeyCodeKind, KeyInput, TextPosition,
};
use crate::text::{concat, decimal, spec_decimal, to_string};

verus! {

/// Preferred overlay width in cells.
pub const OVERLAY_WIDTH: u16 = 76;

/// Preferred overlay height in cells.
pub const OVERLAY_HEIGHT: u16 = 18;

/// Diagnostics listed at once: the overlay height less the border and footer.
pub const VISIBLE_DIAGNOSTICS: usize = 15;

/// Host/session progress captured by the App.
#[derive(Clone, Debug, Eq, PartialEq)]
pub enum TroubleProgress {
    Complete,
    Pending,
    Unavailable(String),
}

/// One provider-neutral diagnostic plus its display-ready source position.
#[derive(Clone, Debug, Eq, PartialEq)]
pub struct TroubleEntry {
    pub diagnostic: Diagnostic,
    pub position: TextPosition,
}

/// The plain-value form of a diagnostic's identity.
pub type DiagnosticView = (DiagnosticProvider, DiagnosticSeverity, usize, usize, Seq<char>, Seq<char>);

impl TroubleEntry {
    /// An entry for a diagnostic at a position.
    pub fn new(diagnostic: Diagnostic, position: TextPosition) -> (r: Self)
        ensures
            diagnostic_view(r.diagnostic) == diagnostic_view(diagnostic),
            r.position == position,
    {
        TroubleEntry { diagnostic, position }
    }
}

/// The identities of a list of entries.
pub open spec fn spec_entry_ids(entries: Seq<TroubleEntry>) -> Seq<DiagnosticView> {
    entries.map_values(|e: TroubleEntry| diagnostic_view(e.diagnostic))
}

/// The semantic result of one Trouble key transition.
#[derive(Clone, Debug, Eq, PartialEq)]
pub enum TroubleAction {
    StayOpen,
    Close,
    Jump(Diagnostic),
}

/// The first scroll offset at or near `current` that keeps row `selected`
/// of `entry_count` rows visible in `capacity` rows, clamped so the list
/// does not scroll past its end.
pub open spec fn spec_scroll_for_selection(
    current: usize,
    selected: Option<usize>,
    entry_count: usize,
    capacity: usize,
) -> usize {
    match selected {
        None => 0,
        Some(s) => if capacity == 0 {
            if entry_count == 0 { 0 } else if s <= entry_count - 1 { s } else { (entry_count - 1) as usize }
        } else {
            let scroll = if s < current {
                s as int
            } else if s >= current + capacity {
                s + 1 - capacity
            } else {
                current as int
            };
            let max_scroll = if entry_count >= capacity { entry_count - capacity } else { 0 };
            (if scroll <= max_scroll { scroll } else { max_scroll }) as usize
        },
    }
}

/// The scroll offset that keeps the selected row visible.
pub fn scroll_for_selection(
    current: usize,
    selected: Option<usize>,
    entry_count: usize,
    capacity: usize,
) -> (r: usize)
    ensures
        r == spec_scroll_for_selection(current, selected, entry_count, capacity),
        match selected {
            Some(s) => s < entry_count && capacity > 0 ==> r <= s && s < r + capacity,
            None => r == 0,
        },
{
    let selected = match selected {
        None => {
            return 0;
        },
        Some(s) => s,
    };
    if capacity == 0 {
        let last = entry_count.saturating_sub(1);
        return if selected <= last { selected } else { last };
    }
    let mut scroll = current;
    if selected < scroll {
        scroll = selected;
    } else if selected >= scroll.saturating_add(capacity) {
        scroll = selected - capacity + 1;
    }
    let max_scroll = entry_count.saturating_sub(capacity);
    if scroll <= max_scroll {
        scroll
    } else {
        max_scroll
    }
}

/// The position of the first entry with this identity.
pub open spec fn spec_first_position(ids: Seq<DiagnosticView>, id: DiagnosticView) -> Option<usize> {
    if exists|i: int| 0 <= i < ids.len() && ids[i] == id {
        Some(
            (choose|i: int|
                0 <= i < ids.len() && ids[i] == id && forall|j: int| 0 <= j < i ==> #[trigger] ids[j] != id) as usize,
        )
    } else {
        None
    }
}

/// The selection after a refresh: the previous selection's diagnostic where
/// it still appears, else the previous position clamped to the new list,
/// else nothing for an empty list.
pub open spec fn spec_refreshed_selection(
    old_ids: Seq<DiagnosticView>,
    old_selected: Option<usize>,
    new_ids: Seq<DiagnosticView>,
) -> Option<usize> {
    let previous_index = match old_selected {
        Some(i) => i,
        None => 0,
    };
    let found = match old_selected {
        Some(i) => spec_first_position(new_ids, old_ids[i as int]),
        None => None,
    };
    match found {
        Some(p) => Some(p),
        None => if new_ids.len() == 0 {
            None
        } else if previous_index <= new_ids.len() - 1 {
            Some(previous_index)
        } else {
            Some((new_ids.len() - 1) as usize)
        },
    }
}

/// Esc, or Ctrl-C: close the modal.
pub open spec fn spec_closes(key: KeyInput) -> bool {
    key.code.kind == KeyCodeKind::Esc || (key.code.kind == KeyCodeKind::Char('c') && key.mods.ctrl)
}

/// Unmodified `j` or Down: select the next row.
pub open spec fn spec_moves_down(key: KeyInput) -> bool {
    (key.code.kind == KeyCodeKind::Char('j') || key.code.kind == KeyCodeKind::Down) && key.mods.is_none()
}

/// Unmodified `k` or Up: select the previous row.
pub open spec fn spec_moves_up(key: KeyInput) -> bool {
    (key.code.kind == KeyCodeKind::Char('k') || key.code.kind == KeyCodeKind::Up) && key.mods.is_none()
}

/// Esc, or Ctrl-C.
pub fn is_close_key(key: &KeyInput) -> (r: bool)
    ensures
        r == spec_closes(*key),
{
    key.code.kind == KeyCodeKind::Esc || (key.code.kind == KeyCodeKind::Char('c') && key.mods.ctrl)
}

/// Unmodified `j` or Down.
pub fn moves_down(key: &KeyInput) -> (r: bool)
    ensures
        r == spec_moves_down(*key),
{
    (key.code.kind == KeyCodeKind::Char('j') || key.code.kind == KeyCodeKind::Down) && key.mods.is_plain()
}

/// Unmodified `k` or Up.
pub fn moves_up(key: &KeyInput) -> (r: bool)
    ensures
        r == spec_moves_up(*key),
{
    (key.code.kind == KeyCodeKind::Char('k') || key.code.kind == KeyCodeKind::Up) && key.mods.is_plain()
}

/// The position of the first entry whose diagnostic has this identity.
fn first_position(entries: &Vec<TroubleEntry>, id: &Diagnostic) -> (r: Option<usize>)
    ensures
        r == spec_first_position(spec_entry_ids(entries@), diagnostic_view(*id)),
        match r {
            Some(p) => p < entries@.len(),
            None => true,
        },
{
    let ghost ids = spec_entry_ids(entries@);
    let ghost want = diagnostic_view(*id);
    let mut k: usize = 0;
    while k < entries.len()
        invariant
            k <= entries.len(),
            ids == spec_entry_ids(entries@),
            want == diagnostic_view(*id),
            forall|j: int| 0 <= j < k ==> #[trigger] ids[j] != want,
        decreases entries.len() - k,
    {
        proof {
            assert(ids[k as int] == diagnostic_view(entries@[k as int].diagnostic));
        }
        if same_diagnostic(&entries[k].diagnostic, id) {
            proof {
                assert(ids[k as int] == want);
                let c = choose|i: int|
                    0 <= i < ids.len() && ids[i] == want && forall|j: int|
                        0 <= j < i ==> #[trigger] ids[j] != want;
                if c < k {
                } else if c > k {
                    assert(ids[k as int] != want);
                }
            }
            return Some(k);
        }
        k = k + 1;
    }
    None
}

/// Complete presentation state for the open diagnostics modal.
#[derive(Debug)]
pub struct TroubleState {
    entries: Vec<TroubleEntry>,
    progress: TroubleProgress,
    selected: Option<usize>,
    scroll: usize,
    warning: Option<String>,
}

/// One key on the Trouble overlay, from state `before` to `after` with
/// result `r`: Esc or Ctrl-C closes; j/k and the arrows move the selection
/// (stopping at the ends) and drop any warning, scrolling to keep it in
/// view; Enter asks to jump to the selected diagnostic; anything else stays
/// open. The entries and the progress never change.
pub open spec fn spec_trouble_key(before: TroubleState, after: TroubleState, key: KeyInput, r: TroubleAction) -> bool {
    &&& after.spec_entries() == before.spec_entries()
    &&& after.spec_progress() == before.spec_progress()
    &&& if spec_closes(key) {
        r == TroubleAction::Close && after.spec_selected() == before.spec_selected()
    } else if spec_moves_down(key) {
        r == TroubleAction::StayOpen && after.spec_selected() == (match before.spec_selected() {
            Some(s) => if s + 1 < before.spec_entries().len() {
                Some((s + 1) as usize)
            } else {
                Some(s)
            },
            None => None,
        })
    } else if spec_moves_up(key) {
        r == TroubleAction::StayOpen && after.spec_selected() == (match before.spec_selected() {
            Some(s) => if s > 0 {
                Some((s - 1) as usize)
            } else {
                Some(s)
            },
            None => None,
        })
    } else if key.code.kind == KeyCodeKind::Enter && key.mods.is_none() {
        after.spec_selected() == before.spec_selected() && match before.spec_selected() {
            Some(s) => r matches TroubleAction::Jump(d) && diagnostic_view(d) == before.spec_ids()[s as int],
            None => r == TroubleAction::StayOpen,
        }
    } else {
        r == TroubleAction::StayOpen && after.spec_selected() == before.spec_selected()
    }
    &&& after.spec_selected() != before.spec_selected() ==> after.spec_warning().is_none()
        && after.spec_scroll() == spec_scroll_for_selection(
        before.spec_scroll(),
        after.spec_selected(),
        before.spec_entries().len() as usize,
        VISIBLE_DIAGNOSTICS,
    )
    &&& after.spec_selected() == before.spec_selected() ==> after.spec_warning() == before.spec_warning()
        && after.spec_scroll() == before.spec_scroll()
}

impl TroubleState {
    #[verifier::type_invariant]
    spec fn wf(self) -> bool {
        &&& (self.selected is Some) == (self.entries.len() > 0)
        &&& self.selected matches Some(s) ==> s < self.entries.len()
    }

    /// The identities of the listed diagnostics.
    pub closed spec fn spec_ids(self) -> Seq<DiagnosticView> {
        spec_entry_ids(self.entries@)
    }

    /// The listed entries.
    pub closed spec fn spec_entries(self) -> Seq<TroubleEntry> {
        self.entries@
    }

    /// The selected row.
    pub closed spec fn spec_selected(self) -> Option<usize> {
        self.selected
    }

    /// The first listed row.
    pub closed spec fn spec_scroll(self) -> usize {
        self.scroll
    }

    /// The progress of the diagnostics producer.
    pub closed spec fn spec_progress(self) -> TroubleProgress {
        self.progress
    }

    /// The stale-selection warning, if any.
    pub closed spec fn spec_warning(self) -> Option<Seq<char>> {
        match self.warning {
            Some(w) => Some(w@),
            None => None,
        }
    }

    /// Open the modal over a snapshot, selecting its first row.
    pub fn new(entries: Vec<TroubleEntry>, progress: TroubleProgress) -> (r: Self)
        ensures
            r.spec_entries() == entries@,
            r.spec_progress() == progress,
            r.spec_selected() == (if entries@.len() > 0 { Some(0usize) } else { None }),
            r.spec_scroll() == 0,
            r.spec_warning().is_none(),
    {
        let selected = if entries.len() > 0 { Some(0) } else { None };
        TroubleState { entries, progress, selected, scroll: 0, warning: None }
    }

    /// Replace the snapshot while keeping the selected diagnostic's identity.
    pub fn refresh(&mut self, entries: Vec<TroubleEntry>, progress: TroubleProgress)
        ensures
            final(self).spec_entries() == entries@,
            final(self).spec_progress() == progress,
            final(self).spec_warning().is_none(),
            final(self).spec_selected() == spec_refreshed_selection(
                old(self).spec_ids(),
                old(self).spec_selected(),
                spec_entry_ids(entries@),
            ),
            final(self).spec_scroll() == spec_scroll_for_selection(
                old(self).spec_scroll(),
                final(self).spec_selected(),
                entries@.len() as usize,
                VISIBLE_DIAGNOSTICS,
            ),
    {
        proof {
            use_type_invariant(&*self);
        }
        let ghost old_ids = spec_entry_ids(self.entries@);
        let previous_index = match self.selected {
            Some(i) => i,
            None => 0,
        };
        let identity: Option<Diagnostic> = match self.selected {
            Some(i) => Some(clone_diagnostic(&self.entries[i].diagnostic)),
            None => None,
        };
        let found = match &identity {
            Some(id) => first_position(&entries, id),
            None => None,
        };
        let selected = match found {
            Some(p) => Some(p),
            None => if entries.len() == 0 {
                None
            } else if previous_index <= entries.len() - 1 {
                Some(previous_index)
            } else {
                Some(entries.len() - 1)
            },
        };
        let scroll = scroll_for_selection(self.scroll, selected, entries.len(), VISIBLE_DIAGNOSTICS);
        *self = TroubleState { entries, progress, selected, scroll, warning: None };
    }

    /// Handle one exclusive modal key.
    pub fn handle_key(&mut self, key: &KeyInput) -> (r: TroubleAction)
        ensures
            spec_trouble_key(*old(self), *final(self), *key, r),
    {
        proof {
            use_type_invariant(&*self);
        }
        if is_close_key(key) {
            TroubleAction::Close
        } else if moves_down(key) {
            self.select_next();
            TroubleAction::StayOpen
        } else if moves_up(key) {
            self.select_previous();
            TroubleAction::StayOpen
        } else if key.code.kind == KeyCodeKind::Enter && key.mods.is_plain() {
            match self.selected {
                Some(index) => {
                    proof {
                        assert(spec_entry_ids(self.entries@)[index as int] == diagnostic_view(
                            self.entries@[index as int].diagnostic,
                        ));
                    }
                    TroubleAction::Jump(clone_diagnostic(&self.entries[index].diagnostic))
                },
                None => TroubleAction::StayOpen,
            }
        } else {
            TroubleAction::StayOpen
        }
    }

    /// Mark the selected row as stale with a warning.
    pub fn mark_stale(&mut self, message: &str)
        ensures
            final(self).spec_warning() == Some(message@),
            final(self).spec_entries() == old(self).spec_entries(),
            final(self).spec_selected() == old(self).spec_selected(),
            final(self).spec_scroll() == old(self).spec_scroll(),
            final(self).spec_progress() == old(self).spec_progress(),
    {
        proof {
            use_type_invariant(&*self);
        }
        self.warning = Some(to_string(message));
    }

    fn select_next(&mut self)
        ensures
            final(self).spec_entries() == old(self).spec_entries(),
            final(self).spec_progress() == old(self).spec_progress(),
            final(self).spec_selected() == (match old(self).spec_selected() {
                Some(s) => if s + 1 < old(self).spec_entries().len() {
                    Some((s + 1) as usize)
                } else {
                    Some(s)
                },
                None => None,
            }),
            final(self).spec_selected() != old(self).spec_selected() ==> final(self).spec_warning().is_none()
                && final(self).spec_scroll() == spec_scroll_for_selection(
                old(self).spec_scroll(),
                final(self).spec_selected(),
                old(self).spec_entries().len() as usize,
                VISIBLE_DIAGNOSTICS,
            ),
            final(self).spec_selected() == old(self).spec_selected() ==> final(self).spec_warning()
                == old(self).spec_warning() && final(self).spec_scroll() == old(self).spec_scroll(),
    {
        proof {
            use_type_invariant(&*self);
        }
        let selected = match self.selected {
            Some(s) => s,
            None => {
                return;
            },
        };
        if selected + 1 < self.entries.len() {
            self.selected = Some(selected + 1);
            self.warning = None;
            self.ensure_selection_visible();
        }
    }

    fn select_previous(&mut self)
        ensures
            final(self).spec_entries() == old(self).spec_entries(),
            final(self).spec_progress() == old(self).spec_progress(),
            final(self).spec_selected() == (match old(self).spec_selected() {
                Some(s) => if s > 0 {
                    Some((s - 1) as usize)
                } else {
                    Some(s)
                },
                None => None,
            }),
            final(self).spec_selected() != old(self).spec_selected() ==> final(self).spec_warning().is_none()
                && final(self).spec_scroll() == spec_scroll_for_selection(
                old(self).spec_scroll(),
                final(self).spec_selected(),
                old(self).spec_entries().len() as usize,
                VISIBLE_DIAGNOSTICS,
            ),
            final(self).spec_selected() == old(self).spec_selected() ==> final(self).spec_warning()
                == old(self).spec_warning() && final(self).spec_scroll() == old(self).spec_scroll(),
    {
        proof {
            use_type_invariant(&*self);
        }
        let selected = match self.selected {
            Some(s) => s,
            None => {
                return;
            },
        };
        if selected > 0 {
            self.selected = Some(selected - 1);
            self.warning = None;
            self.ensure_selection_visible();
        }
    }

    fn ensure_selection_visible(&mut self)
        ensures
            final(self).spec_scroll() == spec_scroll_for_selection(
                old(self).spec_scroll(),
                old(self).spec_selected(),
                old(self).spec_entries().len() as usize,
                VISIBLE_DIAGNOSTICS,
            ),
            final(self).spec_entries() == old(self).spec_entries(),
            final(self).spec_selected() == old(self).spec_selected(),
            final(self).spec_progress() == old(self).spec_progress(),
            final(self).spec_warning() == old(self).spec_warning(),
    {
        proof {
            use_type_invariant(&*self);
        }
        self.scroll = scroll_for_selection(
            self.scroll,
            self.selected,
            self.entries.len(),
            VISIBLE_DIAGNOSTICS,
        );
    }

    /// Preferred centered geometry (width, height).
    pub fn geometry(&self) -> (r: (u16, u16))
        ensures
            r == (OVERLAY_WIDTH, OVERLAY_HEIGHT),
    {
        (OVERLAY_WIDTH, OVERLAY_HEIGHT)
    }

    /// Hint text for the bottom bar.
    pub fn hints(&self) -> (r: &'static str)
        ensures
            r@ == "j/k navigate · Enter jump · Esc close"@,
    {
        "j/k navigate · Enter jump · Esc close"
    }

    /// The selected row.
    pub fn selected(&self) -> (r: Option<usize>)
        ensures
            r == self.spec_selected(),
            r matches Some(s) ==> s < self.spec_entries().len(),
    {
        proof {
            use_type_invariant(self);
        }
        self.selected
    }

    /// The first listed row.
    pub fn scroll(&self) -> (r: usize)
        ensures
            r == self.spec_scroll(),
    {
        self.scroll
    }

    /// The listed entries.
    pub fn entries(&self) -> (r: &[TroubleEntry])
        ensures
            r@ == self.spec_entries(),
    {
        self.entries.as_slice()
    }

    /// The progress of the diagnostics producer.
    pub fn progress(&self) -> (r: &TroubleProgress)
        ensures
            *r == self.spec_progress(),
    {
        &self.progress
    }

    /// The stale-selection warning, if any.
    pub fn warning(&self) -> (r: Option<&str>)
        ensures
            match r {
                Some(w) => self.spec_warning() == Some(w@),
                None => self.spec_warning().is_none(),
            },
    {
        match &self.warning {
            Some(w) => Some(w.as_str()),
            None => None,
        }
    }
}

/// The label of a diagnostic provider.
pub fn provider_label(provider: DiagnosticProvider) -> (r: &'static str)
    ensures
        r@ == "spell"@,
{
    match provider {
        DiagnosticProvider::Spell => "spell",
    }
}

/// The theme slot a severity column is drawn with.
#[derive(Debug, Clone, Copy, PartialEq, Eq, Structural)]
pub enum SeveritySlot {
    StatusError,
    StatusWarning,
    StatusInfo,
    HintKey,
}

/// The theme slot for a diagnostic severity: the status colours for
/// errors, warnings and information, the hint-key colour for hints.
pub fn severity_slot(severity: DiagnosticSeverity) -> (r: SeveritySlot)
    ensures
        r == (match severity {
            DiagnosticSeverity::Error => SeveritySlot::StatusError,
            DiagnosticSeverity::Warning => SeveritySlot::StatusWarning,
            DiagnosticSeverity::Info => SeveritySlot::StatusInfo,
            DiagnosticSeverity::Hint => SeveritySlot::HintKey,
        }),
{
    match severity {
        DiagnosticSeverity::Error => SeveritySlot::StatusError,
        DiagnosticSeverity::Warning => SeveritySlot::StatusWarning,
        DiagnosticSeverity::Info => SeveritySlot::StatusInfo,
        DiagnosticSeverity::Hint => SeveritySlot::HintKey,
    }
}

/// The label of a diagnostic severity.
pub fn severity_label(severity: DiagnosticSeverity) -> (r: &'static str)
    ensures
        r@ == (match severity {
            DiagnosticSeverity::Error => "error"@,
            DiagnosticSeverity::Warning => "warning"@,
            DiagnosticSeverity::Info => "info"@,
            DiagnosticSeverity::Hint => "hint"@,
        }),
{
    match severity {
        DiagnosticSeverity::Error => "error",
        DiagnosticSeverity::Warning => "warning",
        DiagnosticSeverity::Info => "info",
        DiagnosticSeverity::Hint => "hint",
    }
}

/// What the modal shows below its rows.
#[derive(Clone, Debug, Eq, PartialEq)]
pub enum TroubleFooter {
    /// The stale-selection warning.
    Warning(String),
    /// The snapshot is complete and empty.
    NoDiagnostics,
    /// Diagnostics are still being computed.
    Checking,
    /// The producer failed, for this reason.
    Unavailable(String),
}

/// Which rows the modal shows, and its footer.
#[derive(Clone, Debug, Eq, PartialEq)]
pub struct TroubleView {
    /// The first listed row shown.
    pub first: usize,
    /// How many rows are shown from `first` on.
    pub count: usize,
    pub footer: Option<TroubleFooter>,
}

/// The footer for a warning and a progress state.
pub open spec fn spec_footer(warning: Option<Seq<char>>, progress: TroubleProgress, empty: bool) -> Option<Seq<char>> {
    match warning {
        Some(w) => Some("\u{26a0} "@ + w),
        None => match progress {
            TroubleProgress::Complete => if empty { Some("No diagnostics"@) } else { None },
            TroubleProgress::Pending => Some("\u{2026} checking diagnostics"@),
            TroubleProgress::Unavailable(reason) => Some("\u{2717} diagnostics unavailable: "@ + reason@),
        },
    }
}

/// The text of a footer.
pub fn footer_text(footer: &TroubleFooter) -> (r: String)
    ensures
        r@ == (match footer {
            TroubleFooter::Warning(w) => "\u{26a0} "@ + w@,
            TroubleFooter::NoDiagnostics => "No diagnostics"@,
            TroubleFooter::Checking => "\u{2026} checking diagnostics"@,
            TroubleFooter::Unavailable(reason) => "\u{2717} diagnostics unavailable: "@ + reason@,
        }),
{
    match footer {
        TroubleFooter::Warning(w) => concat("\u{26a0} ", w.as_str()),
        TroubleFooter::NoDiagnostics => to_string("No diagnostics"),
        TroubleFooter::Checking => to_string("\u{2026} checking diagnostics"),
        TroubleFooter::Unavailable(reason) => concat("\u{2717} diagnostics unavailable: ", reason.as_str()),
    }
}

/// A severity label padded to seven columns, then a space.
pub open spec fn spec_severity_column(severity: DiagnosticSeverity) -> Seq<char> {
    match severity {
        DiagnosticSeverity::Error => "error   "@,
        DiagnosticSeverity::Warning => "warning "@,
        DiagnosticSeverity::Info => "info    "@,
        DiagnosticSeverity::Hint => "hint    "@,
    }
}

/// The text of one row: a selection marker, the one-based line and column,
/// the severity, the provider and the message.
pub open spec fn spec_entry_text(selected: bool, entry: TroubleEntry) -> Seq<char> {
    (if selected { "\u{25b8} "@ } else { "  "@ }) + spec_decimal((entry.position.line + 1) as nat) + ":"@
        + spec_decimal((entry.position.column + 1) as nat) + " "@ + spec_severity_column(entry.diagnostic.severity)
        + "["@ + "spell"@ + "] "@ + entry.diagnostic.message@
}

/// The text of one row.
pub fn entry_text(selected: bool, entry: &TroubleEntry) -> (r: String)
    requires
        entry.position.line < usize::MAX,
        entry.position.column < usize::MAX,
    ensures
        r@ == spec_entry_text(selected, *entry),
{
    let marker = if selected { "\u{25b8} " } else { "  " };
    let line = decimal(entry.position.line + 1);
    let column = decimal(entry.position.column + 1);
    let severity = match entry.diagnostic.severity {
        DiagnosticSeverity::Error => "error   ",
        DiagnosticSeverity::Warning => "warning ",
        DiagnosticSeverity::Info => "info    ",
        DiagnosticSeverity::Hint => "hint    ",
    };
    let a = concat(marker, line.as_str());
    let b = concat(a.as_str(), ":");
    let c = concat(b.as_str(), column.as_str());
    let d = concat(c.as_str(), " ");
    let e = concat(d.as_str(), severity);
    let f = concat(e.as_str(), "[");
    let g = concat(f.as_str(), provider_label(entry.diagnostic.provider));
    let h = concat(g.as_str(), "] ");
    let r = concat(h.as_str(), entry.diagnostic.message.as_str());
    proof {
        assert(r@ =~= spec_entry_text(selected, *entry));
    }
    r
}

impl TroubleState {
    /// The title: the number of listed diagnostics.
    pub fn title(&self) -> (r: String)
        ensures
            r@ == " Trouble ("@ + spec_decimal(self.spec_entries().len() as nat) + ") "@,
    {
        let n = decimal(self.entries.len());
        let a = concat(" Trouble (", n.as_str());
        concat(a.as_str(), ") ")
    }

    /// The rows and footer shown in an area `height` rows tall: a footer
    /// (warning, empty list, progress) takes the last row when there is room
    /// for it besides a row, or when there are no rows; the selected row
    /// stays visible.
    pub fn view(&self, height: usize) -> (r: TroubleView)
        ensures
            ({
                let n = self.spec_entries().len();
                let needs_footer = self.spec_warning() is Some || n == 0 || !(self.spec_progress() is Complete);
                let reserve: int = if needs_footer && (n == 0 || height > 1) { 1 } else { 0 };
                let capacity = if height >= reserve { (height - reserve) as usize } else { 0usize };
                let first = spec_scroll_for_selection(self.spec_scroll(), self.spec_selected(), n as usize, capacity);
                &&& r.first == first
                &&& r.count == (if first + capacity <= n { capacity as int } else { n - first })
                &&& match r.footer {
                    Some(f) => spec_footer(self.spec_warning(), self.spec_progress(), n == 0) == Some(
                        match f {
                            TroubleFooter::Warning(w) => "\u{26a0} "@ + w@,
                            TroubleFooter::NoDiagnostics => "No diagnostics"@,
                            TroubleFooter::Checking => "\u{2026} checking diagnostics"@,
                            TroubleFooter::Unavailable(reason) => "\u{2717} diagnostics unavailable: "@ + reason@,
                        },
                    ),
                    None => spec_footer(self.spec_warning(), self.spec_progress(), n == 0) is None,
                }
            }),
            r.first <= self.spec_entries().len(),
            r.first + r.count <= self.spec_entries().len(),
            self.spec_selected() matches Some(s) ==> (r.count > 0 ==> r.first <= s < r.first + r.count),
    {
        proof {
            use_type_invariant(self);
        }
        let n = self.entries.len();
        let needs_footer = self.warning.is_some() || n == 0 || !matches!(self.progress, TroubleProgress::Complete);
        let reserve: usize = if needs_footer && (n == 0 || height > 1) { 1 } else { 0 };
        let capacity = height.saturating_sub(reserve);
        let first = scroll_for_selection(self.scroll, self.selected, n, capacity);
        let count = if capacity <= n - first { capacity } else { n - first };
        let footer = match &self.warning {
            Some(w) => Some(TroubleFooter::Warning(w.clone())),
            None => match &self.progress {
                TroubleProgress::Complete => if n == 0 { Some(TroubleFooter::NoDiagnostics) } else { None },
                TroubleProgress::Pending => Some(TroubleFooter::Checking),
                TroubleProgress::Unavailable(reason) => Some(TroubleFooter::Unavailable(reason.clone())),
            },
        };
        TroubleView { first, count, footer }
    }
}

} // verus!
