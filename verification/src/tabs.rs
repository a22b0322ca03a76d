//! The tab stack's presentation state: per-tab scroll positions and the
//! active tab.
//!
//! Each tab keeps its own viewport (first line, first column, wrapped rows
//! skipped, first rendered row). Tab navigation wraps around; closing a tab
//! keeps the same tab active where it can; closing the last tab quits.

use vstd::prelude::*;
use crate::keymap::TabAction;
use crate::text::{concat, decimal, spec_decimal};

verus! {

/// One tab's viewport.
#[derive(Debug, Clone, Copy, PartialEq, Eq, Structural)]
pub struct TabView {
    /// The first visible source line.
    pub top_line: usize,
    /// The first visible column when lines do not wrap.
    pub left_col: usize,
    /// Visual rows of `top_line` scrolled past when lines wrap.
    pub skip_rows: usize,
    /// The first visible rendered row.
    pub rendered_top: usize,
}

/// A viewport at the top of the document.
pub open spec fn spec_fresh_view() -> TabView {
    TabView { top_line: 0, left_col: 0, skip_rows: 0, rendered_top: 0 }
}

impl TabView {
    /// A viewport at the top of the document.
    pub fn new() -> (r: TabView)
        ensures
            r == spec_fresh_view(),
    {
        TabView { top_line: 0, left_col: 0, skip_rows: 0, rendered_top: 0 }
    }

    /// Move the first visible line; moving it drops the wrapped rows that
    /// were skipped within the old one.
    pub fn set_top_line(&mut self, val: usize)
        ensures
            final(self).top_line == val,
            final(self).skip_rows == (if old(self).top_line != val { 0 } else { old(self).skip_rows }),
            final(self).left_col == old(self).left_col,
            final(self).rendered_top == old(self).rendered_top,
    {
        if self.top_line != val {
            self.skip_rows = 0;
        }
        self.top_line = val;
    }

    /// Apply a source scroll-follow result (top line, skipped rows, left
    /// column).
    pub fn apply_source_scroll(&mut self, position: (usize, usize, usize))
        ensures
            final(self).top_line == position.0,
            final(self).skip_rows == position.1,
            final(self).left_col == position.2,
            final(self).rendered_top == old(self).rendered_top,
    {
        self.set_top_line(position.0);
        self.skip_rows = position.1;
        self.left_col = position.2;
    }
}

/// The tab after `active`, wrapping around.
pub open spec fn spec_next_index(active: int, len: int) -> int {
    if active + 1 >= len { 0 } else { active + 1 }
}

/// The tab before `active`, wrapping around.
pub open spec fn spec_prev_index(active: int, len: int) -> int {
    if active == 0 { len - 1 } else { active - 1 }
}

/// The active position after removing position `idx` from `len` tabs.
pub open spec fn spec_active_after_close(active: int, idx: int, len: int) -> int {
    if idx < active {
        active - 1
    } else if active >= len - 1 {
        if len - 1 > 0 { len - 2 } else { 0 }
    } else {
        active
    }
}

/// The active position after a tab action on `len` tabs: Next and Prev
/// step round the tabs when there are several; `Jump(n)` goes to tab `n`
/// (one-based) when it exists, and a jump past the last tab stays put.
pub open spec fn spec_after_tab_action(action: TabAction, active: int, len: int) -> int {
    match action {
        TabAction::Next => if len > 1 { spec_next_index(active, len) } else { active },
        TabAction::Prev => if len > 1 { spec_prev_index(active, len) } else { active },
        TabAction::Jump(n) => if n <= len && len > 0 {
            if n > 0 { n - 1 } else { 0 }
        } else {
            active
        },
    }
}

/// Whether a tab action switches tabs (so the view must follow).
pub open spec fn spec_tab_action_switches(action: TabAction, len: int) -> bool {
    match action {
        TabAction::Next => len > 1,
        TabAction::Prev => len > 1,
        TabAction::Jump(n) => n <= len && len > 0,
    }
}

/// What a tab action did.
#[derive(Debug, Clone, PartialEq, Eq)]
pub enum TabActionOutcome {
    /// The active tab changed (follow the cursor on the next paint).
    Switched,
    /// Nothing to do (a single tab).
    Unchanged,
    /// The numbered tab does not exist; this warning is shown.
    Missing(String),
}

/// The warning for a jump to a tab that does not exist.
pub open spec fn spec_missing_tab(n: nat) -> Seq<char> {
    "No tab "@ + spec_decimal(n)
}

/// The tab stack's presentation state.
pub struct Tabs {
    views: Vec<TabView>,
    active: usize,
}

impl Tabs {
    /// Well-formedness: the active position names a tab (or is zero when
    /// no tab is left).
    pub closed spec fn wf(self) -> bool {
        if self.views@.len() == 0 {
            self.active == 0
        } else {
            self.active < self.views@.len()
        }
    }

    /// Every tab's viewport, in tab order.
    pub closed spec fn spec_views(self) -> Seq<TabView> {
        self.views@
    }

    /// The active position.
    pub closed spec fn spec_active(self) -> int {
        self.active as int
    }

    /// In a well-formed stack the active position names a tab, or is zero
    /// when no tab is left.
    pub proof fn lemma_active_in_range(self)
        requires
            self.wf(),
        ensures
            self.spec_views().len() > 0 ==> 0 <= self.spec_active() < self.spec_views().len(),
            self.spec_views().len() == 0 ==> self.spec_active() == 0,
    {
    }

    /// One tab at the top of its document.
    pub fn new() -> (r: Tabs)
        ensures
            r.wf(),
            r.spec_views() == seq![spec_fresh_view()],
            r.spec_active() == 0,
    {
        let mut views: Vec<TabView> = Vec::new();
        views.push(TabView::new());
        Tabs { views, active: 0 }
    }

    /// Number of open tabs.
    pub fn tab_count(&self) -> (r: usize)
        ensures
            r == self.spec_views().len(),
    {
        self.views.len()
    }

    /// Whether there is more than one tab open.
    pub fn has_multiple_tabs(&self) -> (r: bool)
        ensures
            r == (self.spec_views().len() > 1),
    {
        self.views.len() > 1
    }

    /// The active position.
    pub fn active(&self) -> (r: usize)
        ensures
            r == self.spec_active(),
    {
        self.active
    }

    /// The active tab's viewport, if a tab is open.
    pub fn active_view(&self) -> (r: Option<TabView>)
        requires
            self.wf(),
        ensures
            self.spec_views().len() == 0 ==> r is None,
            self.spec_views().len() > 0 ==> r == Some(self.spec_views()[self.spec_active()]),
    {
        if self.active < self.views.len() {
            Some(self.views[self.active])
        } else {
            None
        }
    }

    /// Replace the active tab's viewport (nothing happens without tabs).
    pub fn set_active_view(&mut self, view: TabView)
        requires
            old(self).wf(),
        ensures
            final(self).wf(),
            final(self).spec_active() == old(self).spec_active(),
            old(self).spec_views().len() > 0 ==> final(self).spec_views() == old(self).spec_views().update(old(self).spec_active(), view),
            old(self).spec_views().len() == 0 ==> final(self).spec_views() == old(self).spec_views(),
    {
        if self.active < self.views.len() {
            self.views.set(self.active, view);
        }
    }

    /// Put a tab's viewport back at the top of its document (its document
    /// was replaced).
    pub fn reset_view(&mut self, idx: usize)
        requires
            old(self).wf(),
            idx < old(self).spec_views().len(),
        ensures
            final(self).wf(),
            final(self).spec_active() == old(self).spec_active(),
            final(self).spec_views() == old(self).spec_views().update(idx as int, spec_fresh_view()),
    {
        self.views.set(idx, TabView::new());
    }

    /// Open a new tab after the others and make it active; returns its
    /// position.
    pub fn open(&mut self) -> (r: usize)
        requires
            old(self).wf(),
            old(self).spec_views().len() < usize::MAX,
        ensures
            final(self).wf(),
            r == old(self).spec_views().len(),
            final(self).spec_views() == old(self).spec_views().push(spec_fresh_view()),
            final(self).spec_active() == r,
    {
        let idx = self.views.len();
        self.views.push(TabView::new());
        self.active = idx;
        idx
    }

    /// Close the tab at `idx`. The same tab stays active where it can; when
    /// the active tab closes, the one that takes its place (or the new last
    /// one) becomes active. Returns whether no tab is left.
    pub fn close(&mut self, idx: usize) -> (r: bool)
        requires
            old(self).wf(),
            idx < old(self).spec_views().len(),
        ensures
            final(self).wf(),
            final(self).spec_views() == old(self).spec_views().remove(idx as int),
            final(self).spec_active() == spec_active_after_close(
                old(self).spec_active(),
                idx as int,
                old(self).spec_views().len() as int,
            ),
            r == (final(self).spec_views().len() == 0),
    {
        let ghost old_len = self.views@.len();
        self.views.remove(idx);
        if idx < self.active {
            self.active = self.active - 1;
        } else if self.active >= self.views.len() {
            self.active = if self.views.len() > 0 { self.views.len() - 1 } else { 0 };
        }
        self.views.len() == 0
    }

    /// Make the tab with one-based number `index` active, if it exists.
    pub fn jump_to(&mut self, index: usize) -> (r: bool)
        requires
            old(self).wf(),
        ensures
            final(self).wf(),
            final(self).spec_views() == old(self).spec_views(),
            r == ((if index > 0 { index - 1 } else { 0 }) < old(self).spec_views().len()),
            final(self).spec_active() == (if r { if index > 0 { index - 1 } else { 0 } } else { old(self).spec_active() }),
    {
        let idx = index.saturating_sub(1);
        if idx < self.views.len() {
            self.active = idx;
            true
        } else {
            false
        }
    }

    /// Activate the next tab, wrapping around; nothing with a single tab.
    pub fn next(&mut self) -> (r: bool)
        requires
            old(self).wf(),
        ensures
            final(self).wf(),
            final(self).spec_views() == old(self).spec_views(),
            r == (old(self).spec_views().len() > 1),
            final(self).spec_active() == (if r {
                spec_next_index(old(self).spec_active(), old(self).spec_views().len() as int)
            } else {
                old(self).spec_active()
            }),
    {
        if self.views.len() <= 1 {
            return false;
        }
        self.active = if self.active + 1 >= self.views.len() { 0 } else { self.active + 1 };
        true
    }

    /// Activate the previous tab, wrapping around; nothing with a single
    /// tab.
    pub fn prev(&mut self) -> (r: bool)
        requires
            old(self).wf(),
        ensures
            final(self).wf(),
            final(self).spec_views() == old(self).spec_views(),
            r == (old(self).spec_views().len() > 1),
            final(self).spec_active() == (if r {
                spec_prev_index(old(self).spec_active(), old(self).spec_views().len() as int)
            } else {
                old(self).spec_active()
            }),
    {
        if self.views.len() <= 1 {
            return false;
        }
        self.active = if self.active == 0 { self.views.len() - 1 } else { self.active - 1 };
        true
    }

    /// Perform a tab navigation request. A jump past the last tab changes
    /// nothing and reports `No tab N`.
    pub fn execute_tab_action(&mut self, action: TabAction) -> (r: TabActionOutcome)
        requires
            old(self).wf(),
        ensures
            final(self).wf(),
            final(self).spec_views() == old(self).spec_views(),
            match action {
                TabAction::Next => final(self).spec_active() == (if old(self).spec_views().len() > 1 {
                    spec_next_index(old(self).spec_active(), old(self).spec_views().len() as int)
                } else {
                    old(self).spec_active()
                }) && r == (if old(self).spec_views().len() > 1 { TabActionOutcome::Switched } else { TabActionOutcome::Unchanged }),
                TabAction::Prev => final(self).spec_active() == (if old(self).spec_views().len() > 1 {
                    spec_prev_index(old(self).spec_active(), old(self).spec_views().len() as int)
                } else {
                    old(self).spec_active()
                }) && r == (if old(self).spec_views().len() > 1 { TabActionOutcome::Switched } else { TabActionOutcome::Unchanged }),
                TabAction::Jump(n) => if n <= old(self).spec_views().len() {
                    if n > 0 {
                        final(self).spec_active() == n - 1 && r == TabActionOutcome::Switched
                    } else {
                        (old(self).spec_views().len() > 0 ==> final(self).spec_active() == 0 && r == TabActionOutcome::Switched)
                        && (old(self).spec_views().len() == 0 ==> final(self).spec_active() == old(self).spec_active() && r == TabActionOutcome::Unchanged)
                    }
                } else {
                    final(self).spec_active() == old(self).spec_active() && r is Missing && r->Missing_0@ == spec_missing_tab(n as nat)
                },
            },
    {
        match action {
            TabAction::Next => if self.next() {
                TabActionOutcome::Switched
            } else {
                TabActionOutcome::Unchanged
            },
            TabAction::Prev => if self.prev() {
                TabActionOutcome::Switched
            } else {
                TabActionOutcome::Unchanged
            },
            TabAction::Jump(n) => if n <= self.views.len() {
                if self.jump_to(n) {
                    TabActionOutcome::Switched
                } else {
                    TabActionOutcome::Unchanged
                }
            } else {
                let digits = decimal(n);
                TabActionOutcome::Missing(concat("No tab ", digits.as_str()))
            },
        }
    }
}

/// Stepping to the next tab and back again returns to the same tab, and so
/// does stepping back first.
pub proof fn lemma_next_prev_round_trip(active: int, len: int)
    requires
        len > 1,
        0 <= active < len,
    ensures
        spec_prev_index(spec_next_index(active, len), len) == active,
        spec_next_index(spec_prev_index(active, len), len) == active,
        0 <= spec_next_index(active, len) < len,
        0 <= spec_prev_index(active, len) < len,
{
}

/// Closing a tab other than the active one keeps the same tab active.
pub proof fn lemma_close_keeps_active_tab(views: Seq<TabView>, active: int, idx: int)
    requires
        0 <= active < views.len(),
        0 <= idx < views.len(),
        idx != active,
    ensures
        views.remove(idx)[spec_active_after_close(active, idx, views.len() as int)] == views[active],
{
    if idx < active {
        assert(views.remove(idx)[active - 1] == views[active]);
    } else {
        assert(views.remove(idx)[active] == views[active]);
    }
}

/// Closing the active tab hands the active place to the tab on its right
/// when there is one, and otherwise to the tab on its left; the active
/// position always stays within the remaining tabs.
pub proof fn lemma_close_active_tab_neighbour(views: Seq<TabView>, active: int)
    requires
        0 <= active < views.len(),
        views.len() > 1,
    ensures
        ({
            let after = spec_active_after_close(active, active, views.len() as int);
            &&& 0 <= after < views.len() - 1
            &&& active + 1 < views.len() ==> after == active && views.remove(active)[after] == views[active + 1]
            &&& active + 1 == views.len() ==> after == active - 1 && views.remove(active)[after] == views[active - 1]
        }),
{
}

} // verus!
