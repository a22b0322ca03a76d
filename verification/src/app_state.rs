//! The App's own state, apart from its editing sessions: the tab stack's
//! viewports, the overlay slot, the pending Space prefix, the quit flag, the
//! viewport size, the wrap option and the scroll-follow schedule.
//!
//! The program keeps one editing session per tab beside this state, feeds
//! each event in, and carries out what comes back on the sessions.

use vstd::prelude::*;
use crate::event::{input_idle_for, sat_sub, spec_tick_deadline, tick_deadline, WHICH_KEY_DELAY};
use crate::flow::{quit_all_decision, spec_quit_all_refusal, trouble_jump_warning, wrap_report, Severity};
use crate::keymap::{PendingAppInput, TabAction};
use crate::keys::{KeyCodeKind, KeyInput, Mode};
use crate::overlay::Overlay;
use crate::routing::{route_key, spec_key_routed, KeyRoute};
use crate::scroll::{
    body_height, rendered_scroll_top, scroll_down_top, scroll_up_top, source_scroll_position,
    spec_rendered_scroll_top, spec_source_scroll_position, FollowState, SourceScrollInput,
};
use crate::spell_suggest::SpellSuggestAction;
use crate::tabs::{
    spec_active_after_close, spec_after_tab_action, spec_fresh_view, spec_missing_tab, spec_tab_action_switches,
    TabActionOutcome, TabView, Tabs,
};
use crate::trouble::{
    spec_entry_ids, spec_refreshed_selection, spec_scroll_for_selection, TroubleEntry, TroubleProgress,
    VISIBLE_DIAGNOSTICS,
};

verus! {

/// A status message shown until its expiry time.
#[derive(Debug, Clone, PartialEq, Eq)]
pub struct Transient {
    pub text: String,
    pub severity: Severity,
    pub expires_at: u64,
}

/// A status message as plain values.
pub open spec fn spec_transient_view(t: Option<Transient>) -> Option<(Seq<char>, Severity, u64)> {
    match t {
        Some(m) => Some((m.text@, m.severity, m.expires_at)),
        None => None,
    }
}

/// The App's state apart from its editing sessions.
pub struct AppState {
    tabs: Tabs,
    should_quit: bool,
    overlay: Overlay,
    pending_input: PendingAppInput,
    follow: FollowState,
    viewport_height: usize,
    viewport_width: usize,
    wrap_enabled: bool,
    last_input: u64,
    transient: Option<Transient>,
}

impl AppState {
    /// Well-formedness: the tab stack is well formed.
    pub closed spec fn wf(self) -> bool {
        self.tabs.wf()
    }

    /// Every tab's viewport, in tab order.
    pub closed spec fn spec_views(self) -> Seq<TabView> {
        self.tabs.spec_views()
    }

    /// In a well-formed state the active tab is one of the open tabs, or
    /// position zero when none is left.
    pub proof fn lemma_active_in_range(self)
        requires
            self.wf(),
        ensures
            self.spec_views().len() > 0 ==> 0 <= self.spec_active() < self.spec_views().len(),
            self.spec_views().len() == 0 ==> self.spec_active() == 0,
    {
        self.tabs.lemma_active_in_range();
    }

    /// The active tab.
    pub closed spec fn spec_active(self) -> int {
        self.tabs.spec_active()
    }

    /// Whether the App is to quit.
    pub closed spec fn spec_should_quit(self) -> bool {
        self.should_quit
    }

    /// The overlay slot.
    pub closed spec fn spec_overlay(self) -> Overlay {
        self.overlay
    }

    /// The pending Space prefix.
    pub closed spec fn spec_pending(self) -> PendingAppInput {
        self.pending_input
    }

    /// The scroll-follow schedule.
    pub closed spec fn spec_follow(self) -> FollowState {
        self.follow
    }

    /// The body size in rows and text columns.
    pub closed spec fn spec_viewport(self) -> (usize, usize) {
        (self.viewport_height, self.viewport_width)
    }

    /// Whether long lines wrap.
    pub closed spec fn spec_wrap(self) -> bool {
        self.wrap_enabled
    }

    /// When the last input arrived.
    pub closed spec fn spec_last_input(self) -> u64 {
        self.last_input
    }

    /// Everything but the tab stack: the quit flag, the overlay, the
    /// pending prefix, the follow schedule, the viewport size, the wrap
    /// option and the last input time.
    pub closed spec fn spec_rest(self) -> (
        bool,
        Overlay,
        PendingAppInput,
        FollowState,
        (usize, usize),
        bool,
        u64,
        Option<(Seq<char>, Severity, u64)>,
    ) {
        (
            self.should_quit,
            self.overlay,
            self.pending_input,
            self.follow,
            (self.viewport_height, self.viewport_width),
            self.wrap_enabled,
            self.last_input,
            spec_transient_view(self.transient),
        )
    }

    /// The status message on show, with its severity and expiry time.
    pub closed spec fn spec_transient(self) -> Option<(Seq<char>, Severity, u64)> {
        spec_transient_view(self.transient)
    }

    /// One tab, no overlay, nothing pending, a follow owed for the first
    /// paint, and a default viewport until the first paint measures it.
    pub fn new(wrap_enabled: bool, initial_time: u64) -> (r: AppState)
        ensures
            r.wf(),
            r.spec_views() == seq![spec_fresh_view()],
            r.spec_active() == 0,
            !r.spec_should_quit(),
            r.spec_overlay() is Empty,
            r.spec_pending() == PendingAppInput::Idle,
            r.spec_follow().pending,
            r.spec_viewport() == (22usize, 76usize),
            r.spec_wrap() == wrap_enabled,
            r.spec_last_input() == initial_time,
            r.spec_transient() is None,
    {
        AppState {
            tabs: Tabs::new(),
            should_quit: false,
            overlay: Overlay::Empty,
            pending_input: PendingAppInput::Idle,
            follow: FollowState::new(),
            viewport_height: 22,
            viewport_width: 76,
            wrap_enabled,
            last_input: initial_time,
            transient: None,
        }
    }

    /// Number of open tabs.
    pub fn tab_count(&self) -> (r: usize)
        ensures
            r == self.spec_views().len(),
    {
        self.tabs.tab_count()
    }

    /// The active tab.
    pub fn active_tab(&self) -> (r: usize)
        ensures
            r == self.spec_active(),
    {
        self.tabs.active()
    }

    /// The active tab's viewport.
    pub fn active_view(&self) -> (r: Option<TabView>)
        requires
            self.wf(),
        ensures
            self.spec_views().len() == 0 ==> r is None,
            self.spec_views().len() > 0 ==> r == Some(self.spec_views()[self.spec_active()]),
    {
        self.tabs.active_view()
    }

    /// Whether the App is to quit.
    pub fn should_quit(&self) -> (r: bool)
        ensures
            r == self.spec_should_quit(),
    {
        self.should_quit
    }

    /// The overlay slot.
    pub fn overlay(&self) -> (r: &Overlay)
        ensures
            *r == self.spec_overlay(),
    {
        &self.overlay
    }

    /// The pending Space prefix.
    pub fn pending_input(&self) -> (r: PendingAppInput)
        ensures
            r == self.spec_pending(),
    {
        self.pending_input
    }

    /// The body size in rows and text columns.
    pub fn viewport(&self) -> (r: (usize, usize))
        ensures
            r == self.spec_viewport(),
    {
        (self.viewport_height, self.viewport_width)
    }

    /// Whether long lines wrap.
    pub fn wrap_enabled(&self) -> (r: bool)
        ensures
            r == self.spec_wrap(),
    {
        self.wrap_enabled
    }

    /// Note the time of an input event.
    pub fn record_input(&mut self, now: u64)
        ensures
            final(self).spec_last_input() == now,
            final(self).spec_views() == old(self).spec_views(),
            final(self).spec_active() == old(self).spec_active(),
            final(self).wf() == old(self).wf(),
    {
        self.last_input = now;
    }

    /// Whether the user has been idle for at least `duration` at `now`.
    pub fn input_idle_for(&self, now: u64, duration: u64) -> (r: bool)
        ensures
            r == (sat_sub(now as int, self.spec_last_input() as int) >= duration),
    {
        input_idle_for(self.last_input, now, duration)
    }

    /// Open a new tab after the others and make it active.
    pub fn open_tab(&mut self) -> (r: usize)
        requires
            old(self).wf(),
            old(self).spec_views().len() < usize::MAX,
        ensures
            final(self).wf(),
            r == old(self).spec_views().len(),
            final(self).spec_views() == old(self).spec_views().push(spec_fresh_view()),
            final(self).spec_active() == r,
            final(self).spec_follow().pending,
            final(self).spec_should_quit() == old(self).spec_should_quit(),
    {
        let r = self.tabs.open();
        self.follow.request();
        r
    }

    /// Close the tab at `idx` without asking; closing the last tab quits.
    pub fn close_tab(&mut self, idx: usize)
        requires
            old(self).wf(),
            idx < old(self).spec_views().len(),
        ensures
            final(self).wf(),
            final(self).spec_views() == old(self).spec_views().remove(idx as int),
            final(self).spec_active() == spec_active_after_close(
                old(self).spec_active(),
                idx as int,
                old(self).spec_views().len() as int,
            ),
            final(self).spec_should_quit() == (old(self).spec_should_quit() || final(self).spec_views().len() == 0),
            final(self).spec_follow().pending,
    {
        let empty = self.tabs.close(idx);
        if empty {
            self.should_quit = true;
        }
        self.follow.request();
    }

    /// Put a tab's viewport back at the top (its document was replaced).
    pub fn reset_tab_view(&mut self, idx: usize)
        requires
            old(self).wf(),
            idx < old(self).spec_views().len(),
        ensures
            final(self).wf(),
            final(self).spec_views() == old(self).spec_views().update(idx as int, spec_fresh_view()),
            final(self).spec_active() == old(self).spec_active(),
            final(self).spec_follow().pending,
    {
        self.tabs.reset_view(idx);
        self.follow.request();
    }

    /// Perform a tab navigation request; returns the warning for a jump to
    /// a tab that does not exist. Switching tabs owes a follow.
    pub fn execute_tab_action(&mut self, action: TabAction) -> (r: Option<String>)
        requires
            old(self).wf(),
        ensures
            final(self).wf(),
            final(self).spec_views() == old(self).spec_views(),
            final(self).spec_active() == spec_after_tab_action(action, old(self).spec_active(), old(self).spec_views().len() as int),
            spec_tab_action_switches(action, old(self).spec_views().len() as int) ==> final(self).spec_follow().pending,
            !spec_tab_action_switches(action, old(self).spec_views().len() as int) ==> final(self).spec_follow() == old(self).spec_follow(),
            action matches TabAction::Jump(n) && n > old(self).spec_views().len() ==> r is Some
                && r->Some_0@ == spec_missing_tab(action->Jump_0 as nat),
            !(action matches TabAction::Jump(n) && n > old(self).spec_views().len()) ==> r is None,
            final(self).spec_transient() == old(self).spec_transient(),
            final(self).spec_should_quit() == old(self).spec_should_quit(),
            final(self).spec_overlay() == old(self).spec_overlay(),
            final(self).spec_pending() == old(self).spec_pending(),
            final(self).spec_viewport() == old(self).spec_viewport(),
            final(self).spec_wrap() == old(self).spec_wrap(),
            final(self).spec_last_input() == old(self).spec_last_input(),
    {
        match self.tabs.execute_tab_action(action) {
            TabActionOutcome::Switched => {
                self.follow.request();
                None
            },
            TabActionOutcome::Unchanged => None,
            TabActionOutcome::Missing(message) => Some(message),
        }
    }

    /// Carry out `:qa`: quit unless modified tabs remain without `!`, in
    /// which case return the refusal.
    pub fn quit_all(&mut self, force: bool, dirty_count: usize) -> (r: Option<String>)
        ensures
            final(self).spec_views() == old(self).spec_views(),
            final(self).spec_active() == old(self).spec_active(),
            final(self).wf() == old(self).wf(),
            (force || dirty_count == 0) ==> r is None && final(self).spec_should_quit(),
            (!force && dirty_count > 0) ==> r is Some && r->Some_0@ == spec_quit_all_refusal(dirty_count as nat)
                && final(self).spec_should_quit() == old(self).spec_should_quit(),
    {
        match quit_all_decision(force, dirty_count) {
            Ok(()) => {
                self.should_quit = true;
                None
            },
            Err(message) => Some(message),
        }
    }

    /// Set the wrap option; wrapping drops the horizontal scroll of the
    /// active tab. Returns the status report, shown as information. A
    /// follow is owed.
    pub fn set_wrap(&mut self, enabled: bool) -> (r: (String, Severity))
        requires
            old(self).wf(),
        ensures
            final(self).wf(),
            final(self).spec_wrap() == enabled,
            final(self).spec_active() == old(self).spec_active(),
            final(self).spec_views().len() == old(self).spec_views().len(),
            enabled && old(self).spec_views().len() > 0 ==> final(self).spec_views() == old(self).spec_views().update(
                old(self).spec_active(),
                TabView { left_col: 0, ..old(self).spec_views()[old(self).spec_active()] },
            ),
            !enabled ==> final(self).spec_views() == old(self).spec_views(),
            final(self).spec_follow().pending,
            r.0@ == (if enabled { "wrap"@ } else { "nowrap"@ }),
            r.1 == Severity::Info,
    {
        proof {
            self.tabs.lemma_active_in_range();
        }
        self.wrap_enabled = enabled;
        if enabled {
            match self.tabs.active_view() {
                Some(view) => {
                    self.tabs.set_active_view(TabView { left_col: 0, ..view });
                },
                None => {},
            }
        }
        self.follow.request();
        wrap_report(enabled)
    }

    /// A terminal resize: measure the body (below the tab bar, above the
    /// status row) and follow right away at that size. Returns the new
    /// viewport size.
    pub fn on_resize(&mut self, height: u16, text_width: usize) -> (r: (usize, usize))
        requires
            old(self).wf(),
        ensures
            final(self).wf(),
            final(self).spec_views() == old(self).spec_views(),
            final(self).spec_active() == old(self).spec_active(),
            r.0 == sat_sub(height as int, if old(self).spec_views().len() > 1 { 2 } else { 1 }),
            r.1 == text_width,
            final(self).spec_viewport() == r,
            final(self).spec_follow() == (FollowState { last_geometry: Some(r), pending: false }),
    {
        let multiple = self.tabs.has_multiple_tabs();
        self.viewport_height = body_height(height, multiple) as usize;
        self.viewport_width = text_width;
        let geometry = (self.viewport_height, self.viewport_width);
        self.follow.followed_at(geometry);
        geometry
    }

    /// At paint time, with the frame height and the body's text width:
    /// measure the body and say whether to follow the cursor now (a follow
    /// was owed, or the size changed since the last one).
    pub fn on_paint(&mut self, height: u16, text_width: usize) -> (r: bool)
        requires
            old(self).wf(),
        ensures
            final(self).wf(),
            final(self).spec_views() == old(self).spec_views(),
            final(self).spec_active() == old(self).spec_active(),
            ({
                let geometry = (
                    sat_sub(height as int, if old(self).spec_views().len() > 1 { 2 } else { 1 }) as usize,
                    text_width,
                );
                &&& final(self).spec_viewport() == geometry
                &&& r == (old(self).spec_follow().pending || old(self).spec_follow().last_geometry != Some(geometry))
                &&& !final(self).spec_follow().pending
            }),
    {
        let multiple = self.tabs.has_multiple_tabs();
        self.viewport_height = body_height(height, multiple) as usize;
        self.viewport_width = text_width;
        self.follow.on_paint((self.viewport_height, self.viewport_width))
    }

    /// Store a scroll-follow result for the active tab's source surface.
    pub fn apply_source_scroll(&mut self, position: (usize, usize, usize))
        requires
            old(self).wf(),
        ensures
            final(self).spec_rest() == old(self).spec_rest(),
            final(self).wf(),
            final(self).spec_active() == old(self).spec_active(),
            old(self).spec_views().len() > 0 ==> final(self).spec_views() == old(self).spec_views().update(
                old(self).spec_active(),
                TabView {
                    top_line: position.0,
                    skip_rows: position.1,
                    left_col: position.2,
                    ..old(self).spec_views()[old(self).spec_active()]
                },
            ),
            old(self).spec_views().len() == 0 ==> final(self).spec_views() == old(self).spec_views(),
    {
        match self.tabs.active_view() {
            Some(view) => {
                let mut view = view;
                view.apply_source_scroll(position);
                self.tabs.set_active_view(view);
            },
            None => {},
        }
    }

    /// Store the active tab's first rendered row.
    pub fn set_rendered_top(&mut self, top: usize)
        requires
            old(self).wf(),
        ensures
            final(self).spec_rest() == old(self).spec_rest(),
            final(self).wf(),
            final(self).spec_active() == old(self).spec_active(),
            old(self).spec_views().len() > 0 ==> final(self).spec_views() == old(self).spec_views().update(
                old(self).spec_active(),
                TabView { rendered_top: top, ..old(self).spec_views()[old(self).spec_active()] },
            ),
            old(self).spec_views().len() == 0 ==> final(self).spec_views() == old(self).spec_views(),
    {
        match self.tabs.active_view() {
            Some(view) => {
                self.tabs.set_active_view(TabView { rendered_top: top, ..view });
            },
            None => {},
        }
    }

    /// Wheel scrolling by `lines` rows: the viewport moves, the cursor
    /// stays. Rendered modes (Normal, Select, Command) move the first
    /// rendered row, clamped to the rendered layout of `content_height`
    /// rows when scrolling down; Insert moves the first source line, clamped
    /// to the document's `content_height` lines.
    pub fn scroll_wheel(&mut self, mode: Mode, down: bool, lines: usize, content_height: usize)
        requires
            old(self).wf(),
            old(self).spec_views().len() > 0 ==> ({
                let v = old(self).spec_views()[old(self).spec_active()];
                (if mode == Mode::Insert { v.top_line } else { v.rendered_top }) + lines <= usize::MAX
            }),
        ensures
            final(self).spec_rest() == old(self).spec_rest(),
            final(self).wf(),
            final(self).spec_active() == old(self).spec_active(),
            old(self).spec_views().len() == 0 ==> final(self).spec_views() == old(self).spec_views(),
            old(self).spec_views().len() > 0 ==> ({
                let v = old(self).spec_views()[old(self).spec_active()];
                let max_top = sat_sub(content_height as int, old(self).spec_viewport().0 as int);
                if mode == Mode::Insert {
                    let t = if down {
                        if v.top_line + lines < max_top { v.top_line + lines } else { max_top }
                    } else {
                        sat_sub(v.top_line as int, lines as int)
                    };
                    final(self).spec_views() == old(self).spec_views().update(
                        old(self).spec_active(),
                        TabView {
                            top_line: t as usize,
                            skip_rows: if t == v.top_line { v.skip_rows } else { 0 },
                            ..v
                        },
                    )
                } else {
                    let t = if down {
                        if v.rendered_top + lines < max_top { v.rendered_top + lines } else { max_top }
                    } else {
                        sat_sub(v.rendered_top as int, lines as int)
                    };
                    final(self).spec_views() == old(self).spec_views().update(
                        old(self).spec_active(),
                        TabView { rendered_top: t as usize, ..v },
                    )
                }
            }),
    {
        match self.tabs.active_view() {
            Some(view) => {
                let mut view = view;
                if mode == Mode::Insert {
                    let top = if down {
                        scroll_down_top(view.top_line, lines, content_height, self.viewport_height)
                    } else {
                        scroll_up_top(view.top_line, lines)
                    };
                    view.set_top_line(top);
                } else {
                    view.rendered_top = if down {
                        scroll_down_top(view.rendered_top, lines, content_height, self.viewport_height)
                    } else {
                        scroll_up_top(view.rendered_top, lines)
                    };
                }
                self.tabs.set_active_view(view);
            },
            None => {},
        }
    }

    /// Open an overlay in the slot; the pending prefix is dropped.
    pub fn open_overlay(&mut self, overlay: Overlay)
        ensures
            final(self).spec_overlay() == overlay,
            final(self).spec_pending() == PendingAppInput::Idle,
            final(self).spec_views() == old(self).spec_views(),
            final(self).spec_active() == old(self).spec_active(),
            final(self).wf() == old(self).wf(),
    {
        self.overlay = overlay;
        self.pending_input = PendingAppInput::Idle;
    }

    /// Close the overlay slot; the pending prefix is dropped.
    pub fn close_overlay(&mut self)
        ensures
            final(self).spec_overlay() is Empty,
            final(self).spec_pending() == PendingAppInput::Idle,
            final(self).spec_views() == old(self).spec_views(),
            final(self).spec_active() == old(self).spec_active(),
            final(self).wf() == old(self).wf(),
    {
        self.overlay.close();
        self.pending_input = PendingAppInput::Idle;
    }

    /// Route a key in the given mode (see the routing order in `routing`).
    /// A key handed to the session owes a follow.
    pub fn route_key(&mut self, mode: Mode, key: KeyInput, now: u64) -> (r: KeyRoute)
        ensures
            final(self).spec_views() == old(self).spec_views(),
            final(self).spec_active() == old(self).spec_active(),
            final(self).wf() == old(self).wf(),
            spec_key_routed(
                old(self).spec_overlay(),
                old(self).spec_pending(),
                mode,
                key,
                now,
                final(self).spec_overlay(),
                final(self).spec_pending(),
                r,
            ),
            r is Forward ==> final(self).spec_follow().pending,
            !(r is Forward) ==> final(self).spec_follow() == old(self).spec_follow(),
            final(self).spec_transient() == old(self).spec_transient(),
            final(self).spec_should_quit() == old(self).spec_should_quit(),
            final(self).spec_viewport() == old(self).spec_viewport(),
            final(self).spec_wrap() == old(self).spec_wrap(),
            final(self).spec_last_input() == old(self).spec_last_input(),
    {
        let r = route_key(&mut self.overlay, &mut self.pending_input, mode, key, now);
        match r {
            KeyRoute::Forward(_) => {
                self.follow.request();
            },
            _ => {},
        }
        r
    }

    /// A paste or another edit reached the session: a follow is owed.
    pub fn request_follow(&mut self)
        ensures
            final(self).spec_follow().pending,
            final(self).spec_views() == old(self).spec_views(),
            final(self).spec_active() == old(self).spec_active(),
            final(self).wf() == old(self).wf(),
    {
        self.follow.request();
    }
    /// Refresh the open diagnostics list with a new snapshot (nothing
    /// happens when another overlay is open).
    pub fn refresh_trouble(&mut self, entries: Vec<TroubleEntry>, progress: TroubleProgress)
        ensures
            !(old(self).spec_overlay() is Trouble) ==> final(self).spec_overlay() == old(self).spec_overlay(),
            old(self).spec_overlay() matches Overlay::Trouble(t) ==> (final(self).spec_overlay() matches Overlay::Trouble(t2)
                && t2.spec_entries() == entries@
                && t2.spec_progress() == progress
                && t2.spec_warning().is_none()
                && t2.spec_selected() == spec_refreshed_selection(t.spec_ids(), t.spec_selected(), spec_entry_ids(entries@))
                && t2.spec_scroll() == spec_scroll_for_selection(
                    t.spec_scroll(),
                    t2.spec_selected(),
                    entries@.len() as usize,
                    VISIBLE_DIAGNOSTICS,
                )),
            final(self).spec_pending() == old(self).spec_pending(),
            final(self).spec_views() == old(self).spec_views(),
            final(self).spec_active() == old(self).spec_active(),
            final(self).wf() == old(self).wf(),
            final(self).spec_should_quit() == old(self).spec_should_quit(),
            final(self).spec_follow() == old(self).spec_follow(),
            final(self).spec_viewport() == old(self).spec_viewport(),
            final(self).spec_wrap() == old(self).spec_wrap(),
            final(self).spec_last_input() == old(self).spec_last_input(),
    {
        self.overlay.refresh_trouble(entries, progress);
    }

    /// After a Trouble jump: on success the list closes, the pending prefix
    /// is dropped and a follow is owed; otherwise the list stays open with
    /// the stale warning (the session's error, when it gave one).
    pub fn finish_trouble_jump(&mut self, outcome: Result<(), Option<String>>)
        ensures
            final(self).spec_views() == old(self).spec_views(),
            final(self).spec_active() == old(self).spec_active(),
            final(self).wf() == old(self).wf(),
            outcome is Ok ==> final(self).spec_overlay() is Empty && final(self).spec_pending() == PendingAppInput::Idle
                && final(self).spec_follow().pending,
            outcome matches Err(e) ==> final(self).spec_pending() == old(self).spec_pending() && (match old(self).spec_overlay() {
                Overlay::Trouble(t) => final(self).spec_overlay() matches Overlay::Trouble(t2)
                    && t2.spec_warning() == Some(match e {
                        Some(m) => "selected diagnostic is stale: "@ + m@,
                        None => "selected diagnostic is stale; jump cancelled"@,
                    })
                    && t2.spec_entries() == t.spec_entries()
                    && t2.spec_selected() == t.spec_selected(),
                _ => final(self).spec_overlay() == old(self).spec_overlay(),
            }),
    {
        match outcome {
            Ok(()) => {
                self.overlay.close();
                self.pending_input = PendingAppInput::Idle;
                self.follow.request();
            },
            Err(error) => {
                let warning = trouble_jump_warning(error);
                self.overlay.mark_trouble_stale(warning.as_str());
            },
        }
    }

    /// After the App carried out a suggestion-overlay request: Close always
    /// closes it; an applied replacement or an added word closes it only
    /// when that succeeded (an applied one owes a follow); staying open
    /// changes nothing.
    pub fn finish_spell_action(&mut self, action: &SpellSuggestAction, succeeded: bool)
        ensures
            final(self).spec_views() == old(self).spec_views(),
            final(self).spec_active() == old(self).spec_active(),
            final(self).wf() == old(self).wf(),
            ({
                let closes = match *action {
                    SpellSuggestAction::StayOpen => false,
                    SpellSuggestAction::Close => true,
                    SpellSuggestAction::Apply(_) => succeeded,
                    SpellSuggestAction::AddWord => succeeded,
                };
                &&& closes ==> final(self).spec_overlay() is Empty && final(self).spec_pending() == PendingAppInput::Idle
                &&& !closes ==> final(self).spec_overlay() == old(self).spec_overlay()
                    && final(self).spec_pending() == old(self).spec_pending()
            }),
            (action is Apply && succeeded) ==> final(self).spec_follow().pending,
            !(action is Apply && succeeded) ==> final(self).spec_follow() == old(self).spec_follow(),
    {
        let closes = match action {
            SpellSuggestAction::StayOpen => false,
            SpellSuggestAction::Close => true,
            SpellSuggestAction::Apply(_) => succeeded,
            SpellSuggestAction::AddWord => succeeded,
        };
        let applied = match action {
            SpellSuggestAction::Apply(_) => succeeded,
            _ => false,
        };
        if applied {
            self.follow.request();
        }
        if closes {
            self.overlay.close();
            self.pending_input = PendingAppInput::Idle;
        }
    }

    /// Whether paste and mouse input are held back: the suggestion and
    /// Trouble overlays take no pointer input and keep it from the document.
    pub fn pointer_input_blocked(&self) -> (r: bool)
        ensures
            r == (self.spec_overlay() is SpellSuggest || self.spec_overlay() is Trouble),
    {
        self.overlay.is_spell_suggest() || self.overlay.is_trouble()
    }
    /// The width the rendered layout is built at: the viewport's text
    /// width, capped at the largest cell count.
    pub fn layout_width(&self) -> (r: u16)
        ensures
            r == (if self.spec_viewport().1 < u16::MAX { self.spec_viewport().1 as u16 } else { u16::MAX }),
    {
        if self.viewport_width < u16::MAX as usize { self.viewport_width as u16 } else { u16::MAX }
    }

    /// Scroll-follow on the rendered surface: with a layout of
    /// `layout_height` rows and the cursor on rendered row `cursor_line`,
    /// move the active tab's first rendered row so the cursor shows (see
    /// `rendered_scroll_top`); an empty layout or viewport changes nothing.
    pub fn follow_rendered(&mut self, cursor_line: usize, layout_height: usize)
        requires
            old(self).wf(),
        ensures
            final(self).spec_rest() == old(self).spec_rest(),
            final(self).wf(),
            final(self).spec_active() == old(self).spec_active(),
            layout_height == 0 || old(self).spec_viewport().0 == 0 || old(self).spec_views().len() == 0
                ==> final(self).spec_views() == old(self).spec_views(),
            layout_height > 0 && old(self).spec_viewport().0 > 0 && old(self).spec_views().len() > 0 ==> ({
                let v = old(self).spec_views()[old(self).spec_active()];
                final(self).spec_views() == old(self).spec_views().update(
                    old(self).spec_active(),
                    TabView {
                        rendered_top: spec_rendered_scroll_top(
                            cursor_line as int,
                            old(self).spec_viewport().0 as int,
                            layout_height as int,
                            v.rendered_top as int,
                        ) as usize,
                        ..v
                    },
                )
            }),
    {
        if layout_height == 0 || self.viewport_height == 0 {
            return;
        }
        match self.tabs.active_view() {
            Some(view) => {
                let top = rendered_scroll_top(cursor_line, self.viewport_height, layout_height, view.rendered_top);
                self.set_rendered_top(top);
            },
            None => {},
        }
    }

    /// Scroll-follow on the source surface, from what the session reports
    /// of the cursor (its line and column, its visual row and its line's
    /// visual row count), the line count, and the visual row counts of the
    /// lines before the cursor's: the active tab's viewport moves as
    /// `source_scroll_position` says.
    pub fn follow_source(
        &mut self,
        cursor: (usize, usize),
        line_count: usize,
        cursor_visual_row: usize,
        cursor_line_height: usize,
        line_rows: &Vec<usize>,
    )
        requires
            old(self).wf(),
            old(self).spec_wrap() && old(self).spec_viewport().1 > 0 ==> cursor.0 <= line_rows@.len(),
        ensures
            final(self).spec_rest() == old(self).spec_rest(),
            final(self).wf(),
            final(self).spec_active() == old(self).spec_active(),
            old(self).spec_views().len() == 0 ==> final(self).spec_views() == old(self).spec_views(),
            old(self).spec_views().len() > 0 ==> ({
                let v = old(self).spec_views()[old(self).spec_active()];
                let input = SourceScrollInput {
                    top_line: v.top_line,
                    left_col: v.left_col,
                    skip_rows: v.skip_rows,
                    cursor_line: cursor.0,
                    cursor_col: cursor.1,
                    line_count,
                    wrap: old(self).spec_wrap(),
                    viewport_height: old(self).spec_viewport().0,
                    viewport_width: old(self).spec_viewport().1,
                    cursor_visual_row,
                    cursor_line_height,
                };
                let p = spec_source_scroll_position(input, line_rows@);
                final(self).spec_views() == old(self).spec_views().update(
                    old(self).spec_active(),
                    TabView { top_line: p.0 as usize, skip_rows: p.1 as usize, left_col: p.2 as usize, ..v },
                )
            }),
    {
        match self.tabs.active_view() {
            Some(view) => {
                let input = SourceScrollInput {
                    top_line: view.top_line,
                    left_col: view.left_col,
                    skip_rows: view.skip_rows,
                    cursor_line: cursor.0,
                    cursor_col: cursor.1,
                    line_count,
                    wrap: self.wrap_enabled,
                    viewport_height: self.viewport_height,
                    viewport_width: self.viewport_width,
                    cursor_visual_row,
                    cursor_line_height,
                };
                let position = source_scroll_position(input, line_rows);
                self.apply_source_scroll(position);
            },
            None => {},
        }
    }
    /// Show a status message until `ttl` after `now`.
    pub fn set_transient(&mut self, text: String, severity: Severity, now: u64, ttl: u64)
        requires
            now + ttl <= u64::MAX,
        ensures
            final(self).spec_transient() == Some((text@, severity, (now + ttl) as u64)),
            final(self).spec_views() == old(self).spec_views(),
            final(self).spec_active() == old(self).spec_active(),
            final(self).wf() == old(self).wf(),
            final(self).spec_should_quit() == old(self).spec_should_quit(),
            final(self).spec_overlay() == old(self).spec_overlay(),
            final(self).spec_pending() == old(self).spec_pending(),
            final(self).spec_follow() == old(self).spec_follow(),
            final(self).spec_viewport() == old(self).spec_viewport(),
            final(self).spec_wrap() == old(self).spec_wrap(),
    {
        self.transient = Some(Transient { text, severity, expires_at: now + ttl });
    }

    /// The status message on show, if any.
    pub fn transient(&self) -> (r: Option<&Transient>)
        ensures
            spec_transient_view(match r {
                Some(t) => Some(*t),
                None => None,
            }) == self.spec_transient(),
    {
        match &self.transient {
            Some(t) => Some(t),
            None => None,
        }
    }

    /// Advance the timers to `now`: a status message whose expiry time has
    /// come is dropped; the result is the next poll deadline, the earlier of
    /// the remaining message's expiry and the which-key delay after a
    /// pending Space, or none when that is already past.
    pub fn tick(&mut self, now: u64) -> (r: Option<u64>)
        requires
            old(self).spec_pending() matches PendingAppInput::Space { since } ==> since + WHICH_KEY_DELAY <= u64::MAX,
        ensures
            final(self).spec_transient() == (match old(self).spec_transient() {
                Some(t) => if now >= t.2 { None } else { Some(t) },
                None => None,
            }),
            r == spec_tick_deadline(
                now,
                match final(self).spec_transient() {
                    Some(t) => Some(t.2),
                    None => None,
                },
                old(self).spec_pending(),
            ),
            final(self).spec_views() == old(self).spec_views(),
            final(self).spec_active() == old(self).spec_active(),
            final(self).wf() == old(self).wf(),
            final(self).spec_should_quit() == old(self).spec_should_quit(),
            final(self).spec_overlay() == old(self).spec_overlay(),
            final(self).spec_pending() == old(self).spec_pending(),
            final(self).spec_follow() == old(self).spec_follow(),
            final(self).spec_viewport() == old(self).spec_viewport(),
            final(self).spec_wrap() == old(self).spec_wrap(),
    {
        let expired = match &self.transient {
            Some(t) => now >= t.expires_at,
            None => false,
        };
        if expired {
            self.transient = None;
        }
        let expiry = match &self.transient {
            Some(t) => Some(t.expires_at),
            None => None,
        };
        tick_deadline(now, expiry, self.pending_input)
    }
}

} // verus!
