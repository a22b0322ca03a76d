//! The overlay slot: at most one modal overlay is open at a time.
//!
//! Palette input uses a consumed/pass-through protocol. Confirmation
//! variants own their complete lifecycle request and return a semantic
//! resolution. The spelling-suggestion and Trouble overlays take every key
//! and answer with a semantic request for the App.

use vstd::prelude::*;
use crate::confirm::{
    spec_confirm_step, spec_dirty_choice, spec_external_choice, ConfirmOverwrite, ConfirmQuit,
    ConfirmationResolution,
};
use crate::keys::{diagnostic_view, Diagnostic, KeyInput};
use crate::lifecycle::{CloseTabRequest, SaveRequest};
use crate::palette::{spec_palette_key_step, spec_selected_command, PaletteState};
use crate::spell_suggest::{spec_suggest_key, SpellSuggestAction, SpellSuggestState};
use crate::trouble::{
    spec_entry_ids, spec_refreshed_selection, spec_scroll_for_selection, spec_trouble_key, TroubleAction,
    TroubleEntry, TroubleProgress, TroubleState, VISIBLE_DIAGNOSTICS,
};
use crate::registry::{AppCommand, Contexts};

verus! {

/// The active overlay slot.
#[derive(Debug)]
pub enum Overlay {
    /// No overlay is open.
    Empty,
    /// The command palette.
    Palette(PaletteState),
    /// Confirmation for closing a modified tab.
    ConfirmQuit(ConfirmQuit),
    /// Confirmation for saving over a file changed on disk.
    ConfirmOverwrite(ConfirmOverwrite),
    /// Spelling suggestions for one diagnostic.
    SpellSuggest(SpellSuggestState),
    /// The diagnostics list.
    Trouble(TroubleState),
}

impl Default for Overlay {
    fn default() -> (r: Overlay)
        ensures
            r is Empty,
    {
        Overlay::Empty
    }
}

impl Overlay {
    /// Whether any overlay is open.
    pub fn is_some(&self) -> (r: bool)
        ensures
            r == !(self is Empty),
    {
        !matches!(self, Overlay::Empty)
    }

    /// Whether the palette is open.
    pub fn is_palette(&self) -> (r: bool)
        ensures
            r == (self is Palette),
    {
        matches!(self, Overlay::Palette(_))
    }

    /// Open the command palette for a context.
    pub fn open_palette(context: Contexts) -> (r: Self)
        ensures
            r matches Overlay::Palette(p) && p.spec_context() == context && p.spec_filter()
                == Seq::<char>::empty(),
    {
        Overlay::Palette(PaletteState::new(context))
    }

    /// Open the confirmation for closing a modified tab.
    pub fn open_confirm_quit(action: CloseTabRequest) -> (r: Self)
        ensures
            r matches Overlay::ConfirmQuit(q) && q.spec_action() == action && q.spec_selected()
                == 0,
    {
        Overlay::ConfirmQuit(ConfirmQuit::for_action(action))
    }

    /// Open the confirmation for saving over a changed file.
    pub fn open_confirm_overwrite(request: SaveRequest, disk_path: String) -> (r: Self)
        ensures
            r matches Overlay::ConfirmOverwrite(o) && o.spec_request() == request@
                && o.spec_disk_path() == disk_path@ && o.spec_selected() == 0,
    {
        Overlay::ConfirmOverwrite(ConfirmOverwrite::for_request(request, disk_path))
    }

    /// Close the current overlay, returning what was open.
    pub fn close(&mut self) -> (r: Overlay)
        ensures
            *final(self) is Empty,
            r == *old(self),
    {
        let mut closed = Overlay::Empty;
        std::mem::swap(self, &mut closed);
        closed
    }

    /// Route a key: the palette reports whether it consumed the key, the
    /// confirmations consume every key, and no overlay consumes nothing.
    pub fn handle_key(&mut self, key: &KeyInput) -> (r: bool)
        ensures
            match *old(self) {
                Overlay::Empty => !r && *final(self) is Empty,
                Overlay::ConfirmQuit(_) => r && *final(self) == *old(self),
                Overlay::ConfirmOverwrite(_) => r && *final(self) == *old(self),
                Overlay::SpellSuggest(_) => r && *final(self) == *old(self),
                Overlay::Trouble(_) => r && *final(self) == *old(self),
                Overlay::Palette(p) => match *final(self) {
                    Overlay::Palette(p2) => p2.spec_context() == p.spec_context()
                        && spec_palette_key_step(
                        p.spec_filter(),
                        p.spec_context(),
                        p.spec_selected(),
                        *key,
                        p2.spec_filter(),
                        p2.spec_selected(),
                        r,
                    ),
                    _ => false,
                },
            },
    {
        match self {
            Overlay::Palette(p) => p.handle_key(key),
            Overlay::ConfirmQuit(_) => true,
            Overlay::ConfirmOverwrite(_) => true,
            Overlay::SpellSuggest(_) => true,
            Overlay::Trouble(_) => true,
            Overlay::Empty => false,
        }
    }

    /// Preferred centered geometry (width, height) in cells.
    pub fn geometry(&self) -> (r: (u16, u16))
        ensures
            r == (match self {
                Overlay::Palette(_) => (40u16, 12u16),
                Overlay::ConfirmQuit(_) => (40u16, 7u16),
                Overlay::ConfirmOverwrite(_) => (40u16, 7u16),
                Overlay::SpellSuggest(_) => (52u16, 14u16),
                Overlay::Trouble(_) => (76u16, 18u16),
                Overlay::Empty => (0u16, 0u16),
            }),
    {
        match self {
            Overlay::Palette(p) => p.geometry(),
            Overlay::ConfirmQuit(q) => q.geometry(),
            Overlay::ConfirmOverwrite(o) => o.geometry(),
            Overlay::SpellSuggest(s) => s.geometry(),
            Overlay::Trouble(t) => t.geometry(),
            Overlay::Empty => (0, 0),
        }
    }

    /// Hint text for the bottom bar.
    pub fn hints(&self) -> (r: &'static str)
        ensures
            r@ == (match self {
                Overlay::Palette(_) => "↑↓ navigate · type to filter · Enter run/open ex · Esc close"@,
                Overlay::ConfirmQuit(_) => "y/w save+quit · n quit · Esc cancel"@,
                Overlay::ConfirmOverwrite(_) => "o overwrite · r reload · Esc cancel"@,
                Overlay::SpellSuggest(_) => "j/k navigate · 1-9/Enter apply · a add · Esc close"@,
                Overlay::Trouble(_) => "j/k navigate · Enter jump · Esc close"@,
                Overlay::Empty => ""@,
            }),
    {
        match self {
            Overlay::Palette(p) => p.hints(),
            Overlay::ConfirmQuit(_) => "y/w save+quit · n quit · Esc cancel",
            Overlay::ConfirmOverwrite(_) => "o overwrite · r reload · Esc cancel",
            Overlay::SpellSuggest(s) => s.hints(),
            Overlay::Trouble(t) => t.hints(),
            Overlay::Empty => "",
        }
    }

    /// The App command the palette's focused row runs, if any.
    pub fn selected_command(&self) -> (r: Option<AppCommand>)
        ensures
            r == (match self {
                Overlay::Palette(p) => spec_selected_command(
                    p.spec_filter(),
                    p.spec_context(),
                    p.spec_selected(),
                ),
                _ => None,
            }),
    {
        if let Overlay::Palette(p) = self {
            p.selected_command()
        } else {
            None
        }
    }

    /// Whether a confirmation is open.
    pub fn is_confirmation(&self) -> (r: bool)
        ensures
            r == (self is ConfirmQuit || self is ConfirmOverwrite),
    {
        matches!(self, Overlay::ConfirmQuit(_) | Overlay::ConfirmOverwrite(_))
    }

    /// Feed a key to an open confirmation and return its resolution, if the
    /// key resolves it.
    pub fn handle_confirmation_key(&mut self, key: &KeyInput) -> (r: Option<
        ConfirmationResolution,
    >)
        ensures
            !(*old(self) is ConfirmQuit || *old(self) is ConfirmOverwrite) ==> r.is_none()
                && *final(self) == *old(self),
            *old(self) matches Overlay::ConfirmQuit(q) ==> match *final(self) {
                Overlay::ConfirmQuit(q2) => {
                    let (sel, picked) = spec_confirm_step(q.spec_selected(), *key, 'y', 'w', 'n');
                    &&& q2.spec_selected() == sel
                    &&& q2.spec_action() == q.spec_action()
                    &&& match picked {
                        Some(p) => r == Some(
                            ConfirmationResolution::DirtyClose {
                                action: q.spec_action(),
                                choice: spec_dirty_choice(p),
                            },
                        ),
                        None => r.is_none(),
                    }
                },
                _ => false,
            },
            *old(self) matches Overlay::ConfirmOverwrite(o) ==> match *final(self) {
                Overlay::ConfirmOverwrite(o2) => {
                    let (sel, picked) = spec_confirm_step(o.spec_selected(), *key, 'o', 'o', 'r');
                    &&& o2.spec_selected() == sel
                    &&& o2.spec_request() == o.spec_request()
                    &&& o2.spec_disk_path() == o.spec_disk_path()
                    &&& match picked {
                        Some(p) => match r {
                            Some(ConfirmationResolution::ExternalSave { request, disk_path, choice }) => {
                                &&& request@ == o.spec_request()
                                &&& disk_path@ == o.spec_disk_path()
                                &&& choice == spec_external_choice(p)
                            },
                            _ => false,
                        },
                        None => r.is_none(),
                    }
                },
                _ => false,
            },
    {
        match self {
            Overlay::ConfirmQuit(q) => q.resolve_key(key),
            Overlay::ConfirmOverwrite(o) => o.resolve_key(key),
            _ => None,
        }
    }
    /// Whether the spelling-suggestion overlay is open.
    pub fn is_spell_suggest(&self) -> (r: bool)
        ensures
            r == (self is SpellSuggest),
    {
        matches!(self, Overlay::SpellSuggest(_))
    }

    /// Whether the Trouble overlay is open.
    pub fn is_trouble(&self) -> (r: bool)
        ensures
            r == (self is Trouble),
    {
        matches!(self, Overlay::Trouble(_))
    }

    /// Open the spelling suggestions for a diagnostic (the first nine).
    pub fn open_spell_suggest(diagnostic: Diagnostic, suggestions: Vec<String>) -> (r: Self)
        ensures
            r matches Overlay::SpellSuggest(s) && s.spec_diagnostic() == diagnostic_view(diagnostic)
                && s.spec_suggestions() == crate::spell_suggest::spec_texts(suggestions@).take(
                if suggestions@.len() <= 9 { suggestions@.len() as int } else { 9 },
            ) && s.spec_selected() == (if suggestions@.len() > 0 { Some(0usize) } else { None }),
    {
        Overlay::SpellSuggest(SpellSuggestState::new(diagnostic, suggestions))
    }

    /// Open the diagnostics list over a snapshot.
    pub fn open_trouble(entries: Vec<TroubleEntry>, progress: TroubleProgress) -> (r: Self)
        ensures
            r matches Overlay::Trouble(t) && t.spec_entries() == entries@ && t.spec_progress() == progress
                && t.spec_selected() == (if entries@.len() > 0 { Some(0usize) } else { None })
                && t.spec_scroll() == 0 && t.spec_warning().is_none(),
    {
        Overlay::Trouble(TroubleState::new(entries, progress))
    }

    /// Replace the open diagnostics list's snapshot, keeping the selected
    /// diagnostic; nothing happens when another overlay is open.
    pub fn refresh_trouble(&mut self, entries: Vec<TroubleEntry>, progress: TroubleProgress)
        ensures
            !(*old(self) is Trouble) ==> *final(self) == *old(self),
            *old(self) matches Overlay::Trouble(t) ==> (*final(self) matches Overlay::Trouble(t2)
                && t2.spec_entries() == entries@
                && t2.spec_progress() == progress
                && t2.spec_warning().is_none()
                && t2.spec_selected() == spec_refreshed_selection(t.spec_ids(), t.spec_selected(), spec_entry_ids(entries@))
                && t2.spec_scroll() == spec_scroll_for_selection(
                    t.spec_scroll(),
                    t2.spec_selected(),
                    entries@.len() as usize,
                    VISIBLE_DIAGNOSTICS,
                )),
    {
        if let Overlay::Trouble(t) = self {
            t.refresh(entries, progress);
        }
    }

    /// Show a stale-selection warning on the open diagnostics list; nothing
    /// happens when another overlay is open.
    pub fn mark_trouble_stale(&mut self, message: &str)
        ensures
            !(*old(self) is Trouble) ==> *final(self) == *old(self),
            *old(self) matches Overlay::Trouble(t) ==> (*final(self) matches Overlay::Trouble(t2)
                && t2.spec_warning() == Some(message@)
                && t2.spec_entries() == t.spec_entries()
                && t2.spec_selected() == t.spec_selected()
                && t2.spec_scroll() == t.spec_scroll()
                && t2.spec_progress() == t.spec_progress()),
    {
        if let Overlay::Trouble(t) = self {
            t.mark_stale(message);
        }
    }

    /// The diagnostic the open suggestion overlay is for.
    pub fn spell_suggest_diagnostic(&self) -> (r: Option<Diagnostic>)
        ensures
            match self {
                Overlay::SpellSuggest(s) => r matches Some(d) && diagnostic_view(d) == s.spec_diagnostic(),
                _ => r is None,
            },
    {
        match self {
            Overlay::SpellSuggest(s) => Some(crate::keys::clone_diagnostic(s.diagnostic())),
            _ => None,
        }
    }

    /// Feed a key to an open suggestion overlay; `None` when it is not open.
    pub fn handle_spell_suggest_key(&mut self, key: &KeyInput) -> (r: Option<SpellSuggestAction>)
        ensures
            !(*old(self) is SpellSuggest) ==> r is None && *final(self) == *old(self),
            *old(self) matches Overlay::SpellSuggest(s) ==> (*final(self) matches Overlay::SpellSuggest(s2)
                && r matches Some(a) && spec_suggest_key(s, s2, *key, a)),
    {
        match self {
            Overlay::SpellSuggest(s) => Some(s.handle_key(key)),
            _ => None,
        }
    }

    /// Feed a key to an open Trouble overlay; `None` when it is not open.
    pub fn handle_trouble_key(&mut self, key: &KeyInput) -> (r: Option<TroubleAction>)
        ensures
            !(*old(self) is Trouble) ==> r is None && *final(self) == *old(self),
            *old(self) matches Overlay::Trouble(t) ==> (*final(self) matches Overlay::Trouble(t2)
                && r matches Some(a) && spec_trouble_key(t, t2, *key, a)),
    {
        match self {
            Overlay::Trouble(t) => Some(t.handle_key(key)),
            _ => None,
        }
    }
}

} // verus!
