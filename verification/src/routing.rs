//! Key routing, in a fixed order:
//!
//! 1. an unsupported terminal key changes nothing;
//! 2. an open confirmation takes every key and may resolve;
//! 3. an open spelling-suggestion or Trouble overlay takes every key and
//!    answers with its request;
//! 4. another open overlay (the palette) takes every key: Esc/Ctrl-C close
//!    it, Enter runs its focused command;
//! 5. in Normal and Select the App's Space-prefix transition runs; App
//!    commands and tab actions stop there;
//! 6. everything else goes to the editing session.

use vstd::prelude::*;
use crate::confirm::{spec_confirm_step, spec_dirty_choice, spec_external_choice, ConfirmationResolution};
use crate::keymap::{resolve, spec_resolve, AppInputTransition, PendingAppInput, TabAction};
use crate::keys::{KeyCodeKind, KeyInput, Mode};
use crate::overlay::Overlay;
use crate::palette::{spec_palette_key_step, spec_selected_command};
use crate::registry::{AppCommand, Contexts};
use crate::spell_suggest::{spec_suggest_key, SpellSuggestAction};
use crate::trouble::{spec_trouble_key, TroubleAction};

verus! {

/// The registry context of a mode.
pub open spec fn spec_mode_to_context(mode: Mode) -> Contexts {
    match mode {
        Mode::Normal => Contexts(1),
        Mode::Insert => Contexts(2),
        Mode::Select => Contexts(4),
        Mode::Command => Contexts(8),
    }
}

/// The registry context of a mode.
pub fn mode_to_context(mode: Mode) -> (r: Contexts)
    ensures
        r == spec_mode_to_context(mode),
{
    match mode {
        Mode::Normal => Contexts::normal(),
        Mode::Insert => Contexts::insert(),
        Mode::Select => Contexts::select(),
        Mode::Command => Contexts::command(),
    }
}

/// Whether the App's Space chords apply in a mode (Normal and Select).
pub fn in_chord_context(mode: Mode) -> (r: bool)
    ensures
        r == (mode == Mode::Normal || mode == Mode::Select),
{
    match mode {
        Mode::Normal => true,
        Mode::Select => true,
        _ => false,
    }
}

/// Where a key went.
#[derive(Debug, Clone, PartialEq, Eq)]
pub enum KeyRoute {
    /// An unsupported terminal key: nothing changed.
    Ignored,
    /// An overlay took the key.
    Consumed,
    /// A confirmation resolved and closed.
    Confirmation(ConfirmationResolution),
    /// The overlay was closed with Esc or Ctrl-C.
    Dismissed,
    /// The spelling-suggestion overlay's request.
    SpellSuggest(SpellSuggestAction),
    /// The Trouble overlay's request.
    Trouble(TroubleAction),
    /// Run this App command.
    Command(AppCommand),
    /// Enter on a reference row of the palette: it closed, with nothing to
    /// run.
    ReferenceEntry,
    /// Space started a prefix; the next key completes it.
    Pending,
    /// Tab navigation.
    Tab(TabAction),
    /// Hand this key to the editing session.
    Forward(KeyInput),
}

/// Esc, or Ctrl with `c`.
pub open spec fn spec_dismiss_key(key: KeyInput) -> bool {
    key.code.kind == KeyCodeKind::Esc || (key.code.kind == KeyCodeKind::Char('c') && key.mods.ctrl)
}

/// Routing with no overlay open.
pub open spec fn spec_route_plain(pending: PendingAppInput, mode: Mode, key: KeyInput, now: u64) -> (PendingAppInput, KeyRoute) {
    if mode == Mode::Normal || mode == Mode::Select {
        match spec_resolve(pending, spec_mode_to_context(mode), key, now) {
            AppInputTransition::Pending(p) => (p, KeyRoute::Pending),
            AppInputTransition::AppCommand(c) => (PendingAppInput::Idle, KeyRoute::Command(c)),
            AppInputTransition::TabAction(a) => (PendingAppInput::Idle, KeyRoute::Tab(a)),
            AppInputTransition::Forward(k) => (PendingAppInput::Idle, KeyRoute::Forward(k)),
        }
    } else {
        (PendingAppInput::Idle, KeyRoute::Forward(key))
    }
}

/// What routing one key does: the route `r`, and the overlay and pending
/// prefix after it (`overlay2`, `pending2`), from those before it.
pub open spec fn spec_key_routed(
    overlay: Overlay,
    pending: PendingAppInput,
    mode: Mode,
    key: KeyInput,
    now: u64,
    overlay2: Overlay,
    pending2: PendingAppInput,
    r: KeyRoute,
) -> bool {
    // An unsupported key changes nothing.
    &&& (key.code.kind == KeyCodeKind::Noop ==> r == KeyRoute::Ignored && overlay2 == overlay
        && pending2 == pending)
    // While an overlay is open the session never sees a key.
    &&& (!(overlay is Empty) ==> !(r is Forward || r is Pending || r is Tab))
    // Confirmation to close a modified tab.
    &&& (key.code.kind != KeyCodeKind::Noop ==> (overlay matches Overlay::ConfirmQuit(q) ==> {
        let (sel, picked) = spec_confirm_step(q.spec_selected(), key, 'y', 'w', 'n');
        match picked {
            Some(p) => r == KeyRoute::Confirmation(ConfirmationResolution::DirtyClose {
                action: q.spec_action(),
                choice: spec_dirty_choice(p),
            }) && overlay2 is Empty && pending2 == PendingAppInput::Idle,
            None => r == KeyRoute::Consumed && pending2 == pending && (match overlay2 {
                Overlay::ConfirmQuit(q2) => q2.spec_selected() == sel && q2.spec_action() == q.spec_action(),
                _ => false,
            }),
        }
    }))
    // Confirmation to overwrite a file changed on disk.
    &&& (key.code.kind != KeyCodeKind::Noop ==> (overlay matches Overlay::ConfirmOverwrite(o) ==> {
        let (sel, picked) = spec_confirm_step(o.spec_selected(), key, 'o', 'o', 'r');
        match picked {
            Some(p) => overlay2 is Empty && pending2 == PendingAppInput::Idle && (match r {
                KeyRoute::Confirmation(ConfirmationResolution::ExternalSave { request, disk_path, choice }) => {
                    &&& request@ == o.spec_request()
                    &&& disk_path@ == o.spec_disk_path()
                    &&& choice == spec_external_choice(p)
                },
                _ => false,
            }),
            None => r == KeyRoute::Consumed && pending2 == pending && (match overlay2 {
                Overlay::ConfirmOverwrite(o2) => o2.spec_selected() == sel && o2.spec_request() == o.spec_request()
                    && o2.spec_disk_path() == o.spec_disk_path(),
                _ => false,
            }),
        }
    }))
    // The spelling suggestions.
    &&& (key.code.kind != KeyCodeKind::Noop ==> (overlay matches Overlay::SpellSuggest(s) ==> (
        overlay2 matches Overlay::SpellSuggest(s2) && r matches KeyRoute::SpellSuggest(a)
            && spec_suggest_key(s, s2, key, a) && pending2 == pending)))
    // The diagnostics list.
    &&& (key.code.kind != KeyCodeKind::Noop ==> (overlay matches Overlay::Trouble(t) ==> (
        overlay2 matches Overlay::Trouble(t2) && r matches KeyRoute::Trouble(a)
            && spec_trouble_key(t, t2, key, a) && pending2 == pending)))
    // The palette.
    &&& (key.code.kind != KeyCodeKind::Noop ==> (overlay matches Overlay::Palette(p) ==> (exists|filter: Seq<char>, sel: usize, consumed: bool| {
        &&& spec_palette_key_step(p.spec_filter(), p.spec_context(), p.spec_selected(), key, filter, sel, consumed)
        &&& if consumed {
            r == KeyRoute::Consumed && pending2 == pending && (match overlay2 {
                Overlay::Palette(p2) => p2.spec_filter() == filter && p2.spec_selected() == sel && p2.spec_context() == p.spec_context(),
                _ => false,
            })
        } else if spec_dismiss_key(key) {
            r == KeyRoute::Dismissed && overlay2 is Empty && pending2 == PendingAppInput::Idle
        } else if key.code.kind == KeyCodeKind::Enter {
            overlay2 is Empty && pending2 == PendingAppInput::Idle && r == (match spec_selected_command(filter, p.spec_context(), sel) {
                Some(c) => KeyRoute::Command(c),
                None => KeyRoute::ReferenceEntry,
            })
        } else {
            r == KeyRoute::Consumed && pending2 == pending && (match overlay2 {
                Overlay::Palette(p2) => p2.spec_filter() == filter && p2.spec_selected() == sel && p2.spec_context() == p.spec_context(),
                _ => false,
            })
        }
    })))
    // No overlay: the Space prefix in Normal and Select, else the session.
    &&& (key.code.kind != KeyCodeKind::Noop ==> (overlay is Empty ==> overlay2 is Empty
        && (pending2, r) == spec_route_plain(pending, mode, key, now)))
}

/// Route one key. The overlay and the pending prefix are updated in place.
pub fn route_key(overlay: &mut Overlay, pending: &mut PendingAppInput, mode: Mode, key: KeyInput, now: u64) -> (r: KeyRoute)
    ensures
        spec_key_routed(*old(overlay), *old(pending), mode, key, now, *final(overlay), *final(pending), r),
{
    if key.code.kind == KeyCodeKind::Noop {
        return KeyRoute::Ignored;
    }
    if overlay.is_confirmation() {
        match overlay.handle_confirmation_key(&key) {
            Some(resolution) => {
                overlay.close();
                *pending = PendingAppInput::Idle;
                return KeyRoute::Confirmation(resolution);
            },
            None => {
                return KeyRoute::Consumed;
            },
        }
    }
    match overlay.handle_spell_suggest_key(&key) {
        Some(action) => {
            return KeyRoute::SpellSuggest(action);
        },
        None => {},
    }
    match overlay.handle_trouble_key(&key) {
        Some(action) => {
            return KeyRoute::Trouble(action);
        },
        None => {},
    }
    if overlay.is_some() {
        let consumed = overlay.handle_key(&key);
        if consumed {
            return KeyRoute::Consumed;
        }
        let is_ctrl_c = match key.code.kind {
            KeyCodeKind::Char(c) => c == 'c' && key.mods.ctrl,
            _ => false,
        };
        if key.code.kind == KeyCodeKind::Esc || is_ctrl_c {
            overlay.close();
            *pending = PendingAppInput::Idle;
            return KeyRoute::Dismissed;
        }
        if key.code.kind == KeyCodeKind::Enter {
            let selected = overlay.selected_command();
            overlay.close();
            *pending = PendingAppInput::Idle;
            return match selected {
                Some(command) => KeyRoute::Command(command),
                None => KeyRoute::ReferenceEntry,
            };
        }
        return KeyRoute::Consumed;
    }
    if in_chord_context(mode) {
        let transition = resolve(*pending, mode_to_context(mode), key, now);
        *pending = PendingAppInput::Idle;
        match transition {
            AppInputTransition::Pending(p) => {
                *pending = p;
                KeyRoute::Pending
            },
            AppInputTransition::AppCommand(command) => KeyRoute::Command(command),
            AppInputTransition::TabAction(action) => KeyRoute::Tab(action),
            AppInputTransition::Forward(input) => KeyRoute::Forward(input),
        }
    } else {
        *pending = PendingAppInput::Idle;
        KeyRoute::Forward(key)
    }
}

} // verus!
