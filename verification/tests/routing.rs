use oom_edit::confirm::{ConfirmationResolution, DirtyCloseChoice};
use oom_edit::keymap::{PendingAppInput, TabAction};
use oom_edit::keys::{translate_key, KeyCodeKind, KeyInput, Mode, TerminalKeyCode};
use oom_edit::lifecycle::{CloseTabRequest, DirtyClosePolicy};
use oom_edit::overlay::Overlay;
use oom_edit::registry::{AppCommand, Contexts};
use oom_edit::routing::{in_chord_context, mode_to_context, route_key, KeyRoute};

fn ch(c: char) -> KeyInput {
    KeyInput::plain(KeyCodeKind::Char(c))
}

#[test]
fn mode_to_context_normal() {
    assert_eq!(mode_to_context(Mode::Normal), Contexts::normal());
}

#[test]
fn mode_to_context_insert() {
    assert_eq!(mode_to_context(Mode::Insert), Contexts::insert());
}

#[test]
fn mode_to_context_select() {
    assert_eq!(mode_to_context(Mode::Select), Contexts::select());
}

#[test]
fn mode_to_context_command() {
    assert_eq!(mode_to_context(Mode::Command), Contexts::command());
}

#[test]
fn chords_apply_in_normal_and_select_only() {
    assert!(in_chord_context(Mode::Normal));
    assert!(in_chord_context(Mode::Select));
    assert!(!in_chord_context(Mode::Insert));
    assert!(!in_chord_context(Mode::Command));
}

#[test]
fn test_unmapped_keys_produce_noop() {
    for code in [
        TerminalKeyCode::Insert,
        TerminalKeyCode::Null,
        TerminalKeyCode::CapsLock,
        TerminalKeyCode::ScrollLock,
        TerminalKeyCode::NumLock,
        TerminalKeyCode::PrintScreen,
        TerminalKeyCode::Pause,
        TerminalKeyCode::Menu,
        TerminalKeyCode::KeypadBegin,
        TerminalKeyCode::Media,
        TerminalKeyCode::Modifier,
    ] {
        assert_eq!(translate_key(code, false, false, false).code.kind, KeyCodeKind::Noop);
    }
}

#[test]
fn key_translation_keeps_keys_and_modifiers() {
    assert_eq!(translate_key(TerminalKeyCode::Char('i'), false, false, false), ch('i'));
    assert_eq!(
        translate_key(TerminalKeyCode::Char('r'), true, false, false),
        KeyInput::with_mods(KeyCodeKind::Char('r'), true, false, false)
    );
    assert_eq!(translate_key(TerminalKeyCode::BackTab, false, false, true).code.kind, KeyCodeKind::BackTab);
    assert_eq!(translate_key(TerminalKeyCode::Esc, false, false, false).code.kind, KeyCodeKind::Esc);
    assert_eq!(translate_key(TerminalKeyCode::Enter, false, false, false).code.kind, KeyCodeKind::Enter);
    assert_eq!(translate_key(TerminalKeyCode::F(5), false, true, false), KeyInput::with_mods(KeyCodeKind::F(5), false, true, false));
}

#[test]
fn unsupported_noop_key_preserves_pending_space_chord() {
    let mut overlay = Overlay::Empty;
    let mut pending = PendingAppInput::Space { since: 3 };
    let noop = KeyInput::plain(KeyCodeKind::Noop);
    assert_eq!(route_key(&mut overlay, &mut pending, Mode::Normal, noop, 9), KeyRoute::Ignored);
    assert_eq!(pending, PendingAppInput::Space { since: 3 });
}

#[test]
fn app_routing_keymap_precedence() {
    let mut overlay = Overlay::Empty;
    let mut pending = PendingAppInput::Idle;
    assert_eq!(route_key(&mut overlay, &mut pending, Mode::Normal, ch(' '), 5), KeyRoute::Pending);
    assert_eq!(pending, PendingAppInput::Space { since: 5 });
    assert_eq!(route_key(&mut overlay, &mut pending, Mode::Normal, ch('w'), 6), KeyRoute::Command(AppCommand::Save));
    assert_eq!(pending, PendingAppInput::Idle);
    route_key(&mut overlay, &mut pending, Mode::Normal, ch(' '), 7);
    assert_eq!(route_key(&mut overlay, &mut pending, Mode::Normal, ch('2'), 8), KeyRoute::Tab(TabAction::Jump(2)));
}

#[test]
fn app_routing_session_fallback() {
    let mut overlay = Overlay::Empty;
    let mut pending = PendingAppInput::Space { since: 1 };
    assert_eq!(route_key(&mut overlay, &mut pending, Mode::Insert, ch(' '), 5), KeyRoute::Forward(ch(' ')));
    assert_eq!(pending, PendingAppInput::Idle);
    assert_eq!(route_key(&mut overlay, &mut pending, Mode::Normal, ch('g'), 5), KeyRoute::Forward(ch('g')));
}

#[test]
fn app_space_h_opens_palette_and_esc_closes_it() {
    let mut overlay = Overlay::Empty;
    let mut pending = PendingAppInput::Idle;
    route_key(&mut overlay, &mut pending, Mode::Normal, ch(' '), 0);
    assert_eq!(route_key(&mut overlay, &mut pending, Mode::Normal, ch('h'), 1), KeyRoute::Command(AppCommand::Help));
    overlay = Overlay::open_palette(mode_to_context(Mode::Normal));
    assert_eq!(route_key(&mut overlay, &mut pending, Mode::Normal, ch(' '), 2), KeyRoute::Consumed);
    assert_eq!(pending, PendingAppInput::Idle);
    assert_eq!(
        route_key(&mut overlay, &mut pending, Mode::Normal, KeyInput::plain(KeyCodeKind::Esc), 3),
        KeyRoute::Dismissed
    );
    assert!(!overlay.is_some());
}

#[test]
fn app_palette_execute_command() {
    let mut overlay = Overlay::open_palette(Contexts::normal());
    let mut pending = PendingAppInput::Idle;
    for c in "save".chars() {
        assert_eq!(route_key(&mut overlay, &mut pending, Mode::Normal, ch(c), 0), KeyRoute::Consumed);
    }
    assert_eq!(
        route_key(&mut overlay, &mut pending, Mode::Normal, KeyInput::plain(KeyCodeKind::Enter), 0),
        KeyRoute::Command(AppCommand::Save)
    );
    assert!(!overlay.is_some());
}

#[test]
fn app_palette_reference_entry() {
    let mut overlay = Overlay::open_palette(Contexts::normal());
    let mut pending = PendingAppInput::Idle;
    for c in "R-N1".chars() {
        route_key(&mut overlay, &mut pending, Mode::Normal, ch(c), 0);
    }
    assert_eq!(
        route_key(&mut overlay, &mut pending, Mode::Normal, KeyInput::plain(KeyCodeKind::Enter), 0),
        KeyRoute::ReferenceEntry
    );
    assert!(!overlay.is_some());
}

#[test]
fn app_routing_overlay_precedence() {
    let request = CloseTabRequest { target: 0, force: false, dirty_policy: DirtyClosePolicy::Confirm };
    let mut overlay = Overlay::open_confirm_quit(request);
    let mut pending = PendingAppInput::Idle;
    assert_eq!(route_key(&mut overlay, &mut pending, Mode::Normal, ch(' '), 0), KeyRoute::Consumed);
    assert_eq!(pending, PendingAppInput::Idle);
    assert!(overlay.is_confirmation());
    assert_eq!(
        route_key(&mut overlay, &mut pending, Mode::Normal, ch('n'), 0),
        KeyRoute::Confirmation(ConfirmationResolution::DirtyClose { action: request, choice: DirtyCloseChoice::Discard })
    );
    assert!(!overlay.is_some());
}
