use oom_edit::app_state::AppState;
use oom_edit::keymap::{PendingAppInput, TabAction};
use oom_edit::keys::{translate_key, KeyCodeKind, KeyInput, Mode, TerminalKeyCode};
use oom_edit::overlay::Overlay;
use oom_edit::registry::Contexts;
use oom_edit::routing::{route_key, KeyRoute};

fn unmapped_special_keys() -> [TerminalKeyCode; 11] {
    [
        TerminalKeyCode::Insert,
        TerminalKeyCode::Menu,
        TerminalKeyCode::Null,
        TerminalKeyCode::CapsLock,
        TerminalKeyCode::ScrollLock,
        TerminalKeyCode::Pause,
        TerminalKeyCode::NumLock,
        TerminalKeyCode::PrintScreen,
        TerminalKeyCode::KeypadBegin,
        TerminalKeyCode::Media,
        TerminalKeyCode::Modifier,
    ]
}

#[test]
fn key_translation_insert() {
    let core = translate_key(TerminalKeyCode::Char('i'), false, false, false);
    assert_eq!(core.code.kind, KeyCodeKind::Char('i'));
    assert!(!core.mods.ctrl);
    assert!(!core.mods.alt);
    assert!(!core.mods.shift);
}

#[test]
fn key_translation_ctrl() {
    let core = translate_key(TerminalKeyCode::Char('c'), true, false, false);
    assert_eq!(core.code.kind, KeyCodeKind::Char('c'));
    assert!(core.mods.ctrl);
}

#[test]
fn key_translation_backtab() {
    let core = translate_key(TerminalKeyCode::BackTab, false, false, false);
    assert_eq!(core.code.kind, KeyCodeKind::BackTab);
}

#[test]
fn key_translation_escape() {
    let core = translate_key(TerminalKeyCode::Esc, false, false, false);
    assert_eq!(core.code.kind, KeyCodeKind::Esc);
}

#[test]
fn key_translation_enter() {
    let core = translate_key(TerminalKeyCode::Enter, false, false, false);
    assert_eq!(core.code.kind, KeyCodeKind::Enter);
}

#[test]
fn key_translation_fkey() {
    let core = translate_key(TerminalKeyCode::F(5), false, false, false);
    assert_eq!(core.code.kind, KeyCodeKind::F(5));
}

#[test]
fn key_translation_all_special_keys() {
    let test_cases = vec![
        (TerminalKeyCode::Backspace, KeyCodeKind::Backspace),
        (TerminalKeyCode::Enter, KeyCodeKind::Enter),
        (TerminalKeyCode::Left, KeyCodeKind::Left),
        (TerminalKeyCode::Right, KeyCodeKind::Right),
        (TerminalKeyCode::Up, KeyCodeKind::Up),
        (TerminalKeyCode::Down, KeyCodeKind::Down),
        (TerminalKeyCode::Tab, KeyCodeKind::Tab),
        (TerminalKeyCode::BackTab, KeyCodeKind::BackTab),
        (TerminalKeyCode::Home, KeyCodeKind::Home),
        (TerminalKeyCode::End, KeyCodeKind::End),
        (TerminalKeyCode::PageUp, KeyCodeKind::PageUp),
        (TerminalKeyCode::PageDown, KeyCodeKind::PageDown),
        (TerminalKeyCode::Delete, KeyCodeKind::Delete),
        (TerminalKeyCode::Esc, KeyCodeKind::Esc),
    ];
    for (code, expected) in test_cases {
        let core = translate_key(code, false, false, false);
        assert_eq!(core.code.kind, expected, "{code:?} should map to {expected:?}");
    }
}

#[test]
fn test_noop_not_space_or_esc() {
    for code in unmapped_special_keys() {
        let kind = translate_key(code, false, false, false).code.kind;
        assert_ne!(kind, KeyCodeKind::Char(' '));
        assert_ne!(kind, KeyCodeKind::Char('\0'));
        assert_ne!(kind, KeyCodeKind::Esc);
    }
}

#[test]
fn test_unmapped_keys_have_no_app_behavioral_effect() {
    for mode in [Mode::Normal, Mode::Insert, Mode::Command] {
        let mut state = AppState::new(false, 0);
        for code in unmapped_special_keys() {
            let key = translate_key(code, false, false, false);
            let views_before = state.active_view();
            assert_eq!(state.route_key(mode, key, 1), KeyRoute::Ignored, "{code:?} in {mode:?}");
            assert_eq!(state.active_view(), views_before);
            assert_eq!(state.pending_input(), PendingAppInput::Idle);
            assert!(!state.should_quit(), "{code:?} quit in {mode:?}");
            assert!(!state.overlay().is_some());
        }
    }
}

#[test]
fn app_set_wrap_toggles_runtime_state() {
    let mut state = AppState::new(false, 0);
    let report = state.set_wrap(true);
    assert!(state.wrap_enabled());
    assert_eq!(report, ("wrap".to_string(), oom_edit::flow::Severity::Info));
}

#[test]
fn app_set_wrap_resets_left_col() {
    let mut state = AppState::new(false, 0);
    state.apply_source_scroll((0, 0, 20));
    state.set_wrap(true);
    assert_eq!(state.active_view().unwrap().left_col, 0);
}

#[test]
fn test_effect_tab_jump_uses_one_based_index() {
    let mut state = AppState::new(false, 0);
    state.open_tab();
    state.open_tab();
    state.execute_tab_action(TabAction::Jump(1));
    assert_eq!(state.execute_tab_action(TabAction::Jump(3)), None);
    assert_eq!(state.active_tab(), 2);
}

#[test]
fn space_chord_before_first_tick_uses_injected_initial_time() {
    let initial = 1_234_567;
    let mut state = AppState::new(false, initial);
    state.route_key(Mode::Normal, KeyInput::plain(KeyCodeKind::Char(' ')), initial);
    assert_eq!(state.pending_input(), PendingAppInput::Space { since: initial });
}

#[test]
fn pending_space_resets_on_mode_overlay_completion_and_cancel() {
    let initial = 10;
    let mut mode_state = AppState::new(false, initial);
    for c in [' ', 'i'] {
        mode_state.route_key(Mode::Normal, KeyInput::plain(KeyCodeKind::Char(c)), initial);
    }
    assert_eq!(mode_state.pending_input(), PendingAppInput::Idle);

    let mut overlay = Overlay::open_palette(Contexts::normal());
    let mut pending = PendingAppInput::Space { since: initial };
    assert_eq!(
        route_key(&mut overlay, &mut pending, Mode::Normal, KeyInput::plain(KeyCodeKind::Esc), initial),
        KeyRoute::Dismissed
    );
    assert_eq!(pending, PendingAppInput::Idle);
    assert!(!overlay.is_some());

    let mut overlay = Overlay::open_palette(Contexts::normal());
    let mut pending = PendingAppInput::Space { since: initial };
    route_key(&mut overlay, &mut pending, Mode::Normal, KeyInput::plain(KeyCodeKind::Enter), initial);
    assert_eq!(pending, PendingAppInput::Idle);
    assert!(!overlay.is_some());
}

#[test]
fn app_space_in_insert_self_inserts() {
    let mut state = AppState::new(false, 0);
    let space = KeyInput::plain(KeyCodeKind::Char(' '));
    assert_eq!(state.route_key(Mode::Insert, space, 0), KeyRoute::Forward(space));
    assert_eq!(state.pending_input(), PendingAppInput::Idle);
}
