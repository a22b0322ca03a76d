use oom_edit::app_state::AppState;
use oom_edit::keymap::PendingAppInput;
use oom_edit::keys::{Diagnostic, DiagnosticProvider, DiagnosticSeverity, KeyCodeKind, KeyInput, Mode, TextPosition};
use oom_edit::overlay::Overlay;
use oom_edit::routing::{route_key, KeyRoute};
use oom_edit::spell_suggest::SpellSuggestAction;
use oom_edit::trouble::{TroubleAction, TroubleEntry, TroubleProgress};

fn diagnostic(start: usize, word: &str) -> Diagnostic {
    Diagnostic {
        provider: DiagnosticProvider::Spell,
        severity: DiagnosticSeverity::Warning,
        range_start: start,
        range_end: start + word.len(),
        source_text: word.to_string(),
        message: format!("Unknown word: {word}"),
    }
}

fn entry(start: usize, word: &str) -> TroubleEntry {
    TroubleEntry::new(diagnostic(start, word), TextPosition { line: 0, column: start })
}

fn ch(c: char) -> KeyInput {
    KeyInput::plain(KeyCodeKind::Char(c))
}

#[test]
fn suggestion_overlay_takes_every_key_and_answers_with_requests() {
    let mut overlay = Overlay::open_spell_suggest(diagnostic(0, "teh"), vec!["the".to_string(), "ten".to_string()]);
    let mut pending = PendingAppInput::Space { since: 4 };
    assert_eq!(route_key(&mut overlay, &mut pending, Mode::Normal, ch('j'), 5), KeyRoute::SpellSuggest(SpellSuggestAction::StayOpen));
    assert_eq!(
        route_key(&mut overlay, &mut pending, Mode::Normal, KeyInput::plain(KeyCodeKind::Enter), 5),
        KeyRoute::SpellSuggest(SpellSuggestAction::Apply("ten".to_string()))
    );
    assert_eq!(route_key(&mut overlay, &mut pending, Mode::Normal, ch('a'), 5), KeyRoute::SpellSuggest(SpellSuggestAction::AddWord));
    assert_eq!(route_key(&mut overlay, &mut pending, Mode::Normal, ch(' '), 5), KeyRoute::SpellSuggest(SpellSuggestAction::StayOpen));
    assert_eq!(
        route_key(&mut overlay, &mut pending, Mode::Normal, KeyInput::plain(KeyCodeKind::Esc), 5),
        KeyRoute::SpellSuggest(SpellSuggestAction::Close)
    );
    assert!(overlay.is_spell_suggest());
    assert_eq!(pending, PendingAppInput::Space { since: 4 });
    assert_eq!(overlay.spell_suggest_diagnostic(), Some(diagnostic(0, "teh")));
    assert_eq!(overlay.geometry(), (52, 14));
}

#[test]
fn trouble_overlay_routes_jumps_and_keeps_keys_from_the_document() {
    let mut overlay = Overlay::open_trouble(vec![entry(0, "teh"), entry(9, "wrod")], TroubleProgress::Complete);
    let mut pending = PendingAppInput::Idle;
    assert_eq!(route_key(&mut overlay, &mut pending, Mode::Insert, ch('x'), 0), KeyRoute::Trouble(TroubleAction::StayOpen));
    assert_eq!(route_key(&mut overlay, &mut pending, Mode::Normal, ch('j'), 0), KeyRoute::Trouble(TroubleAction::StayOpen));
    assert_eq!(
        route_key(&mut overlay, &mut pending, Mode::Normal, KeyInput::plain(KeyCodeKind::Enter), 0),
        KeyRoute::Trouble(TroubleAction::Jump(diagnostic(9, "wrod")))
    );
    assert!(overlay.is_trouble());
    assert_eq!(overlay.geometry(), (76, 18));
    assert_eq!(overlay.hints(), "j/k navigate · Enter jump · Esc close");
}

#[test]
fn app_state_finishes_trouble_jumps() {
    let mut state = AppState::new(false, 0);
    state.open_overlay(Overlay::open_trouble(vec![entry(0, "teh")], TroubleProgress::Pending));
    assert!(state.pointer_input_blocked());
    state.finish_trouble_jump(Err(None));
    match state.overlay() {
        Overlay::Trouble(t) => assert_eq!(t.warning(), Some("selected diagnostic is stale; jump cancelled")),
        _ => panic!("the list stays open"),
    }
    state.finish_trouble_jump(Err(Some("offset moved".to_string())));
    match state.overlay() {
        Overlay::Trouble(t) => assert_eq!(t.warning(), Some("selected diagnostic is stale: offset moved")),
        _ => panic!("the list stays open"),
    }
    state.refresh_trouble(vec![entry(0, "teh"), entry(4, "adn")], TroubleProgress::Complete);
    match state.overlay() {
        Overlay::Trouble(t) => {
            assert_eq!(t.entries().len(), 2);
            assert_eq!(t.warning(), None);
        }
        _ => panic!("the list stays open"),
    }
    state.on_paint(24, 80);
    state.finish_trouble_jump(Ok(()));
    assert!(!state.overlay().is_some());
    assert!(!state.pointer_input_blocked());
    assert!(state.on_paint(24, 80));
}

#[test]
fn app_state_closes_suggestions_only_after_success() {
    let mut state = AppState::new(false, 0);
    state.open_overlay(Overlay::open_spell_suggest(diagnostic(0, "teh"), vec!["the".to_string()]));
    state.on_paint(24, 80);
    state.finish_spell_action(&SpellSuggestAction::StayOpen, true);
    assert!(state.overlay().is_spell_suggest());
    state.finish_spell_action(&SpellSuggestAction::AddWord, false);
    assert!(state.overlay().is_spell_suggest());
    state.finish_spell_action(&SpellSuggestAction::Apply("the".to_string()), false);
    assert!(state.overlay().is_spell_suggest());
    assert!(!state.on_paint(24, 80));
    state.finish_spell_action(&SpellSuggestAction::Apply("the".to_string()), true);
    assert!(!state.overlay().is_some());
    assert!(state.on_paint(24, 80));

    state.open_overlay(Overlay::open_spell_suggest(diagnostic(0, "teh"), Vec::new()));
    state.finish_spell_action(&SpellSuggestAction::Close, false);
    assert!(!state.overlay().is_some());
    assert_eq!(state.pending_input(), PendingAppInput::Idle);
}

#[test]
fn refresh_and_stale_marks_leave_other_overlays_alone() {
    let mut overlay = Overlay::open_palette(oom_edit::registry::Contexts::normal());
    overlay.refresh_trouble(vec![entry(0, "teh")], TroubleProgress::Complete);
    overlay.mark_trouble_stale("stale");
    assert!(overlay.is_palette());
    assert_eq!(overlay.handle_trouble_key(&ch('j')), None);
    assert_eq!(overlay.handle_spell_suggest_key(&ch('j')), None);
    assert_eq!(overlay.spell_suggest_diagnostic(), None);
}

#[test]
fn space_s_opens_first_selected_suggestion_and_modal_input_is_exclusive() {
    let mut state = AppState::new(false, 0);
    state.open_overlay(Overlay::open_spell_suggest(
        diagnostic(0, "teh"),
        vec!["tea".to_string(), "ten".to_string(), "the".to_string()],
    ));
    match state.overlay() {
        Overlay::SpellSuggest(s) => {
            assert_eq!(s.selected(), Some(0));
            assert!(!s.suggestions().is_empty());
        }
        _ => panic!("the suggestion overlay must be open"),
    }
    let route = state.route_key(Mode::Normal, ch('i'), 1);
    assert_eq!(route, KeyRoute::SpellSuggest(SpellSuggestAction::StayOpen));
    assert!(state.overlay().is_spell_suggest());
    assert!(state.pointer_input_blocked());
}

#[test]
fn escape_and_ctrl_c_close_suggestion_without_forwarding_to_document() {
    for key in [KeyInput::plain(KeyCodeKind::Esc), KeyInput::with_mods(KeyCodeKind::Char('c'), true, false, false)] {
        let mut state = AppState::new(false, 0);
        state.open_overlay(Overlay::open_spell_suggest(diagnostic(0, "teh"), vec!["the".to_string()]));
        let route = state.route_key(Mode::Normal, key, 1);
        assert_eq!(route, KeyRoute::SpellSuggest(SpellSuggestAction::Close));
        if let KeyRoute::SpellSuggest(action) = &route {
            state.finish_spell_action(action, false);
        }
        assert!(!state.overlay().is_some());
    }
}

#[test]
fn trouble_refreshes_after_idle_and_modal_input_is_exclusive() {
    let mut state = AppState::new(false, 0);
    state.open_overlay(Overlay::open_trouble(Vec::new(), TroubleProgress::Pending));
    state.refresh_trouble(vec![entry(0, "teh")], TroubleProgress::Complete);
    match state.overlay() {
        Overlay::Trouble(t) => {
            assert_eq!(t.progress(), &TroubleProgress::Complete);
            assert_eq!(t.entries().len(), 1);
        }
        _ => panic!("Trouble must remain open while idle results refresh"),
    }
    assert_eq!(state.route_key(Mode::Normal, ch('i'), 1), KeyRoute::Trouble(TroubleAction::StayOpen));
    assert!(state.pointer_input_blocked());
    assert!(state.overlay().is_trouble());
}
