use oom_edit::keys::{Diagnostic, DiagnosticProvider, DiagnosticSeverity, KeyCodeKind, KeyInput};
use oom_edit::spell_suggest::{ListRow, SpellSuggestAction, SpellSuggestState};

fn diagnostic() -> Diagnostic {
    Diagnostic {
        provider: DiagnosticProvider::Spell,
        severity: DiagnosticSeverity::Warning,
        range_start: 0,
        range_end: 3,
        source_text: "teh".to_string(),
        message: "Unknown word: teh".to_string(),
    }
}

fn key(kind: KeyCodeKind) -> KeyInput {
    KeyInput::plain(kind)
}

fn ctrl(c: char) -> KeyInput {
    KeyInput::with_mods(KeyCodeKind::Char(c), true, false, false)
}

#[test]
fn initial_state_selects_first_suggestion_and_caps_at_nine() {
    let suggestions = (1..=12).map(|n| format!("word{n}")).collect();
    let state = SpellSuggestState::new(diagnostic(), suggestions);
    assert_eq!(state.selected(), Some(0));
    assert_eq!(state.suggestions().len(), 9);
}

#[test]
fn j_and_k_transitions_wrap_with_named_before_and_after_states() {
    let mut state = SpellSuggestState::new(
        diagnostic(),
        vec!["the".to_string(), "ten".to_string(), "tea".to_string()],
    );
    assert_eq!(state.selected(), Some(0), "before first j");
    state.handle_key(&key(KeyCodeKind::Char('j')));
    assert_eq!(state.selected(), Some(1), "j moves to the next row");
    state.handle_key(&key(KeyCodeKind::Char('j')));
    assert_eq!(state.selected(), Some(2), "second j moves forward again");
    state.handle_key(&key(KeyCodeKind::Char('j')));
    assert_eq!(state.selected(), Some(0), "j wraps last to first");
    assert_eq!(state.selected(), Some(0), "before k");
    assert_eq!(state.handle_key(&key(KeyCodeKind::Char('k'))), SpellSuggestAction::StayOpen, "k action");
    assert_eq!(state.selected(), Some(2), "after k wraps to last");
    state.handle_key(&key(KeyCodeKind::Char('k')));
    assert_eq!(state.selected(), Some(1), "k moves backward normally");
}

#[test]
fn digits_one_through_nine_apply_the_corresponding_existing_row() {
    let suggestions = (1..=9).map(|n| format!("word{n}")).collect();
    let mut state = SpellSuggestState::new(diagnostic(), suggestions);
    for digit in '1'..='9' {
        let expected = format!("word{}", digit.to_digit(10).unwrap());
        assert_eq!(
            state.handle_key(&key(KeyCodeKind::Char(digit))),
            SpellSuggestAction::Apply(expected),
            "digit {digit} must apply its one-based row"
        );
    }
}

#[test]
fn out_of_range_digit_and_enter_without_selection_are_no_ops() {
    let mut short = SpellSuggestState::new(diagnostic(), vec!["the".to_string()]);
    for digit in '2'..='9' {
        assert_eq!(
            short.handle_key(&key(KeyCodeKind::Char(digit))),
            SpellSuggestAction::StayOpen,
            "out-of-range digit {digit} must be a no-op"
        );
    }
    assert_eq!(short.handle_key(&key(KeyCodeKind::Char('0'))), SpellSuggestAction::StayOpen, "zero is not a suggestion shortcut");
    let mut empty = SpellSuggestState::new(diagnostic(), Vec::new());
    assert_eq!(empty.selected(), None, "empty state has no selection");
    assert_eq!(empty.handle_key(&key(KeyCodeKind::Enter)), SpellSuggestAction::StayOpen, "Enter cannot apply an absent row");
    assert_eq!(empty.handle_key(&key(KeyCodeKind::Char('a'))), SpellSuggestAction::AddWord, "add remains available with no suggestions");
}

#[test]
fn enter_applies_selection_and_escape_or_ctrl_c_closes() {
    let mut state = SpellSuggestState::new(diagnostic(), vec!["the".to_string(), "ten".to_string()]);
    state.handle_key(&key(KeyCodeKind::Char('j')));
    assert_eq!(state.handle_key(&key(KeyCodeKind::Enter)), SpellSuggestAction::Apply("ten".to_string()));
    assert_eq!(state.handle_key(&key(KeyCodeKind::Esc)), SpellSuggestAction::Close);
    assert_eq!(state.handle_key(&ctrl('c')), SpellSuggestAction::Close);
}

#[test]
fn the_overlay_keeps_its_diagnostic() {
    let state = SpellSuggestState::new(diagnostic(), vec![]);
    assert_eq!(state.diagnostic(), &diagnostic());
    assert_eq!(state.geometry(), (52, 14));
}

fn row(text: &str, highlighted: bool) -> ListRow {
    ListRow { text: text.to_string(), highlighted }
}

#[test]
fn suggestion_rows_number_and_mark_the_selection() {
    let mut state = SpellSuggestState::new(diagnostic(), vec!["the".to_string(), "ten".to_string()]);
    assert_eq!(state.title(), " Spelling: teh ");
    assert_eq!(state.rows(), vec![row("\u{25b8} 1. the", true), row("  2. ten", false)]);
    state.handle_key(&key(KeyCodeKind::Char('j')));
    assert_eq!(state.rows(), vec![row("  1. the", false), row("\u{25b8} 2. ten", true)]);
}

#[test]
fn empty_suggestion_list_reads_no_suggestions() {
    let state = SpellSuggestState::new(diagnostic(), Vec::new());
    assert_eq!(state.rows(), vec![row("No suggestions", false)]);
}
