use oom_edit::keys::{Diagnostic, DiagnosticProvider, DiagnosticSeverity, KeyCodeKind, KeyInput, TextPosition};
use oom_edit::trouble::{
    severity_slot, SeveritySlot,
    entry_text, footer_text, TroubleAction, TroubleEntry, TroubleFooter, TroubleProgress, TroubleState,
    TroubleView, VISIBLE_DIAGNOSTICS,
};

fn diagnostic(index: usize, severity: DiagnosticSeverity) -> Diagnostic {
    Diagnostic {
        provider: DiagnosticProvider::Spell,
        severity,
        range_start: index * 10,
        range_end: index * 10 + 3,
        source_text: format!("bad{index}"),
        message: format!("message {index}"),
    }
}

fn entry(index: usize, severity: DiagnosticSeverity) -> TroubleEntry {
    TroubleEntry::new(diagnostic(index, severity), TextPosition { line: index, column: index + 1 })
}

fn key(kind: KeyCodeKind) -> KeyInput {
    KeyInput::plain(kind)
}

/// The text lines a renderer draws for the state in `height` rows.
fn visible_text(state: &TroubleState, height: usize) -> String {
    let view = state.view(height);
    let mut lines: Vec<String> = (view.first..view.first + view.count)
        .map(|index| entry_text(state.selected() == Some(index), &state.entries()[index]))
        .collect();
    if let Some(footer) = &view.footer {
        lines.push(footer_text(footer));
    }
    lines.join("\n")
}

#[test]
fn navigation_scrolls_and_enter_returns_the_selected_generic_diagnostic() {
    let entries = (0..20).map(|index| entry(index, DiagnosticSeverity::Warning)).collect::<Vec<_>>();
    let expected = entries[VISIBLE_DIAGNOSTICS].diagnostic.clone();
    let mut state = TroubleState::new(entries, TroubleProgress::Complete);

    for _ in 0..VISIBLE_DIAGNOSTICS {
        assert_eq!(state.handle_key(&key(KeyCodeKind::Char('j'))), TroubleAction::StayOpen);
    }
    assert_eq!(state.selected(), Some(VISIBLE_DIAGNOSTICS));
    assert_eq!(state.scroll(), 1);
    assert_eq!(state.handle_key(&key(KeyCodeKind::Enter)), TroubleAction::Jump(expected));

    assert_eq!(state.handle_key(&key(KeyCodeKind::Up)), TroubleAction::StayOpen);
    assert_eq!(state.selected(), Some(VISIBLE_DIAGNOSTICS - 1));
    assert_eq!(state.scroll(), 1);
    assert_eq!(state.handle_key(&key(KeyCodeKind::Down)), TroubleAction::StayOpen);
    assert_eq!(state.selected(), Some(VISIBLE_DIAGNOSTICS));
    state.handle_key(&key(KeyCodeKind::Up));
    for _ in 0..VISIBLE_DIAGNOSTICS - 1 {
        state.handle_key(&key(KeyCodeKind::Char('k')));
    }
    assert_eq!(state.selected(), Some(0));
    assert_eq!(state.scroll(), 0);
}

#[test]
fn refresh_preserves_identity_then_clamps_when_the_selected_row_disappears() {
    let first = entry(0, DiagnosticSeverity::Warning);
    let selected = entry(1, DiagnosticSeverity::Info);
    let third = entry(2, DiagnosticSeverity::Error);
    let mut state = TroubleState::new(vec![first.clone(), selected.clone(), third.clone()], TroubleProgress::Pending);
    state.handle_key(&key(KeyCodeKind::Char('j')));

    state.refresh(vec![third.clone(), first, selected.clone()], TroubleProgress::Complete);
    assert_eq!(state.selected(), Some(2));
    assert_eq!(state.entries()[2], selected);
    assert_eq!(state.progress(), &TroubleProgress::Complete);

    state.refresh(vec![third], TroubleProgress::Complete);
    assert_eq!(state.selected(), Some(0));
}

#[test]
fn short_terminal_keeps_selection_and_pending_footer_visible() {
    let entries = (0..20).map(|index| entry(index, DiagnosticSeverity::Warning)).collect::<Vec<_>>();
    let mut state = TroubleState::new(entries, TroubleProgress::Pending);
    for _ in 0..10 {
        state.handle_key(&key(KeyCodeKind::Char('j')));
    }
    // A 50x8 terminal leaves a 6-row inner area inside the modal's border.
    let rendered = visible_text(&state, 6);
    assert!(rendered.contains("\u{25b8} 11:12 warning [spell] message 10"));
    assert!(rendered.contains("\u{2026} checking diagnostics"));
    assert!(!rendered.contains("message 0"));
}

#[test]
fn empty_pending_complete_unavailable_and_stale_states_are_explicit() {
    let mut state = TroubleState::new(Vec::new(), TroubleProgress::Pending);
    assert_eq!(state.selected(), None);
    assert_eq!(state.progress(), &TroubleProgress::Pending);
    assert!(visible_text(&state, 16).contains("\u{2026} checking diagnostics"));

    state.refresh(Vec::new(), TroubleProgress::Complete);
    assert_eq!(state.progress(), &TroubleProgress::Complete);
    assert!(visible_text(&state, 16).contains("No diagnostics"));
    state.refresh(Vec::new(), TroubleProgress::Unavailable("provider failed".to_string()));
    assert_eq!(state.progress(), &TroubleProgress::Unavailable("provider failed".to_string()));
    assert!(visible_text(&state, 16).contains("\u{2717} diagnostics unavailable: provider failed"));
    state.mark_stale("selected diagnostic is stale");
    assert_eq!(state.warning(), Some("selected diagnostic is stale"));
    assert!(visible_text(&state, 16).contains("\u{26a0} selected diagnostic is stale"));
    assert_eq!(state.handle_key(&key(KeyCodeKind::Enter)), TroubleAction::StayOpen);
}

#[test]
fn escape_and_ctrl_c_close_without_forwarding() {
    let mut state = TroubleState::new(vec![entry(0, DiagnosticSeverity::Hint)], TroubleProgress::Complete);
    assert_eq!(state.handle_key(&key(KeyCodeKind::Esc)), TroubleAction::Close);
    let ctrl_c = KeyInput::with_mods(KeyCodeKind::Char('c'), true, false, false);
    assert_eq!(state.handle_key(&ctrl_c), TroubleAction::Close);
}

#[test]
fn complete_list_uses_every_row_without_footer() {
    let entries = (0..3).map(|index| entry(index, DiagnosticSeverity::Error)).collect::<Vec<_>>();
    let state = TroubleState::new(entries, TroubleProgress::Complete);
    assert_eq!(state.view(16), TroubleView { first: 0, count: 3, footer: None });
    assert_eq!(state.title(), " Trouble (3) ");
    assert_eq!(
        entry_text(false, &entry(4, DiagnosticSeverity::Hint)),
        "  5:6 hint    [spell] message 4"
    );
    assert_eq!(footer_text(&TroubleFooter::NoDiagnostics), "No diagnostics");
}

#[test]
fn severity_columns_use_the_status_slots() {
    assert_eq!(severity_slot(DiagnosticSeverity::Error), SeveritySlot::StatusError);
    assert_eq!(severity_slot(DiagnosticSeverity::Warning), SeveritySlot::StatusWarning);
    assert_eq!(severity_slot(DiagnosticSeverity::Info), SeveritySlot::StatusInfo);
    assert_eq!(severity_slot(DiagnosticSeverity::Hint), SeveritySlot::HintKey);
}
