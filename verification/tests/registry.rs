use std::collections::HashSet;

use oom_edit::registry::{
    app_chord, commands, commands_for, direct_command, ex_prefill, rendered_binding,
    rendered_binding_for, space_continuations, AppCommand, BindingRole, Contexts, RegistryEntryId,
};

#[test]
fn command_registry_is_exhaustive_unique_and_contextual() {
    let mut ids = HashSet::new();
    let mut names = HashSet::new();
    let rows = commands();
    for spec in &rows {
        assert!(ids.insert(spec.id));
        assert!(names.insert(spec.name));
        assert!(!spec.contexts.is_empty());
        assert!(!rendered_binding(spec).is_empty());
    }
    assert_eq!(rows.len(), 29);
}

#[test]
fn phase_eight_trouble_row_is_complete_and_app_owned() {
    let rows = commands();
    let trouble = rows
        .iter()
        .find(|spec| spec.name == "trouble")
        .expect("Space d Trouble row must land with its executable behavior");

    assert_eq!(trouble.desc, "document diagnostics");
    assert_eq!(trouble.contexts, Contexts::rendered());
    assert_eq!(rendered_binding(trouble), "Space d");
    assert_eq!(
        trouble.binding,
        BindingRole::AppChord {
            continuation: 'd',
            command: AppCommand::Trouble,
        }
    );
    assert_eq!(trouble.conformance_id, None);
    assert_eq!(trouble.quick_bar_order, None);
}

#[test]
fn phase_seven_spell_rows_have_exact_identity_and_ownership() {
    let expected = [
        (
            RegistryEntryId::SpellSuggest,
            "spell-suggest",
            BindingRole::AppChord {
                continuation: 's',
                command: AppCommand::SpellSuggest,
            },
            None,
        ),
        (
            RegistryEntryId::SpellAdd,
            "spell-add",
            BindingRole::AppChord {
                continuation: 'a',
                command: AppCommand::SpellAdd,
            },
            None,
        ),
        (
            RegistryEntryId::SpellToggle,
            "spell-toggle",
            BindingRole::AppChord {
                continuation: 'z',
                command: AppCommand::SpellToggle,
            },
            None,
        ),
        (
            RegistryEntryId::SpellNext,
            "spell-next",
            BindingRole::CoreKey { display: "]s" },
            Some("SP-2:next-previous-wrap"),
        ),
        (
            RegistryEntryId::SpellPrevious,
            "spell-previous",
            BindingRole::CoreKey { display: "[s" },
            Some("SP-2:next-previous-wrap"),
        ),
        (
            RegistryEntryId::SpellSet,
            "spell-set",
            BindingRole::CoreEx {
                display: ":set spell / :set nospell",
            },
            Some("SP-1:set-toggle"),
        ),
    ];

    let actual = commands()
        .iter()
        .filter(|spec| {
            matches!(
                spec.id,
                RegistryEntryId::SpellSuggest
                    | RegistryEntryId::SpellAdd
                    | RegistryEntryId::SpellToggle
                    | RegistryEntryId::SpellNext
                    | RegistryEntryId::SpellPrevious
                    | RegistryEntryId::SpellSet
            )
        })
        .map(|spec| (spec.id, spec.name, spec.binding, spec.conformance_id))
        .collect::<Vec<_>>();

    assert_eq!(actual, expected);
    assert!(actual.iter().all(|(_, _, binding, conformance_id)| {
        matches!(binding, BindingRole::AppChord { .. })
            || conformance_id.is_some_and(|id| id.starts_with("SP-"))
    }));
}

#[test]
fn registry_exactly_matches_fixed_binding_contract() {
    let rendered = Contexts::rendered();
    let expected = [
        (RegistryEntryId::EnterCharacterSelect, "select-character", "character-wise selection", Contexts::normal(), BindingRole::CoreKey { display: "v" }, Some(0)),
        (RegistryEntryId::EnterLineSelect, "select-line", "line-wise selection", Contexts::normal(), BindingRole::CoreKey { display: "V" }, None),
        (RegistryEntryId::EnterBlockSelect, "select-block", "block-wise selection", Contexts::normal(), BindingRole::CoreKey { display: "Ctrl-V" }, None),
        (RegistryEntryId::CancelSelect, "cancel-select", "cancel selection", Contexts::select(), BindingRole::CoreKey { display: "Esc / Ctrl-C" }, Some(1)),
        (RegistryEntryId::SelectRegister, "select-register", "select register", Contexts::select(), BindingRole::CoreKey { display: "\"{register}" }, None),
        (RegistryEntryId::SelectYank, "select-yank", "yank selection", Contexts::select(), BindingRole::CoreKey { display: "y" }, Some(2)),
        (RegistryEntryId::SelectDelete, "select-delete", "delete selection", Contexts::select(), BindingRole::CoreKey { display: "d / x" }, Some(3)),
        (RegistryEntryId::SelectChange, "select-change", "change selection", Contexts::select(), BindingRole::CoreKey { display: "c" }, None),
        (RegistryEntryId::SelectIndent, "select-indent", "indent selection", Contexts::select(), BindingRole::CoreKey { display: ">" }, None),
        (RegistryEntryId::SelectOutdent, "select-outdent", "outdent selection", Contexts::select(), BindingRole::CoreKey { display: "<" }, None),
        (RegistryEntryId::SelectSwapAnchor, "select-swap-anchor", "swap selection endpoint", Contexts::select(), BindingRole::CoreKey { display: "o" }, None),
        (RegistryEntryId::Help, "help", "help / command palette", rendered, BindingRole::AppChord { continuation: 'h', command: AppCommand::Help }, Some(10)),
        (RegistryEntryId::Save, "save", "save", rendered, BindingRole::AppChord { continuation: 'w', command: AppCommand::Save }, Some(20)),
        (RegistryEntryId::Quit, "quit", "quit", rendered, BindingRole::AppChord { continuation: 'q', command: AppCommand::Quit }, Some(30)),
        (RegistryEntryId::CycleTheme, "cycle-theme", "cycle theme", rendered, BindingRole::AppChord { continuation: 't', command: AppCommand::CycleTheme }, None),
        (RegistryEntryId::SpellSuggest, "spell-suggest", "spelling suggestions", rendered, BindingRole::AppChord { continuation: 's', command: AppCommand::SpellSuggest }, None),
        (RegistryEntryId::SpellAdd, "spell-add", "add word to personal dictionary", rendered, BindingRole::AppChord { continuation: 'a', command: AppCommand::SpellAdd }, None),
        (RegistryEntryId::SpellToggle, "spell-toggle", "toggle spelling", rendered, BindingRole::AppChord { continuation: 'z', command: AppCommand::SpellToggle }, None),
        (RegistryEntryId::Trouble, "trouble", "document diagnostics", rendered, BindingRole::AppChord { continuation: 'd', command: AppCommand::Trouble }, None),
        (RegistryEntryId::SpellNext, "spell-next", "next spelling diagnostic", rendered, BindingRole::CoreKey { display: "]s" }, None),
        (RegistryEntryId::SpellPrevious, "spell-previous", "previous spelling diagnostic", rendered, BindingRole::CoreKey { display: "[s" }, None),
        (RegistryEntryId::SpellSet, "spell-set", "enable or disable spelling", Contexts::command(), BindingRole::CoreEx { display: ":set spell / :set nospell" }, None),
        (RegistryEntryId::SpaceDigitTab, "space-tab", "jump to tab", rendered, BindingRole::AppSpaceDigit, None),
        (RegistryEntryId::NextTab, "next-tab", "next tab", rendered, BindingRole::CoreKey { display: "g t" }, None),
        (RegistryEntryId::PrevTab, "prev-tab", "previous tab", rendered, BindingRole::CoreKey { display: "g T" }, None),
        (RegistryEntryId::JumpToTab, "jump-to-tab", "jump to numbered tab", rendered, BindingRole::CoreKey { display: "{count} g t" }, None),
        (RegistryEntryId::TabNew, "tab-new", "open path in new tab", rendered, BindingRole::CoreEx { display: ":tabnew {path}" }, None),
        (RegistryEntryId::TabClose, "tab-close", "close tab", rendered, BindingRole::CoreEx { display: ":tabclose" }, None),
        (RegistryEntryId::QuitAll, "quit-all", "quit all tabs", Contexts::command(), BindingRole::CoreEx { display: ":qa" }, None),
    ];
    let rows = commands();
    let actual = rows
        .iter()
        .map(|spec| (spec.id, spec.name, spec.desc, spec.contexts, spec.binding, spec.quick_bar_order))
        .collect::<Vec<_>>();
    assert_eq!(actual, expected);

    for (index, left) in rows.iter().enumerate() {
        for right in &rows[index + 1..] {
            let contexts_overlap = left.contexts.0 & right.contexts.0 != 0;
            if !contexts_overlap {
                continue;
            }
            if let (
                BindingRole::AppChord { continuation: left_key, .. },
                BindingRole::AppChord { continuation: right_key, .. },
            ) = (left.binding, right.binding)
            {
                assert_ne!(left_key, right_key, "overlapping App chord for {} and {}", left.name, right.name);
            }
            if let (Some(left_order), Some(right_order)) = (left.quick_bar_order, right.quick_bar_order) {
                assert_ne!(left_order, right_order, "overlapping quick-bar order for {} and {}", left.name, right.name);
            }
        }
    }
}

#[test]
fn core_binding_descriptors_are_visibility_only() {
    for spec in commands() {
        if matches!(spec.binding, BindingRole::CoreKey { .. } | BindingRole::CoreEx { .. }) {
            assert!(!matches!(spec.binding, BindingRole::AppChord { .. }));
        }
    }
}

#[test]
fn registry_binding_rendering_is_total() {
    for spec in commands() {
        let rendered = rendered_binding(&spec);
        assert!(!rendered.trim().is_empty(), "missing binding for {:?}", spec.id);
        assert!(!rendered.contains("no binding"));
    }
}

#[test]
fn contexts_union_and_containment() {
    let both = Contexts::normal().or(Contexts::select());
    assert_eq!(both, Contexts::rendered());
    assert!(both.contains(Contexts::normal()));
    assert!(both.contains(Contexts::select()));
    assert!(!both.contains(Contexts::insert()));
    assert!(Contexts(0).is_empty());
    assert!(!Contexts::command().is_empty());
    assert!(Contexts::all().contains(Contexts::overlay()));
}

#[test]
fn app_chords_resolve_only_in_their_contexts() {
    assert_eq!(app_chord(Contexts::normal(), 'w'), Some(AppCommand::Save));
    assert_eq!(app_chord(Contexts::select(), 'q'), Some(AppCommand::Quit));
    assert_eq!(app_chord(Contexts::normal(), 'h'), Some(AppCommand::Help));
    assert_eq!(app_chord(Contexts::normal(), '?'), Some(AppCommand::Help));
    assert_eq!(app_chord(Contexts::insert(), 'w'), None);
    assert_eq!(app_chord(Contexts::normal(), 'x'), None);
}

#[test]
fn question_mark_is_the_only_direct_app_command() {
    assert_eq!(direct_command(Contexts::normal(), '?'), Some(AppCommand::Help));
    assert_eq!(direct_command(Contexts::select(), '?'), Some(AppCommand::Help));
    assert_eq!(direct_command(Contexts::insert(), '?'), None);
    assert_eq!(direct_command(Contexts::normal(), 'h'), None);
}

#[test]
fn quick_bar_rows_are_ordered_and_contextual() {
    let normal: Vec<_> = commands_for(Contexts::normal()).iter().map(|s| s.name).collect();
    assert_eq!(normal, ["select-character", "help", "save", "quit"]);
    let select: Vec<_> = commands_for(Contexts::select()).iter().map(|s| s.name).collect();
    assert_eq!(select, ["cancel-select", "select-yank", "select-delete", "help", "save", "quit"]);
    assert!(commands_for(Contexts::insert()).is_empty());
}

#[test]
fn space_continuations_list_app_chords_in_registry_order() {
    let keys: Vec<char> = space_continuations(Contexts::normal()).iter().map(|(c, _)| *c).collect();
    assert_eq!(keys, ['h', 'w', 'q', 't', 's', 'a', 'z', 'd']);
    assert!(space_continuations(Contexts::insert()).is_empty());
}

#[test]
fn help_binding_gains_question_mark_alias_in_rendered_contexts() {
    let rows = commands();
    let help = rows.iter().find(|s| s.id == RegistryEntryId::Help).unwrap();
    assert_eq!(rendered_binding_for(help, Contexts::normal()), "? / Space h/?");
    assert_eq!(rendered_binding_for(help, Contexts::insert()), "Space h");
    let save = rows.iter().find(|s| s.id == RegistryEntryId::Save).unwrap();
    assert_eq!(rendered_binding_for(save, Contexts::normal()), "Space w");
    let digits = rows.iter().find(|s| s.id == RegistryEntryId::SpaceDigitTab).unwrap();
    assert_eq!(rendered_binding(digits), "Space 1-9");
}

#[test]
fn ex_rows_carry_explicit_prefills() {
    let rows = commands();
    let find = |id| rows.iter().find(|s| s.id == id).unwrap();
    assert_eq!(ex_prefill(find(RegistryEntryId::TabNew)), Some("tabnew "));
    assert_eq!(ex_prefill(find(RegistryEntryId::TabClose)), Some("tabclose"));
    assert_eq!(ex_prefill(find(RegistryEntryId::QuitAll)), Some("qa"));
    assert_eq!(ex_prefill(find(RegistryEntryId::SpellSet)), None);
    assert_eq!(ex_prefill(find(RegistryEntryId::Save)), None);
}
