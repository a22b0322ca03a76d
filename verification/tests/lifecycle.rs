use oom_edit::confirm::{ConfirmationResolution, DirtyCloseChoice, ExternalSaveChoice};
use oom_edit::flow::{
    close_tab_decision, command_lifecycle, confirmation_step, dirty_count, effect_lifecycle,
    invalid_target_message, quit_all_decision, replace_tab_refusal, save_follow_up, save_mode,
    CloseDecision, ConfirmationStep, LifecycleEffect, SaveFollowUp, SaveMode, SaveOutcome,
};
use oom_edit::lifecycle::{
    CloseTabRequest, DirtyClosePolicy, LifecycleAction, SaveContinuation, SaveRequest,
};
use oom_edit::registry::AppCommand;
use oom_edit::flow::{add_word_report, clipboard_report, open_report, spell_toggle_report, theme_report, trouble_jump_warning, trouble_progress, wrap_report, AddWordResult, Severity};
use oom_edit::trouble::TroubleProgress;

fn save_request(target: usize, path: Option<&str>, retarget: bool, continuation: SaveContinuation) -> SaveRequest {
    SaveRequest {
        target,
        path: path.map(str::to_string),
        force: false,
        retarget,
        continuation,
    }
}

#[test]
fn save_continuation_is_relative_to_its_only_target() {
    let request = SaveRequest {
        target: 2,
        path: None,
        force: false,
        retarget: true,
        continuation: SaveContinuation::CloseSavedTab,
    };
    assert_eq!(request.target, 2);
    assert_eq!(request.continuation, SaveContinuation::CloseSavedTab);
}

#[test]
fn duplicate_keeps_every_field() {
    let request = save_request(4, Some("a.md"), false, SaveContinuation::StayOpen);
    assert_eq!(request.duplicate(), request);
}

#[test]
fn closing_a_missing_tab_names_it_from_one() {
    let request = CloseTabRequest { target: 2, force: false, dirty_policy: DirtyClosePolicy::Confirm };
    assert_eq!(
        close_tab_decision(request, 2, false),
        CloseDecision::InvalidTarget("Lifecycle target tab 3 no longer exists".to_string())
    );
    assert_eq!(invalid_target_message(0), "Lifecycle target tab 1 no longer exists");
}

#[test]
fn dirty_close_confirms_or_refuses_by_policy_unless_forced() {
    let confirm = CloseTabRequest { target: 0, force: false, dirty_policy: DirtyClosePolicy::Confirm };
    assert_eq!(close_tab_decision(confirm, 1, true), CloseDecision::Confirm(confirm));
    let refuse = CloseTabRequest { target: 0, force: false, dirty_policy: DirtyClosePolicy::Refuse };
    assert_eq!(
        close_tab_decision(refuse, 1, true),
        CloseDecision::Refuse("No write since last change (use :tabclose! to override)".to_string())
    );
    let forced = CloseTabRequest { target: 0, force: true, dirty_policy: DirtyClosePolicy::Refuse };
    assert_eq!(close_tab_decision(forced, 1, true), CloseDecision::Close(0));
    assert_eq!(close_tab_decision(confirm, 1, false), CloseDecision::Close(0));
}

#[test]
fn quit_all_refuses_with_the_number_of_modified_tabs() {
    assert_eq!(quit_all_decision(false, 0), Ok(()));
    assert_eq!(quit_all_decision(true, 3), Ok(()));
    assert_eq!(
        quit_all_decision(false, 2),
        Err("2 unsaved tab(s) \u{2014} use :qa! to discard".to_string())
    );
    assert_eq!(dirty_count(&vec![true, false, true, true]), 3);
    assert_eq!(dirty_count(&vec![]), 0);
}

#[test]
fn replacing_a_modified_document_needs_force() {
    assert_eq!(
        replace_tab_refusal(false, true),
        Some("No write since last change (use :e! to override)".to_string())
    );
    assert_eq!(replace_tab_refusal(true, true), None);
    assert_eq!(replace_tab_refusal(false, false), None);
}

#[test]
fn dirty_close_discard_closes_only_captured_tab() {
    let action = CloseTabRequest { target: 1, force: false, dirty_policy: DirtyClosePolicy::Confirm };
    assert_eq!(
        confirmation_step(ConfirmationResolution::DirtyClose { action, choice: DirtyCloseChoice::Discard }, 3),
        ConfirmationStep::Close(1)
    );
    assert_eq!(
        confirmation_step(ConfirmationResolution::DirtyClose { action, choice: DirtyCloseChoice::Discard }, 1),
        ConfirmationStep::InvalidTarget("Lifecycle target tab 2 no longer exists".to_string())
    );
}

#[test]
fn dirty_close_save_saves_and_closes_only_captured_tab() {
    let action = CloseTabRequest { target: 2, force: false, dirty_policy: DirtyClosePolicy::Confirm };
    assert_eq!(
        confirmation_step(ConfirmationResolution::DirtyClose { action, choice: DirtyCloseChoice::SaveAndClose }, 3),
        ConfirmationStep::Lifecycle(LifecycleAction::Save(save_request(2, None, true, SaveContinuation::CloseSavedTab)))
    );
}

#[test]
fn dirty_close_cancel_preserves_target_and_dirty_state() {
    let action = CloseTabRequest { target: 0, force: false, dirty_policy: DirtyClosePolicy::Confirm };
    assert_eq!(
        confirmation_step(ConfirmationResolution::DirtyClose { action, choice: DirtyCloseChoice::Cancel }, 1),
        ConfirmationStep::Nothing
    );
}

#[test]
fn overwrite_retries_forced_and_reload_reads_the_disk_path() {
    let request = save_request(0, Some("b.md"), true, SaveContinuation::StayOpen);
    let mut forced = request.clone();
    forced.force = true;
    assert_eq!(
        confirmation_step(
            ConfirmationResolution::ExternalSave {
                request: request.clone(),
                disk_path: "/x/b.md".to_string(),
                choice: ExternalSaveChoice::Overwrite,
            },
            1
        ),
        ConfirmationStep::Lifecycle(LifecycleAction::Save(forced))
    );
    assert_eq!(
        confirmation_step(
            ConfirmationResolution::ExternalSave {
                request: request.clone(),
                disk_path: "/x/b.md".to_string(),
                choice: ExternalSaveChoice::Reload,
            },
            1
        ),
        ConfirmationStep::Reload { target: 0, path: "/x/b.md".to_string() }
    );
    assert_eq!(
        confirmation_step(
            ConfirmationResolution::ExternalSave { request, disk_path: String::new(), choice: ExternalSaveChoice::Cancel },
            1
        ),
        ConfirmationStep::Nothing
    );
}

#[test]
fn space_quit_and_ex_quit_share_dirty_confirmation() {
    let from_command = command_lifecycle(AppCommand::Quit, 1);
    let from_effect = effect_lifecycle(LifecycleEffect::QuitRequested { force: false }, 1);
    assert_eq!(from_command, Some(from_effect.clone()));
    assert_eq!(
        from_effect,
        LifecycleAction::CloseTab(CloseTabRequest { target: 1, force: false, dirty_policy: DirtyClosePolicy::Confirm })
    );
    assert_eq!(
        command_lifecycle(AppCommand::Save, 0),
        Some(LifecycleAction::Save(save_request(0, None, true, SaveContinuation::StayOpen)))
    );
    assert_eq!(command_lifecycle(AppCommand::Help, 0), None);
    assert_eq!(command_lifecycle(AppCommand::CycleTheme, 0), None);
}

#[test]
fn dirty_tabclose_refuses_without_overlay() {
    let action = effect_lifecycle(LifecycleEffect::TabCloseRequested { index: None, force: false }, 2);
    assert_eq!(
        action,
        LifecycleAction::CloseTab(CloseTabRequest { target: 2, force: false, dirty_policy: DirtyClosePolicy::Refuse })
    );
    let LifecycleAction::CloseTab(request) = action else { unreachable!() };
    assert!(matches!(close_tab_decision(request, 3, true), CloseDecision::Refuse(_)));
    assert_eq!(
        effect_lifecycle(LifecycleEffect::TabCloseRequested { index: Some(0), force: true }, 2),
        LifecycleAction::CloseTab(CloseTabRequest { target: 0, force: true, dirty_policy: DirtyClosePolicy::Refuse })
    );
}

#[test]
fn session_effects_become_requests_on_the_active_tab() {
    assert_eq!(
        effect_lifecycle(
            LifecycleEffect::SaveRequested { path: Some("c.md".to_string()), force: true, retarget: false, then_quit: true },
            4
        ),
        LifecycleAction::Save(SaveRequest {
            target: 4,
            path: Some("c.md".to_string()),
            force: true,
            retarget: false,
            continuation: SaveContinuation::CloseSavedTab,
        })
    );
    assert_eq!(
        effect_lifecycle(LifecycleEffect::OpenRequested { path: "d.md".to_string(), force: false }, 1),
        LifecycleAction::ReplaceTab { target: 1, path: "d.md".to_string(), force: false }
    );
    assert_eq!(
        effect_lifecycle(LifecycleEffect::TabNewRequested { path: "e.md".to_string() }, 0),
        LifecycleAction::OpenTab { path: "e.md".to_string() }
    );
    assert_eq!(
        effect_lifecycle(LifecycleEffect::QuitAllRequested { force: true }, 0),
        LifecycleAction::QuitAll { force: true }
    );
}

#[test]
fn a_path_without_retarget_saves_a_copy() {
    assert_eq!(
        save_mode(&save_request(0, Some("copy.md"), false, SaveContinuation::StayOpen)),
        SaveMode::Copy("copy.md".to_string())
    );
    assert_eq!(
        save_mode(&save_request(0, Some("new.md"), true, SaveContinuation::StayOpen)),
        SaveMode::InPlace { path: Some("new.md".to_string()), force: false }
    );
    assert_eq!(
        save_mode(&save_request(0, None, true, SaveContinuation::StayOpen)),
        SaveMode::InPlace { path: None, force: false }
    );
}

#[test]
fn save_success_reports_name_and_lines_and_closes_when_asked() {
    let request = save_request(1, None, true, SaveContinuation::CloseSavedTab);
    assert_eq!(
        save_follow_up(request, SaveOutcome::Saved { file_name: Some("notes.md".to_string()), line_count: 12 }),
        SaveFollowUp::Saved { save_point: true, message: "Saved notes.md (12 lines)".to_string(), close_target: Some(1) }
    );
    let copy = save_request(0, Some("copy.md"), false, SaveContinuation::StayOpen);
    assert_eq!(
        save_follow_up(copy, SaveOutcome::Saved { file_name: None, line_count: 0 }),
        SaveFollowUp::Saved { save_point: false, message: "Saved buffer (0 lines)".to_string(), close_target: None }
    );
}

#[test]
fn externally_modified_file_asks_unless_forced() {
    let request = save_request(0, None, true, SaveContinuation::StayOpen);
    assert_eq!(
        save_follow_up(
            request.clone(),
            SaveOutcome::ExternallyModified { path: "/a.md".to_string(), error: "changed".to_string() }
        ),
        SaveFollowUp::ConfirmOverwrite {
            message: "File modified on disk: /a.md".to_string(),
            request: request.clone(),
            disk_path: "/a.md".to_string(),
        }
    );
    let mut forced = request;
    forced.force = true;
    assert_eq!(
        save_follow_up(forced.clone(), SaveOutcome::ExternallyModified { path: "/a.md".to_string(), error: "changed".to_string() }),
        SaveFollowUp::Failed("Save error: changed".to_string())
    );
    assert_eq!(
        save_follow_up(forced, SaveOutcome::Failed("denied".to_string())),
        SaveFollowUp::Failed("Save error: denied".to_string())
    );
}

#[test]
fn add_word_reports_and_closing_rules() {
    assert_eq!(
        add_word_report(AddWordResult::Inserted("teh".to_string())),
        ("added 'teh' to personal dictionary".to_string(), Severity::Info, true)
    );
    assert_eq!(
        add_word_report(AddWordResult::AlreadyPresent("teh".to_string())),
        ("'teh' is already in the personal dictionary".to_string(), Severity::Info, true)
    );
    assert_eq!(
        add_word_report(AddWordResult::Ignored),
        ("word is not eligible for the personal dictionary".to_string(), Severity::Warning, false)
    );
    assert_eq!(
        add_word_report(AddWordResult::Failed("read-only".to_string())),
        ("failed to add word: read-only".to_string(), Severity::Warning, false)
    );
    assert_eq!(
        add_word_report(AddWordResult::Stale),
        ("spelling diagnostic is stale; word was not added".to_string(), Severity::Warning, false)
    );
}

#[test]
fn suggest_command_distinguishes_building_unavailable_and_no_diagnostic() {
    assert_eq!(trouble_progress(false, Some("x".to_string()), false, true), TroubleProgress::Complete);
    assert_eq!(
        trouble_progress(true, Some("no dictionary".to_string()), false, false),
        TroubleProgress::Unavailable("no dictionary".to_string())
    );
    assert_eq!(trouble_progress(true, None, false, false), TroubleProgress::Pending);
    assert_eq!(trouble_progress(true, None, true, true), TroubleProgress::Pending);
    assert_eq!(trouble_progress(true, None, true, false), TroubleProgress::Complete);
}

#[test]
fn status_reports_of_app_effects() {
    assert_eq!(clipboard_report(None), ("yanked to register".to_string(), Severity::Info));
    assert_eq!(
        clipboard_report(Some("payload too large".to_string())),
        ("Clipboard error: payload too large".to_string(), Severity::Warning)
    );
    assert_eq!(open_report("a.md", Ok(()), false), ("Opened: a.md".to_string(), Severity::Info));
    assert_eq!(open_report("a.md", Ok(()), true), ("Reloaded from disk".to_string(), Severity::Info));
    assert_eq!(open_report("a.md", Err("gone".to_string()), true), ("Reload error: gone".to_string(), Severity::Error));
    assert_eq!(open_report("a.md", Err("gone".to_string()), false), ("Open error: gone".to_string(), Severity::Error));
    assert_eq!(wrap_report(true), ("wrap".to_string(), Severity::Info));
    assert_eq!(wrap_report(false), ("nowrap".to_string(), Severity::Info));
    assert_eq!(spell_toggle_report(true), ("spell checking enabled".to_string(), Severity::Info));
    assert_eq!(spell_toggle_report(false), ("spell checking disabled".to_string(), Severity::Info));
    assert_eq!(theme_report("accessible"), ("theme: accessible (monochrome)".to_string(), Severity::Info));
    assert_eq!(theme_report("default-light"), ("theme: default-light".to_string(), Severity::Info));
    assert_eq!(trouble_jump_warning(None), "selected diagnostic is stale; jump cancelled");
    assert_eq!(trouble_jump_warning(Some("moved".to_string())), "selected diagnostic is stale: moved");
}
