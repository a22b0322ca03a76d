use oom_edit::config::{
    containing_directory, default_dark, default_light, default_wrap, directory_or_current, parent_directory, Config,
    ConfigSave, ConfigSaveAction, ConfigSaveOp, EditorConfig, ThemeConfig,
};

/// What a save asked the file system to do, in order.
#[derive(Debug, Clone, PartialEq, Eq)]
enum Event {
    CreateDirectories(String),
    OpenParentReadOnly(String),
    DirectorySync,
    Serialize,
    Write(String),
    FileSync(String),
    Rename(String, String),
}

#[derive(Debug, Clone, Copy, PartialEq, Eq)]
enum Failure {
    FileSync,
    ParentOpen(usize),
    ParentSync(usize),
}

/// Drive a save of `path`, answering every step with success except the
/// injected failure.
fn run_save(path: &str, failure: Option<Failure>) -> (Vec<Event>, Result<(), String>) {
    let (mut save, first) = ConfigSave::start(path);
    let mut events = Vec::new();
    let mut opens = 0;
    let mut syncs = 0;
    let mut op = first;
    loop {
        let outcome = match &op {
            ConfigSaveOp::CreateDirAll(p) => {
                events.push(Event::CreateDirectories(p.clone()));
                Ok(())
            }
            ConfigSaveOp::OpenParentReadOnly(p) => {
                events.push(Event::OpenParentReadOnly(p.clone()));
                opens += 1;
                if failure == Some(Failure::ParentOpen(opens)) {
                    Err("injected config-save failure".to_string())
                } else {
                    Ok(())
                }
            }
            ConfigSaveOp::SyncParent => {
                events.push(Event::DirectorySync);
                syncs += 1;
                if failure == Some(Failure::ParentSync(syncs)) {
                    Err("injected config-save failure".to_string())
                } else {
                    Ok(())
                }
            }
            ConfigSaveOp::Serialize => {
                events.push(Event::Serialize);
                Ok(())
            }
            ConfigSaveOp::Write(p) => {
                events.push(Event::Write(p.clone()));
                Ok(())
            }
            ConfigSaveOp::SyncFile(p) => {
                events.push(Event::FileSync(p.clone()));
                if failure == Some(Failure::FileSync) {
                    Err("injected config-save failure".to_string())
                } else {
                    Ok(())
                }
            }
            ConfigSaveOp::Rename(a, b) => {
                events.push(Event::Rename(a.clone(), b.clone()));
                Ok(())
            }
        };
        match save.step(outcome) {
            ConfigSaveAction::Perform(next) => op = next,
            ConfigSaveAction::Finish(result) => {
                assert!(save.is_finished());
                return (events, result);
            }
        }
    }
}

#[test]
fn config_defaults() {
    let config = Config::default();
    assert_eq!(config.theme.mode, None);
    assert_eq!(config.theme.dark, "default-dark");
    assert_eq!(config.theme.light, "default-light");
    assert!(config.editor.wrap);
}

#[test]
fn config_editor_wrap_defaults_true() {
    assert!(Config::default().editor.wrap);
}

#[test]
fn relative_config_path_resolves_parent_to_current_directory() {
    assert_eq!(parent_directory("config.toml"), ".");
}

#[test]
fn section_defaults_match_the_field_defaults() {
    assert!(default_wrap());
    assert_eq!(default_dark(), "default-dark");
    assert_eq!(default_light(), "default-light");
    assert_eq!(EditorConfig::default(), EditorConfig { wrap: true });
    assert_eq!(
        ThemeConfig::default(),
        ThemeConfig {
            mode: None,
            dark: "default-dark".to_string(),
            light: "default-light".to_string(),
        }
    );
}

#[test]
fn directories_of_nested_and_root_paths() {
    assert_eq!(parent_directory("config/nested/config.toml"), "config/nested");
    assert_eq!(parent_directory("/config.toml"), "/");
    assert_eq!(containing_directory("config"), Some(".".to_string()));
    assert_eq!(containing_directory("config/nested"), Some("config".to_string()));
    assert_eq!(containing_directory("/config"), Some("/".to_string()));
    assert_eq!(containing_directory("/"), None);
}

#[test]
fn config_save_uses_complete_atomic_sequence() {
    let (events, result) = run_save("config.toml", None);
    assert_eq!(result, Ok(()));
    assert_eq!(
        events,
        vec![
            Event::CreateDirectories(".".to_string()),
            Event::OpenParentReadOnly(".".to_string()),
            Event::DirectorySync,
            Event::Serialize,
            Event::Write("config.toml.tmp".to_string()),
            Event::FileSync("config.toml.tmp".to_string()),
            Event::Rename("config.toml.tmp".to_string(), "config.toml".to_string()),
            Event::OpenParentReadOnly(".".to_string()),
            Event::DirectorySync,
        ]
    );
}

#[test]
fn config_save_propagates_sync_and_parent_open_failures() {
    for (failure, expected_message) in [
        (Failure::FileSync, "failed to sync config file"),
        (Failure::ParentOpen(2), "failed to open config directory"),
        (Failure::ParentSync(2), "failed to sync config directory"),
    ] {
        let (_, result) = run_save("config.toml", Some(failure));
        let error = result.unwrap_err();
        assert!(error.contains(expected_message), "unexpected error for {failure:?}: {error}");
        assert!(error.ends_with("injected config-save failure"));
    }
}

#[test]
fn config_save_syncs_new_directory_entries_bottom_up() {
    let (events, result) = run_save("config/nested/config.toml", None);
    assert_eq!(result, Ok(()));
    assert_eq!(
        events,
        vec![
            Event::CreateDirectories("config/nested".to_string()),
            Event::OpenParentReadOnly("config".to_string()),
            Event::DirectorySync,
            Event::OpenParentReadOnly(".".to_string()),
            Event::DirectorySync,
            Event::Serialize,
            Event::Write("config/nested/config.toml.tmp".to_string()),
            Event::FileSync("config/nested/config.toml.tmp".to_string()),
            Event::Rename(
                "config/nested/config.toml.tmp".to_string(),
                "config/nested/config.toml".to_string()
            ),
            Event::OpenParentReadOnly("config/nested".to_string()),
            Event::DirectorySync,
        ]
    );
}

#[test]
fn absolute_config_path_stops_ancestor_sync_at_filesystem_root() {
    let (events, result) = run_save("/config/nested/config.toml", None);
    assert_eq!(result, Ok(()));
    assert_eq!(
        &events[..5],
        &[
            Event::CreateDirectories("/config/nested".to_string()),
            Event::OpenParentReadOnly("/config".to_string()),
            Event::DirectorySync,
            Event::OpenParentReadOnly("/".to_string()),
            Event::DirectorySync,
        ]
    );
    assert!(!events.contains(&Event::OpenParentReadOnly(".".to_string())));
}

#[test]
fn config_save_propagates_ancestor_sync_failures_before_writing() {
    for failure in [Failure::ParentOpen(1), Failure::ParentSync(1)] {
        let (events, result) = run_save("config/nested/config.toml", Some(failure));
        assert!(result.is_err());
        assert!(!events.iter().any(|e| matches!(e, Event::Write(_))));
    }
}

#[test]
fn config_save_retry_repeats_ancestor_sync_chain() {
    let path = "config/nested/config.toml";
    let (first_attempt, result) = run_save(path, Some(Failure::ParentSync(2)));
    assert!(result.is_err());
    assert!(!first_attempt.iter().any(|e| matches!(e, Event::Write(_))));

    let (retry, result) = run_save(path, None);
    assert_eq!(result, Ok(()));
    assert_eq!(
        &retry[..5],
        &[
            Event::CreateDirectories("config/nested".to_string()),
            Event::OpenParentReadOnly("config".to_string()),
            Event::DirectorySync,
            Event::OpenParentReadOnly(".".to_string()),
            Event::DirectorySync,
        ]
    );
}

#[test]
fn each_failing_step_names_itself() {
    let (mut save, _) = ConfigSave::start("dir/config.toml");
    assert_eq!(
        save.step(Err("denied".to_string())),
        ConfigSaveAction::Finish(Err(
            "failed to create config directory 'dir': denied".to_string()
        ))
    );
    let (mut save, _) = ConfigSave::start("config.toml");
    assert_eq!(
        save.step(Ok(())),
        ConfigSaveAction::Perform(ConfigSaveOp::OpenParentReadOnly(".".to_string()))
    );
    assert_eq!(save.step(Ok(())), ConfigSaveAction::Perform(ConfigSaveOp::SyncParent));
    assert_eq!(save.step(Ok(())), ConfigSaveAction::Perform(ConfigSaveOp::Serialize));
    assert_eq!(
        save.step(Err("bad value".to_string())),
        ConfigSaveAction::Finish(Err("failed to serialize config: bad value".to_string()))
    );
}

#[test]
fn write_and_rename_failures_are_reported() {
    for (steps_before, prefix) in [(4, "failed to write config file: "), (6, "failed to rename config file: ")] {
        let (mut save, _) = ConfigSave::start("config.toml");
        for _ in 0..steps_before {
            assert!(matches!(save.step(Ok(())), ConfigSaveAction::Perform(_)));
        }
        assert_eq!(
            save.step(Err("disk full".to_string())),
            ConfigSaveAction::Finish(Err(format!("{prefix}disk full")))
        );
    }
}

#[test]
fn cycling_a_theme_never_persists_the_opposite_mode_slot() {
    let mut config = Config::default();
    config.set_theme_for_mode(false, "high-contrast".to_string());
    assert_eq!(config.theme.dark, "high-contrast");
    assert_eq!(config.theme.light, "default-light");
    config.set_theme_for_mode(true, "accessible".to_string());
    assert_eq!(config.theme.light, "accessible");
    assert_eq!(config.theme.dark, "high-contrast");
    assert_eq!(config.theme.mode, None);
    assert!(config.editor.wrap);
}

#[test]
fn empty_parent_means_the_current_directory() {
    assert_eq!(directory_or_current(Some(String::new())), Some(".".to_string()));
    assert_eq!(directory_or_current(Some("a/b".to_string())), Some("a/b".to_string()));
    assert_eq!(directory_or_current(None), None);
    assert_eq!(parent_directory("config.toml"), ".");
    assert_eq!(containing_directory("dir"), Some(".".to_string()));
    assert_eq!(containing_directory("/"), None);
}
