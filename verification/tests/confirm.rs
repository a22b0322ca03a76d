use oom_edit::confirm::{
    ConfirmOverwrite, ConfirmQuit, ConfirmResult, ConfirmationResolution, DialogText, DirtyCloseChoice,
    ExternalSaveChoice,
};
use oom_edit::keys::{KeyCodeKind, KeyInput};
use oom_edit::lifecycle::{CloseTabRequest, DirtyClosePolicy, SaveContinuation, SaveRequest};

fn char_key(c: char) -> KeyInput {
    KeyInput::plain(KeyCodeKind::Char(c))
}

fn esc_key() -> KeyInput {
    KeyInput::plain(KeyCodeKind::Esc)
}

fn ctrl_c_key() -> KeyInput {
    KeyInput::with_mods(KeyCodeKind::Char('c'), true, false, false)
}

fn up_key() -> KeyInput {
    KeyInput::plain(KeyCodeKind::Up)
}

fn down_key() -> KeyInput {
    KeyInput::plain(KeyCodeKind::Down)
}

fn enter_key() -> KeyInput {
    KeyInput::plain(KeyCodeKind::Enter)
}

#[test]
fn confirm_quit_esc_returns_false() {
    let mut overlay = ConfirmQuit::new();
    assert!(!overlay.handle_key(&esc_key()));
    assert_eq!(overlay.result(), ConfirmResult::Cancel);
}

#[test]
fn confirm_quit_ctrlc_returns_false() {
    let mut overlay = ConfirmQuit::new();
    assert!(!overlay.handle_key(&ctrl_c_key()));
    assert_eq!(overlay.result(), ConfirmResult::Cancel);
}

#[test]
fn confirm_quit_y_returns_true() {
    let mut overlay = ConfirmQuit::new();
    assert!(overlay.handle_key(&char_key('y')));
    assert_eq!(overlay.result(), ConfirmResult::Confirm);
}

#[test]
fn confirm_quit_w_returns_true() {
    let mut overlay = ConfirmQuit::new();
    assert!(overlay.handle_key(&char_key('w')));
    assert_eq!(overlay.result(), ConfirmResult::Confirm);
}

#[test]
fn confirm_quit_n_returns_true() {
    let mut overlay = ConfirmQuit::new();
    assert!(overlay.handle_key(&char_key('n')));
    assert_eq!(overlay.result(), ConfirmResult::Quit);
}

#[test]
fn confirm_quit_up_navigates() {
    let mut overlay = ConfirmQuit::new();
    assert!(overlay.handle_key(&char_key('n')));
    assert!(overlay.handle_key(&up_key()));
    assert_eq!(overlay.result(), ConfirmResult::Confirm);
}

#[test]
fn confirm_quit_down_navigates() {
    let mut overlay = ConfirmQuit::new();
    assert!(overlay.handle_key(&down_key()));
    assert_eq!(overlay.result(), ConfirmResult::Quit);
}

#[test]
fn confirm_quit_enter_returns_false() {
    let mut overlay = ConfirmQuit::new();
    assert!(!overlay.handle_key(&enter_key()));
    assert_eq!(overlay.result(), ConfirmResult::Confirm);
}

#[test]
fn confirm_quit_unknown_returns_false() {
    let mut overlay = ConfirmQuit::new();
    assert!(!overlay.handle_key(&char_key('z')));
    assert_eq!(overlay.result(), ConfirmResult::Confirm);
}

#[test]
fn confirm_overwrite_esc_returns_false() {
    let mut overlay = ConfirmOverwrite::new();
    assert!(!overlay.handle_key(&esc_key()));
    assert_eq!(overlay.result(), ConfirmResult::Cancel);
}

#[test]
fn confirm_overwrite_ctrlc_returns_false() {
    let mut overlay = ConfirmOverwrite::new();
    assert!(!overlay.handle_key(&ctrl_c_key()));
    assert_eq!(overlay.result(), ConfirmResult::Cancel);
}

#[test]
fn confirm_overwrite_o_returns_true() {
    let mut overlay = ConfirmOverwrite::new();
    assert!(overlay.handle_key(&char_key('o')));
    assert_eq!(overlay.result(), ConfirmResult::Confirm);
}

#[test]
fn confirm_overwrite_r_returns_true() {
    let mut overlay = ConfirmOverwrite::new();
    assert!(overlay.handle_key(&char_key('r')));
    assert_eq!(overlay.result(), ConfirmResult::Reload);
}

#[test]
fn confirm_overwrite_up_navigates() {
    let mut overlay = ConfirmOverwrite::new();
    assert!(!overlay.handle_key(&esc_key()));
    assert!(overlay.handle_key(&up_key()));
    assert_eq!(overlay.result(), ConfirmResult::Reload);
}

#[test]
fn confirm_overwrite_down_navigates() {
    let mut overlay = ConfirmOverwrite::new();
    assert!(overlay.handle_key(&down_key()));
    assert_eq!(overlay.result(), ConfirmResult::Reload);
}

#[test]
fn confirm_overwrite_enter_returns_false() {
    let mut overlay = ConfirmOverwrite::new();
    assert!(!overlay.handle_key(&enter_key()));
    assert_eq!(overlay.result(), ConfirmResult::Confirm);
}

#[test]
fn confirm_overwrite_unknown_returns_false() {
    let mut overlay = ConfirmOverwrite::new();
    assert!(!overlay.handle_key(&char_key('z')));
    assert_eq!(overlay.result(), ConfirmResult::Confirm);
}

#[test]
fn confirm_quit_geometry() {
    let overlay = ConfirmQuit::new();
    assert_eq!(overlay.geometry(), (40, 7));
}

#[test]
fn confirm_overwrite_geometry() {
    let overlay = ConfirmOverwrite::new();
    assert_eq!(overlay.geometry(), (40, 7));
}

#[test]
fn dirty_close_resolution_carries_the_captured_request() {
    let action = CloseTabRequest { target: 3, force: false, dirty_policy: DirtyClosePolicy::Confirm };
    let mut quit = ConfirmQuit::for_action(action);
    assert_eq!(quit.resolve_key(&down_key()), None);
    assert_eq!(
        quit.resolve_key(&enter_key()),
        Some(ConfirmationResolution::DirtyClose { action, choice: DirtyCloseChoice::Discard })
    );
    let mut quit = ConfirmQuit::for_action(action);
    assert_eq!(
        quit.resolve_key(&char_key('w')),
        Some(ConfirmationResolution::DirtyClose { action, choice: DirtyCloseChoice::SaveAndClose })
    );
    assert_eq!(
        ConfirmQuit::for_action(action).resolve_key(&ctrl_c_key()),
        Some(ConfirmationResolution::DirtyClose { action, choice: DirtyCloseChoice::Cancel })
    );
}

#[test]
fn external_save_resolution_carries_request_and_disk_path() {
    let request = SaveRequest {
        target: 1,
        path: Some("notes.md".to_string()),
        force: false,
        retarget: true,
        continuation: SaveContinuation::StayOpen,
    };
    let mut overwrite = ConfirmOverwrite::for_request(request.clone(), "/tmp/notes.md".to_string());
    assert_eq!(
        overwrite.resolve_key(&char_key('r')),
        Some(ConfirmationResolution::ExternalSave {
            request: request.clone(),
            disk_path: "/tmp/notes.md".to_string(),
            choice: ExternalSaveChoice::Reload,
        })
    );
    let mut overwrite = ConfirmOverwrite::for_request(request.clone(), "/tmp/notes.md".to_string());
    assert_eq!(overwrite.resolve_key(&char_key('x')), None);
    assert_eq!(
        overwrite.resolve_key(&esc_key()),
        Some(ConfirmationResolution::ExternalSave {
            request,
            disk_path: "/tmp/notes.md".to_string(),
            choice: ExternalSaveChoice::Cancel,
        })
    );
}

#[test]
fn confirmation_hints_name_their_keys() {
    assert_eq!(ConfirmQuit::new().hints(), "y/w save+quit \u{b7} n quit \u{b7} Esc cancel");
    assert_eq!(ConfirmOverwrite::new().hints(), "o overwrite \u{b7} r reload \u{b7} Esc cancel");
}

fn lines(rows: [&str; 5]) -> Vec<String> {
    rows.iter().map(|row| row.to_string()).collect()
}

#[test]
fn quit_dialog_highlights_the_selected_option() {
    let mut dialog = ConfirmQuit::new();
    assert_eq!(
        dialog.dialog(),
        DialogText {
            title: " Quit? ".to_string(),
            lines: lines(["", "  Save and quit?    [y/w]", "  Quit without save [n]", "  Cancel            [Esc]", ""]),
            highlighted: 1,
        }
    );
    dialog.handle_key(&down_key());
    assert_eq!(dialog.dialog().highlighted, 2);
}

#[test]
fn overwrite_dialog_lists_overwrite_reload_cancel() {
    let dialog = ConfirmOverwrite::new();
    let text = dialog.dialog();
    assert_eq!(text.title, " File Modified ");
    assert_eq!(
        text.lines,
        lines(["", "  Overwrite (:w!)   [o]", "  Reload (:e!)      [r]", "  Cancel            [Esc]", ""])
    );
    assert_eq!(text.highlighted, 1);
}
