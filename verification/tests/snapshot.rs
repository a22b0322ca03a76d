use oom_edit::confirm::{ConfirmOverwrite, ConfirmQuit};
use oom_edit::palette::PaletteState;

#[test]
fn drift_overlay_hints_nonempty() {
    let palette = PaletteState::default();
    assert!(!palette.hints().is_empty(), "Palette hints must be non-empty");

    let quit = ConfirmQuit::new();
    assert!(!quit.hints().is_empty(), "ConfirmQuit hints must be non-empty");

    let overwrite = ConfirmOverwrite::new();
    assert!(!overwrite.hints().is_empty(), "ConfirmOverwrite hints must be non-empty");
}
