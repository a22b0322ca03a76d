//! Confirmation overlays: closing a modified tab, and saving over a file
//! that changed on disk.
//!
//! Keys:
//! - closing a modified tab: `y`/`w` save and close, `n` close without
//!   saving, `Esc`/`Ctrl-C` cancel, `Up`/`Down` move, `Enter` picks;
//! - overwrite: `o` overwrite, `r` reload, `Esc`/`Ctrl-C` cancel, `Up`/`Down`
//!   move, `Enter` picks.

use vstd::prelude::*;
use crate::keys::{KeyCodeKind, KeyInput};
use crate::lifecycle::{CloseTabRequest, DirtyClosePolicy, SaveContinuation, SaveRequest};
use crate::text::to_string;

verus! {

/// The summary of the highlighted option.
#[derive(Debug, Clone, Copy, PartialEq, Eq, Structural)]
pub enum ConfirmResult {
    Confirm,
    Quit,
    Cancel,
    Reload,
}

/// The choice made about a modified tab that is being closed.
#[derive(Debug, Clone, Copy, PartialEq, Eq, Structural)]
pub enum DirtyCloseChoice {
    SaveAndClose,
    Discard,
    Cancel,
}

/// The choice made about a file that changed on disk before a save.
#[derive(Debug, Clone, Copy, PartialEq, Eq, Structural)]
pub enum ExternalSaveChoice {
    Overwrite,
    Reload,
    Cancel,
}

/// The semantic outcome of a confirmation, carrying its own request.
#[derive(Debug, Clone, PartialEq, Eq)]
pub enum ConfirmationResolution {
    DirtyClose { action: CloseTabRequest, choice: DirtyCloseChoice },
    ExternalSave { request: SaveRequest, disk_path: String, choice: ExternalSaveChoice },
}

/// The option numbered `selected` (0, 1, then 2 for anything larger).
pub open spec fn spec_dirty_choice(selected: usize) -> DirtyCloseChoice {
    if selected == 0 {
        DirtyCloseChoice::SaveAndClose
    } else if selected == 1 {
        DirtyCloseChoice::Discard
    } else {
        DirtyCloseChoice::Cancel
    }
}

/// The option numbered `selected` (0, 1, then 2 for anything larger).
pub open spec fn spec_external_choice(selected: usize) -> ExternalSaveChoice {
    if selected == 0 {
        ExternalSaveChoice::Overwrite
    } else if selected == 1 {
        ExternalSaveChoice::Reload
    } else {
        ExternalSaveChoice::Cancel
    }
}

/// An unmodified character key `c` (no Ctrl, Alt, or Shift).
pub open spec fn spec_bare_char(key: KeyInput, c: char) -> bool {
    key.code.kind == KeyCodeKind::Char(c) && key.mods.is_none()
}

/// Ctrl-C without Alt.
pub open spec fn spec_ctrl_c(key: KeyInput) -> bool {
    key.code.kind == KeyCodeKind::Char('c') && key.mods.ctrl && !key.mods.alt
}

/// One step of a three-option confirmation: the option that a shortcut
/// names (`first` for option 0, `second` for option 1), Esc or Ctrl-C for
/// option 2, Up/Down moving the highlight, Enter picking the highlight.
/// Returns the new highlight and the picked option number, if any.
pub open spec fn spec_confirm_step(
    selected: usize,
    key: KeyInput,
    first: char,
    alternate_first: char,
    second: char,
) -> (usize, Option<usize>) {
    if spec_bare_char(key, first) || spec_bare_char(key, alternate_first) {
        (0, Some(0))
    } else if spec_bare_char(key, second) {
        (1, Some(1))
    } else if key.code.kind == KeyCodeKind::Esc || spec_ctrl_c(key) {
        (2, Some(2))
    } else if key.code.kind == KeyCodeKind::Up {
        (if selected == 0 { 0 } else { (selected - 1) as usize }, None)
    } else if key.code.kind == KeyCodeKind::Down {
        (if selected + 1 < 2 { (selected + 1) as usize } else { 2 }, None)
    } else if key.code.kind == KeyCodeKind::Enter {
        (selected, Some(selected))
    } else {
        (selected, None)
    }
}

fn bare_char(key: &KeyInput, c: char) -> (r: bool)
    ensures
        r == spec_bare_char(*key, c),
{
    key.code.kind == KeyCodeKind::Char(c) && key.mods.is_plain()
}

fn ctrl_c(key: &KeyInput) -> (r: bool)
    ensures
        r == spec_ctrl_c(*key),
{
    key.code.kind == KeyCodeKind::Char('c') && key.mods.ctrl && !key.mods.alt
}

/// One step of a three-option confirmation.
fn confirm_step(selected: usize, key: &KeyInput, first: char, alternate_first: char, second: char) -> (r: (
    usize,
    Option<usize>,
))
    requires
        selected <= 2,
    ensures
        r == spec_confirm_step(selected, *key, first, alternate_first, second),
        r.0 <= 2,
{
    if bare_char(key, first) || bare_char(key, alternate_first) {
        (0, Some(0))
    } else if bare_char(key, second) {
        (1, Some(1))
    } else if key.code.kind == KeyCodeKind::Esc || ctrl_c(key) {
        (2, Some(2))
    } else if key.code.kind == KeyCodeKind::Up {
        (if selected == 0 { 0 } else { selected - 1 }, None)
    } else if key.code.kind == KeyCodeKind::Down {
        (if selected + 1 < 2 { selected + 1 } else { 2 }, None)
    } else if key.code.kind == KeyCodeKind::Enter {
        (selected, Some(selected))
    } else {
        (selected, None)
    }
}

fn dirty_choice(selected: usize) -> (r: DirtyCloseChoice)
    ensures
        r == spec_dirty_choice(selected),
{
    if selected == 0 {
        DirtyCloseChoice::SaveAndClose
    } else if selected == 1 {
        DirtyCloseChoice::Discard
    } else {
        DirtyCloseChoice::Cancel
    }
}

fn external_choice(selected: usize) -> (r: ExternalSaveChoice)
    ensures
        r == spec_external_choice(selected),
{
    if selected == 0 {
        ExternalSaveChoice::Overwrite
    } else if selected == 1 {
        ExternalSaveChoice::Reload
    } else {
        ExternalSaveChoice::Cancel
    }
}

/// Whether the legacy key protocol reports the key as consumed: the two
/// named shortcut letters and the arrow keys, regardless of modifiers.
pub open spec fn spec_consumes(key: KeyInput, letters: Seq<char>) -> bool {
    match key.code.kind {
        KeyCodeKind::Char(c) => letters.contains(c),
        KeyCodeKind::Up => true,
        KeyCodeKind::Down => true,
        _ => false,
    }
}

/// Confirmation for closing a tab that has unsaved changes.
///
/// Options: save and close (`y`/`w`), close without saving (`n`), cancel (`Esc`).
#[derive(Debug)]
pub struct ConfirmQuit {
    action: CloseTabRequest,
    /// The highlighted option: 0 save and close, 1 discard, 2 cancel.
    selected: usize,
}

impl ConfirmQuit {
    #[verifier::type_invariant]
    spec fn wf(self) -> bool {
        self.selected <= 2
    }

    /// The request this confirmation resolves.
    pub closed spec fn spec_action(self) -> CloseTabRequest {
        self.action
    }

    /// The highlighted option number.
    pub closed spec fn spec_selected(self) -> usize {
        self.selected
    }

    /// Open a confirmation for this close request, highlighting "save and close".
    pub fn for_action(action: CloseTabRequest) -> (r: Self)
        ensures
            r.spec_action() == action,
            r.spec_selected() == 0,
    {
        ConfirmQuit { action, selected: 0 }
    }

    /// A confirmation for closing the first tab.
    pub fn new() -> (r: Self)
        ensures
            r.spec_action() == (CloseTabRequest {
                target: 0,
                force: false,
                dirty_policy: DirtyClosePolicy::Confirm,
            }),
            r.spec_selected() == 0,
    {
        Self::for_action(CloseTabRequest { target: 0, force: false, dirty_policy: DirtyClosePolicy::Confirm })
    }

    /// The request this confirmation resolves.
    pub fn action(&self) -> (r: CloseTabRequest)
        ensures
            r == self.spec_action(),
    {
        self.action
    }

    /// The highlighted option number.
    pub fn selected(&self) -> (r: usize)
        ensures
            r == self.spec_selected(),
            r <= 2,
    {
        proof {
            use_type_invariant(self);
        }
        self.selected
    }

    /// Handle one exclusive modal key, resolving shortcuts immediately.
    pub fn resolve_key(&mut self, key: &KeyInput) -> (r: Option<ConfirmationResolution>)
        ensures
            ({
                let (sel, picked) = spec_confirm_step(old(self).spec_selected(), *key, 'y', 'w', 'n');
                &&& final(self).spec_selected() == sel
                &&& final(self).spec_action() == old(self).spec_action()
                &&& match picked {
                    Some(p) => r == Some(
                        ConfirmationResolution::DirtyClose {
                            action: old(self).spec_action(),
                            choice: spec_dirty_choice(p),
                        },
                    ),
                    None => r.is_none(),
                }
            }),
    {
        proof {
            use_type_invariant(&*self);
        }
        let (selected, picked) = confirm_step(self.selected, key, 'y', 'w', 'n');
        self.selected = selected;
        match picked {
            Some(p) => Some(
                ConfirmationResolution::DirtyClose { action: self.action, choice: dirty_choice(p) },
            ),
            None => None,
        }
    }

    /// Feed a key and report whether it was one of the option keys
    /// (`y`, `w`, `n`, `Up`, `Down`).
    pub fn handle_key(&mut self, key: &KeyInput) -> (r: bool)
        ensures
            final(self).spec_selected() == spec_confirm_step(
                old(self).spec_selected(),
                *key,
                'y',
                'w',
                'n',
            ).0,
            final(self).spec_action() == old(self).spec_action(),
            r == spec_consumes(*key, seq!['y', 'w', 'n']),
    {
        let kind = key.code.kind;
        let _ = self.resolve_key(key);
        let r = match kind {
            KeyCodeKind::Char(c) => c == 'y' || c == 'w' || c == 'n',
            KeyCodeKind::Up => true,
            KeyCodeKind::Down => true,
            _ => false,
        };
        proof {
            let letters = seq!['y', 'w', 'n'];
            match kind {
                KeyCodeKind::Char(c) => {
                    if c == 'y' {
                        assert(letters[0] == c);
                    } else if c == 'w' {
                        assert(letters[1] == c);
                    } else if c == 'n' {
                        assert(letters[2] == c);
                    }
                },
                _ => {},
            }
        }
        r
    }

    /// The highlighted option.
    pub fn selected_choice(&self) -> (r: DirtyCloseChoice)
        ensures
            r == spec_dirty_choice(self.spec_selected()),
    {
        dirty_choice(self.selected)
    }

    /// The highlighted option, summarized.
    pub fn result(&self) -> (r: ConfirmResult)
        ensures
            r == (match spec_dirty_choice(self.spec_selected()) {
                DirtyCloseChoice::SaveAndClose => ConfirmResult::Confirm,
                DirtyCloseChoice::Discard => ConfirmResult::Quit,
                DirtyCloseChoice::Cancel => ConfirmResult::Cancel,
            }),
    {
        match self.selected_choice() {
            DirtyCloseChoice::SaveAndClose => ConfirmResult::Confirm,
            DirtyCloseChoice::Discard => ConfirmResult::Quit,
            DirtyCloseChoice::Cancel => ConfirmResult::Cancel,
        }
    }

    /// Preferred centered geometry (width, height).
    pub fn geometry(&self) -> (r: (u16, u16))
        ensures
            r == (40u16, 7u16),
    {
        (40, 7)
    }

    /// The dialog as drawn: titled "Quit?", with the save-and-quit, quit
    /// and cancel options, the selected one highlighted.
    pub fn dialog(&self) -> (r: DialogText)
        ensures
            r.title@ == " Quit? "@,
            spec_lines(r.lines@) == spec_dialog_lines(
                "  Save and quit?    [y/w]"@,
                "  Quit without save [n]"@,
                "  Cancel            [Esc]"@,
            ),
            r.highlighted == self.spec_selected() + 1,
    {
        proof {
            use_type_invariant(self);
        }
        DialogText {
            title: to_string(" Quit? "),
            lines: dialog_lines("  Save and quit?    [y/w]", "  Quit without save [n]", "  Cancel            [Esc]"),
            highlighted: self.selected + 1,
        }
    }

    /// Hint text for the bottom bar.
    pub fn hints(&self) -> (r: &'static str)
        ensures
            r@ == "y/w save+quit · n quit · Esc cancel"@,
    {
        "y/w save+quit · n quit · Esc cancel"
    }
}

/// A confirmation dialog as drawn: its title, its rows, and the row shown
/// highlighted (the selected option's).
#[derive(Debug, Clone, PartialEq, Eq)]
pub struct DialogText {
    pub title: String,
    pub lines: Vec<String>,
    pub highlighted: usize,
}

/// A dialog's rows: a blank row, the three options, a blank row.
pub open spec fn spec_dialog_lines(first: Seq<char>, second: Seq<char>, third: Seq<char>) -> Seq<Seq<char>> {
    seq![Seq::empty(), first, second, third, Seq::empty()]
}

/// The texts of a dialog's rows.
pub open spec fn spec_lines(lines: Seq<String>) -> Seq<Seq<char>> {
    lines.map_values(|l: String| l@)
}

fn dialog_lines(first: &str, second: &str, third: &str) -> (r: Vec<String>)
    ensures
        spec_lines(r@) == spec_dialog_lines(first@, second@, third@),
{
    let mut lines: Vec<String> = Vec::new();
    lines.push(String::new());
    lines.push(to_string(first));
    lines.push(to_string(second));
    lines.push(to_string(third));
    lines.push(String::new());
    proof {
        assert(spec_lines(lines@) =~= spec_dialog_lines(first@, second@, third@));
    }
    lines
}

/// Confirmation for saving over a file that changed on disk.
///
/// Options: overwrite (`o`), reload (`r`), cancel (`Esc`).
#[derive(Debug)]
pub struct ConfirmOverwrite {
    request: SaveRequest,
    disk_path: String,
    /// The highlighted option: 0 overwrite, 1 reload, 2 cancel.
    selected: usize,
}

impl ConfirmOverwrite {
    #[verifier::type_invariant]
    spec fn wf(self) -> bool {
        self.selected <= 2
    }

    /// The save request this confirmation resolves.
    pub closed spec fn spec_request(self) -> crate::lifecycle::SaveRequestView {
        self.request@
    }

    /// The on-disk path that changed.
    pub closed spec fn spec_disk_path(self) -> Seq<char> {
        self.disk_path@
    }

    /// The highlighted option number.
    pub closed spec fn spec_selected(self) -> usize {
        self.selected
    }

    /// Open a confirmation for this save, highlighting "overwrite".
    pub fn for_request(request: SaveRequest, disk_path: String) -> (r: Self)
        ensures
            r.spec_request() == request@,
            r.spec_disk_path() == disk_path@,
            r.spec_selected() == 0,
    {
        ConfirmOverwrite { request, disk_path, selected: 0 }
    }

    /// A confirmation for saving the first tab over `fixture.md`.
    pub fn new() -> (r: Self)
        ensures
            r.spec_request() == (0usize, None::<Seq<char>>, false, true, SaveContinuation::StayOpen),
            r.spec_disk_path() == "fixture.md"@,
            r.spec_selected() == 0,
    {
        Self::for_request(
            SaveRequest {
                target: 0,
                path: None,
                force: false,
                retarget: true,
                continuation: SaveContinuation::StayOpen,
            },
            to_string("fixture.md"),
        )
    }

    /// The highlighted option number.
    pub fn selected(&self) -> (r: usize)
        ensures
            r == self.spec_selected(),
            r <= 2,
    {
        proof {
            use_type_invariant(self);
        }
        self.selected
    }

    /// Handle one exclusive modal key, resolving shortcuts immediately.
    pub fn resolve_key(&mut self, key: &KeyInput) -> (r: Option<ConfirmationResolution>)
        ensures
            ({
                let (sel, picked) = spec_confirm_step(old(self).spec_selected(), *key, 'o', 'o', 'r');
                &&& final(self).spec_selected() == sel
                &&& final(self).spec_request() == old(self).spec_request()
                &&& final(self).spec_disk_path() == old(self).spec_disk_path()
                &&& match picked {
                    Some(p) => match r {
                        Some(ConfirmationResolution::ExternalSave { request, disk_path, choice }) => {
                            &&& request@ == old(self).spec_request()
                            &&& disk_path@ == old(self).spec_disk_path()
                            &&& choice == spec_external_choice(p)
                        },
                        _ => false,
                    },
                    None => r.is_none(),
                }
            }),
    {
        proof {
            use_type_invariant(&*self);
        }
        let (selected, picked) = confirm_step(self.selected, key, 'o', 'o', 'r');
        self.selected = selected;
        match picked {
            Some(p) => Some(
                ConfirmationResolution::ExternalSave {
                    request: self.request.duplicate(),
                    disk_path: self.disk_path.clone(),
                    choice: external_choice(p),
                },
            ),
            None => None,
        }
    }

    /// Feed a key and report whether it was one of the option keys
    /// (`o`, `r`, `Up`, `Down`).
    pub fn handle_key(&mut self, key: &KeyInput) -> (r: bool)
        ensures
            final(self).spec_selected() == spec_confirm_step(
                old(self).spec_selected(),
                *key,
                'o',
                'o',
                'r',
            ).0,
            final(self).spec_request() == old(self).spec_request(),
            final(self).spec_disk_path() == old(self).spec_disk_path(),
            r == spec_consumes(*key, seq!['o', 'r']),
    {
        let kind = key.code.kind;
        let _ = self.resolve_key(key);
        let r = match kind {
            KeyCodeKind::Char(c) => c == 'o' || c == 'r',
            KeyCodeKind::Up => true,
            KeyCodeKind::Down => true,
            _ => false,
        };
        proof {
            let letters = seq!['o', 'r'];
            match kind {
                KeyCodeKind::Char(c) => {
                    if c == 'o' {
                        assert(letters[0] == c);
                    } else if c == 'r' {
                        assert(letters[1] == c);
                    }
                },
                _ => {},
            }
        }
        r
    }

    /// The highlighted option.
    pub fn selected_choice(&self) -> (r: ExternalSaveChoice)
        ensures
            r == spec_external_choice(self.spec_selected()),
    {
        external_choice(self.selected)
    }

    /// The highlighted option, summarized.
    pub fn result(&self) -> (r: ConfirmResult)
        ensures
            r == (match spec_external_choice(self.spec_selected()) {
                ExternalSaveChoice::Overwrite => ConfirmResult::Confirm,
                ExternalSaveChoice::Reload => ConfirmResult::Reload,
                ExternalSaveChoice::Cancel => ConfirmResult::Cancel,
            }),
    {
        match self.selected_choice() {
            ExternalSaveChoice::Overwrite => ConfirmResult::Confirm,
            ExternalSaveChoice::Reload => ConfirmResult::Reload,
            ExternalSaveChoice::Cancel => ConfirmResult::Cancel,
        }
    }

    /// Preferred centered geometry (width, height).
    pub fn geometry(&self) -> (r: (u16, u16))
        ensures
            r == (40u16, 7u16),
    {
        (40, 7)
    }

    /// The dialog as drawn: titled "File Modified", with the overwrite,
    /// reload and cancel options, the selected one highlighted.
    pub fn dialog(&self) -> (r: DialogText)
        ensures
            r.title@ == " File Modified "@,
            spec_lines(r.lines@) == spec_dialog_lines(
                "  Overwrite (:w!)   [o]"@,
                "  Reload (:e!)      [r]"@,
                "  Cancel            [Esc]"@,
            ),
            r.highlighted == self.spec_selected() + 1,
    {
        proof {
            use_type_invariant(self);
        }
        DialogText {
            title: to_string(" File Modified "),
            lines: dialog_lines("  Overwrite (:w!)   [o]", "  Reload (:e!)      [r]", "  Cancel            [Esc]"),
            highlighted: self.selected + 1,
        }
    }

    /// Hint text for the bottom bar.
    pub fn hints(&self) -> (r: &'static str)
        ensures
            r@ == "o overwrite · r reload · Esc cancel"@,
    {
        "o overwrite · r reload · Esc cancel"
    }
}

/// The arrows walk the highlight through all three options one at a time,
/// stopping at the ends, and Enter picks the highlighted option: so Down
/// then Enter from any highlight picks the next option (the last stays
/// last), and every option, Cancel included, is reachable with the arrows.
pub proof fn lemma_arrows_reach_every_option(
    selected: usize,
    down: KeyInput,
    up: KeyInput,
    enter: KeyInput,
    first: char,
    alternate_first: char,
    second: char,
)
    requires
        selected <= 2,
        down.code.kind == KeyCodeKind::Down,
        up.code.kind == KeyCodeKind::Up,
        enter.code.kind == KeyCodeKind::Enter,
    ensures
        spec_confirm_step(selected, down, first, alternate_first, second).0 == (if selected < 2 { selected + 1 } else { 2 }),
        spec_confirm_step(selected, down, first, alternate_first, second).1 is None,
        spec_confirm_step(selected, up, first, alternate_first, second).0 == (if selected > 0 { selected - 1 } else { 0 }),
        spec_confirm_step(selected, up, first, alternate_first, second).1 is None,
        spec_confirm_step(selected, enter, first, alternate_first, second) == (selected, Some(selected)),
        spec_confirm_step(spec_confirm_step(selected, down, first, alternate_first, second).0, enter, first, alternate_first, second).1
            == Some((if selected < 2 { selected + 1 } else { 2 }) as usize),
        spec_dirty_choice(2) == DirtyCloseChoice::Cancel,
        spec_external_choice(2) == ExternalSaveChoice::Cancel,
{
}

} // verus!
