//! How the App carries out lifecycle requests: saving, closing tabs,
//! replacing a tab's document, quitting, and the answers of the
//! confirmations.
//!
//! Each decision takes the facts it needs about the tabs (how many there
//! are, which are modified) and says what to do; the App then does it to
//! its editing sessions.

use vstd::prelude::*;
use crate::confirm::{ConfirmationResolution, DirtyCloseChoice, ExternalSaveChoice};
use crate::lifecycle::{
    clone_option_text, option_text_view, CloseTabRequest, DirtyClosePolicy, LifecycleAction,
    SaveContinuation, SaveRequest,
};
use crate::registry::AppCommand;
use crate::text::{concat, decimal, spec_decimal, to_string};

verus! {

/// How a status message is shown.
#[derive(Debug, Clone, Copy, PartialEq, Eq, Structural)]
pub enum Severity {
    Success,
    Info,
    Warning,
    Error,
}

/// The error for a request whose tab was closed in the meantime (tabs are
/// numbered from one).
pub open spec fn spec_invalid_target(target: nat) -> Seq<char> {
    "Lifecycle target tab "@ + spec_decimal(target + 1) + " no longer exists"@
}

/// The error for a request whose tab was closed in the meantime.
pub fn invalid_target_message(target: usize) -> (r: String)
    requires
        target < usize::MAX,
    ensures
        r@ == spec_invalid_target(target as nat),
{
    let n = decimal(target + 1);
    let a = concat("Lifecycle target tab ", n.as_str());
    concat(a.as_str(), " no longer exists")
}

/// What closing a tab comes to.
#[derive(Debug, Clone, PartialEq, Eq)]
pub enum CloseDecision {
    /// The tab no longer exists: show this error.
    InvalidTarget(String),
    /// Ask whether to save the modified tab first.
    Confirm(CloseTabRequest),
    /// Refuse to close the modified tab: show this error.
    Refuse(String),
    /// Close the tab at this position.
    Close(usize),
}

/// The refusal to close a modified tab without `!`.
pub open spec fn spec_tabclose_refusal() -> Seq<char> {
    "No write since last change (use :tabclose! to override)"@
}

/// Decide a close request: a missing tab is an error; a modified tab is
/// confirmed or refused by the request's policy unless forced; otherwise
/// the tab closes.
pub fn close_tab_decision(request: CloseTabRequest, tab_count: usize, target_dirty: bool) -> (r: CloseDecision)
    requires
        request.target < usize::MAX,
    ensures
        request.target >= tab_count ==> r is InvalidTarget && r->InvalidTarget_0@ == spec_invalid_target(request.target as nat),
        request.target < tab_count && !request.force && target_dirty && request.dirty_policy == DirtyClosePolicy::Confirm
            ==> r == CloseDecision::Confirm(request),
        request.target < tab_count && !request.force && target_dirty && request.dirty_policy == DirtyClosePolicy::Refuse
            ==> r is Refuse && r->Refuse_0@ == spec_tabclose_refusal(),
        request.target < tab_count && (request.force || !target_dirty) ==> r == CloseDecision::Close(request.target),
{
    if request.target >= tab_count {
        return CloseDecision::InvalidTarget(invalid_target_message(request.target));
    }
    if !request.force && target_dirty {
        match request.dirty_policy {
            DirtyClosePolicy::Confirm => CloseDecision::Confirm(request),
            DirtyClosePolicy::Refuse => CloseDecision::Refuse(to_string("No write since last change (use :tabclose! to override)")),
        }
    } else {
        CloseDecision::Close(request.target)
    }
}

/// The refusal to quit with modified tabs.
pub open spec fn spec_quit_all_refusal(dirty_count: nat) -> Seq<char> {
    spec_decimal(dirty_count) + " unsaved tab(s) \u{2014} use :qa! to discard"@
}

/// Decide `:qa`: quit unless some tab is modified and the request is not
/// forced, in which case the error counts the modified tabs.
pub fn quit_all_decision(force: bool, dirty_count: usize) -> (r: Result<(), String>)
    ensures
        (force || dirty_count == 0) ==> r is Ok,
        (!force && dirty_count > 0) ==> r is Err && r->Err_0@ == spec_quit_all_refusal(dirty_count as nat),
{
    if !force && dirty_count > 0 {
        let n = decimal(dirty_count);
        Err(concat(n.as_str(), " unsaved tab(s) \u{2014} use :qa! to discard"))
    } else {
        Ok(())
    }
}

/// How many tabs are modified.
pub fn dirty_count(dirty: &Vec<bool>) -> (r: usize)
    ensures
        r == dirty@.filter(|d: bool| d).len(),
{
    let mut count: usize = 0;
    let mut i: usize = 0;
    while i < dirty.len()
        invariant
            i <= dirty@.len(),
            count == dirty@.subrange(0, i as int).filter(|d: bool| d).len(),
            count <= i,
        decreases dirty@.len() - i,
    {
        proof {
            let s = dirty@.subrange(0, i + 1);
            assert(s.drop_last() =~= dirty@.subrange(0, i as int));
            reveal(Seq::filter);
        }
        if dirty[i] {
            count = count + 1;
        }
        i = i + 1;
    }
    proof {
        assert(dirty@.subrange(0, dirty@.len() as int) =~= dirty@);
    }
    count
}

/// The refusal to replace a modified tab's document without `!`.
pub open spec fn spec_edit_refusal() -> Seq<char> {
    "No write since last change (use :e! to override)"@
}

/// Decide `:e`: refuse (with this error) to replace a modified document
/// unless forced.
pub fn replace_tab_refusal(force: bool, target_dirty: bool) -> (r: Option<String>)
    ensures
        (!force && target_dirty) ==> r is Some && r->Some_0@ == spec_edit_refusal(),
        (force || !target_dirty) ==> r is None,
{
    if !force && target_dirty {
        Some(to_string("No write since last change (use :e! to override)"))
    } else {
        None
    }
}

/// What a confirmation's answer comes to.
#[derive(Debug, Clone, PartialEq, Eq)]
pub enum ConfirmationStep {
    /// Carry out this lifecycle request.
    Lifecycle(LifecycleAction),
    /// Close the tab at this position without saving.
    Close(usize),
    /// The tab no longer exists: show this error.
    InvalidTarget(String),
    /// Reload the tab at `target` from `path`, dropping its changes.
    Reload { target: usize, path: String },
    /// Nothing (the confirmation was cancelled).
    Nothing,
}

/// What a confirmation's answer asks for: save-and-close saves the captured
/// tab and then closes it; discard closes it; overwrite retries the save
/// forced; reload reads the file again; cancel does nothing.
pub fn confirmation_step(resolution: ConfirmationResolution, tab_count: usize) -> (r: ConfirmationStep)
    requires
        resolution matches ConfirmationResolution::DirtyClose { action, .. } ==> action.target < usize::MAX,
    ensures
        match resolution {
            ConfirmationResolution::DirtyClose { action, choice } => match choice {
                DirtyCloseChoice::SaveAndClose => r matches ConfirmationStep::Lifecycle(LifecycleAction::Save(req))
                    && req@ == (action.target, None::<Seq<char>>, false, true, SaveContinuation::CloseSavedTab),
                DirtyCloseChoice::Discard => if action.target < tab_count {
                    r == ConfirmationStep::Close(action.target)
                } else {
                    r is InvalidTarget && r->InvalidTarget_0@ == spec_invalid_target(action.target as nat)
                },
                DirtyCloseChoice::Cancel => r == ConfirmationStep::Nothing,
            },
            ConfirmationResolution::ExternalSave { request, disk_path, choice } => match choice {
                ExternalSaveChoice::Overwrite => r matches ConfirmationStep::Lifecycle(LifecycleAction::Save(req))
                    && req@ == (request.target, option_text_view(request.path), true, request.retarget, request.continuation),
                ExternalSaveChoice::Reload => r matches ConfirmationStep::Reload { target, path }
                    && target == request.target && path@ == disk_path@,
                ExternalSaveChoice::Cancel => r == ConfirmationStep::Nothing,
            },
        },
{
    match resolution {
        ConfirmationResolution::DirtyClose { action, choice } => match choice {
            DirtyCloseChoice::SaveAndClose => ConfirmationStep::Lifecycle(LifecycleAction::Save(SaveRequest {
                target: action.target,
                path: None,
                force: false,
                retarget: true,
                continuation: SaveContinuation::CloseSavedTab,
            })),
            DirtyCloseChoice::Discard => if action.target < tab_count {
                ConfirmationStep::Close(action.target)
            } else {
                ConfirmationStep::InvalidTarget(invalid_target_message(action.target))
            },
            DirtyCloseChoice::Cancel => ConfirmationStep::Nothing,
        },
        ConfirmationResolution::ExternalSave { request, disk_path, choice } => match choice {
            ExternalSaveChoice::Overwrite => ConfirmationStep::Lifecycle(LifecycleAction::Save(SaveRequest {
                target: request.target,
                path: request.path,
                force: true,
                retarget: request.retarget,
                continuation: request.continuation,
            })),
            ExternalSaveChoice::Reload => ConfirmationStep::Reload { target: request.target, path: disk_path },
            ExternalSaveChoice::Cancel => ConfirmationStep::Nothing,
        },
    }
}

/// The lifecycle request behind an App command, if it has one: Save saves
/// the active tab in place, Quit closes it (confirming if modified).
pub fn command_lifecycle(command: AppCommand, active_tab: usize) -> (r: Option<LifecycleAction>)
    ensures
        command == AppCommand::Save ==> (r matches Some(LifecycleAction::Save(req))
            && req@ == (active_tab, None::<Seq<char>>, false, true, SaveContinuation::StayOpen)),
        command == AppCommand::Quit ==> r == Some(LifecycleAction::CloseTab(
            CloseTabRequest { target: active_tab, force: false, dirty_policy: DirtyClosePolicy::Confirm },
        )),
        command != AppCommand::Save && command != AppCommand::Quit ==> r is None,
{
    match command {
        AppCommand::Save => Some(LifecycleAction::Save(SaveRequest {
            target: active_tab,
            path: None,
            force: false,
            retarget: true,
            continuation: SaveContinuation::StayOpen,
        })),
        AppCommand::Quit => Some(LifecycleAction::CloseTab(CloseTabRequest {
            target: active_tab,
            force: false,
            dirty_policy: DirtyClosePolicy::Confirm,
        })),
        _ => None,
    }
}

/// The lifecycle requests an editing session can raise.
#[derive(Debug, Clone, PartialEq, Eq)]
pub enum LifecycleEffect {
    /// `:w`, `:w path`, `:saveas path`, `:wq`...
    SaveRequested { path: Option<String>, force: bool, retarget: bool, then_quit: bool },
    /// `:q`, `:q!`.
    QuitRequested { force: bool },
    /// `:e path`, `:e! path`.
    OpenRequested { path: String, force: bool },
    /// `:tabnew path`.
    TabNewRequested { path: String },
    /// `:tabclose [N]` (a zero-based position), `:tabclose!`.
    TabCloseRequested { index: Option<usize>, force: bool },
    /// `:qa`, `:qa!`.
    QuitAllRequested { force: bool },
}

/// The lifecycle request for a session's effect, aimed at the active tab
/// unless the effect names another: `:q` confirms a modified tab while
/// `:tabclose` refuses it.
pub fn effect_lifecycle(effect: LifecycleEffect, active_tab: usize) -> (r: LifecycleAction)
    ensures
        match effect {
            LifecycleEffect::SaveRequested { path, force, retarget, then_quit } => r matches LifecycleAction::Save(req)
                && req@ == (active_tab, option_text_view(path), force, retarget,
                    if then_quit { SaveContinuation::CloseSavedTab } else { SaveContinuation::StayOpen }),
            LifecycleEffect::QuitRequested { force } => r == LifecycleAction::CloseTab(
                CloseTabRequest { target: active_tab, force, dirty_policy: DirtyClosePolicy::Confirm },
            ),
            LifecycleEffect::OpenRequested { path, force } => r matches LifecycleAction::ReplaceTab { target, path: p, force: f }
                && target == active_tab && p@ == path@ && f == force,
            LifecycleEffect::TabNewRequested { path } => r matches LifecycleAction::OpenTab { path: p } && p@ == path@,
            LifecycleEffect::TabCloseRequested { index, force } => r == LifecycleAction::CloseTab(
                CloseTabRequest {
                    target: match index { Some(i) => i, None => active_tab },
                    force,
                    dirty_policy: DirtyClosePolicy::Refuse,
                },
            ),
            LifecycleEffect::QuitAllRequested { force } => r == LifecycleAction::QuitAll { force },
        },
{
    match effect {
        LifecycleEffect::SaveRequested { path, force, retarget, then_quit } => LifecycleAction::Save(SaveRequest {
            target: active_tab,
            path,
            force,
            retarget,
            continuation: if then_quit { SaveContinuation::CloseSavedTab } else { SaveContinuation::StayOpen },
        }),
        LifecycleEffect::QuitRequested { force } => LifecycleAction::CloseTab(CloseTabRequest {
            target: active_tab,
            force,
            dirty_policy: DirtyClosePolicy::Confirm,
        }),
        LifecycleEffect::OpenRequested { path, force } => LifecycleAction::ReplaceTab { target: active_tab, path, force },
        LifecycleEffect::TabNewRequested { path } => LifecycleAction::OpenTab { path },
        LifecycleEffect::TabCloseRequested { index, force } => LifecycleAction::CloseTab(CloseTabRequest {
            target: match index {
                Some(i) => i,
                None => active_tab,
            },
            force,
            dirty_policy: DirtyClosePolicy::Refuse,
        }),
        LifecycleEffect::QuitAllRequested { force } => LifecycleAction::QuitAll { force },
    }
}

/// How a save request writes.
#[derive(Debug, Clone, PartialEq, Eq)]
pub enum SaveMode {
    /// Write a copy to this path; the tab keeps its own file.
    Copy(String),
    /// Save the tab (to `path` when given, retargeting it), forced or not.
    InPlace { path: Option<String>, force: bool },
}

/// A save with a path that does not retarget the tab writes a copy;
/// anything else saves the tab itself.
pub fn save_mode(request: &SaveRequest) -> (r: SaveMode)
    ensures
        match request.path {
            Some(p) => if !request.retarget {
                r matches SaveMode::Copy(c) && c@ == p@
            } else {
                r matches SaveMode::InPlace { path, force } && option_text_view(path) == Some(p@) && force == request.force
            },
            None => r matches SaveMode::InPlace { path, force } && path is None && force == request.force,
        },
{
    match &request.path {
        Some(p) => if !request.retarget {
            SaveMode::Copy(p.clone())
        } else {
            SaveMode::InPlace { path: Some(p.clone()), force: request.force }
        },
        None => SaveMode::InPlace { path: None, force: request.force },
    }
}

/// How a save went.
#[derive(Debug, Clone, PartialEq, Eq)]
pub enum SaveOutcome {
    /// Written; the tab's file name (if it has a file) and line count.
    Saved { file_name: Option<String>, line_count: usize },
    /// The file changed on disk since it was read; the error's text.
    ExternallyModified { path: String, error: String },
    /// Any other failure, with its text.
    Failed(String),
}

/// What follows a save.
#[derive(Debug, Clone, PartialEq, Eq)]
pub enum SaveFollowUp {
    /// Report success; mark the document saved when `save_point`; close
    /// the saved tab when asked to.
    Saved { save_point: bool, message: String, close_target: Option<usize> },
    /// Warn with `message` and ask whether to overwrite or reload.
    ConfirmOverwrite { message: String, request: SaveRequest, disk_path: String },
    /// Report the error.
    Failed(String),
}

/// The success report of a save.
pub open spec fn spec_saved_message(file_name: Option<Seq<char>>, line_count: nat) -> Seq<char> {
    "Saved "@ + (match file_name { Some(f) => f, None => "buffer"@ }) + " ("@ + spec_decimal(line_count) + " lines)"@
}

/// What follows a save: on success the saved state is recorded when the
/// tab was saved to its own file, and the tab closes if the request said
/// so; a file changed on disk asks for confirmation unless the save was
/// forced; other errors are reported.
pub fn save_follow_up(request: SaveRequest, outcome: SaveOutcome) -> (r: SaveFollowUp)
    ensures
        match outcome {
            SaveOutcome::Saved { file_name, line_count } => r matches SaveFollowUp::Saved { save_point, message, close_target }
                && save_point == (request.retarget || request.path is None)
                && message@ == spec_saved_message(option_text_view(file_name), line_count as nat)
                && close_target == (if request.continuation == SaveContinuation::CloseSavedTab { Some(request.target) } else { None }),
            SaveOutcome::ExternallyModified { path, error } => if !request.force {
                r matches SaveFollowUp::ConfirmOverwrite { message, request: req, disk_path }
                    && message@ == "File modified on disk: "@ + path@ && req@ == request@ && disk_path@ == path@
            } else {
                r matches SaveFollowUp::Failed(m) && m@ == "Save error: "@ + error@
            },
            SaveOutcome::Failed(error) => r matches SaveFollowUp::Failed(m) && m@ == "Save error: "@ + error@,
        },
{
    match outcome {
        SaveOutcome::Saved { file_name, line_count } => {
            let save_point = request.retarget || request.path.is_none();
            let name = match file_name {
                Some(f) => f,
                None => to_string("buffer"),
            };
            let a = concat("Saved ", name.as_str());
            let b = concat(a.as_str(), " (");
            let n = decimal(line_count);
            let c = concat(b.as_str(), n.as_str());
            let message = concat(c.as_str(), " lines)");
            proof {
                assert(message@ =~= spec_saved_message(option_text_view(file_name), line_count as nat));
            }
            let close_target = match request.continuation {
                SaveContinuation::CloseSavedTab => Some(request.target),
                SaveContinuation::StayOpen => None,
            };
            SaveFollowUp::Saved { save_point, message, close_target }
        },
        SaveOutcome::ExternallyModified { path, error } => if !request.force {
            let message = concat("File modified on disk: ", path.as_str());
            let req = request.duplicate();
            SaveFollowUp::ConfirmOverwrite { message, request: req, disk_path: path }
        } else {
            SaveFollowUp::Failed(concat("Save error: ", error.as_str()))
        },
        SaveOutcome::Failed(error) => SaveFollowUp::Failed(concat("Save error: ", error.as_str())),
    }
}

/// What became of a request to add a word to the personal dictionary.
#[derive(Debug, Clone, PartialEq, Eq)]
pub enum AddWordResult {
    /// The diagnostic no longer matches the document.
    Stale,
    /// Added, in this normalized form.
    Inserted(String),
    /// Already there, in this normalized form.
    AlreadyPresent(String),
    /// The word cannot go into the dictionary.
    Ignored,
    /// Saving the dictionary failed, with this error text.
    Failed(String),
}

/// The report of an add-word request, and whether the suggestion overlay
/// may close (only when the word is now in the dictionary).
pub fn add_word_report(result: AddWordResult) -> (r: (String, Severity, bool))
    ensures
        match result {
            AddWordResult::Stale => r.0@ == "spelling diagnostic is stale; word was not added"@ && r.1 == Severity::Warning && !r.2,
            AddWordResult::Inserted(w) => r.0@ == "added '"@ + w@ + "' to personal dictionary"@ && r.1 == Severity::Info && r.2,
            AddWordResult::AlreadyPresent(w) => r.0@ == "'"@ + w@ + "' is already in the personal dictionary"@ && r.1 == Severity::Info && r.2,
            AddWordResult::Ignored => r.0@ == "word is not eligible for the personal dictionary"@ && r.1 == Severity::Warning && !r.2,
            AddWordResult::Failed(e) => r.0@ == "failed to add word: "@ + e@ && r.1 == Severity::Warning && !r.2,
        },
{
    match result {
        AddWordResult::Stale => (to_string("spelling diagnostic is stale; word was not added"), Severity::Warning, false),
        AddWordResult::Inserted(w) => {
            let a = concat("added '", w.as_str());
            (concat(a.as_str(), "' to personal dictionary"), Severity::Info, true)
        },
        AddWordResult::AlreadyPresent(w) => {
            let a = concat("'", w.as_str());
            (concat(a.as_str(), "' is already in the personal dictionary"), Severity::Info, true)
        },
        AddWordResult::Ignored => (to_string("word is not eligible for the personal dictionary"), Severity::Warning, false),
        AddWordResult::Failed(e) => (concat("failed to add word: ", e.as_str()), Severity::Warning, false),
    }
}

/// The Trouble modal's progress line: complete when spelling is off;
/// otherwise unavailable with the host's reason, pending while the engine
/// builds or the document is being checked, else complete.
pub fn trouble_progress(
    spell_enabled: bool,
    unavailable_reason: Option<String>,
    engine_ready: bool,
    diagnostics_pending: bool,
) -> (r: crate::trouble::TroubleProgress)
    ensures
        !spell_enabled ==> r == crate::trouble::TroubleProgress::Complete,
        spell_enabled && unavailable_reason is Some ==> (r is Unavailable && r->Unavailable_0@ == unavailable_reason->Some_0@),
        spell_enabled && unavailable_reason is None && (!engine_ready || diagnostics_pending) ==> r == crate::trouble::TroubleProgress::Pending,
        spell_enabled && unavailable_reason is None && engine_ready && !diagnostics_pending ==> r == crate::trouble::TroubleProgress::Complete,
{
    if !spell_enabled {
        crate::trouble::TroubleProgress::Complete
    } else {
        match unavailable_reason {
            Some(reason) => crate::trouble::TroubleProgress::Unavailable(reason),
            None => if !engine_ready || diagnostics_pending {
                crate::trouble::TroubleProgress::Pending
            } else {
                crate::trouble::TroubleProgress::Complete
            },
        }
    }
}

/// Why a Trouble jump did not happen: the row no longer matches the
/// document, or the session refused the jump with this error.
pub fn trouble_jump_warning(error: Option<String>) -> (r: String)
    ensures
        match error {
            Some(e) => r@ == "selected diagnostic is stale: "@ + e@,
            None => r@ == "selected diagnostic is stale; jump cancelled"@,
        },
{
    match error {
        Some(e) => concat("selected diagnostic is stale: ", e.as_str()),
        None => to_string("selected diagnostic is stale; jump cancelled"),
    }
}

/// The report of opening a file into a tab (or reloading it): the result's
/// error text on failure.
pub fn open_report(path: &str, result: Result<(), String>, reloading: bool) -> (r: (String, Severity))
    ensures
        match result {
            Ok(()) => r.1 == Severity::Info && r.0@ == (if reloading { "Reloaded from disk"@ } else { "Opened: "@ + path@ }),
            Err(e) => r.1 == Severity::Error && r.0@ == (if reloading { "Reload"@ } else { "Open"@ }) + " error: "@ + e@,
        },
{
    match result {
        Ok(()) => if reloading {
            (to_string("Reloaded from disk"), Severity::Info)
        } else {
            (concat("Opened: ", path), Severity::Info)
        },
        Err(e) => {
            let head = if reloading { concat("Reload", " error: ") } else { concat("Open", " error: ") };
            (concat(head.as_str(), e.as_str()), Severity::Error)
        },
    }
}

/// The report of a clipboard copy: the error text on failure.
pub fn clipboard_report(error: Option<String>) -> (r: (String, Severity))
    ensures
        match error {
            Some(e) => r.0@ == "Clipboard error: "@ + e@ && r.1 == Severity::Warning,
            None => r.0@ == "yanked to register"@ && r.1 == Severity::Info,
        },
{
    match error {
        Some(e) => (concat("Clipboard error: ", e.as_str()), Severity::Warning),
        None => (to_string("yanked to register"), Severity::Info),
    }
}

/// The report of `:set wrap` / `:set nowrap`, shown as information.
pub fn wrap_report(enabled: bool) -> (r: (String, Severity))
    ensures
        r.0@ == (if enabled { "wrap"@ } else { "nowrap"@ }),
        r.1 == Severity::Info,
{
    (if enabled { to_string("wrap") } else { to_string("nowrap") }, Severity::Info)
}

/// The report of toggling spell checking, shown as information.
pub fn spell_toggle_report(enabled: bool) -> (r: (String, Severity))
    ensures
        r.0@ == (if enabled { "spell checking enabled"@ } else { "spell checking disabled"@ }),
        r.1 == Severity::Info,
{
    let text = if enabled {
        to_string("spell checking enabled")
    } else {
        to_string("spell checking disabled")
    };
    (text, Severity::Info)
}

/// The report of switching themes, shown as information; the monochrome
/// theme says so.
pub fn theme_report(next: &str) -> (r: (String, Severity))
    ensures
        r.0@ == (if next@ == "accessible"@ { "theme: accessible (monochrome)"@ } else { "theme: "@ + next@ }),
        r.1 == Severity::Info,
{
    let accessible = to_string("accessible");
    let text = if text_equals(next, accessible.as_str()) {
        to_string("theme: accessible (monochrome)")
    } else {
        concat("theme: ", next)
    };
    (text, Severity::Info)
}

/// Whether two texts are equal.
fn text_equals(a: &str, b: &str) -> (r: bool)
    ensures
        r == (a@ == b@),
{
    let n = a.unicode_len();
    if n != b.unicode_len() {
        return false;
    }
    let mut i: usize = 0;
    while i < n
        invariant
            n == a@.len(),
            n == b@.len(),
            i <= n,
            forall|k: int| 0 <= k < i ==> a@[k] == b@[k],
        decreases n - i,
    {
        if a.get_char(i) != b.get_char(i) {
            return false;
        }
        i = i + 1;
    }
    proof {
        assert(a@ =~= b@);
    }
    true
}

} // verus!
