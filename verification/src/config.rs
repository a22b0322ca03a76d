//! Configuration values and the atomic save procedure.
//!
//! The config has `[theme]` and `[editor]` sections; missing keys take their
//! defaults. Saving is atomic: create the directory, make every new directory
//! entry durable bottom-up, then write a temporary file, sync it, rename it
//! over the config file and sync the containing directory. The steps are
//! decided here one at a time; the program performs each file-system step
//! and reports back how it went.

use vstd::prelude::*;
use crate::text::{concat, to_string};

verus! {

/// The `[editor]` section of the config.
#[derive(Debug, Clone, PartialEq, Eq)]
pub struct EditorConfig {
    /// Whether long source lines wrap. Defaults to `true`.
    pub wrap: bool,
}

/// The `[theme]` section of the config.
#[derive(Debug, Clone, PartialEq, Eq)]
pub struct ThemeConfig {
    /// Display mode override: `"light"` or `"dark"`; `None` lets the editor
    /// guess from the terminal (or default to dark).
    pub mode: Option<String>,
    /// Theme name for dark mode. Defaults to `"default-dark"`.
    pub dark: String,
    /// Theme name for light mode. Defaults to `"default-light"`.
    pub light: String,
}

/// Configuration loaded from disk (or defaults if missing or malformed).
#[derive(Debug, Clone, PartialEq, Eq)]
pub struct Config {
    pub theme: ThemeConfig,
    pub editor: EditorConfig,
}

/// The default of `[editor] wrap`.
pub fn default_wrap() -> (r: bool)
    ensures
        r,
{
    true
}

/// The default dark theme name.
pub fn default_dark() -> (r: String)
    ensures
        r@ == "default-dark"@,
{
    to_string("default-dark")
}

/// The default light theme name.
pub fn default_light() -> (r: String)
    ensures
        r@ == "default-light"@,
{
    to_string("default-light")
}

impl Default for EditorConfig {
    fn default() -> (r: Self)
        ensures
            r.wrap,
    {
        EditorConfig { wrap: default_wrap() }
    }
}

impl Default for ThemeConfig {
    fn default() -> (r: Self)
        ensures
            r.mode is None,
            r.dark@ == "default-dark"@,
            r.light@ == "default-light"@,
    {
        ThemeConfig { mode: None, dark: default_dark(), light: default_light() }
    }
}

impl Default for Config {
    fn default() -> (r: Self)
        ensures
            r.theme.mode is None,
            r.theme.dark@ == "default-dark"@,
            r.theme.light@ == "default-light"@,
            r.editor.wrap,
    {
        Config { theme: ThemeConfig::default(), editor: EditorConfig::default() }
    }
}

impl Config {
    /// Record the theme chosen for the current display mode: the light slot
    /// in light mode, the dark slot otherwise. The other slot, the mode
    /// override and the editor section are kept.
    pub fn set_theme_for_mode(&mut self, is_light: bool, name: String)
        ensures
            is_light ==> final(self).theme.light@ == name@ && final(self).theme.dark@ == old(self).theme.dark@,
            !is_light ==> final(self).theme.dark@ == name@ && final(self).theme.light@ == old(self).theme.light@,
            final(self).theme.mode == old(self).theme.mode,
            final(self).editor == old(self).editor,
    {
        if is_light {
            self.theme.light = name;
        } else {
            self.theme.dark = name;
        }
    }
}

/// The path without its final component, as std's `Path::parent` computes it
/// on the target's path rules.
pub uninterp spec fn spec_path_parent(p: Seq<char>) -> Option<Seq<char>>;

/// The path with its extension replaced, as std's `Path::with_extension`
/// computes it on the target's path rules.
pub uninterp spec fn spec_with_extension(p: Seq<char>, ext: Seq<char>) -> Seq<char>;

/// Whether two paths have the same components, as std's `Path` equality
/// decides it on the target's path rules.
pub uninterp spec fn spec_path_eq(a: Seq<char>, b: Seq<char>) -> bool;

/// The parent of a path.
///
/// Trusted: calls `std::path::Path::parent`; the result is named
/// `spec_path_parent` of the path's characters (std derives it from the
/// text alone). A parent of a UTF-8 path is a prefix of it, so converting
/// it back to a string loses nothing.
#[verifier::external_body]
fn path_parent(p: &str) -> (r: Option<String>)
    ensures
        opt_text(r) == spec_path_parent(p@),
{
    match std::path::Path::new(p).parent() {
        Some(q) => Some(q.to_string_lossy().into_owned()),
        None => None,
    }
}

/// The path with another extension.
///
/// Trusted: calls `std::path::Path::with_extension`; the result is named
/// `spec_with_extension` of the path and the extension (std derives it from
/// the two texts alone; both are UTF-8, so the result converts losslessly).
/// std panics when the extension holds a path separator, which the
/// requirement leaves out.
#[verifier::external_body]
fn path_with_extension(p: &str, ext: &str) -> (r: String)
    requires
        forall|i: int| 0 <= i < ext@.len() ==> ext@[i] != '/' && ext@[i] != '\\',
    ensures
        r@ == spec_with_extension(p@, ext@),
{
    std::path::Path::new(p).with_extension(ext).to_string_lossy().into_owned()
}

/// Whether two paths are equal as paths.
///
/// Trusted: calls `==` on two `std::path::Path`s (component-wise equality);
/// the result is named `spec_path_eq` of the two texts.
#[verifier::external_body]
fn path_eq(a: &str, b: &str) -> (r: bool)
    ensures
        r == spec_path_eq(a@, b@),
{
    std::path::Path::new(a) == std::path::Path::new(b)
}

/// The view of an optional string.
pub open spec fn opt_text(o: Option<String>) -> Option<Seq<char>> {
    match o {
        Some(s) => Some(s@),
        None => None,
    }
}

/// A parent as a directory to work in: an empty parent (a bare file or
/// directory name) means the current directory `.`; none stays none.
pub open spec fn spec_directory_or_current(parent: Option<Seq<char>>) -> Option<Seq<char>> {
    match parent {
        Some(q) => Some(if q.len() > 0 { q } else { "."@ }),
        None => None,
    }
}

/// The directory that holds a file: its parent, or `.` when the parent is
/// empty or missing.
pub open spec fn spec_parent_directory(p: Seq<char>) -> Seq<char> {
    match spec_directory_or_current(spec_path_parent(p)) {
        Some(d) => d,
        None => "."@,
    }
}

/// The directory that contains a directory: its parent (`.` when empty), or
/// none at a root.
pub open spec fn spec_containing_directory(p: Seq<char>) -> Option<Seq<char>> {
    spec_directory_or_current(spec_path_parent(p))
}

/// A parent path as a directory to work in: an empty parent means the
/// current directory `.`; none stays none.
pub fn directory_or_current(parent: Option<String>) -> (r: Option<String>)
    ensures
        opt_text(r) == spec_directory_or_current(opt_text(parent)),
{
    match parent {
        Some(q) => if q.as_str().unicode_len() > 0 {
            Some(q)
        } else {
            Some(to_string("."))
        },
        None => None,
    }
}

/// The directory that holds a file.
pub fn parent_directory(path: &str) -> (r: String)
    ensures
        r@ == spec_parent_directory(path@),
{
    match directory_or_current(path_parent(path)) {
        Some(d) => d,
        None => to_string("."),
    }
}

/// The directory that contains a directory, or `None` at a root.
pub fn containing_directory(path: &str) -> (r: Option<String>)
    ensures
        opt_text(r) == spec_containing_directory(path@),
{
    directory_or_current(path_parent(path))
}

/// One file-system step of a save.
#[derive(Debug, Clone, PartialEq, Eq)]
pub enum ConfigSaveOp {
    /// Create a directory and its missing ancestors.
    CreateDirAll(String),
    /// Open a directory read-only, to sync it next.
    OpenParentReadOnly(String),
    /// Sync the directory opened by the previous step.
    SyncParent,
    /// Serialize the config to TOML.
    Serialize,
    /// Write the serialized config to this (temporary) file.
    Write(String),
    /// Sync this file's contents to disk.
    SyncFile(String),
    /// Rename the first path over the second.
    Rename(String, String),
}

/// What the save asks for next.
#[derive(Debug, PartialEq, Eq)]
pub enum ConfigSaveAction {
    /// Perform this step and report its outcome.
    Perform(ConfigSaveOp),
    /// The save is over, with this result.
    Finish(Result<(), String>),
}

/// Where a save stands: the step whose outcome is awaited.
#[derive(Debug, Clone, PartialEq, Eq)]
pub enum SavePhase {
    CreateDirectories,
    OpenAncestor(String),
    SyncAncestor(String),
    Serialize,
    Write,
    SyncFile,
    Rename,
    OpenParent,
    SyncParent,
    Finished,
}

/// Plain-value form of a save step.
pub ghost enum SaveOpView {
    CreateDirAll(Seq<char>),
    OpenParentReadOnly(Seq<char>),
    SyncParent,
    Serialize,
    Write(Seq<char>),
    SyncFile(Seq<char>),
    Rename(Seq<char>, Seq<char>),
}

/// Plain-value form of a save action.
pub ghost enum SaveActionView {
    Perform(SaveOpView),
    Finish(Result<(), Seq<char>>),
}

/// Plain-value form of a save phase.
pub ghost enum SavePhaseView {
    CreateDirectories,
    OpenAncestor(Seq<char>),
    SyncAncestor(Seq<char>),
    Serialize,
    Write,
    SyncFile,
    Rename,
    OpenParent,
    SyncParent,
    Finished,
}

impl View for ConfigSaveOp {
    type V = SaveOpView;

    open spec fn view(&self) -> SaveOpView {
        match self {
            ConfigSaveOp::CreateDirAll(p) => SaveOpView::CreateDirAll(p@),
            ConfigSaveOp::OpenParentReadOnly(p) => SaveOpView::OpenParentReadOnly(p@),
            ConfigSaveOp::SyncParent => SaveOpView::SyncParent,
            ConfigSaveOp::Serialize => SaveOpView::Serialize,
            ConfigSaveOp::Write(p) => SaveOpView::Write(p@),
            ConfigSaveOp::SyncFile(p) => SaveOpView::SyncFile(p@),
            ConfigSaveOp::Rename(a, b) => SaveOpView::Rename(a@, b@),
        }
    }
}

/// The plain-value form of a step outcome.
pub open spec fn outcome_view(r: Result<(), String>) -> Result<(), Seq<char>> {
    match r {
        Ok(()) => Ok(()),
        Err(e) => Err(e@),
    }
}

impl View for ConfigSaveAction {
    type V = SaveActionView;

    open spec fn view(&self) -> SaveActionView {
        match self {
            ConfigSaveAction::Perform(op) => SaveActionView::Perform(op@),
            ConfigSaveAction::Finish(r) => SaveActionView::Finish(outcome_view(*r)),
        }
    }
}

impl View for SavePhase {
    type V = SavePhaseView;

    open spec fn view(&self) -> SavePhaseView {
        match self {
            SavePhase::CreateDirectories => SavePhaseView::CreateDirectories,
            SavePhase::OpenAncestor(p) => SavePhaseView::OpenAncestor(p@),
            SavePhase::SyncAncestor(p) => SavePhaseView::SyncAncestor(p@),
            SavePhase::Serialize => SavePhaseView::Serialize,
            SavePhase::Write => SavePhaseView::Write,
            SavePhase::SyncFile => SavePhaseView::SyncFile,
            SavePhase::Rename => SavePhaseView::Rename,
            SavePhase::OpenParent => SavePhaseView::OpenParent,
            SavePhase::SyncParent => SavePhaseView::SyncParent,
            SavePhase::Finished => SavePhaseView::Finished,
        }
    }
}

/// The temporary file a save writes before renaming it into place.
pub open spec fn spec_temp_path(path: Seq<char>) -> Seq<char> {
    spec_with_extension(path, "toml.tmp"@)
}

/// The first directory whose entry is made durable after creating `parent`.
pub open spec fn spec_first_ancestor(parent: Seq<char>) -> Seq<char> {
    match spec_containing_directory(parent) {
        Some(a) => a,
        None => parent,
    }
}

/// A failed save, with the failing step's message and the cause.
pub open spec fn spec_failed(prefix: Seq<char>, cause: Seq<char>) -> (SavePhaseView, SaveActionView) {
    (SavePhaseView::Finished, SaveActionView::Finish(Err(prefix + cause)))
}

/// The next phase and action of a save of `path` in `phase`, given the
/// outcome of the step it awaited.
pub open spec fn spec_save_step(
    phase: SavePhaseView,
    path: Seq<char>,
    outcome: Result<(), Seq<char>>,
) -> (SavePhaseView, SaveActionView) {
    let parent = spec_parent_directory(path);
    let temp = spec_temp_path(path);
    match phase {
        SavePhaseView::CreateDirectories => match outcome {
            Err(e) => spec_failed("failed to create config directory '"@ + parent + "': "@, e),
            Ok(()) => {
                let a = spec_first_ancestor(parent);
                (SavePhaseView::OpenAncestor(a), SaveActionView::Perform(SaveOpView::OpenParentReadOnly(a)))
            },
        },
        SavePhaseView::OpenAncestor(a) => match outcome {
            Err(e) => spec_failed("failed to open config directory: "@, e),
            Ok(()) => (SavePhaseView::SyncAncestor(a), SaveActionView::Perform(SaveOpView::SyncParent)),
        },
        SavePhaseView::SyncAncestor(a) => match outcome {
            Err(e) => spec_failed("failed to sync config directory: "@, e),
            Ok(()) => match spec_containing_directory(a) {
                Some(next) => if !spec_path_eq(next, a) {
                    (SavePhaseView::OpenAncestor(next), SaveActionView::Perform(SaveOpView::OpenParentReadOnly(next)))
                } else {
                    (SavePhaseView::Serialize, SaveActionView::Perform(SaveOpView::Serialize))
                },
                None => (SavePhaseView::Serialize, SaveActionView::Perform(SaveOpView::Serialize)),
            },
        },
        SavePhaseView::Serialize => match outcome {
            Err(e) => spec_failed("failed to serialize config: "@, e),
            Ok(()) => (SavePhaseView::Write, SaveActionView::Perform(SaveOpView::Write(temp))),
        },
        SavePhaseView::Write => match outcome {
            Err(e) => spec_failed("failed to write config file: "@, e),
            Ok(()) => (SavePhaseView::SyncFile, SaveActionView::Perform(SaveOpView::SyncFile(temp))),
        },
        SavePhaseView::SyncFile => match outcome {
            Err(e) => spec_failed("failed to sync config file: "@, e),
            Ok(()) => (SavePhaseView::Rename, SaveActionView::Perform(SaveOpView::Rename(temp, path))),
        },
        SavePhaseView::Rename => match outcome {
            Err(e) => spec_failed("failed to rename config file: "@, e),
            Ok(()) => (SavePhaseView::OpenParent, SaveActionView::Perform(SaveOpView::OpenParentReadOnly(parent))),
        },
        SavePhaseView::OpenParent => match outcome {
            Err(e) => spec_failed("failed to open config directory: "@, e),
            Ok(()) => (SavePhaseView::SyncParent, SaveActionView::Perform(SaveOpView::SyncParent)),
        },
        SavePhaseView::SyncParent => match outcome {
            Err(e) => spec_failed("failed to sync config directory: "@, e),
            Ok(()) => (SavePhaseView::Finished, SaveActionView::Finish(Ok(()))),
        },
        SavePhaseView::Finished => (SavePhaseView::Finished, SaveActionView::Finish(Ok(()))),
    }
}

/// An atomic save of the config file at a path, one step at a time.
pub struct ConfigSave {
    path: String,
    phase: SavePhase,
}

impl ConfigSave {
    /// The config file being saved.
    pub closed spec fn spec_path(self) -> Seq<char> {
        self.path@
    }

    /// The step whose outcome the save awaits.
    pub closed spec fn spec_phase(self) -> SavePhaseView {
        self.phase@
    }

    /// Whether the save is over.
    pub fn is_finished(&self) -> (r: bool)
        ensures
            r == (self.spec_phase() == SavePhaseView::Finished),
    {
        match self.phase {
            SavePhase::Finished => true,
            _ => false,
        }
    }

    /// Start saving to `path`: the first step creates the directory that
    /// holds the file.
    pub fn start(path: &str) -> (r: (ConfigSave, ConfigSaveOp))
        ensures
            r.0.spec_path() == path@,
            r.0.spec_phase() == SavePhaseView::CreateDirectories,
            r.1@ == SaveOpView::CreateDirAll(spec_parent_directory(path@)),
    {
        let parent = parent_directory(path);
        (ConfigSave { path: to_string(path), phase: SavePhase::CreateDirectories }, ConfigSaveOp::CreateDirAll(parent))
    }

    /// Decide what follows the awaited step, given its outcome (`Err` holds
    /// the cause's message). Any failure ends the save with an error naming
    /// the failing step; nothing is written before every directory entry is
    /// durable.
    pub fn step(&mut self, outcome: Result<(), String>) -> (r: ConfigSaveAction)
        requires
            old(self).spec_phase() != SavePhaseView::Finished,
        ensures
            final(self).spec_path() == old(self).spec_path(),
            (final(self).spec_phase(), r@) == spec_save_step(old(self).spec_phase(), old(self).spec_path(), outcome_view(outcome)),
            outcome is Err ==> final(self).spec_phase() == SavePhaseView::Finished && r@ is Finish && r@->Finish_0 is Err,
    {
        let parent = parent_directory(self.path.as_str());
        let (phase, action) = match &self.phase {
            SavePhase::CreateDirectories => match outcome {
                Err(e) => {
                    let a = concat("failed to create config directory '", parent.as_str());
                    let b = concat(a.as_str(), "': ");
                    let m = concat(b.as_str(), e.as_str());
                    (SavePhase::Finished, ConfigSaveAction::Finish(Err(m)))
                },
                Ok(()) => {
                    let a = match containing_directory(parent.as_str()) {
                        Some(a) => a,
                        None => parent,
                    };
                    let a2 = a.clone();
                    (SavePhase::OpenAncestor(a), ConfigSaveAction::Perform(ConfigSaveOp::OpenParentReadOnly(a2)))
                },
            },
            SavePhase::OpenAncestor(a) => match outcome {
                Err(e) => (SavePhase::Finished, ConfigSaveAction::Finish(Err(concat("failed to open config directory: ", e.as_str())))),
                Ok(()) => (SavePhase::SyncAncestor(a.clone()), ConfigSaveAction::Perform(ConfigSaveOp::SyncParent)),
            },
            SavePhase::SyncAncestor(a) => match outcome {
                Err(e) => (SavePhase::Finished, ConfigSaveAction::Finish(Err(concat("failed to sync config directory: ", e.as_str())))),
                Ok(()) => match containing_directory(a.as_str()) {
                    Some(next) => if !path_eq(next.as_str(), a.as_str()) {
                        let n2 = next.clone();
                        (SavePhase::OpenAncestor(next), ConfigSaveAction::Perform(ConfigSaveOp::OpenParentReadOnly(n2)))
                    } else {
                        (SavePhase::Serialize, ConfigSaveAction::Perform(ConfigSaveOp::Serialize))
                    },
                    None => (SavePhase::Serialize, ConfigSaveAction::Perform(ConfigSaveOp::Serialize)),
                },
            },
            SavePhase::Serialize => match outcome {
                Err(e) => (SavePhase::Finished, ConfigSaveAction::Finish(Err(concat("failed to serialize config: ", e.as_str())))),
                Ok(()) => {
                    proof {
                        reveal_strlit("toml.tmp");
                    }
                    let temp = path_with_extension(self.path.as_str(), "toml.tmp");
                    (SavePhase::Write, ConfigSaveAction::Perform(ConfigSaveOp::Write(temp)))
                },
            },
            SavePhase::Write => match outcome {
                Err(e) => (SavePhase::Finished, ConfigSaveAction::Finish(Err(concat("failed to write config file: ", e.as_str())))),
                Ok(()) => {
                    proof {
                        reveal_strlit("toml.tmp");
                    }
                    let temp = path_with_extension(self.path.as_str(), "toml.tmp");
                    (SavePhase::SyncFile, ConfigSaveAction::Perform(ConfigSaveOp::SyncFile(temp)))
                },
            },
            SavePhase::SyncFile => match outcome {
                Err(e) => (SavePhase::Finished, ConfigSaveAction::Finish(Err(concat("failed to sync config file: ", e.as_str())))),
                Ok(()) => {
                    proof {
                        reveal_strlit("toml.tmp");
                    }
                    let temp = path_with_extension(self.path.as_str(), "toml.tmp");
                    (SavePhase::Rename, ConfigSaveAction::Perform(ConfigSaveOp::Rename(temp, self.path.clone())))
                },
            },
            SavePhase::Rename => match outcome {
                Err(e) => (SavePhase::Finished, ConfigSaveAction::Finish(Err(concat("failed to rename config file: ", e.as_str())))),
                Ok(()) => (SavePhase::OpenParent, ConfigSaveAction::Perform(ConfigSaveOp::OpenParentReadOnly(parent))),
            },
            SavePhase::OpenParent => match outcome {
                Err(e) => (SavePhase::Finished, ConfigSaveAction::Finish(Err(concat("failed to open config directory: ", e.as_str())))),
                Ok(()) => (SavePhase::SyncParent, ConfigSaveAction::Perform(ConfigSaveOp::SyncParent)),
            },
            SavePhase::SyncParent => match outcome {
                Err(e) => (SavePhase::Finished, ConfigSaveAction::Finish(Err(concat("failed to sync config directory: ", e.as_str())))),
                Ok(()) => (SavePhase::Finished, ConfigSaveAction::Finish(Ok(()))),
            },
            SavePhase::Finished => (SavePhase::Finished, ConfigSaveAction::Finish(Ok(()))),
        };
        self.phase = phase;
        action
    }
}

/// Nothing is written before every new directory entry is durable: a
/// save asks to serialize (and then to write) only after the ancestor sync
/// chain succeeded, and asks to write only right after serializing
/// succeeded.
pub proof fn lemma_write_follows_directory_sync(phase: SavePhaseView, path: Seq<char>, outcome: Result<(), Seq<char>>)
    ensures
        spec_save_step(phase, path, outcome).1 matches SaveActionView::Perform(SaveOpView::Write(_))
            ==> phase == SavePhaseView::Serialize && outcome is Ok,
        spec_save_step(phase, path, outcome).1 matches SaveActionView::Perform(SaveOpView::Serialize)
            ==> phase is SyncAncestor && outcome is Ok,
        outcome is Err ==> spec_save_step(phase, path, outcome).0 == SavePhaseView::Finished,
{
}

} // verus!
