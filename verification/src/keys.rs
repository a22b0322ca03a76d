//! Editor-neutral key, mode, and diagnostic values consumed by the App layer.
//!
//! Terminal events are translated into [`KeyInput`] at the edge; everything
//! in this crate reasons about these plain values only.

use vstd::prelude::*;

verus! {

/// The kind of a pressed key.
#[derive(Debug, Clone, Copy, PartialEq, Eq, Structural)]
pub enum KeyCodeKind {
    Char(char),
    Backspace,
    Enter,
    Left,
    Right,
    Up,
    Down,
    Tab,
    BackTab,
    Home,
    End,
    PageUp,
    PageDown,
    Delete,
    F(u8),
    Esc,
    Noop,
}

/// A key code wrapper.
#[derive(Debug, Clone, Copy, PartialEq, Eq, Structural)]
pub struct KeyCode {
    pub kind: KeyCodeKind,
}

/// Keyboard modifiers held while a key was pressed.
#[derive(Debug, Clone, Copy, PartialEq, Eq, Structural)]
pub struct Modifiers {
    pub ctrl: bool,
    pub alt: bool,
    pub shift: bool,
}

impl Modifiers {
    /// No modifier held.
    pub open spec fn is_none(self) -> bool {
        !self.ctrl && !self.alt && !self.shift
    }

    /// The modifier set with nothing held.
    pub fn none() -> (r: Modifiers)
        ensures
            r.is_none(),
    {
        Modifiers { ctrl: false, alt: false, shift: false }
    }

    /// Whether no modifier is held.
    pub fn is_plain(&self) -> (r: bool)
        ensures
            r == self.is_none(),
    {
        !self.ctrl && !self.alt && !self.shift
    }
}

impl Default for Modifiers {
    fn default() -> (r: Modifiers)
        ensures
            r.is_none(),
    {
        Modifiers { ctrl: false, alt: false, shift: false }
    }
}

/// One translated key press.
#[derive(Debug, Clone, Copy, PartialEq, Eq, Structural)]
pub struct KeyInput {
    pub code: KeyCode,
    pub mods: Modifiers,
}

impl KeyInput {
    /// An unmodified key of the given kind.
    pub open spec fn plain_spec(kind: KeyCodeKind) -> KeyInput {
        KeyInput {
            code: KeyCode { kind },
            mods: Modifiers { ctrl: false, alt: false, shift: false },
        }
    }

    /// An unmodified key of the given kind.
    pub fn plain(kind: KeyCodeKind) -> (r: KeyInput)
        ensures
            r.code.kind == kind,
            r.mods.is_none(),
    {
        KeyInput { code: KeyCode { kind }, mods: Modifiers::none() }
    }

    /// A key of the given kind with explicit modifiers.
    pub fn with_mods(kind: KeyCodeKind, ctrl: bool, alt: bool, shift: bool) -> (r: KeyInput)
        ensures
            r.code.kind == kind,
            r.mods.ctrl == ctrl,
            r.mods.alt == alt,
            r.mods.shift == shift,
    {
        KeyInput { code: KeyCode { kind }, mods: Modifiers { ctrl, alt, shift } }
    }
}

/// The four public editor modes.
#[derive(Debug, Clone, Copy, PartialEq, Eq, Structural)]
pub enum Mode {
    Normal,
    Insert,
    Select,
    Command,
}

/// Diagnostic severity, most severe first.
#[derive(Debug, Clone, Copy, PartialEq, Eq, Structural)]
pub enum DiagnosticSeverity {
    Error,
    Warning,
    Info,
    Hint,
}

/// Ranking used when several diagnostics share a line: a higher rank wins.
pub open spec fn spec_severity_priority(severity: DiagnosticSeverity) -> u8 {
    match severity {
        DiagnosticSeverity::Error => 4,
        DiagnosticSeverity::Warning => 3,
        DiagnosticSeverity::Info => 2,
        DiagnosticSeverity::Hint => 1,
    }
}

/// Ranking used when several diagnostics share a line: a higher rank wins.
pub fn severity_priority(severity: DiagnosticSeverity) -> (r: u8)
    ensures
        r == spec_severity_priority(severity),
{
    match severity {
        DiagnosticSeverity::Error => 4,
        DiagnosticSeverity::Warning => 3,
        DiagnosticSeverity::Info => 2,
        DiagnosticSeverity::Hint => 1,
    }
}

/// The subsystem that produced a diagnostic.
#[derive(Debug, Clone, Copy, PartialEq, Eq, Structural)]
pub enum DiagnosticProvider {
    Spell,
}

/// A provider-neutral document diagnostic.
#[derive(Debug, Clone, PartialEq, Eq)]
pub struct Diagnostic {
    pub provider: DiagnosticProvider,
    pub severity: DiagnosticSeverity,
    /// Byte range start in the source text.
    pub range_start: usize,
    /// Byte range end in the source text (exclusive).
    pub range_end: usize,
    pub source_text: String,
    pub message: String,
}

/// The plain-value identity of a diagnostic.
pub open spec fn diagnostic_view(d: Diagnostic) -> (
    DiagnosticProvider,
    DiagnosticSeverity,
    usize,
    usize,
    Seq<char>,
    Seq<char>,
) {
    (d.provider, d.severity, d.range_start, d.range_end, d.source_text@, d.message@)
}

/// A duplicate of a diagnostic with the same identity.
pub fn clone_diagnostic(d: &Diagnostic) -> (r: Diagnostic)
    ensures
        diagnostic_view(r) == diagnostic_view(*d),
{
    Diagnostic {
        provider: d.provider,
        severity: d.severity,
        range_start: d.range_start,
        range_end: d.range_end,
        source_text: d.source_text.clone(),
        message: d.message.clone(),
    }
}

/// Whether two diagnostics have the same identity.
pub fn same_diagnostic(a: &Diagnostic, b: &Diagnostic) -> (r: bool)
    ensures
        r == (diagnostic_view(*a) == diagnostic_view(*b)),
{
    let same_text = a.source_text == b.source_text;
    let same_message = a.message == b.message;
    a.provider == b.provider && a.severity == b.severity && a.range_start == b.range_start
        && a.range_end == b.range_end && same_text && same_message
}

/// A zero-based source position.
#[derive(Debug, Clone, Copy, PartialEq, Eq, Structural)]
pub struct TextPosition {
    pub line: usize,
    pub column: usize,
}

/// A key as the terminal reports it, before translation.
#[derive(Debug, Clone, Copy, PartialEq, Eq, Structural)]
pub enum TerminalKeyCode {
    Char(char),
    Backspace,
    Enter,
    Left,
    Right,
    Up,
    Down,
    Tab,
    BackTab,
    Home,
    End,
    PageUp,
    PageDown,
    Delete,
    Insert,
    F(u8),
    Null,
    Esc,
    CapsLock,
    ScrollLock,
    NumLock,
    PrintScreen,
    Pause,
    Menu,
    KeypadBegin,
    /// A media key (play, volume, ...).
    Media,
    /// A lone modifier key press.
    Modifier,
}

/// The editor key for a terminal key: editing and navigation keys map to
/// themselves; keys the editor has no use for become `Noop`.
pub open spec fn spec_translate_code(code: TerminalKeyCode) -> KeyCodeKind {
    match code {
        TerminalKeyCode::Char(c) => KeyCodeKind::Char(c),
        TerminalKeyCode::Backspace => KeyCodeKind::Backspace,
        TerminalKeyCode::Enter => KeyCodeKind::Enter,
        TerminalKeyCode::Left => KeyCodeKind::Left,
        TerminalKeyCode::Right => KeyCodeKind::Right,
        TerminalKeyCode::Up => KeyCodeKind::Up,
        TerminalKeyCode::Down => KeyCodeKind::Down,
        TerminalKeyCode::Tab => KeyCodeKind::Tab,
        TerminalKeyCode::BackTab => KeyCodeKind::BackTab,
        TerminalKeyCode::Home => KeyCodeKind::Home,
        TerminalKeyCode::End => KeyCodeKind::End,
        TerminalKeyCode::PageUp => KeyCodeKind::PageUp,
        TerminalKeyCode::PageDown => KeyCodeKind::PageDown,
        TerminalKeyCode::Delete => KeyCodeKind::Delete,
        TerminalKeyCode::F(n) => KeyCodeKind::F(n),
        TerminalKeyCode::Esc => KeyCodeKind::Esc,
        _ => KeyCodeKind::Noop,
    }
}

/// Translate a terminal key press (with its Ctrl, Alt and Shift state) to
/// an editor key.
pub fn translate_key(code: TerminalKeyCode, ctrl: bool, alt: bool, shift: bool) -> (r: KeyInput)
    ensures
        r.code.kind == spec_translate_code(code),
        r.mods == (Modifiers { ctrl, alt, shift }),
{
    let kind = match code {
        TerminalKeyCode::Char(c) => KeyCodeKind::Char(c),
        TerminalKeyCode::Backspace => KeyCodeKind::Backspace,
        TerminalKeyCode::Enter => KeyCodeKind::Enter,
        TerminalKeyCode::Left => KeyCodeKind::Left,
        TerminalKeyCode::Right => KeyCodeKind::Right,
        TerminalKeyCode::Up => KeyCodeKind::Up,
        TerminalKeyCode::Down => KeyCodeKind::Down,
        TerminalKeyCode::Tab => KeyCodeKind::Tab,
        TerminalKeyCode::BackTab => KeyCodeKind::BackTab,
        TerminalKeyCode::Home => KeyCodeKind::Home,
        TerminalKeyCode::End => KeyCodeKind::End,
        TerminalKeyCode::PageUp => KeyCodeKind::PageUp,
        TerminalKeyCode::PageDown => KeyCodeKind::PageDown,
        TerminalKeyCode::Delete => KeyCodeKind::Delete,
        TerminalKeyCode::Insert => KeyCodeKind::Noop,
        TerminalKeyCode::F(n) => KeyCodeKind::F(n),
        TerminalKeyCode::Null => KeyCodeKind::Noop,
        TerminalKeyCode::Esc => KeyCodeKind::Esc,
        TerminalKeyCode::CapsLock => KeyCodeKind::Noop,
        TerminalKeyCode::ScrollLock => KeyCodeKind::Noop,
        TerminalKeyCode::NumLock => KeyCodeKind::Noop,
        TerminalKeyCode::PrintScreen => KeyCodeKind::Noop,
        TerminalKeyCode::Pause => KeyCodeKind::Noop,
        TerminalKeyCode::Menu => KeyCodeKind::Noop,
        TerminalKeyCode::KeypadBegin => KeyCodeKind::Noop,
        TerminalKeyCode::Media => KeyCodeKind::Noop,
        TerminalKeyCode::Modifier => KeyCodeKind::Noop,
    };
    KeyInput { code: KeyCode { kind }, mods: Modifiers { ctrl, alt, shift } }
}

} // verus!
