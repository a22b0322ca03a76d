//! Static command and binding registry used by dispatch and every UI projection.
//!
//! Rows separate registry identity, executable App commands, and
//! visibility-only core bindings. Each row carries its kebab-case name,
//! description, visible contexts, binding role, and hint-bar order.

use vstd::prelude::*;
use crate::text::{concat, push_char, to_string};

verus! {

/// Stable metadata-row identity; it is never an executable payload.
#[derive(Debug, Copy, Clone, PartialEq, Eq, Hash, Structural)]
pub enum RegistryEntryId {
    EnterCharacterSelect,
    EnterLineSelect,
    EnterBlockSelect,
    CancelSelect,
    SelectRegister,
    SelectYank,
    SelectDelete,
    SelectChange,
    SelectIndent,
    SelectOutdent,
    SelectSwapAnchor,
    Help,
    Save,
    Quit,
    CycleTheme,
    SpellSuggest,
    SpellAdd,
    SpellToggle,
    Trouble,
    SpellNext,
    SpellPrevious,
    SpellSet,
    SpaceDigitTab,
    NextTab,
    PrevTab,
    JumpToTab,
    TabNew,
    TabClose,
    QuitAll,
}

/// Payload-free actions owned and executed by the App.
#[derive(Debug, Copy, Clone, PartialEq, Eq, Hash, Structural)]
pub enum AppCommand {
    Help,
    Save,
    Quit,
    CycleTheme,
    SpellSuggest,
    SpellAdd,
    SpellToggle,
    Trouble,
}

/// Binding ownership and finite dispatch role.
#[derive(Debug, Copy, Clone, PartialEq, Eq, Hash)]
pub enum BindingRole {
    AppChord { continuation: char, command: AppCommand },
    AppSpaceDigit,
    CoreKey { display: &'static str },
    CoreEx { display: &'static str },
}

/// The set of UI contexts in which a registry row is visible, one bit each.
#[derive(Debug, Copy, Clone, PartialEq, Eq, Hash, Structural)]
pub struct Contexts(pub u8);

impl Contexts {
    /// Rendered Normal mode.
    pub fn normal() -> (r: Contexts)
        ensures
            r.0 == 1,
    {
        Contexts(1)
    }

    /// Source Insert mode.
    pub fn insert() -> (r: Contexts)
        ensures
            r.0 == 2,
    {
        Contexts(2)
    }

    /// Rendered Select mode.
    pub fn select() -> (r: Contexts)
        ensures
            r.0 == 4,
    {
        Contexts(4)
    }

    /// Command (ex) mode.
    pub fn command() -> (r: Contexts)
        ensures
            r.0 == 8,
    {
        Contexts(8)
    }

    /// An open overlay.
    pub fn overlay() -> (r: Contexts)
        ensures
            r.0 == 16,
    {
        Contexts(16)
    }

    /// Every context.
    pub fn all() -> (r: Contexts)
        ensures
            r.0 == 31,
    {
        Contexts(31)
    }

    /// The rendered surfaces: Normal and Select.
    pub fn rendered() -> (r: Contexts)
        ensures
            r.0 == 5,
    {
        Contexts(5)
    }

    /// The union of two context sets.
    pub fn or(self, other: Self) -> (r: Self)
        ensures
            r.0 == self.0 | other.0,
    {
        Contexts(self.0 | other.0)
    }

    /// Whether the two sets share a context.
    pub fn contains(self, other: Self) -> (r: bool)
        ensures
            r == spec_overlaps(self, other),
    {
        self.0 & other.0 != 0
    }

    /// Whether the set is empty.
    pub fn is_empty(self) -> (r: bool)
        ensures
            r == (self.0 == 0),
    {
        self.0 == 0
    }

    /// The five single-context sets, lowest bit first.
    pub fn each_bit() -> (r: Vec<Contexts>)
        ensures
            r@.len() == 5,
            forall|i: int| 0 <= i < 5 ==> #[trigger] r@[i].0 == spec_bit(i),
    {
        let mut r: Vec<Contexts> = Vec::new();
        r.push(Contexts(1));
        r.push(Contexts(2));
        r.push(Contexts(4));
        r.push(Contexts(8));
        r.push(Contexts(16));
        r
    }
}

/// The single-bit value of context number `i`.
pub open spec fn spec_bit(i: int) -> u8 {
    if i == 0 {
        1
    } else if i == 1 {
        2
    } else if i == 2 {
        4
    } else if i == 3 {
        8
    } else {
        16
    }
}

/// Whether two context sets share a context.
pub open spec fn spec_overlaps(a: Contexts, b: Contexts) -> bool {
    a.0 & b.0 != 0
}

/// One immutable registry row.
#[derive(Debug, Copy, Clone, PartialEq, Eq)]
pub struct CommandSpec {
    pub id: RegistryEntryId,
    pub name: &'static str,
    pub desc: &'static str,
    pub contexts: Contexts,
    pub binding: BindingRole,
    /// Core conformance requirement backing a non-executable reference row.
    pub conformance_id: Option<&'static str>,
    /// Purpose-specific order for the compact hint bar only.
    pub quick_bar_order: Option<i16>,
}

/// Number of rows in the registry.
pub open spec fn spec_command_count() -> int {
    29
}

/// Row `i` of the registry (rows outside `0..29` repeat the last row).
pub open spec fn spec_command(i: int) -> CommandSpec {
    if i == 0 {
        CommandSpec {
            id: RegistryEntryId::EnterCharacterSelect,
            name: "select-character",
            desc: "character-wise selection",
            contexts: Contexts(1),
            binding: BindingRole::CoreKey { display: "v" },
            conformance_id: None,
            quick_bar_order: Some(0i16),
        }
    } else if i == 1 {
        CommandSpec {
            id: RegistryEntryId::EnterLineSelect,
            name: "select-line",
            desc: "line-wise selection",
            contexts: Contexts(1),
            binding: BindingRole::CoreKey { display: "V" },
            conformance_id: None,
            quick_bar_order: None,
        }
    } else if i == 2 {
        CommandSpec {
            id: RegistryEntryId::EnterBlockSelect,
            name: "select-block",
            desc: "block-wise selection",
            contexts: Contexts(1),
            binding: BindingRole::CoreKey { display: "Ctrl-V" },
            conformance_id: None,
            quick_bar_order: None,
        }
    } else if i == 3 {
        CommandSpec {
            id: RegistryEntryId::CancelSelect,
            name: "cancel-select",
            desc: "cancel selection",
            contexts: Contexts(4),
            binding: BindingRole::CoreKey { display: "Esc / Ctrl-C" },
            conformance_id: None,
            quick_bar_order: Some(1i16),
        }
    } else if i == 4 {
        CommandSpec {
            id: RegistryEntryId::SelectRegister,
            name: "select-register",
            desc: "select register",
            contexts: Contexts(4),
            binding: BindingRole::CoreKey { display: "\"{register}" },
            conformance_id: None,
            quick_bar_order: None,
        }
    } else if i == 5 {
        CommandSpec {
            id: RegistryEntryId::SelectYank,
            name: "select-yank",
            desc: "yank selection",
            contexts: Contexts(4),
            binding: BindingRole::CoreKey { display: "y" },
            conformance_id: None,
            quick_bar_order: Some(2i16),
        }
    } else if i == 6 {
        CommandSpec {
            id: RegistryEntryId::SelectDelete,
            name: "select-delete",
            desc: "delete selection",
            contexts: Contexts(4),
            binding: BindingRole::CoreKey { display: "d / x" },
            conformance_id: None,
            quick_bar_order: Some(3i16),
        }
    } else if i == 7 {
        CommandSpec {
            id: RegistryEntryId::SelectChange,
            name: "select-change",
            desc: "change selection",
            contexts: Contexts(4),
            binding: BindingRole::CoreKey { display: "c" },
            conformance_id: None,
            quick_bar_order: None,
        }
    } else if i == 8 {
        CommandSpec {
            id: RegistryEntryId::SelectIndent,
            name: "select-indent",
            desc: "indent selection",
            contexts: Contexts(4),
            binding: BindingRole::CoreKey { display: ">" },
            conformance_id: None,
            quick_bar_order: None,
        }
    } else if i == 9 {
        CommandSpec {
            id: RegistryEntryId::SelectOutdent,
            name: "select-outdent",
            desc: "outdent selection",
            contexts: Contexts(4),
            binding: BindingRole::CoreKey { display: "<" },
            conformance_id: None,
            quick_bar_order: None,
        }
    } else if i == 10 {
        CommandSpec {
            id: RegistryEntryId::SelectSwapAnchor,
            name: "select-swap-anchor",
            desc: "swap selection endpoint",
            contexts: Contexts(4),
            binding: BindingRole::CoreKey { display: "o" },
            conformance_id: None,
            quick_bar_order: None,
        }
    } else if i == 11 {
        CommandSpec {
            id: RegistryEntryId::Help,
            name: "help",
            desc: "help / command palette",
            contexts: Contexts(5),
            binding: BindingRole::AppChord { continuation: 'h', command: AppCommand::Help },
            conformance_id: None,
            quick_bar_order: Some(10i16),
        }
    } else if i == 12 {
        CommandSpec {
            id: RegistryEntryId::Save,
            name: "save",
            desc: "save",
            contexts: Contexts(5),
            binding: BindingRole::AppChord { continuation: 'w', command: AppCommand::Save },
            conformance_id: None,
            quick_bar_order: Some(20i16),
        }
    } else if i == 13 {
        CommandSpec {
            id: RegistryEntryId::Quit,
            name: "quit",
            desc: "quit",
            contexts: Contexts(5),
            binding: BindingRole::AppChord { continuation: 'q', command: AppCommand::Quit },
            conformance_id: None,
            quick_bar_order: Some(30i16),
        }
    } else if i == 14 {
        CommandSpec {
            id: RegistryEntryId::CycleTheme,
            name: "cycle-theme",
            desc: "cycle theme",
            contexts: Contexts(5),
            binding: BindingRole::AppChord { continuation: 't', command: AppCommand::CycleTheme },
            conformance_id: None,
            quick_bar_order: None,
        }
    } else if i == 15 {
        CommandSpec {
            id: RegistryEntryId::SpellSuggest,
            name: "spell-suggest",
            desc: "spelling suggestions",
            contexts: Contexts(5),
            binding: BindingRole::AppChord { continuation: 's', command: AppCommand::SpellSuggest },
            conformance_id: None,
            quick_bar_order: None,
        }
    } else if i == 16 {
        CommandSpec {
            id: RegistryEntryId::SpellAdd,
            name: "spell-add",
            desc: "add word to personal dictionary",
            contexts: Contexts(5),
            binding: BindingRole::AppChord { continuation: 'a', command: AppCommand::SpellAdd },
            conformance_id: None,
            quick_bar_order: None,
        }
    } else if i == 17 {
        CommandSpec {
            id: RegistryEntryId::SpellToggle,
            name: "spell-toggle",
            desc: "toggle spelling",
            contexts: Contexts(5),
            binding: BindingRole::AppChord { continuation: 'z', command: AppCommand::SpellToggle },
            conformance_id: None,
            quick_bar_order: None,
        }
    } else if i == 18 {
        CommandSpec {
            id: RegistryEntryId::Trouble,
            name: "trouble",
            desc: "document diagnostics",
            contexts: Contexts(5),
            binding: BindingRole::AppChord { continuation: 'd', command: AppCommand::Trouble },
            conformance_id: None,
            quick_bar_order: None,
        }
    } else if i == 19 {
        CommandSpec {
            id: RegistryEntryId::SpellNext,
            name: "spell-next",
            desc: "next spelling diagnostic",
            contexts: Contexts(5),
            binding: BindingRole::CoreKey { display: "]s" },
            conformance_id: Some("SP-2:next-previous-wrap"),
            quick_bar_order: None,
        }
    } else if i == 20 {
        CommandSpec {
            id: RegistryEntryId::SpellPrevious,
            name: "spell-previous",
            desc: "previous spelling diagnostic",
            contexts: Contexts(5),
            binding: BindingRole::CoreKey { display: "[s" },
            conformance_id: Some("SP-2:next-previous-wrap"),
            quick_bar_order: None,
        }
    } else if i == 21 {
        CommandSpec {
            id: RegistryEntryId::SpellSet,
            name: "spell-set",
            desc: "enable or disable spelling",
            contexts: Contexts(8),
            binding: BindingRole::CoreEx { display: ":set spell / :set nospell" },
            conformance_id: Some("SP-1:set-toggle"),
            quick_bar_order: None,
        }
    } else if i == 22 {
        CommandSpec {
            id: RegistryEntryId::SpaceDigitTab,
            name: "space-tab",
            desc: "jump to tab",
            contexts: Contexts(5),
            binding: BindingRole::AppSpaceDigit,
            conformance_id: None,
            quick_bar_order: None,
        }
    } else if i == 23 {
        CommandSpec {
            id: RegistryEntryId::NextTab,
            name: "next-tab",
            desc: "next tab",
            contexts: Contexts(5),
            binding: BindingRole::CoreKey { display: "g t" },
            conformance_id: None,
            quick_bar_order: None,
        }
    } else if i == 24 {
        CommandSpec {
            id: RegistryEntryId::PrevTab,
            name: "prev-tab",
            desc: "previous tab",
            contexts: Contexts(5),
            binding: BindingRole::CoreKey { display: "g T" },
            conformance_id: None,
            quick_bar_order: None,
        }
    } else if i == 25 {
        CommandSpec {
            id: RegistryEntryId::JumpToTab,
            name: "jump-to-tab",
            desc: "jump to numbered tab",
            contexts: Contexts(5),
            binding: BindingRole::CoreKey { display: "{count} g t" },
            conformance_id: None,
            quick_bar_order: None,
        }
    } else if i == 26 {
        CommandSpec {
            id: RegistryEntryId::TabNew,
            name: "tab-new",
            desc: "open path in new tab",
            contexts: Contexts(5),
            binding: BindingRole::CoreEx { display: ":tabnew {path}" },
            conformance_id: None,
            quick_bar_order: None,
        }
    } else if i == 27 {
        CommandSpec {
            id: RegistryEntryId::TabClose,
            name: "tab-close",
            desc: "close tab",
            contexts: Contexts(5),
            binding: BindingRole::CoreEx { display: ":tabclose" },
            conformance_id: None,
            quick_bar_order: None,
        }
    } else {
        CommandSpec {
            id: RegistryEntryId::QuitAll,
            name: "quit-all",
            desc: "quit all tabs",
            contexts: Contexts(8),
            binding: BindingRole::CoreEx { display: ":qa" },
            conformance_id: None,
            quick_bar_order: None,
        }
    }
}

/// The complete registry, in UI order.
pub open spec fn spec_commands() -> Seq<CommandSpec> {
    Seq::new(29, |i: int| spec_command(i))
}

/// The complete registry, in UI order.
pub fn commands() -> (r: Vec<CommandSpec>)
    ensures
        r@ == spec_commands(),
{
    let mut v: Vec<CommandSpec> = Vec::new();
    v.push(CommandSpec {
            id: RegistryEntryId::EnterCharacterSelect,
            name: "select-character",
            desc: "character-wise selection",
            contexts: Contexts(1),
            binding: BindingRole::CoreKey { display: "v" },
            conformance_id: None,
            quick_bar_order: Some(0i16),
        });
    v.push(CommandSpec {
            id: RegistryEntryId::EnterLineSelect,
            name: "select-line",
            desc: "line-wise selection",
            contexts: Contexts(1),
            binding: BindingRole::CoreKey { display: "V" },
            conformance_id: None,
            quick_bar_order: None,
        });
    v.push(CommandSpec {
            id: RegistryEntryId::EnterBlockSelect,
            name: "select-block",
            desc: "block-wise selection",
            contexts: Contexts(1),
            binding: BindingRole::CoreKey { display: "Ctrl-V" },
            conformance_id: None,
            quick_bar_order: None,
        });
    v.push(CommandSpec {
            id: RegistryEntryId::CancelSelect,
            name: "cancel-select",
            desc: "cancel selection",
            contexts: Contexts(4),
            binding: BindingRole::CoreKey { display: "Esc / Ctrl-C" },
            conformance_id: None,
            quick_bar_order: Some(1i16),
        });
    v.push(CommandSpec {
            id: RegistryEntryId::SelectRegister,
            name: "select-register",
            desc: "select register",
            contexts: Contexts(4),
            binding: BindingRole::CoreKey { display: "\"{register}" },
            conformance_id: None,
            quick_bar_order: None,
        });
    v.push(CommandSpec {
            id: RegistryEntryId::SelectYank,
            name: "select-yank",
            desc: "yank selection",
            contexts: Contexts(4),
            binding: BindingRole::CoreKey { display: "y" },
            conformance_id: None,
            quick_bar_order: Some(2i16),
        });
    v.push(CommandSpec {
            id: RegistryEntryId::SelectDelete,
            name: "select-delete",
            desc: "delete selection",
            contexts: Contexts(4),
            binding: BindingRole::CoreKey { display: "d / x" },
            conformance_id: None,
            quick_bar_order: Some(3i16),
        });
    v.push(CommandSpec {
            id: RegistryEntryId::SelectChange,
            name: "select-change",
            desc: "change selection",
            contexts: Contexts(4),
            binding: BindingRole::CoreKey { display: "c" },
            conformance_id: None,
            quick_bar_order: None,
        });
    v.push(CommandSpec {
            id: RegistryEntryId::SelectIndent,
            name: "select-indent",
            desc: "indent selection",
            contexts: Contexts(4),
            binding: BindingRole::CoreKey { display: ">" },
            conformance_id: None,
            quick_bar_order: None,
        });
    v.push(CommandSpec {
            id: RegistryEntryId::SelectOutdent,
            name: "select-outdent",
            desc: "outdent selection",
            contexts: Contexts(4),
            binding: BindingRole::CoreKey { display: "<" },
            conformance_id: None,
            quick_bar_order: None,
        });
    v.push(CommandSpec {
            id: RegistryEntryId::SelectSwapAnchor,
            name: "select-swap-anchor",
            desc: "swap selection endpoint",
            contexts: Contexts(4),
            binding: BindingRole::CoreKey { display: "o" },
            conformance_id: None,
            quick_bar_order: None,
        });
    v.push(CommandSpec {
            id: RegistryEntryId::Help,
            name: "help",
            desc: "help / command palette",
            contexts: Contexts(5),
            binding: BindingRole::AppChord { continuation: 'h', command: AppCommand::Help },
            conformance_id: None,
            quick_bar_order: Some(10i16),
        });
    v.push(CommandSpec {
            id: RegistryEntryId::Save,
            name: "save",
            desc: "save",
            contexts: Contexts(5),
            binding: BindingRole::AppChord { continuation: 'w', command: AppCommand::Save },
            conformance_id: None,
            quick_bar_order: Some(20i16),
        });
    v.push(CommandSpec {
            id: RegistryEntryId::Quit,
            name: "quit",
            desc: "quit",
            contexts: Contexts(5),
            binding: BindingRole::AppChord { continuation: 'q', command: AppCommand::Quit },
            conformance_id: None,
            quick_bar_order: Some(30i16),
        });
    v.push(CommandSpec {
            id: RegistryEntryId::CycleTheme,
            name: "cycle-theme",
            desc: "cycle theme",
            contexts: Contexts(5),
            binding: BindingRole::AppChord { continuation: 't', command: AppCommand::CycleTheme },
            conformance_id: None,
            quick_bar_order: None,
        });
    v.push(CommandSpec {
            id: RegistryEntryId::SpellSuggest,
            name: "spell-suggest",
            desc: "spelling suggestions",
            contexts: Contexts(5),
            binding: BindingRole::AppChord { continuation: 's', command: AppCommand::SpellSuggest },
            conformance_id: None,
            quick_bar_order: None,
        });
    v.push(CommandSpec {
            id: RegistryEntryId::SpellAdd,
            name: "spell-add",
            desc: "add word to personal dictionary",
            contexts: Contexts(5),
            binding: BindingRole::AppChord { continuation: 'a', command: AppCommand::SpellAdd },
            conformance_id: None,
            quick_bar_order: None,
        });
    v.push(CommandSpec {
            id: RegistryEntryId::SpellToggle,
            name: "spell-toggle",
            desc: "toggle spelling",
            contexts: Contexts(5),
            binding: BindingRole::AppChord { continuation: 'z', command: AppCommand::SpellToggle },
            conformance_id: None,
            quick_bar_order: None,
        });
    v.push(CommandSpec {
            id: RegistryEntryId::Trouble,
            name: "trouble",
            desc: "document diagnostics",
            contexts: Contexts(5),
            binding: BindingRole::AppChord { continuation: 'd', command: AppCommand::Trouble },
            conformance_id: None,
            quick_bar_order: None,
        });
    v.push(CommandSpec {
            id: RegistryEntryId::SpellNext,
            name: "spell-next",
            desc: "next spelling diagnostic",
            contexts: Contexts(5),
            binding: BindingRole::CoreKey { display: "]s" },
            conformance_id: Some("SP-2:next-previous-wrap"),
            quick_bar_order: None,
        });
    v.push(CommandSpec {
            id: RegistryEntryId::SpellPrevious,
            name: "spell-previous",
            desc: "previous spelling diagnostic",
            contexts: Contexts(5),
            binding: BindingRole::CoreKey { display: "[s" },
            conformance_id: Some("SP-2:next-previous-wrap"),
            quick_bar_order: None,
        });
    v.push(CommandSpec {
            id: RegistryEntryId::SpellSet,
            name: "spell-set",
            desc: "enable or disable spelling",
            contexts: Contexts(8),
            binding: BindingRole::CoreEx { display: ":set spell / :set nospell" },
            conformance_id: Some("SP-1:set-toggle"),
            quick_bar_order: None,
        });
    v.push(CommandSpec {
            id: RegistryEntryId::SpaceDigitTab,
            name: "space-tab",
            desc: "jump to tab",
            contexts: Contexts(5),
            binding: BindingRole::AppSpaceDigit,
            conformance_id: None,
            quick_bar_order: None,
        });
    v.push(CommandSpec {
            id: RegistryEntryId::NextTab,
            name: "next-tab",
            desc: "next tab",
            contexts: Contexts(5),
            binding: BindingRole::CoreKey { display: "g t" },
            conformance_id: None,
            quick_bar_order: None,
        });
    v.push(CommandSpec {
            id: RegistryEntryId::PrevTab,
            name: "prev-tab",
            desc: "previous tab",
            contexts: Contexts(5),
            binding: BindingRole::CoreKey { display: "g T" },
            conformance_id: None,
            quick_bar_order: None,
        });
    v.push(CommandSpec {
            id: RegistryEntryId::JumpToTab,
            name: "jump-to-tab",
            desc: "jump to numbered tab",
            contexts: Contexts(5),
            binding: BindingRole::CoreKey { display: "{count} g t" },
            conformance_id: None,
            quick_bar_order: None,
        });
    v.push(CommandSpec {
            id: RegistryEntryId::TabNew,
            name: "tab-new",
            desc: "open path in new tab",
            contexts: Contexts(5),
            binding: BindingRole::CoreEx { display: ":tabnew {path}" },
            conformance_id: None,
            quick_bar_order: None,
        });
    v.push(CommandSpec {
            id: RegistryEntryId::TabClose,
            name: "tab-close",
            desc: "close tab",
            contexts: Contexts(5),
            binding: BindingRole::CoreEx { display: ":tabclose" },
            conformance_id: None,
            quick_bar_order: None,
        });
    v.push(CommandSpec {
            id: RegistryEntryId::QuitAll,
            name: "quit-all",
            desc: "quit all tabs",
            contexts: Contexts(8),
            binding: BindingRole::CoreEx { display: ":qa" },
            conformance_id: None,
            quick_bar_order: None,
        });
    proof {
        assert(v@ =~= spec_commands());
    }
    v
}


/// Whether a row is visible in a context.
pub open spec fn spec_visible(row: CommandSpec, ctx: Contexts) -> bool {
    spec_overlaps(row.contexts, ctx)
}

/// Whether `ctx` is a non-empty subset of `row`'s contexts.
pub open spec fn spec_within(row: CommandSpec, ctx: Contexts) -> bool {
    ctx.0 != 0 && ctx.0 & row.contexts.0 == ctx.0
}

/// Whether the `?` shortcut for help is live for this row in `ctx`: the
/// row is the help chord and `ctx` lies wholly inside its contexts.
pub open spec fn spec_help_alias(row: CommandSpec, ctx: Contexts) -> bool {
    &&& row.binding matches BindingRole::AppChord { command, .. }
    &&& command == AppCommand::Help
    &&& spec_within(row, ctx)
}

/// The text shown for a row's binding.
pub open spec fn spec_rendered_binding(binding: BindingRole) -> Seq<char> {
    match binding {
        BindingRole::AppChord { continuation, .. } => "Space "@.push(continuation),
        BindingRole::AppSpaceDigit => "Space 1-9"@,
        BindingRole::CoreKey { display } => display@,
        BindingRole::CoreEx { display } => display@,
    }
}

/// The text shown for a row's binding in a context: the help row lists its
/// `?` shortcuts wherever they are live.
pub open spec fn spec_rendered_binding_for(row: CommandSpec, ctx: Contexts) -> Seq<char> {
    if spec_help_alias(row, ctx) {
        match row.binding {
            BindingRole::AppChord { continuation, .. } => "? / Space "@.push(continuation) + "/?"@,
            _ => spec_rendered_binding(row.binding),
        }
    } else {
        spec_rendered_binding(row.binding)
    }
}

/// The display text of a row's binding.
pub fn rendered_binding(spec: &CommandSpec) -> (r: String)
    ensures
        r@ == spec_rendered_binding(spec.binding),
{
    match spec.binding {
        BindingRole::AppChord { continuation, .. } => {
            let mut s = to_string("Space ");
            push_char(&mut s, continuation);
            s
        },
        BindingRole::AppSpaceDigit => to_string("Space 1-9"),
        BindingRole::CoreKey { display } => to_string(display),
        BindingRole::CoreEx { display } => to_string(display),
    }
}

/// Whether `ctx` is a non-empty subset of `row`'s contexts.
fn within(row: &CommandSpec, ctx: Contexts) -> (r: bool)
    ensures
        r == spec_within(*row, ctx),
{
    ctx.0 != 0 && ctx.0 & row.contexts.0 == ctx.0
}

/// Whether the `?` help shortcut is live for this row in `ctx`.
fn help_alias(row: &CommandSpec, ctx: Contexts) -> (r: bool)
    ensures
        r == spec_help_alias(*row, ctx),
{
    match row.binding {
        BindingRole::AppChord { command: AppCommand::Help, .. } => within(row, ctx),
        _ => false,
    }
}

/// The display text of a row's binding in a context.
pub fn rendered_binding_for(spec: &CommandSpec, ctx: Contexts) -> (r: String)
    ensures
        r@ == spec_rendered_binding_for(*spec, ctx),
{
    if help_alias(spec, ctx) {
        match spec.binding {
            BindingRole::AppChord { continuation, .. } => {
                let mut s = to_string("? / Space ");
                push_char(&mut s, continuation);
                concat(s.as_str(), "/?")
            },
            _ => rendered_binding(spec),
        }
    } else {
        rendered_binding(spec)
    }
}

/// Whether row `row` answers the Space continuation `c` in `ctx`.
pub open spec fn spec_chord_matches(row: CommandSpec, ctx: Contexts, c: char) -> bool {
    &&& spec_visible(row, ctx)
    &&& match row.binding {
        BindingRole::AppChord { continuation, .. } => continuation == c || (c == '?'
            && spec_help_alias(row, ctx)),
        _ => false,
    }
}

/// The command of an App chord row.
pub open spec fn spec_chord_command(row: CommandSpec) -> AppCommand {
    match row.binding {
        BindingRole::AppChord { command, .. } => command,
        _ => AppCommand::Help,
    }
}

/// The App command that the first registry row answering `c` in `ctx`
/// carries, if any row does.
pub open spec fn spec_app_chord(ctx: Contexts, c: char) -> Option<AppCommand> {
    if exists|i: int| 0 <= i < 29 && spec_chord_matches(spec_command(i), ctx, c) {
        let i = choose|i: int|
            0 <= i < 29 && spec_chord_matches(spec_command(i), ctx, c) && forall|j: int|
                0 <= j < i ==> !spec_chord_matches(#[trigger] spec_command(j), ctx, c);
        Some(spec_chord_command(spec_command(i)))
    } else {
        None
    }
}

/// Whether a row answers the continuation `c` in `ctx`.
fn chord_matches(row: &CommandSpec, ctx: Contexts, c: char) -> (r: bool)
    ensures
        r == spec_chord_matches(*row, ctx, c),
{
    if !row.contexts.contains(ctx) {
        return false;
    }
    match row.binding {
        BindingRole::AppChord { continuation, .. } => continuation == c || (c == '?' && help_alias(
            row,
            ctx,
        )),
        _ => false,
    }
}

/// The App command bound to Space followed by `continuation` in `ctx`.
pub fn app_chord(ctx: Contexts, continuation: char) -> (r: Option<AppCommand>)
    ensures
        r == spec_app_chord(ctx, continuation),
{
    let rows = commands();
    let mut i: usize = 0;
    while i < rows.len()
        invariant
            rows@ == spec_commands(),
            i <= rows.len(),
            forall|j: int| 0 <= j < i ==> !spec_chord_matches(#[trigger] spec_command(j), ctx, continuation),
        decreases rows.len() - i,
    {
        let row = rows[i];
        if chord_matches(&row, ctx, continuation) {
            match row.binding {
                BindingRole::AppChord { command, .. } => {
                    proof {
                        let w = i as int;
                        assert(spec_chord_matches(spec_command(w), ctx, continuation));
                        let k = choose|k: int|
                            0 <= k < 29 && spec_chord_matches(spec_command(k), ctx, continuation)
                                && forall|j: int|
                                0 <= j < k ==> !spec_chord_matches(#[trigger] spec_command(j), ctx, continuation);
                        if k < w {
                        } else if k > w {
                            assert(!spec_chord_matches(spec_command(w), ctx, continuation));
                        }
                    }
                    return Some(command);
                },
                _ => {},
            }
        }
        i = i + 1;
    }
    None
}

/// The App command that a plain (unprefixed) key answers directly in `ctx`:
/// `?` opens help wherever its shortcut is live.
pub open spec fn spec_direct_command(ctx: Contexts, c: char) -> Option<AppCommand> {
    if c == '?' && exists|i: int| 0 <= i < 29 && spec_help_alias(spec_command(i), ctx) {
        Some(AppCommand::Help)
    } else {
        None
    }
}

/// The App command that a plain key answers without the Space prefix.
pub fn direct_command(ctx: Contexts, c: char) -> (r: Option<AppCommand>)
    ensures
        r == spec_direct_command(ctx, c),
{
    if c != '?' {
        return None;
    }
    let rows = commands();
    let mut i: usize = 0;
    while i < rows.len()
        invariant
            rows@ == spec_commands(),
            i <= rows.len(),
            c == '?',
            forall|j: int| 0 <= j < i ==> !spec_help_alias(#[trigger] spec_command(j), ctx),
        decreases rows.len() - i,
    {
        if help_alias(&rows[i], ctx) {
            proof {
                assert(spec_help_alias(spec_command(i as int), ctx));
            }
            return Some(AppCommand::Help);
        }
        i = i + 1;
    }
    None
}

/// The rows of the first `n` registry rows that are visible in `ctx` and
/// carry a hint-bar order, in registry order.
pub open spec fn spec_quick_rows(ctx: Contexts, n: int) -> Seq<CommandSpec>
    decreases n,
{
    if n <= 0 {
        Seq::empty()
    } else {
        let prev = spec_quick_rows(ctx, n - 1);
        let row = spec_command(n - 1);
        if spec_visible(row, ctx) && row.quick_bar_order is Some {
            prev.push(row)
        } else {
            prev
        }
    }
}

/// The hint-bar order of a row (zero when it has none).
pub open spec fn spec_quick_key(row: CommandSpec) -> int {
    match row.quick_bar_order {
        Some(k) => k as int,
        None => 0,
    }
}

/// Membership in a prefix of the hint-bar rows.
proof fn lemma_quick_rows_contains(ctx: Contexts, n: int, x: CommandSpec)
    requires
        0 <= n <= 29,
    ensures
        spec_quick_rows(ctx, n).contains(x) <==> exists|i: int|
            0 <= i < n && #[trigger] spec_command(i) == x && spec_visible(x, ctx)
                && x.quick_bar_order is Some,
    decreases n,
{
    if n > 0 {
        lemma_quick_rows_contains(ctx, n - 1, x);
        let prev = spec_quick_rows(ctx, n - 1);
        let row = spec_command(n - 1);
        if spec_visible(row, ctx) && row.quick_bar_order is Some {
            assert(prev.push(row).contains(x) <==> (prev.contains(x) || x == row)) by {
                if prev.push(row).contains(x) {
                    let k = choose|k: int| 0 <= k < prev.push(row).len() && prev.push(row)[k] == x;
                    if k < prev.len() {
                        assert(prev[k] == x);
                    }
                }
                if prev.contains(x) {
                    let k = choose|k: int| 0 <= k < prev.len() && prev[k] == x;
                    assert(prev.push(row)[k] == x);
                }
                if x == row {
                    assert(prev.push(row)[prev.len() as int] == x);
                }
            }
        }
    }
}

/// Every row that carries a hint-bar order has its own: no two rows share one.
pub proof fn lemma_quick_orders_distinct(i: int, j: int)
    requires
        0 <= i < 29,
        0 <= j < 29,
        i != j,
        spec_command(i).quick_bar_order is Some,
        spec_command(j).quick_bar_order is Some,
    ensures
        spec_command(i).quick_bar_order != spec_command(j).quick_bar_order,
{
}

/// The hint-bar rows for `ctx`, ordered by their hint-bar order.
pub fn commands_for(ctx: Contexts) -> (r: Vec<CommandSpec>)
    ensures
        forall|i: int| 0 <= i < r@.len() ==> spec_quick_rows(ctx, 29).contains(#[trigger] r@[i]),
        forall|x: CommandSpec| spec_quick_rows(ctx, 29).contains(x) ==> r@.contains(x),
        forall|i: int, j: int|
            0 <= i < j < r@.len() ==> spec_quick_key(#[trigger] r@[i]) < spec_quick_key(
                #[trigger] r@[j],
            ),
{
    let rows = commands();
    let mut filtered: Vec<CommandSpec> = Vec::new();
    let mut i: usize = 0;
    while i < rows.len()
        invariant
            rows@ == spec_commands(),
            i <= rows.len(),
            filtered@ == spec_quick_rows(ctx, i as int),
        decreases rows.len() - i,
    {
        let row = rows[i];
        if row.contexts.contains(ctx) && row.quick_bar_order.is_some() {
            filtered.push(row);
        }
        i = i + 1;
    }
    let ghost all = spec_quick_rows(ctx, 29);
    proof {
        assert forall|x: CommandSpec| all.contains(x) implies x.quick_bar_order is Some
            && exists|i: int| 0 <= i < 29 && #[trigger] spec_command(i) == x by {
            lemma_quick_rows_contains(ctx, 29, x);
        }
    }
    let mut out: Vec<CommandSpec> = Vec::new();
    let mut last: i32 = -40000;
    loop
        invariant
            filtered@ == all,
            forall|x: CommandSpec| all.contains(x) ==> x.quick_bar_order is Some
                && exists|i: int| 0 <= i < 29 && #[trigger] spec_command(i) == x,
            -40000 <= last <= 32767,
            forall|i: int| 0 <= i < out@.len() ==> all.contains(#[trigger] out@[i]),
            forall|i: int| 0 <= i < out@.len() ==> spec_quick_key(#[trigger] out@[i]) <= last,
            forall|i: int, j: int|
                0 <= i < j < out@.len() ==> spec_quick_key(#[trigger] out@[i]) < spec_quick_key(
                    #[trigger] out@[j],
                ),
            forall|x: CommandSpec| all.contains(x) && spec_quick_key(x) <= last ==> out@.contains(x),
        ensures
            forall|i: int| 0 <= i < out@.len() ==> all.contains(#[trigger] out@[i]),
            forall|x: CommandSpec| all.contains(x) ==> out@.contains(x),
            forall|i: int, j: int|
                0 <= i < j < out@.len() ==> spec_quick_key(#[trigger] out@[i]) < spec_quick_key(
                    #[trigger] out@[j],
                ),
        decreases 32767 - last,
    {
        let mut best: Option<CommandSpec> = None;
        let mut k: usize = 0;
        while k < filtered.len()
            invariant
                filtered@ == all,
                k <= filtered.len(),
                forall|x: CommandSpec| all.contains(x) ==> x.quick_bar_order is Some,
                match best {
                    Some(b) => all.contains(b) && spec_quick_key(b) > last && forall|m: int|
                        0 <= m < k && spec_quick_key(#[trigger] filtered@[m]) > last
                            ==> spec_quick_key(b) <= spec_quick_key(filtered@[m]),
                    None => forall|m: int|
                        0 <= m < k ==> spec_quick_key(#[trigger] filtered@[m]) <= last,
                },
            decreases filtered.len() - k,
        {
            let row = filtered[k];
            proof {
                assert(all.contains(filtered@[k as int]));
            }
            let key: i32 = match row.quick_bar_order {
                Some(q) => q as i32,
                None => 0,
            };
            if key > last {
                match best {
                    None => {
                        best = Some(row);
                    },
                    Some(b) => {
                        let bkey: i32 = match b.quick_bar_order {
                            Some(q) => q as i32,
                            None => 0,
                        };
                        if key < bkey {
                            best = Some(row);
                        }
                    },
                }
            }
            k = k + 1;
        }
        match best {
            None => {
                proof {
                    assert forall|x: CommandSpec| all.contains(x) implies out@.contains(x) by {
                        let m = choose|m: int| 0 <= m < all.len() && all[m] == x;
                        assert(spec_quick_key(filtered@[m]) <= last);
                    }
                }
                break;
            },
            Some(b) => {
                let bkey: i32 = match b.quick_bar_order {
                    Some(q) => q as i32,
                    None => 0,
                };
                proof {
                    assert forall|x: CommandSpec|
                        all.contains(x) && spec_quick_key(x) <= bkey implies out@.push(b).contains(
                        x,
                    ) by {
                        if spec_quick_key(x) <= last {
                            let m = choose|m: int| 0 <= m < out@.len() && out@[m] == x;
                            assert(out@.push(b)[m] == x);
                        } else {
                            let m = choose|m: int| 0 <= m < all.len() && all[m] == x;
                            assert(spec_quick_key(filtered@[m]) > last);
                            assert(spec_quick_key(x) == bkey);
                            let ib = choose|i: int| 0 <= i < 29 && #[trigger] spec_command(i) == b;
                            let ix = choose|i: int| 0 <= i < 29 && #[trigger] spec_command(i) == x;
                            if ib != ix {
                                lemma_quick_orders_distinct(ib, ix);
                            }
                            assert(out@.push(b)[out@.len() as int] == x);
                        }
                    }
                }
                out.push(b);
                last = bkey;
            },
        }
    }
    out
}

/// The rows of the first `n` registry rows that are App chords visible in
/// `ctx`, each with its continuation key, in registry order.
pub open spec fn spec_space_continuations(ctx: Contexts, n: int) -> Seq<(char, CommandSpec)>
    decreases n,
{
    if n <= 0 {
        Seq::empty()
    } else {
        let prev = spec_space_continuations(ctx, n - 1);
        let row = spec_command(n - 1);
        match row.binding {
            BindingRole::AppChord { continuation, .. } => if spec_visible(row, ctx) {
                prev.push((continuation, row))
            } else {
                prev
            },
            _ => prev,
        }
    }
}

/// The App chords visible in `ctx`, each with its continuation key.
pub fn space_continuations(ctx: Contexts) -> (r: Vec<(char, CommandSpec)>)
    ensures
        r@ == spec_space_continuations(ctx, 29),
{
    let rows = commands();
    let mut out: Vec<(char, CommandSpec)> = Vec::new();
    let mut i: usize = 0;
    while i < rows.len()
        invariant
            rows@ == spec_commands(),
            i <= rows.len(),
            out@ == spec_space_continuations(ctx, i as int),
        decreases rows.len() - i,
    {
        let row = rows[i];
        match row.binding {
            BindingRole::AppChord { continuation, .. } => {
                if row.contexts.contains(ctx) {
                    out.push((continuation, row));
                }
            },
            _ => {},
        }
        i = i + 1;
    }
    out
}

/// The editable ex-command text that a command-line row pre-fills, for rows
/// whose command needs no further choice before it can be completed.
pub open spec fn spec_ex_prefill(id: RegistryEntryId) -> Option<&'static str> {
    match id {
        RegistryEntryId::TabNew => Some("tabnew "),
        RegistryEntryId::TabClose => Some("tabclose"),
        RegistryEntryId::QuitAll => Some("qa"),
        _ => None,
    }
}

/// The editable ex-command text that a command-line row pre-fills, if any.
pub fn ex_prefill(spec: &CommandSpec) -> (r: Option<&'static str>)
    ensures
        r == (match spec.binding {
            BindingRole::CoreEx { .. } => spec_ex_prefill(spec.id),
            _ => None,
        }),
{
    match spec.binding {
        BindingRole::CoreEx { .. } => match spec.id {
            RegistryEntryId::TabNew => Some("tabnew "),
            RegistryEntryId::TabClose => Some("tabclose"),
            RegistryEntryId::QuitAll => Some("qa"),
            _ => None,
        },
        _ => None,
    }
}

/// The continuation key of an App chord row.
pub open spec fn spec_chord_key(row: CommandSpec) -> Option<char> {
    match row.binding {
        BindingRole::AppChord { continuation, .. } => Some(continuation),
        _ => None,
    }
}

/// Every row has a non-empty context set and a non-empty binding text, and
/// no two rows share an identity.
pub proof fn lemma_rows_well_formed(i: int, j: int)
    requires
        0 <= i < 29,
        0 <= j < 29,
    ensures
        spec_command(i).contexts.0 != 0,
        spec_rendered_binding(spec_command(i).binding).len() > 0,
        i != j ==> spec_command(i).id != spec_command(j).id,
{
    reveal_strlit(":qa");
    reveal_strlit(":set spell / :set nospell");
    reveal_strlit(":tabclose");
    reveal_strlit(":tabnew {path}");
    reveal_strlit("<");
    reveal_strlit(">");
    reveal_strlit("Ctrl-V");
    reveal_strlit("Esc / Ctrl-C");
    reveal_strlit("V");
    reveal_strlit("[s");
    reveal_strlit("\"{register}");
    reveal_strlit("]s");
    reveal_strlit("c");
    reveal_strlit("d / x");
    reveal_strlit("g T");
    reveal_strlit("g t");
    reveal_strlit("o");
    reveal_strlit("v");
    reveal_strlit("y");
    reveal_strlit("{count} g t");
    reveal_strlit("Space 1-9");
}

/// No two rows share a name.
pub proof fn lemma_names_distinct(i: int, j: int)
    requires
        0 <= i < 29,
        0 <= j < 29,
        i != j,
    ensures
        spec_command(i).name@ != spec_command(j).name@,
{
    reveal_strlit("cancel-select");
    reveal_strlit("cycle-theme");
    reveal_strlit("help");
    reveal_strlit("jump-to-tab");
    reveal_strlit("next-tab");
    reveal_strlit("prev-tab");
    reveal_strlit("quit");
    reveal_strlit("quit-all");
    reveal_strlit("save");
    reveal_strlit("select-block");
    reveal_strlit("select-change");
    reveal_strlit("select-character");
    reveal_strlit("select-delete");
    reveal_strlit("select-indent");
    reveal_strlit("select-line");
    reveal_strlit("select-outdent");
    reveal_strlit("select-register");
    reveal_strlit("select-swap-anchor");
    reveal_strlit("select-yank");
    reveal_strlit("space-tab");
    reveal_strlit("spell-add");
    reveal_strlit("spell-next");
    reveal_strlit("spell-previous");
    reveal_strlit("spell-set");
    reveal_strlit("spell-suggest");
    reveal_strlit("spell-toggle");
    reveal_strlit("tab-close");
    reveal_strlit("tab-new");
    reveal_strlit("trouble");
    if i == 0 { assert(spec_command(i).name@.len() == 16); }
    if j == 0 { assert(spec_command(j).name@.len() == 16); }
    if i == 1 { assert(spec_command(i).name@.len() == 11); }
    if j == 1 { assert(spec_command(j).name@.len() == 11); }
    if i == 2 { assert(spec_command(i).name@.len() == 12); }
    if j == 2 { assert(spec_command(j).name@.len() == 12); }
    if i == 3 { assert(spec_command(i).name@.len() == 13); }
    if j == 3 { assert(spec_command(j).name@.len() == 13); }
    if i == 4 { assert(spec_command(i).name@.len() == 15); }
    if j == 4 { assert(spec_command(j).name@.len() == 15); }
    if i == 5 { assert(spec_command(i).name@.len() == 11); }
    if j == 5 { assert(spec_command(j).name@.len() == 11); }
    if i == 6 { assert(spec_command(i).name@.len() == 13); }
    if j == 6 { assert(spec_command(j).name@.len() == 13); }
    if i == 7 { assert(spec_command(i).name@.len() == 13); }
    if j == 7 { assert(spec_command(j).name@.len() == 13); }
    if i == 8 { assert(spec_command(i).name@.len() == 13); }
    if j == 8 { assert(spec_command(j).name@.len() == 13); }
    if i == 9 { assert(spec_command(i).name@.len() == 14); }
    if j == 9 { assert(spec_command(j).name@.len() == 14); }
    if i == 10 { assert(spec_command(i).name@.len() == 18); }
    if j == 10 { assert(spec_command(j).name@.len() == 18); }
    if i == 11 { assert(spec_command(i).name@.len() == 4); }
    if j == 11 { assert(spec_command(j).name@.len() == 4); }
    if i == 12 { assert(spec_command(i).name@.len() == 4); }
    if j == 12 { assert(spec_command(j).name@.len() == 4); }
    if i == 13 { assert(spec_command(i).name@.len() == 4); }
    if j == 13 { assert(spec_command(j).name@.len() == 4); }
    if i == 14 { assert(spec_command(i).name@.len() == 11); }
    if j == 14 { assert(spec_command(j).name@.len() == 11); }
    if i == 15 { assert(spec_command(i).name@.len() == 13); }
    if j == 15 { assert(spec_command(j).name@.len() == 13); }
    if i == 16 { assert(spec_command(i).name@.len() == 9); }
    if j == 16 { assert(spec_command(j).name@.len() == 9); }
    if i == 17 { assert(spec_command(i).name@.len() == 12); }
    if j == 17 { assert(spec_command(j).name@.len() == 12); }
    if i == 18 { assert(spec_command(i).name@.len() == 7); }
    if j == 18 { assert(spec_command(j).name@.len() == 7); }
    if i == 19 { assert(spec_command(i).name@.len() == 10); }
    if j == 19 { assert(spec_command(j).name@.len() == 10); }
    if i == 20 { assert(spec_command(i).name@.len() == 14); }
    if j == 20 { assert(spec_command(j).name@.len() == 14); }
    if i == 21 { assert(spec_command(i).name@.len() == 9); }
    if j == 21 { assert(spec_command(j).name@.len() == 9); }
    if i == 22 { assert(spec_command(i).name@.len() == 9); }
    if j == 22 { assert(spec_command(j).name@.len() == 9); }
    if i == 23 { assert(spec_command(i).name@.len() == 8); }
    if j == 23 { assert(spec_command(j).name@.len() == 8); }
    if i == 24 { assert(spec_command(i).name@.len() == 8); }
    if j == 24 { assert(spec_command(j).name@.len() == 8); }
    if i == 25 { assert(spec_command(i).name@.len() == 11); }
    if j == 25 { assert(spec_command(j).name@.len() == 11); }
    if i == 26 { assert(spec_command(i).name@.len() == 7); }
    if j == 26 { assert(spec_command(j).name@.len() == 7); }
    if i == 27 { assert(spec_command(i).name@.len() == 9); }
    if j == 27 { assert(spec_command(j).name@.len() == 9); }
    if i == 28 { assert(spec_command(i).name@.len() == 8); }
    if j == 28 { assert(spec_command(j).name@.len() == 8); }
    if i == 1 && j == 5 { assert(spec_command(i).name@[7] != spec_command(j).name@[7]); }
    if i == 1 && j == 14 { assert(spec_command(i).name@[0] != spec_command(j).name@[0]); }
    if i == 1 && j == 25 { assert(spec_command(i).name@[0] != spec_command(j).name@[0]); }
    if i == 2 && j == 17 { assert(spec_command(i).name@[1] != spec_command(j).name@[1]); }
    if i == 3 && j == 6 { assert(spec_command(i).name@[0] != spec_command(j).name@[0]); }
    if i == 3 && j == 7 { assert(spec_command(i).name@[0] != spec_command(j).name@[0]); }
    if i == 3 && j == 8 { assert(spec_command(i).name@[0] != spec_command(j).name@[0]); }
    if i == 3 && j == 15 { assert(spec_command(i).name@[0] != spec_command(j).name@[0]); }
    if i == 5 && j == 1 { assert(spec_command(i).name@[7] != spec_command(j).name@[7]); }
    if i == 5 && j == 14 { assert(spec_command(i).name@[0] != spec_command(j).name@[0]); }
    if i == 5 && j == 25 { assert(spec_command(i).name@[0] != spec_command(j).name@[0]); }
    if i == 6 && j == 3 { assert(spec_command(i).name@[0] != spec_command(j).name@[0]); }
    if i == 6 && j == 7 { assert(spec_command(i).name@[7] != spec_command(j).name@[7]); }
    if i == 6 && j == 8 { assert(spec_command(i).name@[7] != spec_command(j).name@[7]); }
    if i == 6 && j == 15 { assert(spec_command(i).name@[1] != spec_command(j).name@[1]); }
    if i == 7 && j == 3 { assert(spec_command(i).name@[0] != spec_command(j).name@[0]); }
    if i == 7 && j == 6 { assert(spec_command(i).name@[7] != spec_command(j).name@[7]); }
    if i == 7 && j == 8 { assert(spec_command(i).name@[7] != spec_command(j).name@[7]); }
    if i == 7 && j == 15 { assert(spec_command(i).name@[1] != spec_command(j).name@[1]); }
    if i == 8 && j == 3 { assert(spec_command(i).name@[0] != spec_command(j).name@[0]); }
    if i == 8 && j == 6 { assert(spec_command(i).name@[7] != spec_command(j).name@[7]); }
    if i == 8 && j == 7 { assert(spec_command(i).name@[7] != spec_command(j).name@[7]); }
    if i == 8 && j == 15 { assert(spec_command(i).name@[1] != spec_command(j).name@[1]); }
    if i == 9 && j == 20 { assert(spec_command(i).name@[1] != spec_command(j).name@[1]); }
    if i == 11 && j == 12 { assert(spec_command(i).name@[0] != spec_command(j).name@[0]); }
    if i == 11 && j == 13 { assert(spec_command(i).name@[0] != spec_command(j).name@[0]); }
    if i == 12 && j == 11 { assert(spec_command(i).name@[0] != spec_command(j).name@[0]); }
    if i == 12 && j == 13 { assert(spec_command(i).name@[0] != spec_command(j).name@[0]); }
    if i == 13 && j == 11 { assert(spec_command(i).name@[0] != spec_command(j).name@[0]); }
    if i == 13 && j == 12 { assert(spec_command(i).name@[0] != spec_command(j).name@[0]); }
    if i == 14 && j == 1 { assert(spec_command(i).name@[0] != spec_command(j).name@[0]); }
    if i == 14 && j == 5 { assert(spec_command(i).name@[0] != spec_command(j).name@[0]); }
    if i == 14 && j == 25 { assert(spec_command(i).name@[0] != spec_command(j).name@[0]); }
    if i == 15 && j == 3 { assert(spec_command(i).name@[0] != spec_command(j).name@[0]); }
    if i == 15 && j == 6 { assert(spec_command(i).name@[1] != spec_command(j).name@[1]); }
    if i == 15 && j == 7 { assert(spec_command(i).name@[1] != spec_command(j).name@[1]); }
    if i == 15 && j == 8 { assert(spec_command(i).name@[1] != spec_command(j).name@[1]); }
    if i == 16 && j == 21 { assert(spec_command(i).name@[6] != spec_command(j).name@[6]); }
    if i == 16 && j == 22 { assert(spec_command(i).name@[2] != spec_command(j).name@[2]); }
    if i == 16 && j == 27 { assert(spec_command(i).name@[0] != spec_command(j).name@[0]); }
    if i == 17 && j == 2 { assert(spec_command(i).name@[1] != spec_command(j).name@[1]); }
    if i == 18 && j == 26 { assert(spec_command(i).name@[1] != spec_command(j).name@[1]); }
    if i == 20 && j == 9 { assert(spec_command(i).name@[1] != spec_command(j).name@[1]); }
    if i == 21 && j == 16 { assert(spec_command(i).name@[6] != spec_command(j).name@[6]); }
    if i == 21 && j == 22 { assert(spec_command(i).name@[2] != spec_command(j).name@[2]); }
    if i == 21 && j == 27 { assert(spec_command(i).name@[0] != spec_command(j).name@[0]); }
    if i == 22 && j == 16 { assert(spec_command(i).name@[2] != spec_command(j).name@[2]); }
    if i == 22 && j == 21 { assert(spec_command(i).name@[2] != spec_command(j).name@[2]); }
    if i == 22 && j == 27 { assert(spec_command(i).name@[0] != spec_command(j).name@[0]); }
    if i == 23 && j == 24 { assert(spec_command(i).name@[0] != spec_command(j).name@[0]); }
    if i == 23 && j == 28 { assert(spec_command(i).name@[0] != spec_command(j).name@[0]); }
    if i == 24 && j == 23 { assert(spec_command(i).name@[0] != spec_command(j).name@[0]); }
    if i == 24 && j == 28 { assert(spec_command(i).name@[0] != spec_command(j).name@[0]); }
    if i == 25 && j == 1 { assert(spec_command(i).name@[0] != spec_command(j).name@[0]); }
    if i == 25 && j == 5 { assert(spec_command(i).name@[0] != spec_command(j).name@[0]); }
    if i == 25 && j == 14 { assert(spec_command(i).name@[0] != spec_command(j).name@[0]); }
    if i == 26 && j == 18 { assert(spec_command(i).name@[1] != spec_command(j).name@[1]); }
    if i == 27 && j == 16 { assert(spec_command(i).name@[0] != spec_command(j).name@[0]); }
    if i == 27 && j == 21 { assert(spec_command(i).name@[0] != spec_command(j).name@[0]); }
    if i == 27 && j == 22 { assert(spec_command(i).name@[0] != spec_command(j).name@[0]); }
    if i == 28 && j == 23 { assert(spec_command(i).name@[0] != spec_command(j).name@[0]); }
    if i == 28 && j == 24 { assert(spec_command(i).name@[0] != spec_command(j).name@[0]); }
}

/// Two App chords visible in a common context never share a continuation
/// key, and two hint-bar rows visible in a common context never share an
/// order.
pub proof fn lemma_bindings_unambiguous(i: int, j: int)
    requires
        0 <= i < 29,
        0 <= j < 29,
        i != j,
        spec_overlaps(spec_command(i).contexts, spec_command(j).contexts),
    ensures
        spec_chord_key(spec_command(i)) is Some && spec_chord_key(spec_command(j)) is Some
            ==> spec_chord_key(spec_command(i)) != spec_chord_key(spec_command(j)),
        (spec_command(i).quick_bar_order is Some && spec_command(j).quick_bar_order is Some)
            ==> spec_command(i).quick_bar_order != spec_command(j).quick_bar_order,
{
}

} // verus!
