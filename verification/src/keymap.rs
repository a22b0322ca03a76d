//! Pure App-owned Space-prefix transition over the static registry rows.
//!
//! Timestamps are monotonic nanoseconds on a clock chosen by the caller.

use vstd::prelude::*;
use crate::keys::{KeyCodeKind, KeyInput};
use crate::registry::{
    app_chord, direct_command, space_continuations, spec_app_chord, spec_chord_key,
    spec_command, spec_direct_command, spec_space_continuations, spec_visible,
    AppCommand, BindingRole, CommandSpec, Contexts, lemma_bindings_unambiguous,
};

verus! {

/// The App's pending-prefix state.
#[derive(Debug, Clone, Copy, PartialEq, Eq, Structural)]
pub enum PendingAppInput {
    Idle,
    /// Space was pressed at `since` (monotonic nanoseconds).
    Space { since: u64 },
}

/// A tab navigation request.
#[derive(Debug, Clone, Copy, PartialEq, Eq, Structural)]
pub enum TabAction {
    Next,
    Prev,
    /// Jump to the tab with this one-based number (never zero).
    Jump(usize),
}

/// The outcome of feeding one key to the App-prefix transition.
#[derive(Debug, Clone, Copy, PartialEq, Eq, Structural)]
pub enum AppInputTransition {
    Pending(PendingAppInput),
    AppCommand(AppCommand),
    TabAction(TabAction),
    Forward(KeyInput),
}

/// Whether `ctx` includes a rendered surface (Normal or Select).
pub open spec fn spec_rendered_context(ctx: Contexts) -> bool {
    ctx.0 & 1 != 0 || ctx.0 & 4 != 0
}

/// An unmodified Space key.
pub open spec fn spec_is_space_key(key: KeyInput) -> bool {
    key.mods.is_none() && key.code.kind == KeyCodeKind::Char(' ')
}

/// A character key without Ctrl or Alt; Shift is allowed only for `?`.
pub open spec fn spec_plain_character_key(key: KeyInput, ch: char) -> bool {
    !key.mods.ctrl && !key.mods.alt && (!key.mods.shift || ch == '?')
}

/// The tab number named by a digit key, `1` to `9`.
pub open spec fn spec_tab_digit(c: char) -> Option<usize> {
    if '1' <= c && c <= '9' {
        Some((c as u32 - '0' as u32) as usize)
    } else {
        None
    }
}

/// The transition for one key given the pending state.
pub open spec fn spec_resolve(
    pending: PendingAppInput,
    ctx: Contexts,
    key: KeyInput,
    now: u64,
) -> AppInputTransition {
    match pending {
        PendingAppInput::Idle => {
            if spec_is_space_key(key) && spec_rendered_context(ctx) {
                AppInputTransition::Pending(PendingAppInput::Space { since: now })
            } else {
                match key.code.kind {
                    KeyCodeKind::Char(ch) => if spec_plain_character_key(key, ch)
                        && spec_direct_command(ctx, ch) is Some {
                        AppInputTransition::AppCommand(spec_direct_command(ctx, ch).unwrap())
                    } else {
                        AppInputTransition::Forward(key)
                    },
                    _ => AppInputTransition::Forward(key),
                }
            }
        },
        PendingAppInput::Space { .. } => match key.code.kind {
            KeyCodeKind::Char(c) => if spec_plain_character_key(key, c) {
                if spec_app_chord(ctx, c) is Some {
                    AppInputTransition::AppCommand(spec_app_chord(ctx, c).unwrap())
                } else if spec_tab_digit(c) is Some {
                    AppInputTransition::TabAction(TabAction::Jump(spec_tab_digit(c).unwrap()))
                } else {
                    AppInputTransition::Forward(key)
                }
            } else {
                AppInputTransition::Forward(key)
            },
            _ => AppInputTransition::Forward(key),
        },
    }
}

/// Whether `ctx` includes a rendered surface.
pub fn rendered_context(ctx: Contexts) -> (r: bool)
    ensures
        r == spec_rendered_context(ctx),
{
    ctx.contains(Contexts::normal()) || ctx.contains(Contexts::select())
}

/// Whether the key is an unmodified Space.
pub fn is_space_key(key: KeyInput) -> (r: bool)
    ensures
        r == spec_is_space_key(key),
{
    key.mods.is_plain() && key.code.kind == KeyCodeKind::Char(' ')
}

/// Whether the key is a character key eligible for App shortcuts.
pub fn plain_character_key(key: KeyInput, ch: char) -> (r: bool)
    ensures
        r == spec_plain_character_key(key, ch),
{
    !key.mods.ctrl && !key.mods.alt && (!key.mods.shift || ch == '?')
}

/// The tab number named by a digit key.
pub fn tab_digit(c: char) -> (r: Option<usize>)
    ensures
        r == spec_tab_digit(c),
{
    if '1' <= c && c <= '9' {
        Some((c as u32 - '0' as u32) as usize)
    } else {
        None
    }
}

/// Resolve one key against the App-owned prefix state.
pub fn resolve(pending: PendingAppInput, ctx: Contexts, key: KeyInput, now: u64) -> (r:
    AppInputTransition)
    ensures
        r == spec_resolve(pending, ctx, key, now),
{
    match pending {
        PendingAppInput::Idle => {
            if is_space_key(key) && rendered_context(ctx) {
                return AppInputTransition::Pending(PendingAppInput::Space { since: now });
            }
            if let KeyCodeKind::Char(ch) = key.code.kind {
                if plain_character_key(key, ch) {
                    if let Some(command) = direct_command(ctx, ch) {
                        return AppInputTransition::AppCommand(command);
                    }
                }
            }
            AppInputTransition::Forward(key)
        },
        PendingAppInput::Space { .. } => {
            if let KeyCodeKind::Char(continuation) = key.code.kind {
                if plain_character_key(key, continuation) {
                    if let Some(command) = app_chord(ctx, continuation) {
                        return AppInputTransition::AppCommand(command);
                    }
                    if let Some(tab) = tab_digit(continuation) {
                        return AppInputTransition::TabAction(TabAction::Jump(tab));
                    }
                }
            }
            AppInputTransition::Forward(key)
        },
    }
}

/// The Space continuations visible in `ctx`, each with its registry row.
pub fn continuations_for(ctx: Contexts) -> (r: Vec<(char, CommandSpec)>)
    ensures
        r@ == spec_space_continuations(ctx, 29),
{
    space_continuations(ctx)
}

/// Membership in a prefix of the Space continuations.
proof fn lemma_continuation_row(ctx: Contexts, n: int, k: int)
    requires
        0 <= n <= 29,
        0 <= k < spec_space_continuations(ctx, n).len(),
    ensures
        exists|i: int|
            0 <= i < n && spec_command(i) == #[trigger] spec_space_continuations(ctx, n)[k].1
                && spec_visible(spec_command(i), ctx) && spec_chord_key(spec_command(i)) == Some(
                spec_space_continuations(ctx, n)[k].0,
            ),
    decreases n,
{
    if n > 0 {
        let prev = spec_space_continuations(ctx, n - 1);
        if k < prev.len() {
            lemma_continuation_row(ctx, n - 1, k);
            assert(spec_space_continuations(ctx, n)[k] == prev[k]);
        } else {
            assert(spec_command(n - 1) == spec_space_continuations(ctx, n)[k].1);
        }
    }
}

/// Every Space continuation listed for a context resolves, after Space, to
/// the command of the row that lists it.
pub proof fn lemma_continuation_resolves(ctx: Contexts, k: int, now: u64, since: u64)
    requires
        0 <= k < spec_space_continuations(ctx, 29).len(),
    ensures
        ({
            let (c, row) = spec_space_continuations(ctx, 29)[k];
            row.binding matches BindingRole::AppChord { command, .. } && spec_resolve(
                PendingAppInput::Space { since },
                ctx,
                KeyInput::plain_spec(KeyCodeKind::Char(c)),
                now,
            ) == AppInputTransition::AppCommand(command)
        }),
{
    lemma_continuation_row(ctx, 29, k);
    let (c, row) = spec_space_continuations(ctx, 29)[k];
    let i = choose|i: int|
        0 <= i < 29 && spec_command(i) == #[trigger] spec_space_continuations(ctx, 29)[k].1
            && spec_visible(spec_command(i), ctx) && spec_chord_key(spec_command(i)) == Some(
            spec_space_continuations(ctx, 29)[k].0,
        );
    assert(crate::registry::spec_chord_matches(spec_command(i), ctx, c));
    assert forall|j: int| 0 <= j < 29 && j != i implies !crate::registry::spec_chord_matches(
        #[trigger] spec_command(j),
        ctx,
        c,
    ) by {
        if crate::registry::spec_chord_matches(spec_command(j), ctx, c) {
            lemma_bindings_unambiguous(i, j);
        }
    }
    let w = choose|w: int|
        0 <= w < 29 && crate::registry::spec_chord_matches(spec_command(w), ctx, c) && forall|
            j: int,
        | 0 <= j < w ==> !crate::registry::spec_chord_matches(#[trigger] spec_command(j), ctx, c);
    assert(w == i);
}

/// After Space, a plain digit `1` to `9` jumps to the tab with that number
/// in every context: no App chord takes a digit, so the Space 1-9 row
/// answers in Select exactly as in Normal.
pub proof fn lemma_space_digit_jumps(ctx: Contexts, n: usize, c: char, since: u64, now: u64)
    requires
        1 <= n <= 9,
        c as u32 == '0' as u32 + n,
    ensures
        spec_resolve(PendingAppInput::Space { since }, ctx, KeyInput::plain_spec(KeyCodeKind::Char(c)), now)
            == AppInputTransition::TabAction(TabAction::Jump(n)),
{
    assert forall|i: int| 0 <= i < 29 implies !crate::registry::spec_chord_matches(#[trigger] spec_command(i), ctx, c) by {
        assert(c != '?');
    }
}

} // verus!
