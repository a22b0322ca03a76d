use oom_edit::keymap::{continuations_for, resolve, AppInputTransition, PendingAppInput, TabAction};
use oom_edit::keys::{KeyCodeKind, KeyInput};
use oom_edit::registry::{AppCommand, BindingRole, Contexts};

fn ch(c: char) -> KeyInput {
    KeyInput::plain(KeyCodeKind::Char(c))
}

#[test]
fn pending_space_transitions_are_total() {
    let t0: u64 = 7_000;
    assert_eq!(
        resolve(PendingAppInput::Idle, Contexts::normal(), ch(' '), t0),
        AppInputTransition::Pending(PendingAppInput::Space { since: t0 })
    );
    assert_eq!(
        resolve(PendingAppInput::Space { since: t0 }, Contexts::normal(), ch('h'), t0),
        AppInputTransition::AppCommand(AppCommand::Help)
    );
    assert_eq!(
        resolve(PendingAppInput::Space { since: t0 }, Contexts::normal(), ch('3'), t0),
        AppInputTransition::TabAction(TabAction::Jump(3))
    );
    assert_eq!(
        resolve(PendingAppInput::Space { since: t0 }, Contexts::normal(), ch('z'), t0),
        AppInputTransition::AppCommand(AppCommand::SpellToggle)
    );
    assert_eq!(
        resolve(PendingAppInput::Idle, Contexts::normal(), ch('g'), t0 + 1_000_000_000),
        AppInputTransition::Forward(ch('g'))
    );
}

#[test]
fn every_app_chord_resolves_to_its_registry_command() {
    let t0: u64 = 1;
    for (continuation, spec) in continuations_for(Contexts::normal()) {
        let BindingRole::AppChord { command, .. } = spec.binding else {
            unreachable!()
        };
        assert_eq!(
            resolve(PendingAppInput::Space { since: t0 }, Contexts::normal(), ch(continuation), t0),
            AppInputTransition::AppCommand(command)
        );
    }
}

#[test]
fn question_aliases_resolve_only_in_declared_contexts() {
    let now: u64 = 99;
    let shifted = KeyInput::with_mods(KeyCodeKind::Char('?'), false, false, true);
    let controlled = KeyInput::with_mods(KeyCodeKind::Char('?'), true, false, false);
    for key in [ch('?'), shifted] {
        assert_eq!(
            resolve(PendingAppInput::Idle, Contexts::normal(), key, now),
            AppInputTransition::AppCommand(AppCommand::Help)
        );
        assert_eq!(
            resolve(PendingAppInput::Idle, Contexts::select(), key, now),
            AppInputTransition::AppCommand(AppCommand::Help)
        );
        assert_eq!(
            resolve(PendingAppInput::Idle, Contexts::insert(), key, now),
            AppInputTransition::Forward(key)
        );
        assert_eq!(
            resolve(PendingAppInput::Space { since: now }, Contexts::normal(), key, now),
            AppInputTransition::AppCommand(AppCommand::Help)
        );
        assert_eq!(
            resolve(PendingAppInput::Space { since: now }, Contexts::select(), key, now),
            AppInputTransition::AppCommand(AppCommand::Help)
        );
    }
    assert_eq!(
        resolve(PendingAppInput::Idle, Contexts::normal(), controlled, now),
        AppInputTransition::Forward(controlled)
    );
    assert_eq!(
        resolve(PendingAppInput::Space { since: now }, Contexts::normal(), controlled, now),
        AppInputTransition::Forward(controlled)
    );
    assert_eq!(
        resolve(PendingAppInput::Idle, Contexts::normal(), ch('/'), now),
        AppInputTransition::Forward(ch('/'))
    );
    assert_eq!(
        resolve(PendingAppInput::Space { since: now }, Contexts::normal(), ch('x'), now),
        AppInputTransition::Forward(ch('x'))
    );
}

#[test]
fn resolve_stamps_pending_with_supplied_instant() {
    let supplied: u64 = 42_000_000_000;
    assert_eq!(
        resolve(PendingAppInput::Idle, Contexts::select(), ch(' '), supplied),
        AppInputTransition::Pending(PendingAppInput::Space { since: supplied })
    );
}

#[test]
fn space_is_forwarded_outside_rendered_contexts() {
    assert_eq!(
        resolve(PendingAppInput::Idle, Contexts::insert(), ch(' '), 5),
        AppInputTransition::Forward(ch(' '))
    );
}

#[test]
fn space_digit_zero_is_not_a_tab() {
    assert_eq!(
        resolve(PendingAppInput::Space { since: 0 }, Contexts::normal(), ch('0'), 0),
        AppInputTransition::Forward(ch('0'))
    );
    assert_eq!(
        resolve(PendingAppInput::Space { since: 0 }, Contexts::normal(), ch('9'), 0),
        AppInputTransition::TabAction(TabAction::Jump(9))
    );
}
