use oom_edit::event::{
    cursor_shape, cursor_shape_change, deadline_has_slice_slack, dispatches, idle_drain_continues,
    idle_drain_may_start, input_idle_for, poll_duration, tick_deadline, BatchStep, EventBatch,
    ModeCursorShape, RedrawScheduler, TerminalEventKind, FRAME_BUDGET, MAX_EVENT_BATCH,
    SPELL_IDLE_DELAY, SPELL_SLICE_BUDGET, SPELL_WORK_UNIT_BYTES,
};
use oom_edit::keymap::PendingAppInput;
use oom_edit::keys::Mode;

const MS: u64 = 1_000_000;

#[test]
fn poll_deadline_is_evaluated_from_the_pre_poll_tick_timestamp() {
    let tick_now: u64 = 1_000 * MS;

    assert_eq!(poll_duration(tick_now, None), FRAME_BUDGET);
    assert_eq!(poll_duration(tick_now, Some(tick_now + 80 * MS)), FRAME_BUDGET);
    assert_eq!(poll_duration(tick_now, Some(tick_now + 12 * MS)), 12 * MS);
    assert_eq!(poll_duration(tick_now, Some(tick_now)), 0);
    assert_eq!(
        poll_duration(tick_now, Some(tick_now - MS)),
        0,
        "an already-due deadline must not panic or extend the poll"
    );
}

#[test]
fn timing_constants() {
    assert_eq!(FRAME_BUDGET, 50 * MS);
    assert_eq!(SPELL_IDLE_DELAY, 150 * MS);
    assert_eq!(SPELL_SLICE_BUDGET, 8 * MS);
    assert_eq!(SPELL_WORK_UNIT_BYTES, 4096);
    assert_eq!(MAX_EVENT_BATCH, 32);
}

#[test]
fn cursor_shapes_map_every_public_mode_and_disabled_uses_block() {
    assert_eq!(cursor_shape(Mode::Normal, true), ModeCursorShape::Block);
    assert_eq!(cursor_shape(Mode::Insert, true), ModeCursorShape::Bar);
    assert_eq!(cursor_shape(Mode::Select, true), ModeCursorShape::Underscore);
    assert_eq!(cursor_shape(Mode::Command, true), ModeCursorShape::Bar);

    for mode in [Mode::Normal, Mode::Insert, Mode::Select, Mode::Command] {
        assert_eq!(cursor_shape(mode, false), ModeCursorShape::Block);
    }
}

#[test]
fn cursor_shape_command_is_emitted_once_per_mapped_shape_change() {
    let mut last = None;
    let mut emitted = Vec::new();
    for mode in [Mode::Normal, Mode::Normal, Mode::Insert, Mode::Command, Mode::Select] {
        if let Some(shape) = cursor_shape_change(last, mode, true) {
            emitted.push(shape);
            last = Some(shape);
        }
    }
    assert_eq!(
        emitted,
        [ModeCursorShape::Block, ModeCursorShape::Bar, ModeCursorShape::Underscore]
    );
}

#[test]
fn redraw_scheduler_paints_initial_frame_once_and_skips_unchanged_idle_polls() {
    let mut scheduler = RedrawScheduler::initial();
    let mut draws = 0;
    if scheduler.take() {
        draws += 1;
    }
    for _ in 0..3 {
        scheduler.request(false);
        if scheduler.take() {
            draws += 1;
        }
    }
    assert_eq!(draws, 1);
    scheduler.request(true);
    scheduler.request(false);
    assert!(scheduler.take());
    assert!(!scheduler.take());
}

#[test]
fn slice_slack_is_strict() {
    let now = 500 * MS;
    assert!(deadline_has_slice_slack(None, now));
    assert!(!deadline_has_slice_slack(Some(now + SPELL_SLICE_BUDGET), now));
    assert!(deadline_has_slice_slack(Some(now + SPELL_SLICE_BUDGET + 1), now));
    assert!(!deadline_has_slice_slack(Some(now - MS), now));
}

#[test]
fn timeout_requires_full_idle_delay_and_strict_deadline_slack() {
    let initial = 10 * MS;
    assert!(!idle_drain_may_start(initial, initial + SPELL_IDLE_DELAY - 1, None));
    let wake = initial + SPELL_IDLE_DELAY;
    assert!(!idle_drain_may_start(initial, wake, Some(wake)));
    assert!(!idle_drain_may_start(initial, wake, Some(wake + SPELL_SLICE_BUDGET)));
    assert!(!idle_drain_may_start(initial, wake, Some(wake - MS)));
    assert!(idle_drain_may_start(initial, wake, Some(wake + SPELL_SLICE_BUDGET + 1)));
    assert!(idle_drain_may_start(initial, wake, None));
}

#[test]
fn sampled_deadline_stops_between_units_at_equality() {
    let wake = 1_000 * MS;
    let deadline = wake + 20 * MS;
    assert!(!idle_drain_continues(wake, deadline - SPELL_SLICE_BUDGET, Some(deadline)));
    assert!(idle_drain_continues(wake, wake, Some(deadline)));
    assert!(!idle_drain_continues(wake, wake + SPELL_SLICE_BUDGET, None));
    assert!(idle_drain_continues(wake, wake + SPELL_SLICE_BUDGET - 1, None));
}

#[test]
fn input_idle_measures_from_the_last_input() {
    assert!(input_idle_for(100, 250, 150));
    assert!(!input_idle_for(100, 249, 150));
    assert!(!input_idle_for(300, 250, 1));
}

#[test]
fn tick_returns_exact_pending_chord_deadline() {
    let since = 2_000 * MS;
    let pending = PendingAppInput::Space { since };
    assert_eq!(tick_deadline(since + 140 * MS, None, pending), Some(since + 150 * MS));
    assert_eq!(poll_duration(since + 140 * MS, tick_deadline(since + 140 * MS, None, pending)), 10 * MS);
    assert_eq!(tick_deadline(since + 151 * MS, None, pending), None);
    assert_eq!(tick_deadline(since, Some(since + 100 * MS), pending), Some(since + 100 * MS));
    assert_eq!(tick_deadline(since, Some(since + 200 * MS), pending), Some(since + 150 * MS));
    assert_eq!(tick_deadline(since, None, PendingAppInput::Idle), None);
    assert_eq!(tick_deadline(since, Some(since), PendingAppInput::Idle), Some(since));
}

#[test]
fn only_presses_pastes_mouse_and_resizes_are_dispatched() {
    assert!(dispatches(TerminalEventKind::KeyPress));
    assert!(dispatches(TerminalEventKind::Paste));
    assert!(dispatches(TerminalEventKind::Mouse));
    assert!(dispatches(TerminalEventKind::Resize));
    assert!(!dispatches(TerminalEventKind::KeyOther));
    assert!(!dispatches(TerminalEventKind::Focus));
}

/// Feed a scripted batch; returns the dispatched positions and the number
/// of probes.
fn run_batch(resizes: &[bool], pending: &[bool]) -> (Vec<usize>, usize) {
    let mut batch = EventBatch::new();
    let mut dispatched = Vec::new();
    let mut held = None;
    let mut probes = 0;
    for (index, is_resize) in resizes.iter().enumerate() {
        match batch.on_event(*is_resize) {
            BatchStep::Hold => held = Some(index),
            BatchStep::Dispatch { held_first } => {
                if held_first {
                    dispatched.push(held.take().unwrap());
                }
                dispatched.push(index);
            }
        }
        if !batch.after_event(false) {
            break;
        }
        let more = pending[probes];
        probes += 1;
        batch.on_probe(more);
        if !more {
            break;
        }
    }
    if batch.finish() {
        dispatched.push(held.unwrap());
    }
    (dispatched, probes)
}

#[test]
fn queued_resize_burst_dispatches_only_the_final_dimensions() {
    let (dispatched, probes) = run_batch(&[true, true, true], &[true, true, false]);
    assert_eq!(dispatched, [2]);
    assert_eq!(probes, 3);
}

#[test]
fn queued_non_resize_events_preserve_order_and_each_post_read_sample() {
    let (dispatched, _) = run_batch(&[false, false, false], &[true, true, false]);
    assert_eq!(dispatched, [0, 1, 2]);
}

#[test]
fn a_held_resize_is_dispatched_before_the_next_other_event() {
    let (dispatched, _) = run_batch(&[true, true, false, true], &[true, true, true, false]);
    assert_eq!(dispatched, [1, 2, 3]);
}

#[test]
fn ready_event_batch_is_bounded_before_the_next_paint() {
    let resizes = vec![false; MAX_EVENT_BATCH + 5];
    let pending = vec![true; MAX_EVENT_BATCH + 5];
    let (dispatched, probes) = run_batch(&resizes, &pending);
    assert_eq!(dispatched.len(), MAX_EVENT_BATCH);
    assert_eq!(probes, MAX_EVENT_BATCH - 1);
}

#[test]
fn quitting_ends_the_batch_without_a_probe() {
    let mut batch = EventBatch::new();
    assert_eq!(batch.on_event(false), BatchStep::Dispatch { held_first: false });
    assert!(!batch.after_event(true));
    assert!(!batch.finish());
}

#[test]
fn draw_if_requested_paints_only_when_owed_and_passes_errors_on() {
    let mut scheduler = RedrawScheduler::initial();
    let mut draws = 0;
    assert_eq!(scheduler.draw_if_requested(|| -> Result<(), String> { draws += 1; Ok(()) }), Ok(true));
    assert_eq!(scheduler.draw_if_requested(|| -> Result<(), String> { draws += 1; Ok(()) }), Ok(false));
    assert_eq!(draws, 1);
    scheduler.request(true);
    assert_eq!(
        scheduler.draw_if_requested(|| Err("forced draw failure".to_string())),
        Err("forced draw failure".to_string())
    );
    assert!(!scheduler.take());
}
