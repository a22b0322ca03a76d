//! Event-loop decisions: tick → conditional draw → poll-with-deadline →
//! dispatch.
//!
//! The poll waits at most `min(FRAME_BUDGET, deadline - now)`. Only key
//! presses, pastes, mouse and resize events are dispatched; a burst of
//! resize events is coalesced to its final dimensions. While the user is
//! idle, spell work runs in bounded slices that stop at the first pending
//! input or when the next timer deadline gets close.
//!
//! Times are monotonic nanoseconds on a clock chosen by the caller.

use vstd::prelude::*;
use crate::keys::Mode;
use crate::keymap::PendingAppInput;

verus! {

/// Maximum idle poll interval (50 ms).
pub const FRAME_BUDGET: u64 = 50_000_000;

/// Required pause after the most recent input before spell work (150 ms).
pub const SPELL_IDLE_DELAY: u64 = 150_000_000;

/// Maximum wall-clock slice reserved for one idle drain (8 ms).
pub const SPELL_SLICE_BUDGET: u64 = 8_000_000;

/// Deterministic byte unit shared by file loading, engine building and scans.
pub const SPELL_WORK_UNIT_BYTES: usize = 4 * 1024;

/// Maximum ready events handled before presentation gets another chance.
pub const MAX_EVENT_BATCH: usize = 32;

/// Delay after a Space prefix before the which-key hint shows (150 ms).
pub const WHICH_KEY_DELAY: u64 = 150_000_000;

/// `a - b`, or zero.
pub open spec fn sat_sub(a: int, b: int) -> int {
    if a > b { a - b } else { 0 }
}

/// How long to poll for input: until the deadline, but at most one frame
/// budget; an already-due deadline polls for zero.
pub fn poll_duration(now: u64, deadline: Option<u64>) -> (r: u64)
    ensures
        r == (match deadline {
            Some(d) => if sat_sub(d as int, now as int) < FRAME_BUDGET { sat_sub(d as int, now as int) } else { FRAME_BUDGET as int },
            None => FRAME_BUDGET as int,
        }),
        r <= FRAME_BUDGET,
{
    match deadline {
        Some(d) => {
            let left = d.saturating_sub(now);
            if left < FRAME_BUDGET { left } else { FRAME_BUDGET }
        },
        None => FRAME_BUDGET,
    }
}

/// Whether a paint is owed. The first frame is always painted; afterwards
/// only an explicit request (input, timer, resize, idle work) paints.
#[derive(Clone, Copy, Debug, Eq, PartialEq, Structural)]
pub struct RedrawScheduler {
    pub pending: bool,
}

impl RedrawScheduler {
    /// A scheduler owing the initial frame.
    pub fn initial() -> (r: Self)
        ensures
            r.pending,
    {
        RedrawScheduler { pending: true }
    }

    /// Add a paint request.
    pub fn request(&mut self, redraw: bool)
        ensures
            final(self).pending == (old(self).pending || redraw),
    {
        self.pending = self.pending || redraw;
    }

    /// Whether to paint now; clears the request.
    pub fn take(&mut self) -> (r: bool)
        ensures
            r == old(self).pending,
            !final(self).pending,
    {
        let r = self.pending;
        self.pending = false;
        r
    }

    /// Paint with `draw` if a paint is owed; reports whether it painted and
    /// passes a drawing error on. The request is cleared either way.
    pub fn draw_if_requested<E, F: FnOnce() -> Result<(), E>>(&mut self, draw: F) -> (r: Result<bool, E>)
        requires
            call_requires(draw, ()),
        ensures
            !final(self).pending,
            !old(self).pending ==> r == Ok::<bool, E>(false),
            old(self).pending ==> exists|drawn: Result<(), E>| {
                &&& call_ensures(draw, (), drawn)
                &&& match drawn {
                    Ok(_) => r == Ok::<bool, E>(true),
                    Err(e) => r == Err::<bool, E>(e),
                }
            },
    {
        if !self.take() {
            return Ok(false);
        }
        let result = draw();
        match result {
            Ok(_) => Ok(true),
            Err(e) => Err(e),
        }
    }
}

/// The terminal cursor shape for a mode.
#[derive(Clone, Copy, Debug, Eq, PartialEq, Structural)]
pub enum ModeCursorShape {
    Block,
    Bar,
    Underscore,
}

/// A block in Normal, a bar in Insert and Command, an underscore in
/// Select; always a block when shapes are disabled.
pub open spec fn spec_cursor_shape(mode: Mode, cursor_shapes: bool) -> ModeCursorShape {
    if !cursor_shapes {
        ModeCursorShape::Block
    } else {
        match mode {
            Mode::Normal => ModeCursorShape::Block,
            Mode::Insert => ModeCursorShape::Bar,
            Mode::Command => ModeCursorShape::Bar,
            Mode::Select => ModeCursorShape::Underscore,
        }
    }
}

/// The cursor shape for a mode.
pub fn cursor_shape(mode: Mode, cursor_shapes: bool) -> (r: ModeCursorShape)
    ensures
        r == spec_cursor_shape(mode, cursor_shapes),
{
    if !cursor_shapes {
        return ModeCursorShape::Block;
    }
    match mode {
        Mode::Normal => ModeCursorShape::Block,
        Mode::Insert => ModeCursorShape::Bar,
        Mode::Command => ModeCursorShape::Bar,
        Mode::Select => ModeCursorShape::Underscore,
    }
}

/// The shape to emit before a paint, if it differs from the last emitted
/// one; the caller records it as emitted once the command is written.
pub fn cursor_shape_change(last: Option<ModeCursorShape>, mode: Mode, cursor_shapes: bool) -> (r: Option<ModeCursorShape>)
    ensures
        r == (if last == Some(spec_cursor_shape(mode, cursor_shapes)) {
            None
        } else {
            Some(spec_cursor_shape(mode, cursor_shapes))
        }),
{
    let shape = cursor_shape(mode, cursor_shapes);
    match last {
        Some(previous) => if previous == shape {
            None
        } else {
            Some(shape)
        },
        None => Some(shape),
    }
}

/// Whether more than one spell slice still fits before the deadline.
pub fn deadline_has_slice_slack(deadline: Option<u64>, now: u64) -> (r: bool)
    ensures
        r == (match deadline {
            Some(d) => sat_sub(d as int, now as int) > SPELL_SLICE_BUDGET,
            None => true,
        }),
{
    match deadline {
        Some(d) => d.saturating_sub(now) > SPELL_SLICE_BUDGET,
        None => true,
    }
}

/// Whether the user has been idle for at least `duration` since
/// `last_input`.
pub fn input_idle_for(last_input: u64, now: u64, duration: u64) -> (r: bool)
    ensures
        r == (sat_sub(now as int, last_input as int) >= duration),
{
    now.saturating_sub(last_input) >= duration
}

/// Whether an idle drain may start on a poll timeout: the user must have
/// been idle for the full delay and the next deadline leave room for a
/// slice.
pub fn idle_drain_may_start(last_input: u64, wake_now: u64, deadline: Option<u64>) -> (r: bool)
    ensures
        r == (sat_sub(wake_now as int, last_input as int) >= SPELL_IDLE_DELAY && (match deadline {
            Some(d) => sat_sub(d as int, wake_now as int) > SPELL_SLICE_BUDGET,
            None => true,
        })),
{
    input_idle_for(last_input, wake_now, SPELL_IDLE_DELAY) && deadline_has_slice_slack(deadline, wake_now)
}

/// Whether an idle drain that started at `wake_now` may run another unit
/// at `now` (no input is pending): the slice must not be used up and the
/// deadline must still leave room.
pub fn idle_drain_continues(wake_now: u64, now: u64, deadline: Option<u64>) -> (r: bool)
    requires
        wake_now + SPELL_SLICE_BUDGET <= u64::MAX,
    ensures
        r == (now < wake_now + SPELL_SLICE_BUDGET && (match deadline {
            Some(d) => sat_sub(d as int, now as int) > SPELL_SLICE_BUDGET,
            None => true,
        })),
{
    let slice_end = wake_now + SPELL_SLICE_BUDGET;
    now < slice_end && deadline_has_slice_slack(deadline, now)
}

/// The next poll deadline: the earlier of the status message's expiry and
/// the which-key delay after a pending Space; none when that is already
/// past.
pub open spec fn spec_tick_deadline(now: u64, transient_expires_at: Option<u64>, pending: PendingAppInput) -> Option<u64> {
    let which_key: Option<int> = match pending {
        PendingAppInput::Space { since } => Some(since + WHICH_KEY_DELAY),
        PendingAppInput::Idle => None,
    };
    let earliest: Option<int> = match (transient_expires_at, which_key) {
        (Some(t), Some(w)) => Some(if t < w { t as int } else { w }),
        (Some(t), None) => Some(t as int),
        (None, Some(w)) => Some(w),
        (None, None) => None,
    };
    match earliest {
        Some(e) => if e >= now { Some(e as u64) } else { None },
        None => None,
    }
}

/// The next poll deadline (see `spec_tick_deadline`).
pub fn tick_deadline(now: u64, transient_expires_at: Option<u64>, pending: PendingAppInput) -> (r: Option<u64>)
    requires
        pending matches PendingAppInput::Space { since } ==> since + WHICH_KEY_DELAY <= u64::MAX,
    ensures
        r == spec_tick_deadline(now, transient_expires_at, pending),
{
    let which_key = match pending {
        PendingAppInput::Space { since } => Some(since + WHICH_KEY_DELAY),
        PendingAppInput::Idle => None,
    };
    let earliest = match (transient_expires_at, which_key) {
        (Some(t), Some(w)) => Some(if t < w { t } else { w }),
        (Some(t), None) => Some(t),
        (None, Some(w)) => Some(w),
        (None, None) => None,
    };
    match earliest {
        Some(e) => if e >= now { Some(e) } else { None },
        None => None,
    }
}

/// The kind of a terminal event, as far as dispatch cares.
#[derive(Clone, Copy, Debug, Eq, PartialEq, Structural)]
pub enum TerminalEventKind {
    KeyPress,
    /// A key release or repeat report.
    KeyOther,
    Paste,
    Mouse,
    Resize,
    /// Focus gained or lost.
    Focus,
}

/// Whether an event reaches the App (and so asks for a paint): key
/// presses, pastes, mouse and resize events do; the rest are ignored.
pub fn dispatches(kind: TerminalEventKind) -> (r: bool)
    ensures
        r == (kind == TerminalEventKind::KeyPress || kind == TerminalEventKind::Paste
            || kind == TerminalEventKind::Mouse || kind == TerminalEventKind::Resize),
{
    match kind {
        TerminalEventKind::KeyPress => true,
        TerminalEventKind::Paste => true,
        TerminalEventKind::Mouse => true,
        TerminalEventKind::Resize => true,
        TerminalEventKind::KeyOther => false,
        TerminalEventKind::Focus => false,
    }
}

/// The positions of the events that a batch dispatches, given which events
/// were resizes: every non-resize event, and of each run of consecutive
/// resizes only the last.
pub open spec fn spec_coalesced(resizes: Seq<bool>) -> Seq<int>
    decreases resizes.len(),
{
    if resizes.len() == 0 {
        Seq::empty()
    } else {
        let prefix = resizes.drop_last();
        let before = spec_coalesced(prefix);
        let last = resizes.len() - 1;
        if resizes.last() && prefix.len() > 0 && prefix.last() {
            before.drop_last().push(last)
        } else {
            before.push(last)
        }
    }
}

/// What to do with an event just read in a batch.
#[derive(Clone, Copy, Debug, Eq, PartialEq, Structural)]
pub enum BatchStep {
    /// A resize: hold it (replacing any held one) until the batch ends or
    /// another kind of event arrives.
    Hold,
    /// Dispatch it; when `held_first`, dispatch the held resize before it.
    Dispatch { held_first: bool },
}

/// One batch of ready events, read one at a time.
pub struct EventBatch {
    read: usize,
    held_resize: bool,
    done: bool,
    seen: Ghost<Seq<bool>>,
    dispatched: Ghost<Seq<int>>,
}

impl EventBatch {
    /// Well-formedness: what was dispatched plus the held resize is the
    /// coalesced order of what was read.
    pub closed spec fn wf(self) -> bool {
        &&& self.read == self.seen@.len()
        &&& self.read <= MAX_EVENT_BATCH
        &&& self.held_resize == (self.seen@.len() > 0 && self.seen@.last())
        &&& if self.held_resize {
            self.dispatched@.push(self.seen@.len() - 1) == spec_coalesced(self.seen@)
        } else {
            self.dispatched@ == spec_coalesced(self.seen@)
        }
    }

    /// Which of the events read so far were resizes.
    pub closed spec fn spec_seen(self) -> Seq<bool> {
        self.seen@
    }

    /// The positions dispatched so far, in order.
    pub closed spec fn spec_dispatched(self) -> Seq<int> {
        self.dispatched@
    }

    /// Whether the batch has ended.
    pub closed spec fn spec_done(self) -> bool {
        self.done
    }

    /// Whether a resize is held.
    pub closed spec fn spec_holding(self) -> bool {
        self.held_resize
    }

    /// A fresh batch.
    pub fn new() -> (r: Self)
        ensures
            r.wf(),
            r.spec_seen().len() == 0,
            !r.spec_done(),
    {
        EventBatch { read: 0, held_resize: false, done: false, seen: Ghost(Seq::empty()), dispatched: Ghost(Seq::empty()) }
    }

    /// An event was read: hold a resize, or dispatch anything else (after
    /// the held resize, if any).
    pub fn on_event(&mut self, is_resize: bool) -> (r: BatchStep)
        requires
            old(self).wf(),
            !old(self).spec_done(),
            old(self).spec_seen().len() < MAX_EVENT_BATCH,
        ensures
            final(self).wf(),
            !final(self).spec_done(),
            final(self).spec_seen() == old(self).spec_seen().push(is_resize),
            is_resize ==> r == BatchStep::Hold,
            !is_resize ==> r == (BatchStep::Dispatch { held_first: old(self).spec_holding() }),
    {
        let ghost n = self.seen@.len();
        let ghost s2 = self.seen@.push(is_resize);
        proof {
            assert(s2.drop_last() =~= self.seen@);
        }
        if is_resize {
            self.seen = Ghost(s2);
            self.read = self.read + 1;
            if self.held_resize {
                proof {
                    let c = spec_coalesced(s2.drop_last());
                    assert(c.drop_last() =~= self.dispatched@);
                }
            }
            self.held_resize = true;
            BatchStep::Hold
        } else {
            let held = self.held_resize;
            proof {
                let d = if held { self.dispatched@.push(n - 1) } else { self.dispatched@ };
                self.dispatched = Ghost(d.push(n as int));
            }
            self.seen = Ghost(s2);
            self.read = self.read + 1;
            self.held_resize = false;
            BatchStep::Dispatch { held_first: held }
        }
    }

    /// After dispatching: whether to probe for more pending input. The batch
    /// ends when the App asked to quit or the batch is full.
    pub fn after_event(&mut self, should_quit: bool) -> (r: bool)
        requires
            old(self).wf(),
            !old(self).spec_done(),
        ensures
            final(self).wf(),
            final(self).spec_seen() == old(self).spec_seen(),
            final(self).spec_dispatched() == old(self).spec_dispatched(),
            final(self).spec_holding() == old(self).spec_holding(),
            r == !(should_quit || old(self).spec_seen().len() >= MAX_EVENT_BATCH),
            final(self).spec_done() == !r,
    {
        if should_quit || self.read >= MAX_EVENT_BATCH {
            self.done = true;
            false
        } else {
            true
        }
    }

    /// The probe's answer: without pending input the batch ends.
    pub fn on_probe(&mut self, input_pending: bool)
        requires
            old(self).wf(),
        ensures
            final(self).wf(),
            final(self).spec_seen() == old(self).spec_seen(),
            final(self).spec_dispatched() == old(self).spec_dispatched(),
            final(self).spec_holding() == old(self).spec_holding(),
            final(self).spec_done() == (old(self).spec_done() || !input_pending),
    {
        if !input_pending {
            self.done = true;
        }
    }

    /// End the batch: whether the held resize must still be dispatched.
    /// Dispatching it completes the coalesced order of all events read.
    pub fn finish(self) -> (r: bool)
        requires
            self.wf(),
        ensures
            r == self.spec_holding(),
            r ==> self.spec_dispatched().push(self.spec_seen().len() - 1) == spec_coalesced(self.spec_seen()),
            !r ==> self.spec_dispatched() == spec_coalesced(self.spec_seen()),
    {
        self.held_resize
    }
}

} // verus!
