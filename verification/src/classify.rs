//! The pure rules of the engine: which action an event is, the burst and jump
//! detectors, the precedence ladder and the cadence overlay.

use vstd::prelude::*;
use crate::caret_monitor::{
    hint_text, CaretPrimaryState, EventKind, MonitorStats, SelectionFacet, Thresholds,
};
use crate::text::{contains_text, mentions, same_text};

verus! {

/// `hint` is present and is exactly `word`.
pub open spec fn hint_is(hint: Option<Seq<char>>, word: Seq<char>) -> bool {
    hint == Some(word)
}

/// `a + b`, stopping at the largest `u64`.
pub open spec fn sat_add(a: u64, b: u64) -> u64 {
    if a + b > u64::MAX {
        u64::MAX
    } else {
        (a + b) as u64
    }
}

/// Time elapsed from `then` to `now`; a `now` that lies before `then` counts
/// as no time at all.
pub open spec fn elapsed(now: u64, then: u64) -> u64 {
    if now >= then {
        (now - then) as u64
    } else {
        0
    }
}

/// A counter one step on, stopping at the largest `u64`.
pub open spec fn bump(n: u64) -> u64 {
    if n < u64::MAX {
        (n + 1) as u64
    } else {
        n
    }
}

/// A 32-bit counter one step on, stopping at the largest `u32`.
pub open spec fn bump32(n: u32) -> u32 {
    if n < u32::MAX {
        (n + 1) as u32
    } else {
        n
    }
}

/// A delete: the hint names a delete operation, whatever the event kind.
pub open spec fn is_delete_action(kind: EventKind, hint: Option<Seq<char>>) -> bool {
    hint matches Some(t) && mentions(t, "delete"@)
}

/// A paste: a paste event, or any event hinted `insertFromPaste`.
pub open spec fn is_paste_action(kind: EventKind, hint: Option<Seq<char>>) -> bool {
    kind == EventKind::Paste || hint_is(hint, "insertFromPaste"@)
}

/// A cut: a cut event.
pub open spec fn is_cut_action(kind: EventKind) -> bool {
    kind == EventKind::Cut
}

/// An undo or redo: by kind, or hinted `historyUndo` / `historyRedo`.
pub open spec fn is_undo_redo(kind: EventKind, hint: Option<Seq<char>>) -> bool {
    kind == EventKind::Undo || kind == EventKind::Redo || hint_is(hint, "historyUndo"@) || hint_is(
        hint,
        "historyRedo"@,
    )
}

/// Key-down, before-input, input and composition-update count as typing.
pub open spec fn is_typingish(kind: EventKind) -> bool {
    kind == EventKind::Input || kind == EventKind::BeforeInput || kind
        == EventKind::CompositionUpdate || kind == EventKind::KeyDown
}

/// A selection is active when it is not collapsed and spans at least one
/// character.
pub open spec fn selection_active(selection: SelectionFacet) -> bool {
    !selection.collapsed && selection.end > selection.start
}

/// The caret moved at least `threshold` characters, in either direction.
pub open spec fn caret_jump(prev: u32, next: u32, threshold: u32) -> bool {
    (if next >= prev {
        next - prev
    } else {
        prev - next
    }) >= threshold
}

/// The delete counter after a delete at `now`: one more when the previous
/// delete lies within the window, else a fresh count of one.
pub open spec fn delete_count_after(
    count: u32,
    last_delete_ms: u64,
    now: u64,
    window_ms: u64,
) -> u32 {
    if elapsed(now, last_delete_ms) <= window_ms {
        bump32(count)
    } else {
        1
    }
}

/// The keystroke-burst length after a typing sample: `1` for the first
/// sample of a session or after a gap longer than the short pause, else one
/// more than before.
pub open spec fn burst_len_after(current: u32, interval: Option<u64>, short_pause_ms: u64) -> u32 {
    match interval {
        Some(dt) => if dt <= short_pause_ms {
            bump32(current)
        } else {
            1
        },
        None => 1,
    }
}

/// What the detectors find in one event.
pub struct Observation {
    pub paste: bool,
    pub cut: bool,
    pub undo_redo: bool,
    pub delete: bool,
    /// The event is a delete that completes a burst.
    pub delete_burst: bool,
    /// The event counts as a typing sample.
    pub typing_sample: bool,
    /// Time since the previous typing sample, for a typing sample that has one.
    pub key_interval: Option<u64>,
    pub caret_jump: bool,
    /// The decay deadline once the event is in.
    pub decay_until_ms: u64,
    /// The delete counter once the event is in.
    pub delete_count: u32,
}

/// The statistics after an event with observation `o`, but for the count of
/// emitted snapshots. A paste that is also a cut counts as a paste only.
pub open spec fn tally(stats: MonitorStats, o: Observation, short_pause_ms: u64) -> MonitorStats {
    let burst_len = if o.typing_sample {
        burst_len_after(stats.burst_len_current, o.key_interval, short_pause_ms)
    } else {
        stats.burst_len_current
    };
    MonitorStats {
        events_processed: bump(stats.events_processed),
        snapshots_emitted: stats.snapshots_emitted,
        deletes_seen: if o.delete {
            bump(stats.deletes_seen)
        } else {
            stats.deletes_seen
        },
        delete_bursts: if o.delete_burst {
            bump(stats.delete_bursts)
        } else {
            stats.delete_bursts
        },
        pastes: if o.paste {
            bump(stats.pastes)
        } else {
            stats.pastes
        },
        cuts: if o.cut && !o.paste {
            bump(stats.cuts)
        } else {
            stats.cuts
        },
        undos_redos: if o.undo_redo {
            bump(stats.undos_redos)
        } else {
            stats.undos_redos
        },
        caret_jumps: if o.caret_jump {
            bump(stats.caret_jumps)
        } else {
            stats.caret_jumps
        },
        keystrokes: if o.typing_sample {
            bump(stats.keystrokes)
        } else {
            stats.keystrokes
        },
        burst_len_current: burst_len,
        burst_len_max: if burst_len > stats.burst_len_max {
            burst_len
        } else {
            stats.burst_len_max
        },
    }
}

/// What one event contributes to the precedence ladder.
pub struct LadderInput {
    pub blocked: bool,
    pub ime_active: bool,
    pub in_decay: bool,
    pub delete_burst: bool,
    pub caret_jump: bool,
    pub typing_active: bool,
    pub selection_active: bool,
    pub focus_out: bool,
    /// What stands for the four action states; all of it is off unless the
    /// engine gives actions states of their own.
    pub actions: ActionMarks,
}

/// What an event contributes to the action states `Cut`, `UndoRedo`, `Drop`
/// and `Autocorrect`.
#[derive(Debug, Copy, Clone, PartialEq, Eq, Structural)]
pub struct ActionMarks {
    /// The decay window in force was opened by a cut.
    pub cut_window: bool,
    pub undo_redo: bool,
    pub drop: bool,
    pub autocorrect: bool,
}

impl ActionMarks {
    /// No action mark: the ladder produces none of the four action states.
    pub open spec fn none() -> ActionMarks {
        ActionMarks { cut_window: false, undo_redo: false, drop: false, autocorrect: false }
    }
}

/// The precedence ladder, first match wins: blocked, composing, pasted,
/// delete burst, caret jump, typing, selection, then blur or idle.
///
/// `Cut`, `UndoRedo`, `Drop` and `Autocorrect` belong to the vocabulary, and
/// with no action marks they are never produced: cut, undo, redo, drop and
/// autocorrect events are counted, and a cut opens the same decay window as a
/// paste. Whether that is meant is an open question of the design, so it can
/// be switched: with action marks, a decay window opened by a cut gives `Cut`
/// in place of `Pasted`, and an undo or redo, a drop and an autocorrect give
/// their own state on the event itself, right below the decay window and
/// above the delete burst.
pub open spec fn ladder(i: LadderInput) -> CaretPrimaryState {
    if i.blocked {
        CaretPrimaryState::Blocked
    } else if i.ime_active {
        CaretPrimaryState::ImeComposing
    } else if i.in_decay {
        if i.actions.cut_window {
            CaretPrimaryState::Cut
        } else {
            CaretPrimaryState::Pasted
        }
    } else if i.actions.undo_redo {
        CaretPrimaryState::UndoRedo
    } else if i.actions.drop {
        CaretPrimaryState::Drop
    } else if i.actions.autocorrect {
        CaretPrimaryState::Autocorrect
    } else if i.delete_burst {
        CaretPrimaryState::DeleteBurst
    } else if i.caret_jump {
        CaretPrimaryState::CaretJump
    } else if i.typing_active {
        CaretPrimaryState::Typing
    } else if i.selection_active {
        CaretPrimaryState::SelectionActive
    } else if i.focus_out {
        CaretPrimaryState::Blur
    } else {
        CaretPrimaryState::ActiveIdle
    }
}

/// The states on which the overlay acts; every other state passes through.
pub open spec fn is_cadence_state(s: CaretPrimaryState) -> bool {
    s == CaretPrimaryState::Typing || s == CaretPrimaryState::ActiveIdle || s
        == CaretPrimaryState::ShortPause
}

/// The cadence overlay: a typing, idle or short-pause base becomes
/// `LongPause` or `ShortPause` once that much time has passed since the last
/// typing sample; before that a typing base stays `Typing` and the others
/// become `ActiveIdle`. Every other base is returned as it is.
pub open spec fn overlay(
    base: CaretPrimaryState,
    now: u64,
    last_typing_ms: u64,
    t: Thresholds,
) -> CaretPrimaryState {
    if is_cadence_state(base) {
        if elapsed(now, last_typing_ms) >= t.long_pause_ms {
            CaretPrimaryState::LongPause
        } else if elapsed(now, last_typing_ms) >= t.short_pause_ms {
            CaretPrimaryState::ShortPause
        } else if base == CaretPrimaryState::Typing {
            CaretPrimaryState::Typing
        } else {
            CaretPrimaryState::ActiveIdle
        }
    } else {
        base
    }
}

fn hint_equals(hint: &Option<String>, word: &str) -> (r: bool)
    ensures
        r == hint_is(
            hint_text(*hint),
            word@,
        ),
{
    match hint {
        Some(t) => same_text(t.as_str(), word),
        None => false,
    }
}

/// Whether the event is a delete.
pub fn delete_action(kind: EventKind, hint: &Option<String>) -> (r: bool)
    ensures
        r == is_delete_action(
            kind,
            hint_text(*hint),
        ),
{
    match hint {
        Some(t) => contains_text(t.as_str(), "delete"),
        None => false,
    }
}

/// Whether the event is a paste.
pub fn paste_action(kind: EventKind, hint: &Option<String>) -> (r: bool)
    ensures
        r == is_paste_action(
            kind,
            hint_text(*hint),
        ),
{
    kind == EventKind::Paste || hint_equals(hint, "insertFromPaste")
}

/// Whether the event is a cut.
pub fn cut_action(kind: EventKind) -> (r: bool)
    ensures
        r == is_cut_action(kind),
{
    kind == EventKind::Cut
}

/// Whether the event is an undo or a redo.
pub fn undo_redo_action(kind: EventKind, hint: &Option<String>) -> (r: bool)
    ensures
        r == is_undo_redo(
            kind,
            hint_text(*hint),
        ),
{
    kind == EventKind::Undo || kind == EventKind::Redo || hint_equals(hint, "historyUndo")
        || hint_equals(hint, "historyRedo")
}

/// Whether the event kind counts as typing.
pub fn typingish(kind: EventKind) -> (r: bool)
    ensures
        r == is_typingish(kind),
{
    kind == EventKind::Input || kind == EventKind::BeforeInput || kind
        == EventKind::CompositionUpdate || kind == EventKind::KeyDown
}

/// Whether the selection is active.
pub fn selection_is_active(selection: &SelectionFacet) -> (r: bool)
    ensures
        r == selection_active(*selection),
{
    !selection.collapsed && selection.end > selection.start
}

/// Whether a caret move from `prev` to `next` is a jump.
pub fn caret_jumped(prev: u32, next: u32, threshold: u32) -> (r: bool)
    ensures
        r == caret_jump(prev, next, threshold),
{
    let d: u32 = if next >= prev {
        next - prev
    } else {
        prev - next
    };
    d >= threshold
}

/// Runs the precedence ladder.
pub fn compute_primary(i: LadderInput) -> (r: CaretPrimaryState)
    ensures
        r == ladder(i),
{
    if i.blocked {
        return CaretPrimaryState::Blocked;
    }
    if i.ime_active {
        return CaretPrimaryState::ImeComposing;
    }
    if i.in_decay {
        return if i.actions.cut_window {
            CaretPrimaryState::Cut
        } else {
            CaretPrimaryState::Pasted
        };
    }
    if i.actions.undo_redo {
        return CaretPrimaryState::UndoRedo;
    }
    if i.actions.drop {
        return CaretPrimaryState::Drop;
    }
    if i.actions.autocorrect {
        return CaretPrimaryState::Autocorrect;
    }
    if i.delete_burst {
        return CaretPrimaryState::DeleteBurst;
    }
    if i.caret_jump {
        return CaretPrimaryState::CaretJump;
    }
    if i.typing_active {
        return CaretPrimaryState::Typing;
    }
    if i.selection_active {
        return CaretPrimaryState::SelectionActive;
    }
    if i.focus_out {
        CaretPrimaryState::Blur
    } else {
        CaretPrimaryState::ActiveIdle
    }
}

/// Applies the cadence overlay to a base state.
pub fn maybe_phase_overrides(
    base: CaretPrimaryState,
    now: u64,
    last_typing_ms: u64,
    t: &Thresholds,
) -> (r: CaretPrimaryState)
    ensures
        r == overlay(base, now, last_typing_ms, *t),
{
    match base {
        CaretPrimaryState::Blocked
        | CaretPrimaryState::ImeComposing
        | CaretPrimaryState::Pasted
        | CaretPrimaryState::Cut
        | CaretPrimaryState::DeleteBurst
        | CaretPrimaryState::SelectionActive
        | CaretPrimaryState::CaretJump
        | CaretPrimaryState::UndoRedo
        | CaretPrimaryState::Drop
        | CaretPrimaryState::Autocorrect
        | CaretPrimaryState::Blur
        | CaretPrimaryState::LongPause => base,
        CaretPrimaryState::Typing | CaretPrimaryState::ActiveIdle | CaretPrimaryState::ShortPause => {
            let since: u64 = now.saturating_sub(last_typing_ms);
            if since >= t.long_pause_ms {
                CaretPrimaryState::LongPause
            } else if since >= t.short_pause_ms {
                CaretPrimaryState::ShortPause
            } else if base == CaretPrimaryState::Typing {
                CaretPrimaryState::Typing
            } else {
                CaretPrimaryState::ActiveIdle
            }
        },
    }
}

fn bumped(n: u64) -> (r: u64)
    ensures
        r == bump(n),
{
    n.saturating_add(1)
}

fn bumped32(n: u32) -> (r: u32)
    ensures
        r == bump32(n),
{
    n.saturating_add(1)
}

/// The delete counter after a delete at `now`.
pub fn next_delete_count(count: u32, last_delete_ms: u64, now: u64, window_ms: u64) -> (r: u32)
    ensures
        r == delete_count_after(count, last_delete_ms, now, window_ms),
{
    if now.saturating_sub(last_delete_ms) <= window_ms {
        bumped32(count)
    } else {
        1
    }
}

/// Brings the statistics up to date with one event, but for the count of
/// emitted snapshots.
pub fn tally_event(stats: &MonitorStats, o: &Observation, short_pause_ms: u64) -> (r: MonitorStats)
    ensures
        r == tally(*stats, *o, short_pause_ms),
{
    let burst_len: u32 = if o.typing_sample {
        match o.key_interval {
            Some(dt) => if dt <= short_pause_ms {
                bumped32(stats.burst_len_current)
            } else {
                1
            },
            None => 1,
        }
    } else {
        stats.burst_len_current
    };
    MonitorStats {
        events_processed: bumped(stats.events_processed),
        snapshots_emitted: stats.snapshots_emitted,
        deletes_seen: if o.delete {
            bumped(stats.deletes_seen)
        } else {
            stats.deletes_seen
        },
        delete_bursts: if o.delete_burst {
            bumped(stats.delete_bursts)
        } else {
            stats.delete_bursts
        },
        pastes: if o.paste {
            bumped(stats.pastes)
        } else {
            stats.pastes
        },
        cuts: if o.cut && !o.paste {
            bumped(stats.cuts)
        } else {
            stats.cuts
        },
        undos_redos: if o.undo_redo {
            bumped(stats.undos_redos)
        } else {
            stats.undos_redos
        },
        caret_jumps: if o.caret_jump {
            bumped(stats.caret_jumps)
        } else {
            stats.caret_jumps
        },
        keystrokes: if o.typing_sample {
            bumped(stats.keystrokes)
        } else {
            stats.keystrokes
        },
        burst_len_current: burst_len,
        burst_len_max: if burst_len > stats.burst_len_max {
            burst_len
        } else {
            stats.burst_len_max
        },
    }
}

/// The overlay never touches a hard override: a base outside typing, idle
/// and short pause comes back unchanged, at every time and threshold.
pub proof fn lemma_overlay_keeps_overrides(
    base: CaretPrimaryState,
    now: u64,
    last_typing_ms: u64,
    t: Thresholds,
)
    requires
        !is_cadence_state(base),
    ensures
        overlay(base, now, last_typing_ms, t) == base,
{
}

/// Without action marks the ladder followed by the overlay never yields
/// `Cut`, `UndoRedo`, `Drop` or `Autocorrect`.
pub proof fn lemma_unused_states(i: LadderInput, now: u64, last_typing_ms: u64, t: Thresholds)
    requires
        i.actions == ActionMarks::none(),
    ensures
        ({
            let s = overlay(ladder(i), now, last_typing_ms, t);
            s != CaretPrimaryState::Cut && s != CaretPrimaryState::UndoRedo && s
                != CaretPrimaryState::Drop && s != CaretPrimaryState::Autocorrect
        }),
{
}

} // verus!
