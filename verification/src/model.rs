//! The engine as a mathematical state machine: its state, the state after an
//! event, after a flush and after a drain, and what holds of every run.

use vstd::prelude::*;
use crate::caret_monitor::{
    CaretPrimaryState, CaretSnapshot, DeviceTier, EventKind, EventView, MonitorStats, Thresholds,
};
use crate::classify::{
    bump, caret_jump, delete_count_after, elapsed, is_cadence_state, is_cut_action,
    is_delete_action, is_paste_action, is_typingish, is_undo_redo, ladder, overlay, sat_add,
    selection_active, tally, ActionMarks, LadderInput, Observation,
};
use crate::history::{keep_latest, recorded, RING_CAPACITY};

verus! {

/// Everything the engine remembers between calls.
pub ghost struct MonitorState {
    pub thresholds: Thresholds,
    pub device_tier: DeviceTier,
    /// The snapshot emitted last, or the initial one.
    pub last_snapshot: CaretSnapshot,
    /// The snapshots emitted and not yet drained, oldest first.
    pub history: Seq<CaretSnapshot>,
    pub stats: MonitorStats,
    pub last_activity_ms: u64,
    /// Time of the last typing sample; 0 before the first.
    pub last_typing_ms: u64,
    /// While the time is before this deadline the state is held at `Pasted`
    /// (or at `Cut`, where actions have states of their own).
    pub decay_until_ms: u64,
    pub last_delete_ms: u64,
    /// Deletes counted in the current burst window.
    pub delete_count: u32,
    pub last_caret: u32,
    /// Time of the previous typing sample, if there was one.
    pub last_key_ms: Option<u64>,
    /// Interval that the last `update` measured between two typing samples.
    pub last_key_interval: Option<u64>,
    /// Whether cut, undo/redo, drop and autocorrect get primary states of
    /// their own. Off unless the host switches it on.
    pub dedicated_states: bool,
    /// Whether the decay deadline was last set by a cut.
    pub decay_by_cut: bool,
}

impl MonitorState {
    /// A fresh engine.
    pub open spec fn initial(thresholds: Thresholds, device_tier: DeviceTier) -> MonitorState {
        MonitorState {
            thresholds,
            device_tier,
            last_snapshot: CaretSnapshot::initial(),
            history: Seq::empty(),
            stats: MonitorStats::zero(),
            last_activity_ms: 0,
            last_typing_ms: 0,
            decay_until_ms: 0,
            last_delete_ms: 0,
            delete_count: 0,
            last_caret: 0,
            last_key_ms: None,
            last_key_interval: None,
            dedicated_states: false,
            decay_by_cut: false,
        }
    }

    /// Whether the decay deadline, once `ev` is in, was last set by a cut.
    pub open spec fn decay_by_cut_after(self, ev: EventView) -> bool {
        if is_paste_action(ev.kind, ev.input_type) {
            false
        } else if is_cut_action(ev.kind) {
            true
        } else {
            self.decay_by_cut
        }
    }

    /// What `ev` contributes to the action states: nothing unless actions
    /// have states of their own.
    pub open spec fn action_marks(self, ev: EventView) -> ActionMarks {
        ActionMarks {
            cut_window: self.dedicated_states && self.decay_by_cut_after(ev),
            undo_redo: self.dedicated_states && is_undo_redo(ev.kind, ev.input_type),
            drop: self.dedicated_states && ev.kind == EventKind::Drop,
            autocorrect: self.dedicated_states && ev.kind == EventKind::Autocorrect,
        }
    }

    /// The decay deadline once `ev` is in: a paste or a cut moves it to the
    /// event's time plus the decay duration.
    pub open spec fn decay_after(self, ev: EventView) -> u64 {
        if is_paste_action(ev.kind, ev.input_type) || is_cut_action(ev.kind) {
            sat_add(ev.timestamp_ms, self.thresholds.decay_ms)
        } else {
            self.decay_until_ms
        }
    }

    /// The delete counter once `ev` is in.
    pub open spec fn delete_count_next(self, ev: EventView) -> u32 {
        if is_delete_action(ev.kind, ev.input_type) {
            delete_count_after(
                self.delete_count,
                self.last_delete_ms,
                ev.timestamp_ms,
                self.thresholds.delete_burst_window_ms,
            )
        } else {
            self.delete_count
        }
    }

    /// `ev` is a delete that brings the counter to the burst minimum.
    pub open spec fn declares_burst(self, ev: EventView) -> bool {
        is_delete_action(ev.kind, ev.input_type) && self.delete_count_next(ev)
            >= self.thresholds.delete_burst_min
    }

    /// `ev` is a typing sample: typing-ish, no burst, outside the decay window.
    pub open spec fn is_typing_sample(self, ev: EventView) -> bool {
        is_typingish(ev.kind) && !self.declares_burst(ev) && ev.timestamp_ms >= self.decay_after(ev)
    }

    /// The interval that a typing sample measures to the sample before it.
    pub open spec fn key_interval(self, ev: EventView) -> Option<u64> {
        if self.is_typing_sample(ev) {
            match self.last_key_ms {
                Some(k) => Some(elapsed(ev.timestamp_ms, k)),
                None => None,
            }
        } else {
            None
        }
    }

    /// `ev` has a collapsed selection whose caret lies a jump away from the
    /// previous event's caret.
    pub open spec fn declares_jump(self, ev: EventView) -> bool {
        ev.selection.collapsed && caret_jump(
            self.last_caret,
            ev.caret,
            self.thresholds.jump_threshold_chars,
        )
    }

    /// Time of the last typing sample once `ev` is in.
    pub open spec fn last_typing_after(self, ev: EventView) -> u64 {
        if self.is_typing_sample(ev) {
            ev.timestamp_ms
        } else {
            self.last_typing_ms
        }
    }

    /// What `ev` contributes to the precedence ladder.
    pub open spec fn ladder_input(self, ev: EventView) -> LadderInput {
        LadderInput {
            blocked: ev.blocked,
            ime_active: ev.ime_active,
            in_decay: ev.timestamp_ms < self.decay_after(ev),
            delete_burst: self.declares_burst(ev),
            caret_jump: self.declares_jump(ev),
            typing_active: self.is_typing_sample(ev),
            selection_active: selection_active(ev.selection),
            focus_out: ev.kind == EventKind::FocusOut,
            actions: self.action_marks(ev),
        }
    }

    /// The primary state that `ev` leads to: ladder, then overlay.
    pub open spec fn derived_primary(self, ev: EventView) -> CaretPrimaryState {
        overlay(
            ladder(self.ladder_input(ev)),
            ev.timestamp_ms,
            self.last_typing_after(ev),
            self.thresholds,
        )
    }

    /// The snapshot that `ev` leads to.
    pub open spec fn derived_snapshot(self, ev: EventView) -> CaretSnapshot {
        CaretSnapshot {
            primary: self.derived_primary(ev),
            input_modality: ev.input_modality,
            field_kind: ev.field_kind,
            selection: ev.selection,
            ime_active: ev.ime_active,
            blocked: ev.blocked,
            caret: ev.caret,
            text_len: ev.text_len,
            device_tier: self.device_tier,
            timestamp_ms: ev.timestamp_ms,
        }
    }

    /// `ev` emits: its snapshot differs from the last one in some field other
    /// than the timestamp.
    pub open spec fn update_emits(self, ev: EventView) -> bool {
        !self.derived_snapshot(ev).same_fields(self.last_snapshot)
    }

    /// What the detectors find in `ev`.
    pub open spec fn observe(self, ev: EventView) -> Observation {
        Observation {
            paste: is_paste_action(ev.kind, ev.input_type),
            cut: is_cut_action(ev.kind),
            undo_redo: is_undo_redo(ev.kind, ev.input_type),
            delete: is_delete_action(ev.kind, ev.input_type),
            delete_burst: self.declares_burst(ev),
            typing_sample: self.is_typing_sample(ev),
            key_interval: self.key_interval(ev),
            caret_jump: self.declares_jump(ev),
            decay_until_ms: self.decay_after(ev),
            delete_count: self.delete_count_next(ev),
        }
    }

    /// The statistics once `ev` is in.
    pub open spec fn stats_after(self, ev: EventView) -> MonitorStats {
        let counted = tally(self.stats, self.observe(ev), self.thresholds.short_pause_ms);
        MonitorStats {
            snapshots_emitted: if self.update_emits(ev) {
                bump(self.stats.snapshots_emitted)
            } else {
                self.stats.snapshots_emitted
            },
            ..counted
        }
    }

    /// The state after `update(ev)`.
    pub open spec fn after_update(self, ev: EventView) -> MonitorState {
        let emits = self.update_emits(ev);
        let snap = self.derived_snapshot(ev);
        let sample = self.is_typing_sample(ev);
        MonitorState {
            thresholds: self.thresholds,
            device_tier: self.device_tier,
            last_snapshot: if emits {
                snap
            } else {
                self.last_snapshot
            },
            history: if emits {
                recorded(self.history, snap)
            } else {
                self.history
            },
            stats: self.stats_after(ev),
            last_activity_ms: ev.timestamp_ms,
            last_typing_ms: self.last_typing_after(ev),
            decay_until_ms: self.decay_after(ev),
            last_delete_ms: if is_delete_action(ev.kind, ev.input_type) {
                ev.timestamp_ms
            } else {
                self.last_delete_ms
            },
            delete_count: self.delete_count_next(ev),
            last_caret: ev.caret,
            last_key_ms: if sample {
                Some(ev.timestamp_ms)
            } else {
                self.last_key_ms
            },
            last_key_interval: self.key_interval(ev),
            dedicated_states: self.dedicated_states,
            decay_by_cut: self.decay_by_cut_after(ev),
        }
    }

    /// The base state of a flush at `now`, from the flags that the last
    /// snapshot holds and the decay deadline. Where actions have states of
    /// their own, a decay window opened by a cut gives `Cut`.
    pub open spec fn flush_base(self, now: u64) -> CaretPrimaryState {
        if self.last_snapshot.blocked {
            CaretPrimaryState::Blocked
        } else if self.last_snapshot.ime_active {
            CaretPrimaryState::ImeComposing
        } else if now < self.decay_until_ms {
            if self.dedicated_states && self.decay_by_cut {
                CaretPrimaryState::Cut
            } else {
                CaretPrimaryState::Pasted
            }
        } else if selection_active(self.last_snapshot.selection) {
            CaretPrimaryState::SelectionActive
        } else if self.last_snapshot.primary == CaretPrimaryState::Blur {
            CaretPrimaryState::Blur
        } else {
            CaretPrimaryState::ActiveIdle
        }
    }

    /// The primary state of a flush at `now`: base, then overlay.
    pub open spec fn flush_primary(self, now: u64) -> CaretPrimaryState {
        overlay(self.flush_base(now), now, self.last_typing_ms, self.thresholds)
    }

    /// A flush at `now` emits: its primary state differs from the last one.
    pub open spec fn flush_emits(self, now: u64) -> bool {
        self.flush_primary(now) != self.last_snapshot.primary
    }

    /// The state after `flush(now)`: on a change of primary state the last
    /// snapshot, moved to the new state and to `now`, is emitted; nothing
    /// else changes.
    pub open spec fn after_flush(self, now: u64) -> MonitorState {
        if self.flush_emits(now) {
            let snap = self.last_snapshot.retimed(self.flush_primary(now), now);
            MonitorState {
                last_snapshot: snap,
                history: recorded(self.history, snap),
                stats: MonitorStats {
                    snapshots_emitted: bump(self.stats.snapshots_emitted),
                    ..self.stats
                },
                ..self
            }
        } else {
            self
        }
    }

    /// The state after a drain: the history is empty, nothing else changes.
    pub open spec fn after_drain(self) -> MonitorState {
        MonitorState { history: Seq::empty(), ..self }
    }

    /// Every counter of `self` is at least what it is in `before`.
    pub open spec fn counters_at_least(self, before: MonitorState) -> bool {
        &&& self.stats.events_processed >= before.stats.events_processed
        &&& self.stats.snapshots_emitted >= before.stats.snapshots_emitted
        &&& self.stats.deletes_seen >= before.stats.deletes_seen
        &&& self.stats.delete_bursts >= before.stats.delete_bursts
        &&& self.stats.pastes >= before.stats.pastes
        &&& self.stats.cuts >= before.stats.cuts
        &&& self.stats.undos_redos >= before.stats.undos_redos
        &&& self.stats.caret_jumps >= before.stats.caret_jumps
        &&& self.stats.keystrokes >= before.stats.keystrokes
        &&& self.stats.burst_len_max >= before.stats.burst_len_max
    }
}

/// One call that can change the engine's state.
pub ghost enum Step {
    /// `update` with this event.
    Event(EventView),
    /// `flush` at this time.
    Tick(u64),
}

impl MonitorState {
    /// The state after one step.
    pub open spec fn after_step(self, step: Step) -> MonitorState {
        match step {
            Step::Event(ev) => self.after_update(ev),
            Step::Tick(now) => self.after_flush(now),
        }
    }

    /// What one step emits, if it emits.
    pub open spec fn emission(self, step: Step) -> Option<CaretSnapshot> {
        match step {
            Step::Event(ev) => if self.update_emits(ev) {
                Some(self.derived_snapshot(ev))
            } else {
                None
            },
            Step::Tick(now) => if self.flush_emits(now) {
                Some(self.last_snapshot.retimed(self.flush_primary(now), now))
            } else {
                None
            },
        }
    }

    /// The state after a run of steps without a drain in between.
    pub open spec fn after_run(self, steps: Seq<Step>) -> MonitorState
        decreases steps.len(),
    {
        if steps.len() == 0 {
            self
        } else {
            self.after_run(steps.drop_last()).after_step(steps.last())
        }
    }

    /// Everything that a run of steps emits, in order.
    pub open spec fn emissions(self, steps: Seq<Step>) -> Seq<CaretSnapshot>
        decreases steps.len(),
    {
        if steps.len() == 0 {
            Seq::empty()
        } else {
            let before = self.emissions(steps.drop_last());
            match self.after_run(steps.drop_last()).emission(steps.last()) {
                Some(snap) => before.push(snap),
                None => before,
            }
        }
    }
}

/// Comparing snapshots without their timestamps is an equivalence.
pub proof fn lemma_same_fields_equivalence(a: CaretSnapshot, b: CaretSnapshot, c: CaretSnapshot)
    ensures
        a.same_fields(a),
        a.same_fields(b) ==> b.same_fields(a),
        a.same_fields(b) && b.same_fields(c) ==> a.same_fields(c),
{
}

/// Two consecutive updates whose snapshots agree in every field but the
/// timestamp: the second one emits nothing, and history and last snapshot
/// stay as the first one left them.
pub proof fn lemma_repeated_snapshot_is_silent(s: MonitorState, first: EventView, second: EventView)
    requires
        s.derived_snapshot(first).same_fields(s.after_update(first).derived_snapshot(second)),
    ensures
        !s.after_update(first).update_emits(second),
        s.after_update(first).after_update(second).history == s.after_update(first).history,
        s.after_update(first).after_update(second).last_snapshot == s.after_update(
            first,
        ).last_snapshot,
        s.after_update(first).after_update(second).stats.snapshots_emitted == s.after_update(
            first,
        ).stats.snapshots_emitted,
{
}

/// An update emits at most one snapshot and keeps the history within its
/// capacity.
pub proof fn lemma_update_history(s: MonitorState, ev: EventView)
    requires
        s.history.len() <= RING_CAPACITY,
    ensures
        s.after_update(ev).history.len() <= RING_CAPACITY,
        s.update_emits(ev) ==> s.after_update(ev).history.len() > 0 && s.after_update(
            ev,
        ).history.last() == s.derived_snapshot(ev),
        !s.update_emits(ev) ==> s.after_update(ev).history == s.history,
{
}

/// A flush emits at most one snapshot and keeps the history within its
/// capacity; what it emits differs from the last snapshot in its primary
/// state, and in nothing else but the timestamp.
pub proof fn lemma_flush_history(s: MonitorState, now: u64)
    requires
        s.history.len() <= RING_CAPACITY,
    ensures
        s.after_flush(now).history.len() <= RING_CAPACITY,
        s.flush_emits(now) ==> s.after_flush(now).history.len() > 0 && s.after_flush(
            now,
        ).history.last() == s.last_snapshot.retimed(s.flush_primary(now), now),
        !s.flush_emits(now) ==> s.after_flush(now) == s,
{
}

/// A flush touches nothing but the emission: timers, detectors, settings
/// and every counter but that of emitted snapshots are as before.
pub proof fn lemma_flush_touches_only_emission(s: MonitorState, now: u64)
    ensures
        s.after_flush(now) == (MonitorState {
            last_snapshot: s.after_flush(now).last_snapshot,
            history: s.after_flush(now).history,
            stats: MonitorStats {
                snapshots_emitted: s.after_flush(now).stats.snapshots_emitted,
                ..s.stats
            },
            ..s
        }),
{
}

/// The history after a run of updates and flushes holds the newest
/// `RING_CAPACITY` of what was there before and what the run emitted, in the
/// order of emission; and the last snapshot is the newest emission.
pub proof fn lemma_run_history(s: MonitorState, steps: Seq<Step>)
    requires
        s.history.len() <= RING_CAPACITY,
    ensures
        s.after_run(steps).history == keep_latest(s.history + s.emissions(steps)),
        s.after_run(steps).history.len() <= RING_CAPACITY,
        s.emissions(steps).len() > 0 ==> s.after_run(steps).last_snapshot == s.emissions(
            steps,
        ).last(),
        s.emissions(steps).len() == 0 ==> s.after_run(steps).last_snapshot == s.last_snapshot,
    decreases steps.len(),
{
    if steps.len() == 0 {
        assert(s.history + s.emissions(steps) =~= s.history);
    } else {
        let init = steps.drop_last();
        lemma_run_history(s, init);
        let mid = s.after_run(init);
        match mid.emission(steps.last()) {
            Some(snap) => {
                assert(mid.after_step(steps.last()).history == recorded(mid.history, snap));
                assert((s.history + s.emissions(init)).push(snap) =~= s.history + s.emissions(
                    steps,
                ));
                assert(recorded(keep_latest(s.history + s.emissions(init)), snap) =~= keep_latest(
                    s.history + s.emissions(steps),
                ));
            },
            None => {
                assert(mid.after_step(steps.last()).history == mid.history);
            },
        }
    }
}

/// A run that starts with an empty history and emits one snapshot more than
/// the capacity leaves exactly `RING_CAPACITY` snapshots to drain: all but
/// the first that was emitted, the second being the oldest.
pub proof fn lemma_overflowing_run(s: MonitorState, steps: Seq<Step>)
    requires
        s.history.len() == 0,
        s.emissions(steps).len() == RING_CAPACITY + 1,
    ensures
        s.after_run(steps).history.len() == RING_CAPACITY,
        s.after_run(steps).history.first() == s.emissions(steps)[1],
        s.after_run(steps).history == s.emissions(steps).subrange(1, RING_CAPACITY + 1),
{
    lemma_run_history(s, steps);
    assert(s.history + s.emissions(steps) =~= s.emissions(steps));
}

/// A flush right after a flush at the same time emits nothing.
pub proof fn lemma_flush_settles(s: MonitorState, now: u64)
    ensures
        !s.after_flush(now).flush_emits(now),
        s.after_flush(now).after_flush(now) == s.after_flush(now),
{
    let t = s.after_flush(now);
    if s.flush_emits(now) {
        let p = s.flush_primary(now);
        let base = s.flush_base(now);
        // The flags and the deadline are unchanged, so only a base that
        // depended on the old primary state can differ.
        if base == CaretPrimaryState::Blur {
            assert(p == CaretPrimaryState::Blur);
        }
        assert(t.flush_primary(now) == p);
    }
}

/// A drain right after a drain finds the history empty.
pub proof fn lemma_second_drain_is_empty(s: MonitorState)
    ensures
        s.after_drain().history == Seq::<CaretSnapshot>::empty(),
        s.after_drain().after_drain() == s.after_drain(),
{
}

/// Statistics never go back: no update and no flush lowers a counter or the
/// longest keystroke burst, and a drain leaves them alone.
pub proof fn lemma_counters_monotone(s: MonitorState, ev: EventView, now: u64)
    ensures
        s.after_update(ev).counters_at_least(s),
        s.after_flush(now).counters_at_least(s),
        s.after_drain().stats == s.stats,
{
}

/// New thresholds and a new device tier do not touch the past: history and
/// last snapshot depend on them only through later updates and flushes.
pub proof fn lemma_update_keeps_settings(s: MonitorState, ev: EventView, now: u64)
    ensures
        s.after_update(ev).thresholds == s.thresholds,
        s.after_update(ev).device_tier == s.device_tier,
        s.after_flush(now).thresholds == s.thresholds,
        s.after_flush(now).device_tier == s.device_tier,
{
}

/// Precedence at the top of the ladder: a blocked event is `Blocked`; a
/// composing one that is not blocked is `ImeComposing`; otherwise an event
/// before the decay deadline is `Pasted`. Where actions have no states of
/// their own, delete burst and caret jump follow in that order.
pub proof fn lemma_hard_overrides(s: MonitorState, ev: EventView)
    ensures
        ev.blocked ==> s.derived_primary(ev) == CaretPrimaryState::Blocked,
        !ev.blocked && ev.ime_active ==> s.derived_primary(ev) == CaretPrimaryState::ImeComposing,
        !s.dedicated_states && !ev.blocked && !ev.ime_active && ev.timestamp_ms < s.decay_after(ev)
            ==> s.derived_primary(ev) == CaretPrimaryState::Pasted,
        !s.dedicated_states && !ev.blocked && !ev.ime_active && ev.timestamp_ms >= s.decay_after(ev)
            && s.declares_burst(ev) ==> s.derived_primary(ev) == CaretPrimaryState::DeleteBurst,
        !s.dedicated_states && !ev.blocked && !ev.ime_active && ev.timestamp_ms >= s.decay_after(ev)
            && !s.declares_burst(ev) && s.declares_jump(ev) ==> s.derived_primary(ev)
            == CaretPrimaryState::CaretJump,
{
}

/// Where actions have states of their own: inside the decay window the state
/// is `Cut` after a cut and `Pasted` after a paste, and outside it an undo or
/// redo, a drop and an autocorrect give their state, in that order. Blocked
/// and composing events come first as always.
pub proof fn lemma_dedicated_states(s: MonitorState, ev: EventView)
    requires
        s.dedicated_states,
        !ev.blocked,
        !ev.ime_active,
    ensures
        ev.timestamp_ms < s.decay_after(ev) ==> s.derived_primary(ev) == (if s.decay_by_cut_after(
            ev,
        ) {
            CaretPrimaryState::Cut
        } else {
            CaretPrimaryState::Pasted
        }),
        ev.timestamp_ms >= s.decay_after(ev) && is_undo_redo(ev.kind, ev.input_type)
            ==> s.derived_primary(ev) == CaretPrimaryState::UndoRedo,
        ev.timestamp_ms >= s.decay_after(ev) && !is_undo_redo(ev.kind, ev.input_type) && ev.kind
            == EventKind::Drop ==> s.derived_primary(ev) == CaretPrimaryState::Drop,
        ev.timestamp_ms >= s.decay_after(ev) && !is_undo_redo(ev.kind, ev.input_type) && ev.kind
            == EventKind::Autocorrect ==> s.derived_primary(ev) == CaretPrimaryState::Autocorrect,
{
}

/// Giving actions states of their own changes no counter and no timer: but
/// for the primary state of what is emitted, and with it whether something is
/// emitted, an update does the same either way.
pub proof fn lemma_dedicated_states_only_classify(s: MonitorState, ev: EventView)
    ensures
        ({
            let on = MonitorState { dedicated_states: true, ..s };
            let off = MonitorState { dedicated_states: false, ..s };
            &&& on.observe(ev) == off.observe(ev)
            &&& on.after_update(ev).decay_until_ms == off.after_update(ev).decay_until_ms
            &&& on.after_update(ev).decay_by_cut == off.after_update(ev).decay_by_cut
            &&& on.after_update(ev).last_typing_ms == off.after_update(ev).last_typing_ms
            &&& on.after_update(ev).last_key_ms == off.after_update(ev).last_key_ms
            &&& on.after_update(ev).last_caret == off.after_update(ev).last_caret
            &&& on.after_update(ev).delete_count == off.after_update(ev).delete_count
            &&& on.derived_snapshot(ev) == (CaretSnapshot {
                primary: on.derived_primary(ev),
                ..off.derived_snapshot(ev)
            })
        }),
{
}

/// A typing sample is classified `Typing` when nothing above it on the
/// ladder applies and the short pause is longer than no time at all.
pub proof fn lemma_typing_sample_is_typing(s: MonitorState, ev: EventView)
    requires
        !s.dedicated_states,
        !ev.blocked,
        !ev.ime_active,
        !s.declares_jump(ev),
        s.is_typing_sample(ev),
        s.thresholds.short_pause_ms > 0,
        s.thresholds.long_pause_ms > 0,
    ensures
        s.derived_primary(ev) == CaretPrimaryState::Typing,
{
    assert(is_cadence_state(CaretPrimaryState::Typing));
}

/// Where actions have no states of their own, no update and no flush
/// derives `Cut`, `UndoRedo`, `Drop` or `Autocorrect` as the primary state.
pub proof fn lemma_unused_states_stay_unused(s: MonitorState, ev: EventView, now: u64)
    requires
        !s.dedicated_states,
    ensures
        ({
            let p = s.derived_primary(ev);
            p != CaretPrimaryState::Cut && p != CaretPrimaryState::UndoRedo && p
                != CaretPrimaryState::Drop && p != CaretPrimaryState::Autocorrect
        }),
        ({
            let p = s.flush_primary(now);
            p != CaretPrimaryState::Cut && p != CaretPrimaryState::UndoRedo && p
                != CaretPrimaryState::Drop && p != CaretPrimaryState::Autocorrect
        }),
{
}

} // verus!
