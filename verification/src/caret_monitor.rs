//! The caret/typing state engine: the events it ingests, the snapshots it
//! publishes, its tunables and statistics, and the engine itself.

use vstd::prelude::*;
use crate::classify::{
    bump, caret_jumped, compute_primary, cut_action, delete_action, maybe_phase_overrides,
    next_delete_count, paste_action, selection_is_active, tally_event, typingish,
    undo_redo_action, ActionMarks, LadderInput, Observation,
};
use crate::history::{SnapshotRing, RING_CAPACITY};
use crate::model::MonitorState;

verus! {

/// The single classification describing what the user is doing right now.
#[derive(Debug, Copy, Clone, PartialEq, Eq, Structural)]
pub enum CaretPrimaryState {
    Blur,
    ActiveIdle,
    Typing,
    Pasted,
    ShortPause,
    LongPause,
    Cut,
    DeleteBurst,
    SelectionActive,
    CaretJump,
    ImeComposing,
    Blocked,
    UndoRedo,
    Drop,
    Autocorrect,
}

/// How the input reached the field.
#[derive(Debug, Copy, Clone, PartialEq, Eq, Structural)]
pub enum InputModality {
    Keyboard,
    Osk,
    Ime,
    Paste,
    Drop,
    Programmatic,
    Unknown,
}

impl Default for InputModality {
    fn default() -> (r: Self)
        ensures
            r == InputModality::Unknown,
    {
        InputModality::Unknown
    }
}

/// What kind of text field the event came from.
#[derive(Debug, Copy, Clone, PartialEq, Eq, Structural)]
pub enum FieldKind {
    InputText,
    TextArea,
    ContentEditable,
    Password,
    Other,
}

impl Default for FieldKind {
    fn default() -> (r: Self)
        ensures
            r == FieldKind::Other,
    {
        FieldKind::Other
    }
}

/// Host-supplied capability hint, carried through snapshots unchanged.
#[derive(Debug, Copy, Clone, PartialEq, Eq, Structural)]
pub enum DeviceTier {
    WebGpu,
    Wasm,
    Cpu,
    Native,
}

/// The selection at the time of an event. Hosts deliver `start <= end`.
#[derive(Debug, Copy, Clone, PartialEq, Eq, Structural)]
pub struct SelectionFacet {
    pub collapsed: bool,
    pub start: u32,
    pub end: u32,
}

impl Default for SelectionFacet {
    fn default() -> (r: Self)
        ensures
            r == (SelectionFacet { collapsed: false, start: 0, end: 0 }),
    {
        SelectionFacet { collapsed: false, start: 0, end: 0 }
    }
}

/// The kind of a normalized input event.
#[derive(Debug, Copy, Clone, PartialEq, Eq, Structural)]
pub enum EventKind {
    FocusIn,
    FocusOut,
    SelectionChange,
    KeyDown,
    BeforeInput,
    Input,
    CompositionStart,
    CompositionUpdate,
    CompositionEnd,
    Paste,
    Cut,
    Drop,
    PointerDown,
    VisibilityHidden,
    VisibilityVisible,
    ProgrammaticChange,
    Undo,
    Redo,
    Autocorrect,
}

/// One normalized occurrence in the text field.
#[derive(Debug, Clone)]
pub struct CaretEvent {
    pub kind: EventKind,
    pub timestamp_ms: u64,
    pub caret: u32,
    pub text_len: u32,
    pub selection: SelectionFacet,
    pub input_modality: InputModality,
    pub field_kind: FieldKind,
    pub ime_active: bool,
    pub blocked: bool,
    /// Free-form hint in the style of the DOM `inputType`
    /// (`deleteContentBackward`, `insertFromPaste`, ...).
    pub input_type: Option<String>,
}

/// The characters of an optional input-type hint.
pub open spec fn hint_text(hint: Option<String>) -> Option<Seq<char>> {
    match hint {
        Some(t) => Some(t@),
        None => None,
    }
}

/// A `CaretEvent` as contracts see it: the hint is a sequence of characters.
pub ghost struct EventView {
    pub kind: EventKind,
    pub timestamp_ms: u64,
    pub caret: u32,
    pub text_len: u32,
    pub selection: SelectionFacet,
    pub input_modality: InputModality,
    pub field_kind: FieldKind,
    pub ime_active: bool,
    pub blocked: bool,
    pub input_type: Option<Seq<char>>,
}

impl View for CaretEvent {
    type V = EventView;

    open spec fn view(&self) -> EventView {
        EventView {
            kind: self.kind,
            timestamp_ms: self.timestamp_ms,
            caret: self.caret,
            text_len: self.text_len,
            selection: self.selection,
            input_modality: self.input_modality,
            field_kind: self.field_kind,
            ime_active: self.ime_active,
            blocked: self.blocked,
            input_type: hint_text(self.input_type),
        }
    }
}

/// The externally observable state at one instant.
#[derive(Debug, Copy, Clone, PartialEq, Eq, Structural)]
pub struct CaretSnapshot {
    pub primary: CaretPrimaryState,
    pub input_modality: InputModality,
    pub field_kind: FieldKind,
    pub selection: SelectionFacet,
    pub ime_active: bool,
    pub blocked: bool,
    pub caret: u32,
    pub text_len: u32,
    pub device_tier: DeviceTier,
    pub timestamp_ms: u64,
}

impl CaretSnapshot {
    /// The snapshot of an engine that has seen no event: `Blur`, all zero.
    pub open spec fn initial() -> CaretSnapshot {
        CaretSnapshot {
            primary: CaretPrimaryState::Blur,
            input_modality: InputModality::Unknown,
            field_kind: FieldKind::Other,
            selection: SelectionFacet { collapsed: false, start: 0, end: 0 },
            ime_active: false,
            blocked: false,
            caret: 0,
            text_len: 0,
            device_tier: DeviceTier::Wasm,
            timestamp_ms: 0,
        }
    }

    /// Equality for the change test: every field but the timestamp.
    pub open spec fn same_fields(self, other: CaretSnapshot) -> bool {
        self == (CaretSnapshot { timestamp_ms: self.timestamp_ms, ..other })
    }

    /// This snapshot moved to `primary` at time `now`.
    pub open spec fn retimed(self, primary: CaretPrimaryState, now: u64) -> CaretSnapshot {
        CaretSnapshot { primary, timestamp_ms: now, ..self }
    }
}

impl Default for CaretSnapshot {
    fn default() -> (r: Self)
        ensures
            r == CaretSnapshot::initial(),
    {
        CaretSnapshot {
            primary: CaretPrimaryState::Blur,
            input_modality: InputModality::Unknown,
            field_kind: FieldKind::Other,
            selection: SelectionFacet { collapsed: false, start: 0, end: 0 },
            ime_active: false,
            blocked: false,
            caret: 0,
            text_len: 0,
            device_tier: DeviceTier::Wasm,
            timestamp_ms: 0,
        }
    }
}

/// The engine's tunables. Replacing them takes effect with the next event.
#[derive(Debug, Copy, Clone, PartialEq, Eq, Structural)]
pub struct Thresholds {
    pub short_pause_ms: u64,
    pub long_pause_ms: u64,
    pub decay_ms: u64,
    pub jump_threshold_chars: u32,
    pub delete_burst_window_ms: u64,
    pub delete_burst_min: u32,
}

impl Thresholds {
    /// The documented default set.
    pub open spec fn standard() -> Thresholds {
        Thresholds {
            short_pause_ms: 300,
            long_pause_ms: 2000,
            decay_ms: 500,
            jump_threshold_chars: 6,
            delete_burst_window_ms: 250,
            delete_burst_min: 3,
        }
    }
}

impl Default for Thresholds {
    fn default() -> (r: Self)
        ensures
            r == Thresholds::standard(),
    {
        Thresholds {
            short_pause_ms: 300,
            long_pause_ms: 2000,
            decay_ms: 500,
            jump_threshold_chars: 6,
            delete_burst_window_ms: 250,
            delete_burst_min: 3,
        }
    }
}

/// Counters that only ever grow, and the keystroke-burst gauges. Every
/// counter stops at its type's maximum instead of wrapping.
#[derive(Debug, Copy, Clone, PartialEq, Eq, Structural)]
pub struct MonitorStats {
    pub events_processed: u64,
    pub snapshots_emitted: u64,
    pub deletes_seen: u64,
    pub delete_bursts: u64,
    pub pastes: u64,
    pub cuts: u64,
    pub undos_redos: u64,
    pub caret_jumps: u64,
    pub keystrokes: u64,
    pub burst_len_current: u32,
    pub burst_len_max: u32,
}

impl MonitorStats {
    /// All counters and gauges at zero.
    pub open spec fn zero() -> MonitorStats {
        MonitorStats {
            events_processed: 0,
            snapshots_emitted: 0,
            deletes_seen: 0,
            delete_bursts: 0,
            pastes: 0,
            cuts: 0,
            undos_redos: 0,
            caret_jumps: 0,
            keystrokes: 0,
            burst_len_current: 0,
            burst_len_max: 0,
        }
    }
}

impl Default for MonitorStats {
    fn default() -> (r: Self)
        ensures
            r == MonitorStats::zero(),
    {
        MonitorStats {
            events_processed: 0,
            snapshots_emitted: 0,
            deletes_seen: 0,
            delete_bursts: 0,
            pastes: 0,
            cuts: 0,
            undos_redos: 0,
            caret_jumps: 0,
            keystrokes: 0,
            burst_len_current: 0,
            burst_len_max: 0,
        }
    }
}

/// The caret/typing state engine of one editing session. All of its state
/// changes through `update` and `flush`; `drain_snapshots` only empties the
/// history.
///
/// Timestamps are expected in non-decreasing order. One that lies before an
/// earlier one is not rejected: every elapsed time is taken by saturating
/// subtraction, so such an event counts as arriving no time after the moment
/// it is compared with. A deadline or counter that would pass the largest
/// value of its type stops there.
#[derive(Debug)]
pub struct CaretMonitor {
    thresholds: Thresholds,
    device_tier: DeviceTier,
    last_snapshot: CaretSnapshot,
    history: SnapshotRing,
    stats: MonitorStats,
    last_activity_ms: u64,
    last_typing_ms: u64,
    paste_cut_decay_until_ms: u64,
    last_delete_ms: u64,
    delete_count_in_window: u32,
    last_caret: u32,
    last_key_ms: Option<u64>,
    last_key_interval: Option<u64>,
    dedicated_states: bool,
    decay_by_cut: bool,
}

impl View for CaretMonitor {
    type V = MonitorState;

    closed spec fn view(&self) -> MonitorState {
        MonitorState {
            thresholds: self.thresholds,
            device_tier: self.device_tier,
            last_snapshot: self.last_snapshot,
            history: self.history@,
            stats: self.stats,
            last_activity_ms: self.last_activity_ms,
            last_typing_ms: self.last_typing_ms,
            decay_until_ms: self.paste_cut_decay_until_ms,
            last_delete_ms: self.last_delete_ms,
            delete_count: self.delete_count_in_window,
            last_caret: self.last_caret,
            last_key_ms: self.last_key_ms,
            last_key_interval: self.last_key_interval,
            dedicated_states: self.dedicated_states,
            decay_by_cut: self.decay_by_cut,
        }
    }
}

impl Default for CaretMonitor {
    fn default() -> (r: Self)
        ensures
            r@ == MonitorState::initial(Thresholds::standard(), DeviceTier::Wasm),
    {
        CaretMonitor::new(Thresholds::default(), DeviceTier::Wasm)
    }
}

impl CaretMonitor {
    /// A fresh engine: no history, zeroed statistics, last snapshot `Blur`.
    pub fn new(thresholds: Thresholds, device_tier: DeviceTier) -> (r: Self)
        ensures
            r@ == MonitorState::initial(thresholds, device_tier),
    {
        CaretMonitor {
            thresholds,
            device_tier,
            last_snapshot: CaretSnapshot::default(),
            history: SnapshotRing::new(),
            stats: MonitorStats::default(),
            last_activity_ms: 0,
            last_typing_ms: 0,
            paste_cut_decay_until_ms: 0,
            last_delete_ms: 0,
            delete_count_in_window: 0,
            last_caret: 0,
            last_key_ms: None,
            last_key_interval: None,
            dedicated_states: false,
            decay_by_cut: false,
        }
    }

    /// Whether cut, undo/redo, drop and autocorrect get primary states of
    /// their own.
    pub fn dedicated_states(&self) -> (on: bool)
        ensures
            on == self@.dedicated_states,
    {
        self.dedicated_states
    }

    /// Switches the primary states `Cut`, `UndoRedo`, `Drop` and
    /// `Autocorrect` on or off. A fresh engine has them off: such events are
    /// counted and a cut shows as `Pasted`. Nothing else changes; the next
    /// event or flush is judged by the new setting.
    pub fn set_dedicated_states(&mut self, on: bool)
        ensures
            final(self)@ == (MonitorState { dedicated_states: on, ..old(self)@ }),
    {
        self.dedicated_states = on;
    }

    /// The tunables in force.
    pub fn thresholds(&self) -> (t: &Thresholds)
        ensures
            *t == self@.thresholds,
    {
        &self.thresholds
    }

    /// Replaces the tunables. Nothing else changes: snapshots already
    /// emitted stay as they are, the next event is judged by `t`.
    pub fn set_thresholds(&mut self, t: Thresholds)
        ensures
            final(self)@ == (MonitorState { thresholds: t, ..old(self)@ }),
    {
        self.thresholds = t;
    }

    /// The statistics so far.
    pub fn stats(&self) -> (s: &MonitorStats)
        ensures
            *s == self@.stats,
    {
        &self.stats
    }

    /// The device tier that new snapshots carry.
    pub fn device_tier(&self) -> (tier: DeviceTier)
        ensures
            tier == self@.device_tier,
    {
        self.device_tier
    }

    /// Replaces the device tier. Nothing else changes.
    pub fn set_device_tier(&mut self, tier: DeviceTier)
        ensures
            final(self)@ == (MonitorState { device_tier: tier, ..old(self)@ }),
    {
        self.device_tier = tier;
    }

    /// The current snapshot: the one emitted last, or the initial one.
    pub fn get_state(&self) -> (s: CaretSnapshot)
        ensures
            s == self@.last_snapshot,
    {
        self.last_snapshot
    }

    /// The interval in milliseconds that the last `update` measured from the
    /// previous typing sample to its own event, if that event was a typing
    /// sample and not the first of the session.
    pub fn last_key_interval(&self) -> (dt: Option<u64>)
        ensures
            dt == self@.last_key_interval,
    {
        self.last_key_interval
    }

    /// How many snapshots wait to be drained.
    pub fn pending(&self) -> (n: usize)
        ensures
            n == self@.history.len(),
            n <= RING_CAPACITY,
    {
        self.history.len()
    }

    /// Whether two snapshots agree in every field but the timestamp.
    pub fn equal_snapshots(a: &CaretSnapshot, b: &CaretSnapshot) -> (r: bool)
        ensures
            r == a.same_fields(*b),
    {
        a.primary == b.primary && a.input_modality == b.input_modality && a.field_kind
            == b.field_kind && a.selection.collapsed == b.selection.collapsed && a.selection.start
            == b.selection.start && a.selection.end == b.selection.end && a.ime_active
            == b.ime_active && a.blocked == b.blocked && a.caret == b.caret && a.text_len
            == b.text_len && a.device_tier == b.device_tier
    }

    fn emit_snapshot(&mut self, snap: CaretSnapshot)
        ensures
            final(self)@ == (MonitorState {
                last_snapshot: snap,
                history: crate::history::recorded(old(self)@.history, snap),
                stats: MonitorStats {
                    snapshots_emitted: bump(old(self)@.stats.snapshots_emitted),
                    ..old(self)@.stats
                },
                ..old(self)@
            }),
            final(self)@.history.len() <= RING_CAPACITY,
    {
        self.history.push(snap);
        self.last_snapshot = snap;
        self.stats.snapshots_emitted = self.stats.snapshots_emitted.saturating_add(1);
    }

    /// Runs the detectors on `ev` against the current timers and counters,
    /// changing nothing.
    fn observe(&self, ev: &CaretEvent) -> (o: Observation)
        ensures
            o == self@.observe(ev@),
    {
        let now: u64 = ev.timestamp_ms;
        let paste = paste_action(ev.kind, &ev.input_type);
        let cut = cut_action(ev.kind);
        let decay_until_ms: u64 = if paste || cut {
            now.saturating_add(self.thresholds.decay_ms)
        } else {
            self.paste_cut_decay_until_ms
        };
        let delete = delete_action(ev.kind, &ev.input_type);
        let delete_count: u32 = if delete {
            next_delete_count(
                self.delete_count_in_window,
                self.last_delete_ms,
                now,
                self.thresholds.delete_burst_window_ms,
            )
        } else {
            self.delete_count_in_window
        };
        let delete_burst = delete && delete_count >= self.thresholds.delete_burst_min;
        let typing_sample = typingish(ev.kind) && !delete_burst && now >= decay_until_ms;
        let key_interval: Option<u64> = if typing_sample {
            match self.last_key_ms {
                Some(prev) => Some(now.saturating_sub(prev)),
                None => None,
            }
        } else {
            None
        };
        let caret_jump = ev.selection.collapsed && caret_jumped(
            self.last_caret,
            ev.caret,
            self.thresholds.jump_threshold_chars,
        );
        Observation {
            paste,
            cut,
            undo_redo: undo_redo_action(ev.kind, &ev.input_type),
            delete,
            delete_burst,
            typing_sample,
            key_interval,
            caret_jump,
            decay_until_ms,
            delete_count,
        }
    }

    /// The snapshot that `ev` leads to, given what the detectors found in
    /// it: ladder, overlay, and the event's own fields. Changes nothing.
    fn classify(&self, ev: &CaretEvent, o: &Observation) -> (next: CaretSnapshot)
        requires
            *o == self@.observe(ev@),
        ensures
            next == self@.derived_snapshot(ev@),
    {
        let now: u64 = ev.timestamp_ms;
        let by_cut = if o.paste {
            false
        } else if o.cut {
            true
        } else {
            self.decay_by_cut
        };
        let last_typing_ms: u64 = if o.typing_sample {
            now
        } else {
            self.last_typing_ms
        };
        let base = compute_primary(
            LadderInput {
                blocked: ev.blocked,
                ime_active: ev.ime_active,
                in_decay: now < o.decay_until_ms,
                delete_burst: o.delete_burst,
                caret_jump: o.caret_jump,
                typing_active: o.typing_sample,
                selection_active: selection_is_active(&ev.selection),
                focus_out: ev.kind == EventKind::FocusOut,
                actions: ActionMarks {
                    cut_window: self.dedicated_states && by_cut,
                    undo_redo: self.dedicated_states && o.undo_redo,
                    drop: self.dedicated_states && ev.kind == EventKind::Drop,
                    autocorrect: self.dedicated_states && ev.kind == EventKind::Autocorrect,
                },
            },
        );
        let primary = maybe_phase_overrides(base, now, last_typing_ms, &self.thresholds);
        CaretSnapshot {
            primary,
            input_modality: ev.input_modality,
            field_kind: ev.field_kind,
            selection: ev.selection,
            ime_active: ev.ime_active,
            blocked: ev.blocked,
            caret: ev.caret,
            text_len: ev.text_len,
            device_tier: self.device_tier,
            timestamp_ms: now,
        }
    }

    /// Brings timers, detectors and statistics up to date with an event at
    /// `now` with the caret at `caret`, in which the detectors found `o`.
    fn absorb(&mut self, now: u64, caret: u32, o: &Observation)
        ensures
            final(self)@ == (MonitorState {
                stats: crate::classify::tally(
                    old(self)@.stats,
                    *o,
                    old(self)@.thresholds.short_pause_ms,
                ),
                last_activity_ms: now,
                last_typing_ms: if o.typing_sample {
                    now
                } else {
                    old(self)@.last_typing_ms
                },
                decay_until_ms: o.decay_until_ms,
                last_delete_ms: if o.delete {
                    now
                } else {
                    old(self)@.last_delete_ms
                },
                delete_count: o.delete_count,
                last_caret: caret,
                last_key_ms: if o.typing_sample {
                    Some(now)
                } else {
                    old(self)@.last_key_ms
                },
                last_key_interval: o.key_interval,
                decay_by_cut: if o.paste {
                    false
                } else if o.cut {
                    true
                } else {
                    old(self)@.decay_by_cut
                },
                ..old(self)@
            }),
    {
        self.stats = tally_event(&self.stats, o, self.thresholds.short_pause_ms);
        self.last_activity_ms = now;
        self.paste_cut_decay_until_ms = o.decay_until_ms;
        if o.paste {
            self.decay_by_cut = false;
        } else if o.cut {
            self.decay_by_cut = true;
        }
        self.delete_count_in_window = o.delete_count;
        if o.delete {
            self.last_delete_ms = now;
        }
        if o.typing_sample {
            self.last_typing_ms = now;
            self.last_key_ms = Some(now);
        }
        self.last_key_interval = o.key_interval;
        self.last_caret = caret;
    }

    /// Takes one event in: updates timers, detectors and statistics, derives
    /// the snapshot by ladder and overlay, and emits it if it differs from
    /// the last one in any field but the timestamp. Returns whether it
    /// emitted.
    pub fn update(&mut self, ev: CaretEvent) -> (changed: bool)
        ensures
            final(self)@ == old(self)@.after_update(ev@),
            changed == old(self)@.update_emits(ev@),
            final(self)@.history.len() <= RING_CAPACITY,
    {
        // Asking for the length brings the bound on the history along.
        let pending: usize = self.history.len();
        let o = self.observe(&ev);
        let next = self.classify(&ev, &o);
        let changed = !Self::equal_snapshots(&next, &self.last_snapshot);
        self.absorb(ev.timestamp_ms, ev.caret, &o);
        if changed {
            self.emit_snapshot(next);
        }
        changed
    }

    /// Re-evaluates the state at time `now` without an event, so that pauses
    /// escalate and the paste decay ends. Emits the last snapshot, moved to
    /// the new primary state and to `now`, if the primary state changed.
    /// Returns how many snapshots it emitted: 0 or 1.
    pub fn flush(&mut self, now: u64) -> (emitted: usize)
        ensures
            final(self)@ == old(self)@.after_flush(now),
            emitted == (if old(self)@.flush_emits(now) {
                1usize
            } else {
                0usize
            }),
            final(self)@.history.len() <= RING_CAPACITY,
    {
        // Asking for the length brings the bound on the history along.
        let pending: usize = self.history.len();
        let mut emitted: usize = 0;
        let mut snap = self.last_snapshot;
        let base_now = if snap.blocked {
            CaretPrimaryState::Blocked
        } else if snap.ime_active {
            CaretPrimaryState::ImeComposing
        } else if now < self.paste_cut_decay_until_ms {
            if self.dedicated_states && self.decay_by_cut {
                CaretPrimaryState::Cut
            } else {
                CaretPrimaryState::Pasted
            }
        } else if selection_is_active(&snap.selection) {
            CaretPrimaryState::SelectionActive
        } else if snap.primary == CaretPrimaryState::Blur {
            CaretPrimaryState::Blur
        } else {
            CaretPrimaryState::ActiveIdle
        };
        let primary = maybe_phase_overrides(base_now, now, self.last_typing_ms, &self.thresholds);
        if primary != snap.primary {
            snap.primary = primary;
            snap.timestamp_ms = now;
            self.emit_snapshot(snap);
            emitted += 1;
        }
        emitted
    }

    /// Hands out the snapshots emitted since the last drain, oldest first,
    /// and empties the history. Nothing else changes.
    pub fn drain_snapshots(&mut self) -> (out: Vec<CaretSnapshot>)
        ensures
            out@ == old(self)@.history,
            out@.len() <= RING_CAPACITY,
            final(self)@ == old(self)@.after_drain(),
    {
        // Asking for the length brings the bound on the history along.
        let pending: usize = self.history.len();
        self.history.drain()
    }
}

} // verus!
