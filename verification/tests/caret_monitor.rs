use mind_type_core::caret_monitor::{
    CaretEvent, CaretMonitor, CaretPrimaryState, CaretSnapshot, DeviceTier, EventKind, FieldKind,
    InputModality, MonitorStats, SelectionFacet, Thresholds,
};

fn ev(kind: EventKind, t: u64, caret: u32) -> CaretEvent {
    CaretEvent {
        kind,
        timestamp_ms: t,
        caret,
        text_len: 10,
        selection: SelectionFacet { collapsed: true, start: caret, end: caret },
        input_modality: InputModality::Keyboard,
        field_kind: FieldKind::TextArea,
        ime_active: false,
        blocked: false,
        input_type: None,
    }
}

fn hinted(kind: EventKind, t: u64, caret: u32, hint: &str) -> CaretEvent {
    let mut e = ev(kind, t, caret);
    e.input_type = Some(hint.to_string());
    e
}

#[test]
fn typing_short_then_long_pause() {
    let mut m = CaretMonitor::default();
    let mut e = ev(EventKind::Input, 0, 1);
    e.input_type = Some("insertText".into());
    m.update(e);
    m.flush(350);
    let s = m.get_state();
    assert_eq!(s.primary, CaretPrimaryState::ShortPause);
    m.flush(2050);
    let s = m.get_state();
    assert_eq!(s.primary, CaretPrimaryState::LongPause);
}

#[test]
fn paste_overrides_temporarily() {
    let mut m = CaretMonitor::default();
    let mut e = ev(EventKind::Paste, 0, 0);
    e.input_modality = InputModality::Paste;
    m.update(e);
    let s = m.get_state();
    assert_eq!(s.primary, CaretPrimaryState::Pasted);
    m.flush(200);
    assert_eq!(m.get_state().primary, CaretPrimaryState::Pasted);
    m.flush(800);
    assert!(matches!(
        m.get_state().primary,
        CaretPrimaryState::ShortPause | CaretPrimaryState::LongPause | CaretPrimaryState::ActiveIdle
    ));
}

#[test]
fn delete_burst_detected() {
    let mut m = CaretMonitor::default();
    for i in 0..3u64 {
        let mut e = ev(EventKind::BeforeInput, i * 50, 1);
        e.input_type = Some("deleteContentBackward".into());
        m.update(e);
    }
    let s = m.get_state();
    assert_eq!(s.primary, CaretPrimaryState::DeleteBurst);
    assert!(m.stats().delete_bursts >= 1);
}

#[test]
fn caret_jump_detected() {
    let mut m = CaretMonitor::default();
    m.update(ev(EventKind::SelectionChange, 0, 1));
    let e2 = CaretEvent {
        kind: EventKind::SelectionChange,
        timestamp_ms: 10,
        caret: 100,
        text_len: 10,
        selection: SelectionFacet { collapsed: true, start: 100, end: 100 },
        input_modality: InputModality::Keyboard,
        field_kind: FieldKind::TextArea,
        ime_active: false,
        blocked: false,
        input_type: None,
    };
    m.update(e2);
    assert_eq!(m.get_state().primary, CaretPrimaryState::CaretJump);
}

#[test]
fn fresh_engine_is_blurred_and_zeroed() {
    let m = CaretMonitor::new(Thresholds::default(), DeviceTier::Native);
    let s = m.get_state();
    assert_eq!(s, CaretSnapshot { device_tier: DeviceTier::Wasm, ..CaretSnapshot::default() });
    assert_eq!(s.primary, CaretPrimaryState::Blur);
    assert_eq!(s.timestamp_ms, 0);
    assert_eq!(*m.stats(), MonitorStats::default());
    assert_eq!(m.device_tier(), DeviceTier::Native);
    assert_eq!(m.pending(), 0);
    assert_eq!(m.last_key_interval(), None);
}

#[test]
fn default_thresholds_are_the_documented_ones() {
    let t = Thresholds::default();
    assert_eq!(t.short_pause_ms, 300);
    assert_eq!(t.long_pause_ms, 2000);
    assert_eq!(t.decay_ms, 500);
    assert_eq!(t.jump_threshold_chars, 6);
    assert_eq!(t.delete_burst_window_ms, 250);
    assert_eq!(t.delete_burst_min, 3);
    assert_eq!(*CaretMonitor::default().thresholds(), t);
}

#[test]
fn identical_event_does_not_emit_again() {
    let mut m = CaretMonitor::default();
    assert!(m.update(ev(EventKind::SelectionChange, 5, 3)));
    assert_eq!(m.get_state().primary, CaretPrimaryState::ActiveIdle);
    let len = m.pending();
    assert_eq!(len, 1);
    // Same fields, later timestamps: nothing observable changes.
    assert!(!m.update(ev(EventKind::SelectionChange, 9, 3)));
    assert_eq!(m.pending(), len);
    assert!(!m.update(ev(EventKind::SelectionChange, 12, 3)));
    assert_eq!(m.pending(), len);
    assert_eq!(m.stats().snapshots_emitted, 1);
    assert_eq!(m.stats().events_processed, 3);
    // The last snapshot keeps the time of the emission, not of the repeats.
    assert_eq!(m.get_state().timestamp_ms, 5);
}

#[test]
fn flush_reports_how_many_it_emitted() {
    let mut m = CaretMonitor::default();
    m.update(ev(EventKind::Input, 1000, 1));
    assert_eq!(m.get_state().primary, CaretPrimaryState::Typing);
    // Before the short pause a flush sees an idle base.
    assert_eq!(m.flush(1100), 1);
    assert_eq!(m.get_state().primary, CaretPrimaryState::ActiveIdle);
    assert_eq!(m.flush(1200), 0);
    assert_eq!(m.flush(1300), 1);
    assert_eq!(m.get_state().primary, CaretPrimaryState::ShortPause);
    assert_eq!(m.get_state().timestamp_ms, 1300);
    assert_eq!(m.flush(2999), 0);
    assert_eq!(m.flush(3000), 1);
    assert_eq!(m.get_state().primary, CaretPrimaryState::LongPause);
    assert_eq!(m.flush(3000), 0);
    let snaps = m.drain_snapshots();
    assert_eq!(snaps.len(), 4);
    assert_eq!(snaps[0].primary, CaretPrimaryState::Typing);
    assert_eq!(snaps[3].primary, CaretPrimaryState::LongPause);
    assert_eq!(snaps[3].caret, 1);
}

#[test]
fn flush_before_any_event_stays_blurred() {
    let mut m = CaretMonitor::default();
    assert_eq!(m.flush(10_000), 0);
    assert_eq!(m.get_state().primary, CaretPrimaryState::Blur);
    assert!(m.drain_snapshots().is_empty());
}

#[test]
fn paste_decay_ends_exactly_at_the_deadline() {
    let mut m = CaretMonitor::default();
    m.update(ev(EventKind::Paste, 100, 0));
    assert_eq!(m.get_state().primary, CaretPrimaryState::Pasted);
    assert_eq!(m.flush(599), 0);
    assert_eq!(m.get_state().primary, CaretPrimaryState::Pasted);
    // No typing yet, so the time since the last typing sample is all of 600.
    assert_eq!(m.flush(600), 1);
    assert_eq!(m.get_state().primary, CaretPrimaryState::ShortPause);
    assert_eq!(m.stats().pastes, 1);
    assert_eq!(m.stats().cuts, 0);
}

#[test]
fn cut_holds_the_pasted_state_and_counts_as_cut() {
    let mut m = CaretMonitor::default();
    m.update(ev(EventKind::Cut, 0, 0));
    assert_eq!(m.get_state().primary, CaretPrimaryState::Pasted);
    assert_eq!(m.stats().cuts, 1);
    assert_eq!(m.stats().pastes, 0);
    // Typing inside the decay window is neither a sample nor Typing.
    m.update(ev(EventKind::Input, 100, 0));
    assert_eq!(m.get_state().primary, CaretPrimaryState::Pasted);
    assert_eq!(m.stats().keystrokes, 0);
    m.update(ev(EventKind::Input, 500, 0));
    assert_eq!(m.get_state().primary, CaretPrimaryState::Typing);
    assert_eq!(m.stats().keystrokes, 1);
}

#[test]
fn paste_hint_counts_as_paste_whatever_the_kind() {
    let mut m = CaretMonitor::default();
    m.update(hinted(EventKind::Input, 0, 0, "insertFromPaste"));
    assert_eq!(m.get_state().primary, CaretPrimaryState::Pasted);
    assert_eq!(m.stats().pastes, 1);
    let mut n = CaretMonitor::default();
    n.update(hinted(EventKind::Input, 0, 0, "insertFromPasteX"));
    assert_eq!(n.stats().pastes, 0);
    assert_eq!(n.get_state().primary, CaretPrimaryState::Typing);
}

#[test]
fn delete_burst_counts_once_and_only_on_the_trigger() {
    let mut m = CaretMonitor::default();
    m.update(hinted(EventKind::BeforeInput, 0, 1, "deleteContentBackward"));
    assert_eq!(m.get_state().primary, CaretPrimaryState::Typing);
    m.update(hinted(EventKind::BeforeInput, 50, 1, "deleteContentBackward"));
    assert_eq!(m.stats().delete_bursts, 0);
    m.update(hinted(EventKind::BeforeInput, 100, 1, "deleteContentBackward"));
    assert_eq!(m.get_state().primary, CaretPrimaryState::DeleteBurst);
    assert_eq!(m.stats().delete_bursts, 1);
    assert_eq!(m.stats().deletes_seen, 3);
    assert_eq!(m.stats().keystrokes, 2);
}

#[test]
fn delete_outside_the_window_restarts_the_count() {
    let mut m = CaretMonitor::default();
    m.update(hinted(EventKind::Input, 1000, 1, "deleteWordBackward"));
    m.update(hinted(EventKind::Input, 1250, 1, "deleteWordBackward"));
    // 251 ms after the previous delete: outside the window of 250.
    m.update(hinted(EventKind::Input, 1501, 1, "deleteWordBackward"));
    assert_eq!(m.stats().delete_bursts, 0);
    assert_eq!(m.stats().deletes_seen, 3);
    m.update(hinted(EventKind::Input, 1751, 1, "deleteWordBackward"));
    assert_eq!(m.stats().delete_bursts, 0);
    m.update(hinted(EventKind::Input, 1800, 1, "deleteWordBackward"));
    assert_eq!(m.stats().delete_bursts, 1);
    assert_eq!(m.get_state().primary, CaretPrimaryState::DeleteBurst);
}

#[test]
fn hint_without_delete_is_no_delete() {
    let mut m = CaretMonitor::default();
    for i in 0..4u64 {
        m.update(hinted(EventKind::Input, i * 10, 1, "insertText"));
    }
    assert_eq!(m.stats().deletes_seen, 0);
    m.update(hinted(EventKind::KeyDown, 50, 1, "delet"));
    assert_eq!(m.stats().deletes_seen, 0);
    m.update(hinted(EventKind::KeyDown, 60, 1, "xdeletey"));
    assert_eq!(m.stats().deletes_seen, 1);
}

#[test]
fn caret_jump_needs_a_collapsed_selection_and_the_threshold() {
    let mut m = CaretMonitor::default();
    m.update(ev(EventKind::SelectionChange, 0, 10));
    assert_eq!(m.get_state().primary, CaretPrimaryState::CaretJump);
    assert_eq!(m.stats().caret_jumps, 1);
    m.update(ev(EventKind::SelectionChange, 1, 15));
    assert_eq!(m.get_state().primary, CaretPrimaryState::ActiveIdle);
    m.update(ev(EventKind::SelectionChange, 2, 9));
    assert_eq!(m.get_state().primary, CaretPrimaryState::CaretJump);
    assert_eq!(m.stats().caret_jumps, 2);
    let mut wide = ev(EventKind::SelectionChange, 3, 100);
    wide.selection = SelectionFacet { collapsed: false, start: 90, end: 100 };
    m.update(wide);
    assert_eq!(m.get_state().primary, CaretPrimaryState::SelectionActive);
    assert_eq!(m.stats().caret_jumps, 2);
    // The previous caret moved with the selection event all the same.
    m.update(ev(EventKind::SelectionChange, 4, 101));
    assert_eq!(m.get_state().primary, CaretPrimaryState::ActiveIdle);
}

#[test]
fn blocked_and_composing_come_first() {
    let mut m = CaretMonitor::default();
    let mut e = ev(EventKind::Paste, 0, 0);
    e.blocked = true;
    e.ime_active = true;
    m.update(e);
    assert_eq!(m.get_state().primary, CaretPrimaryState::Blocked);
    assert_eq!(m.flush(5000), 0);
    assert_eq!(m.get_state().primary, CaretPrimaryState::Blocked);
    let mut e = ev(EventKind::CompositionUpdate, 10, 0);
    e.ime_active = true;
    m.update(e);
    assert_eq!(m.get_state().primary, CaretPrimaryState::ImeComposing);
    assert_eq!(m.flush(5000), 0);
}

#[test]
fn focus_out_blurs_and_other_events_idle() {
    let mut m = CaretMonitor::default();
    m.update(ev(EventKind::FocusIn, 0, 0));
    assert_eq!(m.get_state().primary, CaretPrimaryState::ActiveIdle);
    m.update(ev(EventKind::FocusOut, 10, 0));
    assert_eq!(m.get_state().primary, CaretPrimaryState::Blur);
    assert_eq!(m.flush(9000), 0);
    assert_eq!(m.get_state().primary, CaretPrimaryState::Blur);
}

#[test]
fn undo_redo_drop_autocorrect_are_only_counted() {
    let mut m = CaretMonitor::default();
    m.update(ev(EventKind::Undo, 0, 0));
    m.update(ev(EventKind::Redo, 1, 0));
    m.update(hinted(EventKind::Input, 2, 0, "historyUndo"));
    m.update(hinted(EventKind::Input, 3, 0, "historyRedo"));
    m.update(ev(EventKind::Drop, 4, 0));
    m.update(ev(EventKind::Autocorrect, 5, 0));
    assert_eq!(m.stats().undos_redos, 4);
    for s in m.drain_snapshots() {
        assert!(!matches!(
            s.primary,
            CaretPrimaryState::Cut
                | CaretPrimaryState::UndoRedo
                | CaretPrimaryState::Drop
                | CaretPrimaryState::Autocorrect
        ));
    }
}

#[test]
fn keystroke_burst_length_follows_the_short_pause() {
    let mut m = CaretMonitor::default();
    m.update(ev(EventKind::KeyDown, 0, 0));
    assert_eq!(m.stats().burst_len_current, 1);
    assert_eq!(m.last_key_interval(), None);
    m.update(ev(EventKind::KeyDown, 100, 0));
    assert_eq!(m.last_key_interval(), Some(100));
    assert_eq!(m.stats().burst_len_current, 2);
    m.update(ev(EventKind::KeyDown, 400, 0));
    assert_eq!(m.last_key_interval(), Some(300));
    assert_eq!(m.stats().burst_len_current, 3);
    m.update(ev(EventKind::KeyDown, 701, 0));
    assert_eq!(m.last_key_interval(), Some(301));
    assert_eq!(m.stats().burst_len_current, 1);
    assert_eq!(m.stats().burst_len_max, 3);
    assert_eq!(m.stats().keystrokes, 4);
    m.update(ev(EventKind::SelectionChange, 702, 0));
    assert_eq!(m.last_key_interval(), None);
    assert_eq!(m.stats().keystrokes, 4);
}

#[test]
fn earlier_timestamp_counts_as_no_time_elapsed() {
    let mut m = CaretMonitor::default();
    m.update(ev(EventKind::KeyDown, 1000, 0));
    m.update(ev(EventKind::KeyDown, 400, 0));
    assert_eq!(m.last_key_interval(), Some(0));
    assert_eq!(m.stats().burst_len_current, 2);
    assert_eq!(m.get_state().primary, CaretPrimaryState::Typing);
    assert_eq!(m.flush(0), 1);
    assert_eq!(m.get_state().primary, CaretPrimaryState::ActiveIdle);
}

#[test]
fn decay_deadline_stops_at_the_largest_time() {
    let mut m = CaretMonitor::default();
    m.update(ev(EventKind::Paste, u64::MAX - 10, 0));
    assert_eq!(m.get_state().primary, CaretPrimaryState::Pasted);
    assert_eq!(m.flush(u64::MAX - 1), 0);
    assert_eq!(m.flush(u64::MAX), 1);
    assert_eq!(m.get_state().primary, CaretPrimaryState::LongPause);
}

#[test]
fn new_thresholds_apply_from_the_next_event() {
    let mut m = CaretMonitor::default();
    m.update(ev(EventKind::SelectionChange, 0, 0));
    m.update(ev(EventKind::SelectionChange, 1, 3));
    assert_eq!(m.get_state().primary, CaretPrimaryState::ActiveIdle);
    let before = m.get_state();
    m.set_thresholds(Thresholds { jump_threshold_chars: 2, ..Thresholds::default() });
    assert_eq!(m.thresholds().jump_threshold_chars, 2);
    assert_eq!(m.get_state(), before);
    m.update(ev(EventKind::SelectionChange, 2, 5));
    assert_eq!(m.get_state().primary, CaretPrimaryState::CaretJump);
}

#[test]
fn device_tier_is_carried_into_snapshots() {
    let mut m = CaretMonitor::default();
    m.update(ev(EventKind::FocusIn, 0, 0));
    assert_eq!(m.get_state().device_tier, DeviceTier::Wasm);
    m.set_device_tier(DeviceTier::WebGpu);
    assert_eq!(m.device_tier(), DeviceTier::WebGpu);
    // Only the tier differs: that is a change, so it emits.
    assert!(m.update(ev(EventKind::FocusIn, 1, 0)));
    assert_eq!(m.get_state().device_tier, DeviceTier::WebGpu);
}

#[test]
fn history_keeps_the_newest_capacity_entries() {
    let mut m = CaretMonitor::default();
    // 129 distinct emissions: every event moves the caret by one.
    for i in 0..129u32 {
        assert!(m.update(ev(EventKind::SelectionChange, i as u64, i + 1)));
    }
    assert_eq!(m.pending(), 128);
    assert_eq!(m.stats().snapshots_emitted, 129);
    let snaps = m.drain_snapshots();
    assert_eq!(snaps.len(), 128);
    assert_eq!(snaps[0].caret, 2);
    assert_eq!(snaps[0].timestamp_ms, 1);
    assert_eq!(snaps[127].caret, 129);
    for w in 1..snaps.len() {
        assert_eq!(snaps[w].caret, snaps[w - 1].caret + 1);
    }
}

#[test]
fn drain_twice_is_empty_the_second_time() {
    let mut m = CaretMonitor::default();
    m.update(ev(EventKind::Input, 0, 1));
    m.flush(350);
    let first = m.drain_snapshots();
    assert_eq!(first.len(), 2);
    assert_eq!(first[0].primary, CaretPrimaryState::Typing);
    assert_eq!(first[1].primary, CaretPrimaryState::ShortPause);
    assert!(m.drain_snapshots().is_empty());
    // Draining leaves the current state alone.
    assert_eq!(m.get_state().primary, CaretPrimaryState::ShortPause);
}

#[test]
fn history_goes_on_rotating_after_a_drain() {
    let mut m = CaretMonitor::default();
    for i in 0..100u32 {
        m.update(ev(EventKind::SelectionChange, i as u64, i + 1));
    }
    assert_eq!(m.drain_snapshots().len(), 100);
    for i in 100..160u32 {
        m.update(ev(EventKind::SelectionChange, i as u64, i + 1));
    }
    let snaps = m.drain_snapshots();
    assert_eq!(snaps.len(), 60);
    assert_eq!(snaps[0].caret, 101);
    assert_eq!(snaps[59].caret, 160);
}

#[test]
fn equal_snapshots_ignores_only_the_timestamp() {
    let a = CaretSnapshot::default();
    let b = CaretSnapshot { timestamp_ms: 77, ..a };
    assert!(CaretMonitor::equal_snapshots(&a, &b));
    let c = CaretSnapshot { caret: 1, ..a };
    assert!(!CaretMonitor::equal_snapshots(&a, &c));
    let d = CaretSnapshot { device_tier: DeviceTier::Cpu, ..a };
    assert!(!CaretMonitor::equal_snapshots(&a, &d));
}

#[test]
fn action_states_are_off_unless_switched_on() {
    let mut m = CaretMonitor::default();
    assert!(!m.dedicated_states());
    m.update(ev(EventKind::Undo, 0, 0));
    assert_eq!(m.get_state().primary, CaretPrimaryState::ActiveIdle);
    m.set_dedicated_states(true);
    assert!(m.dedicated_states());
    m.update(ev(EventKind::Undo, 1, 0));
    assert_eq!(m.get_state().primary, CaretPrimaryState::UndoRedo);
    m.update(hinted(EventKind::Input, 2, 0, "historyRedo"));
    assert_eq!(m.get_state().primary, CaretPrimaryState::UndoRedo);
    m.update(ev(EventKind::Drop, 3, 0));
    assert_eq!(m.get_state().primary, CaretPrimaryState::Drop);
    m.update(ev(EventKind::Autocorrect, 4, 0));
    assert_eq!(m.get_state().primary, CaretPrimaryState::Autocorrect);
    // An undo that moves the caret far is an undo, not a caret jump.
    m.update(ev(EventKind::Undo, 5, 500));
    assert_eq!(m.get_state().primary, CaretPrimaryState::UndoRedo);
    assert_eq!(m.stats().caret_jumps, 1);
    assert_eq!(m.stats().undos_redos, 4);
    m.set_dedicated_states(false);
    m.update(ev(EventKind::Drop, 6, 500));
    assert_eq!(m.get_state().primary, CaretPrimaryState::ActiveIdle);
}

#[test]
fn cut_state_holds_for_the_decay_window_when_switched_on() {
    let mut m = CaretMonitor::default();
    m.set_dedicated_states(true);
    m.update(ev(EventKind::Cut, 0, 0));
    assert_eq!(m.get_state().primary, CaretPrimaryState::Cut);
    assert_eq!(m.flush(499), 0);
    assert_eq!(m.get_state().primary, CaretPrimaryState::Cut);
    // A paste inside the window takes the window over.
    m.update(ev(EventKind::Paste, 100, 0));
    assert_eq!(m.get_state().primary, CaretPrimaryState::Pasted);
    assert_eq!(m.flush(599), 0);
    assert_eq!(m.flush(600), 1);
    assert_eq!(m.get_state().primary, CaretPrimaryState::ShortPause);
    assert_eq!(m.stats().cuts, 1);
    assert_eq!(m.stats().pastes, 1);
    // Blocked still comes first.
    let mut e = ev(EventKind::Cut, 700, 0);
    e.blocked = true;
    m.update(e);
    assert_eq!(m.get_state().primary, CaretPrimaryState::Blocked);
}
