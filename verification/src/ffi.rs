//! The plain records that cross the boundary to hosts in other languages,
//! and the rules that turn engine values into them and back. Hosts deliver
//! text as bytes; text that is not valid UTF-8 is rejected and changes
//! nothing.

use vstd::prelude::*;
use vstd::string::{StrSliceExecFns, StringSliceAdditionalSpecFns};
use vstd::utf8::{decode_utf8, is_char_boundary, valid_utf8};
use crate::caret_monitor::{
    CaretEvent, CaretMonitor, CaretPrimaryState, CaretSnapshot, EventKind, EventView, FieldKind,
    InputModality, SelectionFacet,
};
use crate::fragment::{fragment_of, unicode_sentences_of, FragmentExtractor};
use crate::history::RING_CAPACITY;
use crate::text::{byte_offset, last_white_space, rfind_white_space, text_of_bytes};

verus! {

/// How far before the caret a band starts, in bytes, before it is moved to
/// a word boundary.
pub const BAND_REACH: usize = 50;

/// An owned byte string handed to the host.
pub struct MTString {
    pub bytes: Vec<u8>,
}

/// An input event as a host delivers it.
pub struct MTCaretEvent {
    /// The text of the field, expected to be UTF-8.
    pub text: Vec<u8>,
    pub caret: u32,
    pub timestamp_ms: u64,
    /// 0 for typing, 1 for a pause, 2 for a selection change; every other
    /// number counts as typing.
    pub event_kind: u32,
}

/// A snapshot as a host receives it.
#[derive(Debug, Copy, Clone, PartialEq, Eq, Structural)]
pub struct MTCaretSnapshot {
    pub primary: u32,
    pub caret: u32,
    pub text_len: u32,
    pub timestamp_ms: u64,
    pub blocked: bool,
    pub ime_active: bool,
}

/// A band of text before the caret.
#[derive(Debug, Copy, Clone, PartialEq, Eq, Structural)]
pub struct MTBandRange {
    pub start: u32,
    pub end: u32,
    pub valid: bool,
}

/// What the kind number of a host event stands for.
#[derive(Debug, Copy, Clone, PartialEq, Eq, Structural)]
pub enum HostSignal {
    /// An event for `update`.
    Event(EventKind),
    /// No event: time has passed, which is a matter for `flush`.
    Pause,
}

/// The meaning of a kind number: 1 is a pause, 2 a selection change, and 0
/// and every other number an input.
pub open spec fn signal_of(code: u32) -> HostSignal {
    if code == 1 {
        HostSignal::Pause
    } else if code == 2 {
        HostSignal::Event(EventKind::SelectionChange)
    } else {
        HostSignal::Event(EventKind::Input)
    }
}

/// The number under which hosts know a primary state. Typing, short pause,
/// long pause, active selection and blur are 0 to 4; the other states follow
/// from 5 on, so that no two states share a number.
pub open spec fn primary_code_of(s: CaretPrimaryState) -> u32 {
    match s {
        CaretPrimaryState::Typing => 0,
        CaretPrimaryState::ShortPause => 1,
        CaretPrimaryState::LongPause => 2,
        CaretPrimaryState::SelectionActive => 3,
        CaretPrimaryState::Blur => 4,
        CaretPrimaryState::ActiveIdle => 5,
        CaretPrimaryState::Pasted => 6,
        CaretPrimaryState::Cut => 7,
        CaretPrimaryState::DeleteBurst => 8,
        CaretPrimaryState::CaretJump => 9,
        CaretPrimaryState::ImeComposing => 10,
        CaretPrimaryState::Blocked => 11,
        CaretPrimaryState::UndoRedo => 12,
        CaretPrimaryState::Drop => 13,
        CaretPrimaryState::Autocorrect => 14,
    }
}

/// The record that a host receives for a snapshot.
pub open spec fn record_of(s: CaretSnapshot) -> MTCaretSnapshot {
    MTCaretSnapshot {
        primary: primary_code_of(s.primary),
        caret: s.caret,
        text_len: s.text_len,
        timestamp_ms: s.timestamp_ms,
        blocked: s.blocked,
        ime_active: s.ime_active,
    }
}

/// The records for the first `max_count` of `snaps`, in order.
pub open spec fn records_of(snaps: Seq<CaretSnapshot>, max_count: u32) -> Seq<MTCaretSnapshot> {
    Seq::new(
        if snaps.len() <= max_count {
            snaps.len()
        } else {
            max_count as nat
        },
        |i: int| record_of(snaps[i]),
    )
}

/// A length as the 32 bits of an event hold it: lengths beyond that stop at
/// the largest value.
pub open spec fn clamped_len(len: usize) -> u32 {
    if len <= u32::MAX {
        len as u32
    } else {
        u32::MAX
    }
}

/// The engine event for a host event of kind `kind`: the caret is a
/// collapsed selection, the text length is the number of bytes, and nothing
/// is known of modality, field, composition, blocking or input type.
pub open spec fn host_event(kind: EventKind, caret: u32, text_len: usize, timestamp_ms: u64)
    -> EventView {
    EventView {
        kind,
        timestamp_ms,
        caret,
        text_len: clamped_len(text_len),
        selection: SelectionFacet { collapsed: true, start: caret, end: caret },
        input_modality: InputModality::Unknown,
        field_kind: FieldKind::Other,
        ime_active: false,
        blocked: false,
        input_type: None,
    }
}

/// Where a band that ends at `end` starts before it is moved to a word
/// boundary.
pub open spec fn band_reach_start(end: usize) -> usize {
    if end > BAND_REACH {
        (end - BAND_REACH) as usize
    } else {
        0
    }
}

/// Where the band of `text` before the caret ends: at the caret, or at the
/// end of the text if the caret lies beyond it.
pub open spec fn band_end(caret: u32, len: usize) -> usize {
    if caret <= len {
        caret as usize
    } else {
        len
    }
}

/// Where the band starts, given the characters `before` the reach start
/// `from`: one byte after the start of the last white space in them, or at
/// `from` if they hold none.
pub open spec fn band_start(before: Seq<char>, from: usize) -> int {
    match last_white_space(before) {
        Some(k) => (byte_offset(before, k) + 1) as int,
        None => from as int,
    }
}

/// The version of the core.
pub fn core_version() -> (r: &'static str)
    ensures
        r@ == "0.4.0-alpha.0"@,
{
    "0.4.0-alpha.0"
}

impl MTString {
    /// The string that stands for "nothing": no bytes.
    pub fn empty() -> (r: Self)
        ensures
            r.bytes@ == Seq::<u8>::empty(),
    {
        MTString { bytes: Vec::new() }
    }

    /// The UTF-8 bytes of `text`.
    pub fn of_text(text: &str) -> (r: Self)
        ensures
            r.bytes@ == text.spec_bytes(),
    {
        MTString { bytes: text.as_bytes_vec() }
    }
}

/// Reads the kind number of a host event.
pub fn decode_signal(code: u32) -> (r: HostSignal)
    ensures
        r == signal_of(code),
{
    if code == 1 {
        HostSignal::Pause
    } else if code == 2 {
        HostSignal::Event(EventKind::SelectionChange)
    } else {
        HostSignal::Event(EventKind::Input)
    }
}

/// The number under which hosts know `s`.
pub fn primary_code(s: CaretPrimaryState) -> (r: u32)
    ensures
        r == primary_code_of(s),
{
    match s {
        CaretPrimaryState::Typing => 0,
        CaretPrimaryState::ShortPause => 1,
        CaretPrimaryState::LongPause => 2,
        CaretPrimaryState::SelectionActive => 3,
        CaretPrimaryState::Blur => 4,
        CaretPrimaryState::ActiveIdle => 5,
        CaretPrimaryState::Pasted => 6,
        CaretPrimaryState::Cut => 7,
        CaretPrimaryState::DeleteBurst => 8,
        CaretPrimaryState::CaretJump => 9,
        CaretPrimaryState::ImeComposing => 10,
        CaretPrimaryState::Blocked => 11,
        CaretPrimaryState::UndoRedo => 12,
        CaretPrimaryState::Drop => 13,
        CaretPrimaryState::Autocorrect => 14,
    }
}

/// No two primary states share a number.
pub proof fn lemma_primary_codes_distinct(a: CaretPrimaryState, b: CaretPrimaryState)
    ensures
        primary_code_of(a) == primary_code_of(b) <==> a == b,
        primary_code_of(a) <= 14,
{
}

/// The record for one snapshot.
pub fn snapshot_record(s: &CaretSnapshot) -> (r: MTCaretSnapshot)
    ensures
        r == record_of(*s),
{
    MTCaretSnapshot {
        primary: primary_code(s.primary),
        caret: s.caret,
        text_len: s.text_len,
        timestamp_ms: s.timestamp_ms,
        blocked: s.blocked,
        ime_active: s.ime_active,
    }
}

/// The records for the first `max_count` of `snaps`; the rest is left out.
pub fn export_snapshots(snaps: &Vec<CaretSnapshot>, max_count: u32) -> (out: Vec<MTCaretSnapshot>)
    ensures
        out@ == records_of(snaps@, max_count),
{
    let count: usize = if snaps.len() <= max_count as usize {
        snaps.len()
    } else {
        max_count as usize
    };
    let mut out: Vec<MTCaretSnapshot> = Vec::new();
    let mut i: usize = 0;
    while i < count
        invariant
            i <= count,
            count <= snaps@.len(),
            out@ == Seq::new(i as nat, |k: int| record_of(snaps@[k])),
        decreases count - i,
    {
        out.push(snapshot_record(&snaps[i]));
        i += 1;
        assert(out@ =~= Seq::new(i as nat, |k: int| record_of(snaps@[k])));
    }
    assert(out@ =~= records_of(snaps@, max_count));
    out
}

/// Builds the engine event for a host event of kind `kind`.
pub fn make_host_event(kind: EventKind, caret: u32, text_len: usize, timestamp_ms: u64) -> (r:
    CaretEvent)
    ensures
        r@ == host_event(kind, caret, text_len, timestamp_ms),
{
    let len: u32 = if text_len <= u32::MAX as usize {
        text_len as u32
    } else {
        u32::MAX
    };
    CaretEvent {
        kind,
        timestamp_ms,
        caret,
        text_len: len,
        selection: SelectionFacet { collapsed: true, start: caret, end: caret },
        input_modality: InputModality::Unknown,
        field_kind: FieldKind::Other,
        ime_active: false,
        blocked: false,
        input_type: None,
    }
}

/// Hands a host event to the engine and returns whether a snapshot was
/// emitted. An event whose text is not valid UTF-8 is rejected: the engine is
/// not touched and the answer is `false`. A pause is a flush at the event's
/// time; every other kind is an update with the event that `host_event`
/// describes.
pub fn apply_host_event(monitor: &mut CaretMonitor, event: &MTCaretEvent) -> (emitted: bool)
    ensures
        !valid_utf8(event.text@) ==> !emitted && final(monitor)@ == old(monitor)@,
        valid_utf8(event.text@) ==> match signal_of(event.event_kind) {
            HostSignal::Pause => final(monitor)@ == old(monitor)@.after_flush(event.timestamp_ms)
                && emitted == old(monitor)@.flush_emits(event.timestamp_ms),
            HostSignal::Event(kind) => {
                let ev = host_event(kind, event.caret, event.text@.len() as usize, event.timestamp_ms);
                final(monitor)@ == old(monitor)@.after_update(ev) && emitted == old(
                    monitor,
                )@.update_emits(ev)
            },
        },
{
    match text_of_bytes(event.text.as_slice()) {
        None => false,
        Some(_) => match decode_signal(event.event_kind) {
            HostSignal::Pause => monitor.flush(event.timestamp_ms) == 1,
            HostSignal::Event(kind) => monitor.update(
                make_host_event(kind, event.caret, event.text.len(), event.timestamp_ms),
            ),
        },
    }
}

/// Drains the engine's history into host records, up to `max_count` of them.
/// The history is empty afterwards, whatever `max_count` is.
pub fn take_snapshots(monitor: &mut CaretMonitor, max_count: u32) -> (out: Vec<MTCaretSnapshot>)
    ensures
        out@ == records_of(old(monitor)@.history, max_count),
        out@.len() <= RING_CAPACITY,
        final(monitor)@ == old(monitor)@.after_drain(),
{
    let drained = monitor.drain_snapshots();
    export_snapshots(&drained, max_count)
}

/// The last complete sentence of a text given as bytes, as bytes; no bytes
/// when the text is not valid UTF-8 or has no such sentence.
pub fn extract_fragment_bytes(text: &[u8]) -> (r: MTString)
    ensures
        r.bytes@ == (if valid_utf8(text@) {
            match fragment_of(unicode_sentences_of(decode_utf8(text@))) {
                Some(f) => vstd::utf8::encode_utf8(f),
                None => Seq::<u8>::empty(),
            }
        } else {
            Seq::<u8>::empty()
        }),
{
    match text_of_bytes(text) {
        None => MTString::empty(),
        Some(t) => {
            proof {
                vstd::utf8::encode_utf8_decode_utf8(t@);
            }
            match FragmentExtractor::new().extract_fragment(t) {
                Some(f) => MTString::of_text(f),
                None => MTString::empty(),
            }
        },
    }
}

/// The band of `text` before the caret: it ends at the caret and starts up
/// to `BAND_REACH` bytes before it, moved back to just after the last white
/// space before that point. It is valid when it is not empty. The point
/// `BAND_REACH` bytes before the end must fall between two characters.
pub fn compute_band(text: &str, caret: u32) -> (r: MTBandRange)
    requires
        is_char_boundary(
            text.spec_bytes(),
            band_reach_start(band_end(caret, text.len())) as int,
        ),
    ensures
        r.end == band_end(caret, text.len()),
        r.start == band_start(
            decode_utf8(text.spec_bytes().subrange(0, band_reach_start(r.end as usize) as int)),
            band_reach_start(r.end as usize),
        ),
        r.valid == (r.start < r.end),
{
    let len: usize = text.len();
    let caret_pos: usize = if caret as usize <= len {
        caret as usize
    } else {
        len
    };
    let from: usize = if caret_pos > BAND_REACH {
        caret_pos - BAND_REACH
    } else {
        0
    };
    let (before, _) = text.split_at(from);
    proof {
        vstd::utf8::encode_utf8_decode_utf8(before@);
        assert(before.spec_bytes() =~= text.spec_bytes().subrange(0, from as int));
        assert(before.spec_bytes().len() == from);
    }
    let start: usize = match rfind_white_space(before) {
        Some(i) => i + 1,
        None => from,
    };
    MTBandRange { start: start as u32, end: caret_pos as u32, valid: start < caret_pos }
}

/// Whether a tone target given as bytes is accepted: it is when it is valid
/// UTF-8. The setting itself is not stored.
pub fn set_tone(enabled: bool, target: &[u8]) -> (accepted: bool)
    ensures
        accepted == valid_utf8(target@),
{
    text_of_bytes(target).is_some()
}

} // verus!
