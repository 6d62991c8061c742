use mind_type_core::active_region::{ActiveRegion, ActiveRegionPolicy};
use mind_type_core::diff::{DiffCalculator, DiffOp};
use mind_type_core::diffusion::DiffusionController;
use mind_type_core::engine::{Engine, EngineConfig};
use mind_type_core::greet;
use mind_type_core::language_detection::{detect_language, Language};
use mind_type_core::llm::{StubStream, TokenStream};
use mind_type_core::merge::Merger;
use mind_type_core::pause_timer::{idle_exceeds, Moment, PauseTimer};
use mind_type_core::scheduler::{is_pause, sweep_decision, SweepScheduler};
use mind_type_core::tapestry::{Span, Tapestry};

#[test]
fn test_merger() {
    let mut merger = Merger::new("Initial text.");
    merger.apply_token(&"Here".to_string());
    merger.apply_token(&"is".to_string());
    merger.apply_token(&"more.".to_string());

    assert_eq!(merger.get_result(), "Initial text. Here is more.");
}

#[test]
fn merger_puts_no_space_before_the_first_token() {
    let mut merger = Merger::new("");
    merger.apply_token(&"Here".to_string());
    assert_eq!(merger.get_result(), "Here");
    merger.apply_token(&"".to_string());
    assert_eq!(merger.get_result(), "Here ");
}

#[test]
fn test_stub_stream() {
    let mut stream = StubStream::new("This is a test.");
    assert_eq!(stream.next_token(), Some("This".to_string()));
    assert_eq!(stream.next_token(), Some("is".to_string()));
    assert_eq!(stream.next_token(), Some("a".to_string()));
    assert_eq!(stream.next_token(), Some("test.".to_string()));
    assert_eq!(stream.next_token(), None);
    assert_eq!(stream.next_token(), None);
}

#[test]
fn stub_stream_splits_at_any_white_space() {
    let mut stream = StubStream::new("  a\t\tb\u{3000}c\n");
    assert_eq!(stream.next_token(), Some("a".to_string()));
    assert_eq!(stream.next_token(), Some("b".to_string()));
    assert_eq!(stream.next_token(), Some("c".to_string()));
    assert_eq!(stream.next_token(), None);
    let mut empty = StubStream::new(" \n ");
    assert_eq!(empty.next_token(), None);
}

#[test]
fn active_region_bounds_and_length() {
    let r = ActiveRegion::new(3, 9, 2);
    assert_eq!(r, ActiveRegion { start: 3, end: 9, word_count: 2 });
    assert!(r.contains(3));
    assert!(r.contains(9));
    assert!(!r.contains(2));
    assert!(!r.contains(10));
    assert_eq!(r.length(), 6);
    assert_eq!(ActiveRegion::new(9, 3, 0).length(), 0);
}

#[test]
fn calculate_region_reaches_fifty_bytes_each_way() {
    let policy = ActiveRegionPolicy::default();
    assert_eq!(policy.target_words, 20);
    assert_eq!(ActiveRegionPolicy::new(7).target_words, 7);
    let text = "one two three";
    let r = policy.calculate_region(text, 4);
    assert_eq!(r, ActiveRegion { start: 0, end: 13, word_count: 3 });
    // 30 words of four bytes each, 120 bytes in all.
    let long = "abc ".repeat(30);
    let r = policy.calculate_region(&long, 60);
    assert_eq!(r.start, 10);
    assert_eq!(r.end, 110);
    // From byte 10 ("c abc ...") to byte 110: one cut word, 24 whole, one cut.
    assert_eq!(r.word_count, 26);
    let r = policy.calculate_region(&long, 1000);
    assert_eq!(r, ActiveRegion { start: 120, end: 120, word_count: 0 });
    let r = policy.calculate_region(&long, usize::MAX);
    assert_eq!(r, ActiveRegion { start: 120, end: 120, word_count: 0 });
    let r = policy.calculate_region("", 0);
    assert_eq!(r, ActiveRegion { start: 0, end: 0, word_count: 0 });
}

#[test]
fn diff_replaces_the_whole_text_or_keeps_it() {
    assert_eq!(
        DiffCalculator::calculate_diff("teh cat", "the cat"),
        vec![DiffOp::Replace("teh cat".to_string(), "the cat".to_string())]
    );
    assert_eq!(
        DiffCalculator::calculate_diff("same", "same"),
        vec![DiffOp::Keep("same".to_string())]
    );
    assert_eq!(DiffCalculator::calculate_diff("", ""), vec![DiffOp::Keep(String::new())]);
    let ops = vec![DiffOp::Insert("x".to_string()), DiffOp::Delete("y".to_string())];
    assert_eq!(DiffCalculator::apply_diff("text", &ops), "text");
    assert_eq!(DiffCalculator::apply_diff("", &[]), "");
}

#[test]
fn diffusion_controller_tracks_region_and_processing() {
    let mut c = DiffusionController::new();
    assert_eq!(c.active_region, (0, 0));
    assert!(!c.is_processing);
    c.update_region(4, 17);
    assert_eq!(c.active_region, (4, 17));
    assert!(!c.is_processing);
    c.start_processing();
    assert!(c.is_processing);
    assert_eq!(c.active_region, (4, 17));
    c.stop_processing();
    assert!(!c.is_processing);
    assert_eq!(DiffusionController::default().active_region, (0, 0));
}

#[test]
fn engine_tick_is_callable() {
    let mut e = Engine::new(EngineConfig { short_pause_ms: 300, long_pause_ms: 2000 });
    e.tick("some text", 4);
    e.tick("", 0);
}

#[test]
fn language_codes() {
    assert_eq!(Language::English.code(), "en");
    assert_eq!(Language::Spanish.code(), "es");
    assert_eq!(Language::French.code(), "fr");
    assert_eq!(Language::German.code(), "de");
    assert_eq!(Language::Unknown.code(), "unknown");
    assert_eq!(detect_language(""), Language::Unknown);
    assert_eq!(detect_language("hola"), Language::English);
}

#[test]
fn tapestry_keeps_spans_in_order() {
    let mut t = Tapestry::new();
    assert!(t.validated.is_empty());
    t.push(Span { start: 0, end: 4, applied_at_ms: 10 });
    t.push(Span { start: 5, end: 9, applied_at_ms: 20 });
    assert_eq!(t.validated.len(), 2);
    assert_eq!(t.validated[0].end, 4);
    assert_eq!(t.validated[1].applied_at_ms, 20);
    assert!(Tapestry::default().validated.is_empty());
}

#[test]
fn greeting_names_the_caller() {
    assert_eq!(greet("Ada"), "Hello from Rust, Ada!");
    assert_eq!(greet(""), "Hello from Rust, !");
}

#[test]
fn pause_decision_is_reached_at_the_threshold() {
    assert!(is_pause(500, 500));
    assert!(is_pause(501, 500));
    assert!(!is_pause(499, 500));
    assert!(is_pause(0, 0));
    assert!(!is_pause(u64::MAX as u128 - 1, u64::MAX));
    assert!(is_pause(u128::MAX, u64::MAX));
}

#[test]
fn sweep_runs_only_when_active_and_not_paused() {
    assert!(sweep_decision(true, false));
    assert!(!sweep_decision(true, true));
    assert!(!sweep_decision(false, false));
    assert!(!sweep_decision(false, true));
}

#[test]
fn scheduler_start_stop_and_tick() {
    let mut s = SweepScheduler::default();
    assert_eq!(s.pause_threshold_ms, 500);
    assert!(!s.is_active);
    assert!(!s.tick());
    s.start();
    assert!(s.is_active);
    // Half a second has not passed since start.
    assert!(!s.is_paused());
    assert!(s.tick());
    s.stop();
    assert!(!s.is_active);
    assert!(!s.tick());
    let mut z = SweepScheduler::new(0);
    assert!(z.is_paused());
    z.start();
    assert!(!z.tick());
    z.record_activity();
    assert!(z.is_paused());
}

#[test]
fn idle_time_is_compared_to_the_nanosecond() {
    let at = |secs: i64, nanos: u32| Moment { secs, nanos };
    assert!(!idle_exceeds(at(10, 0), at(9, 500_000_000), 500));
    assert!(idle_exceeds(at(10, 1), at(9, 500_000_000), 500));
    assert!(idle_exceeds(at(10, 0), at(9, 499_999_999), 500));
    assert!(!idle_exceeds(at(9, 0), at(10, 0), 0));
    assert!(!idle_exceeds(at(10, 0), at(10, 0), 0));
    assert!(idle_exceeds(at(10, 1), at(10, 0), 0));
    assert!(!idle_exceeds(at(1_000_000, 0), at(0, 0), u64::MAX));
    assert!(idle_exceeds(at(i64::MAX, 999_999_999), at(i64::MIN, 0), u64::MAX));
    assert!(!idle_exceeds(at(i64::MIN, 0), at(i64::MAX, 999_999_999), 0));
}

#[test]
fn pause_timer_follows_the_clock() {
    let mut t = PauseTimer::new(3_600_000);
    assert!(!t.is_paused());
    t.record_activity();
    assert!(!t.is_paused());
    // Time does not run backwards: a moment later some time has passed.
    let z = PauseTimer::new(0);
    let begun = std::time::Instant::now();
    while begun.elapsed().as_millis() < 2 {}
    assert!(z.is_paused());
}
