use jnv::debounce::{Debounce, DebounceState};
use jnv::generation::GenerationCounter;
use jnv::loader::{load_all, LoaderState};
use jnv::spinner::{SpinnerCoordinator, SpinnerOp};

#[test]
fn debounce_burst_fires_once_with_latest_payload() {
    let mut d: Debounce<String> = Debounce::new(600);
    d.schedule("f".to_string(), 0);
    d.schedule("fo".to_string(), 100);
    d.schedule("foo".to_string(), 200);
    // before the last deadline nothing fires
    assert_eq!(d.poll(799), None);
    // at the deadline the latest payload fires, exactly once
    assert_eq!(d.poll(800), Some("foo".to_string()));
    assert_eq!(d.poll(5000), None);
}

#[test]
fn debounce_two_instances_are_independent() {
    let mut query: Debounce<String> = Debounce::new(600);
    let mut resize: Debounce<(u16, u16)> = Debounce::new(200);
    query.schedule("q".to_string(), 0);
    resize.schedule((80, 24), 0);
    // a resize burst must not delay the pending query trigger
    resize.schedule((100, 30), 100);
    resize.schedule((120, 40), 150);
    assert_eq!(resize.poll(350), Some((120, 40)));
    assert_eq!(query.poll(350), None);
    assert_eq!(query.poll(600), Some("q".to_string()));
}

#[test]
fn debounce_schedule_after_teardown_is_noop() {
    let mut d: Debounce<u32> = Debounce::new(100);
    d.tear_down();
    d.schedule(7, 0);
    assert!(matches!(d.state, DebounceState::Idle));
    assert_eq!(d.poll(1000), None);
}

#[test]
fn debounce_refire_needs_new_schedule() {
    let mut d: Debounce<u32> = Debounce::new(100);
    d.schedule(1, 0);
    assert_eq!(d.poll(100), Some(1));
    d.schedule(2, 200);
    assert_eq!(d.poll(299), None);
    assert_eq!(d.poll(300), Some(2));
}

#[test]
fn spinner_two_pairs_end_inactive() {
    let mut s = SpinnerCoordinator::new();
    s.mark_busy();
    s.mark_busy();
    assert!(s.active());
    s.mark_idle();
    assert!(s.active());
    s.mark_idle();
    assert!(!s.active());
}

#[test]
fn spinner_idle_never_goes_negative() {
    let mut s = SpinnerCoordinator::new();
    s.mark_idle();
    s.mark_idle();
    assert_eq!(s.busy_units, 0);
    s.mark_busy();
    assert!(s.active());
    s.mark_idle();
    assert!(!s.active());
}

#[test]
fn spinner_interleaved_pairs_via_run_ops() {
    let mut s = SpinnerCoordinator::new();
    let ops = vec![
        SpinnerOp::Busy,
        SpinnerOp::Idle,
        SpinnerOp::Busy,
        SpinnerOp::Idle,
    ];
    s.run_ops(&ops);
    assert_eq!(s.busy_units, 0);
    assert!(!s.active());
}

#[test]
fn spinner_phase_advances_only_while_active() {
    let mut s = SpinnerCoordinator::new();
    s.tick();
    assert_eq!(s.phase, 0);
    s.mark_busy();
    s.tick();
    s.tick();
    assert_eq!(s.phase, 2);
    s.mark_idle();
    s.tick();
    assert_eq!(s.phase, 2);
    let state = s.state();
    assert!(!state.active);
    assert_eq!(state.phase, 2);
}

#[test]
fn generation_tokens_expire_on_new_generation() {
    let mut counter = GenerationCounter::new();
    let first = counter.begin_generation();
    assert!(first.is_current(&counter));
    let second = counter.begin_generation();
    assert!(!first.is_current(&counter));
    assert!(second.is_current(&counter));
}

#[test]
fn loader_window_count_is_ceiling() {
    // 120,000 candidates scanned in windows of 50,000: exactly 3 windows
    let candidates: Vec<String> = (0..120_000).map(|i| format!("c{}", i)).collect();
    let counter = GenerationCounter::new();
    let iterations = load_all(&candidates, &"c".to_string(), 50_000, 100, &counter);
    assert_eq!(iterations, 3);
}

#[test]
fn loader_chunk_is_capped_and_tagged() {
    let candidates: Vec<String> = (0..120_000).map(|i| format!("c{}", i)).collect();
    let counter = GenerationCounter::new();
    let mut state = LoaderState::start(counter.current);
    let chunk = state
        .load_step(&candidates, &"c".to_string(), 50_000, 100, &counter)
        .expect("first window must yield a chunk");
    // at most search_result_chunk_size matches per chunk
    assert_eq!(chunk.items.len(), 100);
    assert_eq!(chunk.generation, counter.current);
    assert!(chunk.more_available);
    assert!(!state.finished);
    assert_eq!(state.offset, 50_000);
}

#[test]
fn loader_superseded_mid_scan_emits_nothing_further() {
    let candidates: Vec<String> = (0..120_000).map(|i| format!("c{}", i)).collect();
    let mut counter = GenerationCounter::new();
    let mut state = LoaderState::start(counter.current);
    let first = state.load_step(&candidates, &"c".to_string(), 50_000, 100, &counter);
    assert!(first.is_some());
    // a new keystroke starts a new generation: the loader terminates at the
    // next window boundary and emits nothing further
    counter.begin_generation();
    let second = state.load_step(&candidates, &"c".to_string(), 50_000, 100, &counter);
    assert!(second.is_none());
    assert!(state.finished);
    let third = state.load_step(&candidates, &"c".to_string(), 50_000, 100, &counter);
    assert!(third.is_none());
}

#[test]
fn loader_keeps_scan_order_and_filters_by_prefix() {
    let candidates: Vec<String> = vec![
        "apple".to_string(),
        "banana".to_string(),
        "apricot".to_string(),
        "cherry".to_string(),
        "approve".to_string(),
    ];
    let counter = GenerationCounter::new();
    let mut state = LoaderState::start(counter.current);
    let chunk = state
        .load_step(&candidates, &"ap".to_string(), 10, 10, &counter)
        .expect("one window covers the whole source");
    assert_eq!(chunk.items, vec!["apple", "apricot", "approve"]);
    assert!(!chunk.more_available);
    assert!(state.finished);
}

#[test]
fn loader_result_cap_truncates_within_window() {
    let candidates: Vec<String> = vec![
        "aa".to_string(),
        "ab".to_string(),
        "ac".to_string(),
        "ad".to_string(),
    ];
    let counter = GenerationCounter::new();
    let mut state = LoaderState::start(counter.current);
    let chunk = state
        .load_step(&candidates, &"a".to_string(), 10, 2, &counter)
        .expect("one window");
    assert_eq!(chunk.items, vec!["aa", "ab"]);
}

#[test]
fn loader_empty_source_finishes_in_one_step() {
    let candidates: Vec<String> = Vec::new();
    let counter = GenerationCounter::new();
    let iterations = load_all(&candidates, &"x".to_string(), 10, 10, &counter);
    assert_eq!(iterations, 0);
}

#[test]
fn debounce_burst_helper_fires_with_last_payload() {
    let mut d: Debounce<u32> = Debounce::new(600);
    let fired = jnv::debounce::schedule_burst(&mut d, vec![(0, 1), (100, 2), (250, 3)]);
    assert_eq!(fired, Some(3));
    assert!(matches!(d.state, DebounceState::Idle));
}
