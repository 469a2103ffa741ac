use exiftool_rs_wrapper::stream::CacheCounters;
use exiftool_rs_wrapper::{AsyncStreamOptions, PerformanceStats, ProgressTracker};

#[test]
fn test_performance_stats() {
    let mut stats = PerformanceStats::default();

    stats.record(true, 1000);
    stats.record(true, 2000);
    stats.record(false, 500);

    assert_eq!(stats.total_operations, 3);
    assert_eq!(stats.successful_operations, 2);
    assert_eq!(stats.failed_operations, 1);
    assert_eq!(stats.avg_time_us(), 1166);
}

#[test]
fn stats_without_operations() {
    let stats = PerformanceStats::new();
    assert_eq!(stats.avg_time_us(), 0);
}

#[test]
fn stats_counters_wrap() {
    let mut stats = PerformanceStats::new();
    stats.total_time_us = u64::MAX;
    stats.record(true, 2);
    assert_eq!(stats.total_time_us, 1);
}

#[test]
fn progress_tracker_counts_and_cancels() {
    let mut t = ProgressTracker::new(100);
    assert_eq!(t.update(25), (25, 100));
    assert_eq!(t.processed(), 25);
    assert_eq!(t.update(50), (75, 100));
    assert_eq!(t.total(), 100);
    t.answer(true);
    assert!(!t.is_cancelled());
    t.answer(false);
    assert!(t.is_cancelled());
    t.answer(true);
    assert!(t.is_cancelled());
}

#[test]
fn async_stream_defaults() {
    let o = AsyncStreamOptions::default();
    assert_eq!(o.buffer_size, 64 * 1024);
    assert!(o.enable_progress);
    assert_eq!(o.progress_interval_ms, 100);
    let o = o.buffer_size(10).enable_progress(false).progress_interval_ms(5);
    assert_eq!((o.buffer_size, o.enable_progress, o.progress_interval_ms), (10, false, 5));
}

#[test]
fn cache_counters() {
    let mut c = CacheCounters::new();
    c.count(true);
    c.count(false);
    c.count(true);
    assert_eq!((c.hits, c.misses), (2, 1));
    c.reset();
    assert_eq!((c.hits, c.misses), (0, 0));
}

#[test]
fn test_progress_tracker() {
    let mut tracker = ProgressTracker::new(100);

    tracker.update(25);
    assert_eq!(tracker.processed(), 25);

    tracker.update(50);
    assert_eq!(tracker.processed(), 75);
}
